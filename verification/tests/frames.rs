use raycaster::data::{GameData, PlayerData, Vec2};
use raycaster::fixed::Fixed;
use raycaster::map::GridMap;
use raycaster::projection::Color;
use raycaster::rendering::{
    check_textures, render_column, render_view, render_view_canvas, write_pixel, DrawCommand,
    RenderError,
};

fn n(v: f64) -> Fixed {
    Fixed::from_raw((v * 65536.0).floor() as i64)
}

fn v2(x: f64, y: f64) -> Vec2<Fixed> {
    Vec2::new(n(x), n(y))
}

fn bare_room() -> GridMap {
    let mut rows = Vec::new();
    for x in 0..10 {
        let mut column = Vec::new();
        for y in 0..10 {
            let edge = x == 0 || y == 0 || x == 9 || y == 9;
            column.push(if edge { 1u8 } else { 0u8 });
        }
        rows.push(column);
    }
    GridMap::new(rows).unwrap()
}

fn pillared_room() -> GridMap {
    let rows: Vec<Vec<u8>> = vec![
        vec![1, 1, 1, 1, 1, 1, 1, 1, 1, 1],
        vec![1, 0, 0, 0, 0, 0, 0, 0, 0, 1],
        vec![1, 0, 0, 0, 0, 0, 0, 0, 0, 1],
        vec![1, 0, 0, 0, 0, 0, 3, 3, 3, 1],
        vec![1, 0, 0, 0, 0, 0, 0, 0, 0, 1],
        vec![1, 0, 4, 0, 0, 0, 0, 0, 0, 1],
        vec![1, 0, 4, 0, 0, 0, 2, 2, 0, 1],
        vec![1, 0, 4, 0, 0, 0, 0, 2, 0, 1],
        vec![1, 0, 0, 0, 0, 0, 0, 0, 0, 1],
        vec![1, 1, 1, 1, 1, 1, 1, 1, 1, 1],
    ];
    GridMap::new(rows).unwrap()
}

fn checks(width: u32, height: u32) -> Vec<u8> {
    let mut pixels = Vec::new();
    for y in 0..height {
        for x in 0..width {
            let v = (16 * x + y) as u8;
            pixels.push(v);
            pixels.push(100 + v);
            pixels.push(200 - v);
            pixels.push(255);
        }
    }
    pixels
}

fn small_screen(textures: usize) -> GameData {
    let mut game = GameData::new(false, false, 4, 8);
    for _ in 0..textures {
        game.add_texture(4, 4, checks(4, 4)).unwrap();
    }
    game
}

fn looking_west() -> PlayerData {
    PlayerData::new(v2(1.5, 1.5), v2(-1.0, 0.0), v2(0.0, 0.66))
}

fn looking_down_y(x: f64, y: f64) -> PlayerData {
    PlayerData::new(v2(x, y), v2(0.0, -1.0), v2(-0.66, 0.0))
}

fn point(x: i64, y: i64, r: u8, g: u8, b: u8) -> DrawCommand {
    DrawCommand::Point { x, y, color: Color { r, g, b, a: 255 } }
}

fn line(x: i64, y_start: i64, y_end: i64, r: u8, g: u8, b: u8, a: u8) -> DrawCommand {
    DrawCommand::Line { x, y_start, y_end, color: Color { r, g, b, a } }
}

#[test]
fn flat_frame_is_one_line_for_each_column() {
    let mut player = looking_west();
    player.ver = 3;
    let frame = render_view_canvas(&player, &small_screen(0), &bare_room(), false).unwrap();
    assert_eq!(
        frame,
        vec![
            line(0, -3, 4, 255, 0, 0, 255),
            line(1, -3, 4, 255, 0, 0, 255),
            line(2, -3, 4, 255, 0, 0, 255),
            line(3, -3, 4, 255, 0, 0, 255),
        ]
    );
}

#[test]
fn flat_frame_shades_by_material_and_side() {
    let mut player = looking_down_y(4.5, 4.5);
    player.ver = 1;
    let frame = render_view_canvas(&player, &small_screen(0), &pillared_room(), false).unwrap();
    assert_eq!(
        frame,
        vec![
            line(0, 1, 5, 64, 64, 64, 127),
            line(1, 1, 5, 128, 128, 128, 255),
            line(2, 2, 4, 127, 0, 0, 127),
            line(3, 2, 4, 127, 0, 0, 127),
        ]
    );
}

#[test]
fn textured_frame_is_a_strip_for_each_column() {
    let frame = render_view_canvas(&looking_west(), &small_screen(1), &bare_room(), true).unwrap();
    assert_eq!(frame.len(), 28);
    let mut want = Vec::new();
    for (x, low, high) in [(0i64, 1u8, 2u8), (1, 17, 18), (2, 33, 34), (3, 33, 34)] {
        for row in 0..7 {
            let v = if row < 4 { low } else { high };
            want.push(point(x, row, v, 100 + v, 200 - v));
        }
    }
    assert_eq!(frame, want);
}

#[test]
fn textured_frame_darkens_faces_along_the_y_axis() {
    let mut player = looking_down_y(1.5, 1.5);
    player.ver = -2;
    let frame = render_view_canvas(&player, &small_screen(1), &bare_room(), true).unwrap();
    let mut want = Vec::new();
    for (x, low, high) in [
        (0i64, (24u8, 74u8, 75u8), (25u8, 75u8, 75u8)),
        (1, (16, 66, 83), (17, 67, 83)),
        (2, (16, 66, 83), (17, 67, 83)),
        (3, (8, 58, 91), (9, 59, 91)),
    ] {
        for row in 0..7 {
            let c = if row < 4 { low } else { high };
            want.push(point(x, row + 2, c.0, c.1, c.2));
        }
    }
    assert_eq!(frame, want);
}

#[test]
fn a_far_wall_takes_few_rows() {
    let frame =
        render_view_canvas(&looking_down_y(4.5, 4.5), &small_screen(1), &bare_room(), true).unwrap();
    assert_eq!(
        frame,
        vec![
            point(0, 3, 24, 74, 76),
            point(0, 4, 25, 75, 75),
            point(1, 3, 16, 66, 84),
            point(1, 4, 17, 67, 83),
            point(2, 3, 16, 66, 84),
            point(2, 4, 17, 67, 83),
            point(3, 3, 8, 58, 92),
            point(3, 4, 9, 59, 91),
        ]
    );
}

#[test]
fn both_modes_darken_the_same_face() {
    let game = small_screen(1);
    let map = bare_room();
    // at equal distance: an x crossing looking west, a y crossing looking down y
    let mut brightness = Vec::new();
    for player in [looking_west(), looking_down_y(1.5, 1.5)] {
        for textured in [false, true] {
            let frame = render_view_canvas(&player, &game, &map, textured).unwrap();
            let first = frame.iter().find(|c| match c {
                DrawCommand::Line { x, .. } => *x == 2,
                DrawCommand::Point { x, .. } => *x == 2,
            });
            let color = match first.unwrap() {
                DrawCommand::Line { color, .. } => *color,
                DrawCommand::Point { color, .. } => *color,
            };
            brightness.push(color.r as u32 + color.g as u32 + color.b as u32);
        }
    }
    // flat x, textured x, flat y, textured y
    assert!(brightness[2] < brightness[0]);
    assert!(brightness[3] < brightness[1]);
    assert_eq!(brightness, vec![255, 333, 127, 165]);
}

#[test]
fn textured_frame_needs_a_texture_for_every_material() {
    let player = looking_west();
    assert_eq!(
        render_view_canvas(&player, &small_screen(0), &bare_room(), true),
        Err(RenderError::MissingTexture)
    );
    assert_eq!(
        render_view_canvas(&player, &small_screen(3), &pillared_room(), true),
        Err(RenderError::MissingTexture)
    );
    assert!(render_view_canvas(&player, &small_screen(4), &pillared_room(), true).is_ok());
    assert!(render_view_canvas(&player, &small_screen(0), &pillared_room(), false).is_ok());
}

#[test]
fn a_player_in_the_wall_sees_nothing() {
    let player = PlayerData::new(v2(0.5, 1.5), v2(-1.0, 0.0), v2(0.0, 0.66));
    assert_eq!(render_view_canvas(&player, &small_screen(1), &bare_room(), true), Ok(Vec::new()));
    assert_eq!(render_view_canvas(&player, &small_screen(1), &bare_room(), false), Ok(Vec::new()));
}

#[test]
fn a_column_without_a_direction_stays_empty() {
    // heading and plane cancel out in column 0, where the plane counts -1
    let player = PlayerData::new(v2(1.5, 1.5), v2(0.0, 0.5), v2(0.0, 0.5));
    let frame = render_view_canvas(&player, &small_screen(0), &bare_room(), false).unwrap();
    assert_eq!(frame.len(), 3);
    assert!(matches!(frame[0], DrawCommand::Line { x: 1, .. }));
}

#[test]
fn a_screen_without_columns_or_rows() {
    let mut game = small_screen(1);
    game.update_sizes((0, 8));
    assert_eq!(render_view_canvas(&looking_west(), &game, &bare_room(), true), Ok(Vec::new()));
    game.update_sizes((4, 0));
    assert_eq!(render_view_canvas(&looking_west(), &game, &bare_room(), true), Ok(Vec::new()));
    let lines = render_view_canvas(&looking_west(), &game, &bare_room(), false).unwrap();
    assert_eq!(lines.len(), 4);
    assert_eq!(lines[0], line(0, 0, 0, 255, 0, 0, 255));
}

#[test]
fn columns_are_appended() {
    let mut out = vec![point(9, 9, 1, 2, 3)];
    render_column(&looking_west(), &small_screen(0), &bare_room(), false, 2, &mut out);
    assert_eq!(out, vec![point(9, 9, 1, 2, 3), line(2, 0, 7, 255, 0, 0, 255)]);
}

#[test]
fn pixels_are_written_where_they_belong() {
    let mut buffer = vec![0u8; 32];
    let c = Color { r: 1, g: 2, b: 3, a: 4 };
    write_pixel(&mut buffer, 16, 2, 1, c);
    let mut want = vec![0u8; 32];
    want[24..28].copy_from_slice(&[1, 2, 3, 4]);
    assert_eq!(buffer, want);
    write_pixel(&mut buffer, 16, 0, 0, c);
    want[0..4].copy_from_slice(&[1, 2, 3, 4]);
    assert_eq!(buffer, want);
    // a pitch wider than the pixels of a row
    let mut wide = vec![0u8; 20];
    write_pixel(&mut wide, 10, 1, 1, c);
    assert_eq!(&wide[14..18], &[1, 2, 3, 4]);
}

#[test]
fn pixels_off_the_buffer_are_left_out() {
    let mut buffer = vec![7u8; 32];
    let c = Color { r: 1, g: 2, b: 3, a: 4 };
    for (x, y) in [(-1i64, 0i64), (0, -1), (4, 0), (0, 2), (3, 2), (i64::MAX, 0), (0, i64::MAX)] {
        write_pixel(&mut buffer, 16, x, y, c);
    }
    write_pixel(&mut buffer, 0, 0, 0, c);
    write_pixel(&mut buffer, 3, 0, 0, c);
    write_pixel(&mut buffer, usize::MAX, 0, 1, c);
    assert_eq!(buffer, vec![7u8; 32]);
    let mut short = vec![7u8; 31];
    write_pixel(&mut short, 16, 3, 1, c);
    assert_eq!(short, vec![7u8; 31]);
}

#[test]
fn frame_in_a_buffer() {
    let mut buffer = vec![0u8; 8 * 16];
    assert_eq!(render_view(&looking_west(), &mut buffer, 16, &small_screen(1), &bare_room()), Ok(()));
    let mut want = vec![0u8; 8 * 16];
    for (x, low, high) in [(0usize, 1u8, 2u8), (1, 17, 18), (2, 33, 34), (3, 33, 34)] {
        for row in 0..7usize {
            let v = if row < 4 { low } else { high };
            let o = row * 16 + x * 4;
            want[o..o + 4].copy_from_slice(&[v, 100 + v, 200 - v, 255]);
        }
    }
    assert_eq!(buffer, want);
}

#[test]
fn frame_in_a_buffer_with_a_tilted_view() {
    let mut player = looking_down_y(4.5, 4.5);
    player.ver = 4;
    let mut buffer = vec![9u8; 8 * 16];
    assert_eq!(render_view(&player, &mut buffer, 16, &small_screen(1), &bare_room()), Ok(()));
    // rows 3 and 4 move up to rows -1 and 0: only the second is in the buffer
    let mut want = vec![9u8; 8 * 16];
    want[0..4].copy_from_slice(&[25, 75, 75, 255]);
    want[4..8].copy_from_slice(&[17, 67, 83, 255]);
    want[8..12].copy_from_slice(&[17, 67, 83, 255]);
    want[12..16].copy_from_slice(&[9, 59, 91, 255]);
    assert_eq!(buffer, want);
}

#[test]
fn a_missing_texture_leaves_the_buffer_alone() {
    let mut buffer = vec![5u8; 8 * 16];
    assert_eq!(
        render_view(&looking_west(), &mut buffer, 16, &small_screen(0), &bare_room()),
        Err(RenderError::MissingTexture)
    );
    assert_eq!(buffer, vec![5u8; 8 * 16]);
}

#[test]
fn textures_are_counted_against_the_highest_material() {
    assert_eq!(check_textures(&small_screen(0), &bare_room()), Err(RenderError::MissingTexture));
    assert_eq!(check_textures(&small_screen(1), &bare_room()), Ok(()));
    assert_eq!(check_textures(&small_screen(3), &pillared_room()), Err(RenderError::MissingTexture));
    assert_eq!(check_textures(&small_screen(4), &pillared_room()), Ok(()));
    assert_eq!(check_textures(&small_screen(5), &pillared_room()), Ok(()));
}
