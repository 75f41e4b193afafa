//! Rendering a frame: one ray, one wall and one strip of pixels for each
//! column of the screen.
//!
//! Nothing is drawn here.  A frame is a sequence of drawing commands for a
//! canvas, or a sequence of bytes written into a pixel buffer; whoever owns
//! the window carries them out.

use crate::camera::{ray_direction, ray_direction_for_column};
use crate::data::{GameData, PlayerData};
use crate::map::GridMap;
use crate::projection::{
    flat_shaded, palette, palette_of, project, sample, sampled, shade_flat, shade_texture,
    span_of, texture_column, texture_row, texture_shaded, texture_x, texture_y, wall_top, Color,
};
use crate::raycast::{cast, cast_spec, RayHit};
use vstd::prelude::*;

verus! {

/// One thing to draw.
#[derive(Clone, Copy, Debug, PartialEq, Eq, Structural)]
pub enum DrawCommand {
    /// A vertical line in column `x` from row `y_start` to row `y_end`,
    /// both included.
    Line { x: i64, y_start: i64, y_end: i64, color: Color },
    /// The pixel in column `x` of row `y`.
    Point { x: i64, y: i64, color: Color },
}

/// Why a frame was not rendered.
#[derive(Clone, Copy, Debug, PartialEq, Eq, Structural)]
pub enum RenderError {
    /// The map holds a material for which no texture was loaded.
    MissingTexture,
}

/// Whether there is a texture for every material up to `top`.
pub open spec fn textures_suffice(top: int, game: GameData) -> bool {
    top <= game.textures@.len()
}

/// The line that the flat mode draws in column `x` for a hit.  The vertical
/// look of the player moves both ends of it.
pub open spec fn flat_line(player: PlayerData, game: GameData, hit: RayHit, x: int) -> DrawCommand {
    let span = span_of(game.height as int, hit.perp_dist@);
    DrawCommand::Line {
        x: x as i64,
        y_start: (span.draw_start - player.ver) as i64,
        y_end: (span.draw_end - player.ver) as i64,
        color: flat_shaded(palette_of(hit.material), hit.side),
    }
}

/// The pixel that the textured mode draws in column `x` for the screen row
/// `row` of a hit.  The vertical look of the player moves the pixel, not
/// the place in the texture.
pub open spec fn textured_pixel(
    player: PlayerData,
    game: GameData,
    hit: RayHit,
    x: int,
    row: int,
) -> DrawCommand {
    let span = span_of(game.height as int, hit.perp_dist@);
    let texture = game.textures@[hit.material - 1];
    let tx = texture_column(hit.wall_frac@, texture.width as int);
    let ty = texture_row(row, game.height as int, span.line_height as int, texture.height as int);
    DrawCommand::Point {
        x: x as i64,
        y: (row - player.ver) as i64,
        color: texture_shaded(sampled(texture, tx, ty), hit.side),
    }
}

/// The pixels that the textured mode draws in column `x` for a hit: one
/// for each row from the first row of the span up to, not including, its
/// last row.
pub open spec fn textured_strip(player: PlayerData, game: GameData, hit: RayHit, x: int) -> Seq<
    DrawCommand,
> {
    let span = span_of(game.height as int, hit.perp_dist@);
    Seq::new(
        (span.draw_end - span.draw_start) as nat,
        |i: int| textured_pixel(player, game, hit, x, span.draw_start + i),
    )
}

/// What is drawn in column `x`.  A column whose ray cannot be cast stays
/// empty.
pub open spec fn column_commands(
    player: PlayerData,
    game: GameData,
    g: Seq<Seq<u8>>,
    textured: bool,
    x: int,
) -> Seq<DrawCommand> {
    match cast_spec(g, player.pos, ray_direction(player, x, game.width as int)) {
        Err(_) => Seq::empty(),
        Ok(hit) => if textured {
            textured_strip(player, game, hit, x)
        } else {
            seq![flat_line(player, game, hit, x)]
        },
    }
}

/// What is drawn in the first `n` columns, from left to right.
pub open spec fn frame_commands(
    player: PlayerData,
    game: GameData,
    g: Seq<Seq<u8>>,
    textured: bool,
    n: nat,
) -> Seq<DrawCommand>
    decreases n,
{
    if n == 0 {
        Seq::empty()
    } else {
        frame_commands(player, game, g, textured, (n - 1) as nat) + column_commands(
            player,
            game,
            g,
            textured,
            n - 1,
        )
    }
}

/// The buffer after the pixel at `(x, y)` was set.  A row of the buffer
/// takes `pitch` bytes, a pixel four.  A pixel that does not lie in its row
/// or in the buffer is left out.
pub open spec fn put_pixel(buf: Seq<u8>, pitch: int, x: int, y: int, c: Color) -> Seq<u8> {
    let o = y * pitch + x * 4;
    if 0 <= x && 0 <= y && x * 4 + 4 <= pitch && o + 4 <= buf.len() {
        buf.update(o, c.r).update(o + 1, c.g).update(o + 2, c.b).update(o + 3, c.a)
    } else {
        buf
    }
}

/// The buffer after one command was carried out.  Only points are written.
pub open spec fn put_command(buf: Seq<u8>, pitch: int, cmd: DrawCommand) -> Seq<u8> {
    match cmd {
        DrawCommand::Point { x, y, color } => put_pixel(buf, pitch, x as int, y as int, color),
        DrawCommand::Line { .. } => buf,
    }
}

/// The buffer after the commands were carried out, first to last.
pub open spec fn blit(buf: Seq<u8>, pitch: int, cmds: Seq<DrawCommand>) -> Seq<u8>
    decreases cmds.len(),
{
    if cmds.len() == 0 {
        buf
    } else {
        put_command(blit(buf, pitch, cmds.drop_last()), pitch, cmds.last())
    }
}

/// Carrying out commands keeps the length of the buffer.
pub proof fn lemma_blit_len(buf: Seq<u8>, pitch: int, cmds: Seq<DrawCommand>)
    ensures
        blit(buf, pitch, cmds).len() == buf.len(),
    decreases cmds.len(),
{
    if cmds.len() > 0 {
        lemma_blit_len(buf, pitch, cmds.drop_last());
    }
}

/// Whether the textured mode can render the map: there is a texture for
/// each of its materials.  To be asked once the map and the textures are
/// loaded, before the first frame.
pub fn check_textures(game_data: &GameData, map: &GridMap) -> (r: Result<(), RenderError>)
    ensures
        r == if textures_suffice(map.spec_top(), *game_data) {
            Ok::<(), RenderError>(())
        } else {
            Err::<(), RenderError>(RenderError::MissingTexture)
        },
{
    if map.top_material() as usize > game_data.textures.len() {
        Err(RenderError::MissingTexture)
    } else {
        Ok(())
    }
}

/// Appends to `out` what is drawn in column `x`.
pub fn render_column(
    player: &PlayerData,
    game_data: &GameData,
    map: &GridMap,
    textured: bool,
    x: u32,
    out: &mut Vec<DrawCommand>,
)
    requires
        x < game_data.width,
        textured ==> textures_suffice(map.spec_top(), *game_data),
    ensures
        final(out)@ == old(out)@ + column_commands(*player, *game_data, map@, textured, x as int),
{
    let direction = ray_direction_for_column(player, x, game_data.width);
    let hit = match cast(player.pos, direction, map) {
        Ok(hit) => hit,
        Err(_) => {
            assert(out@ =~= old(out)@ + Seq::<DrawCommand>::empty());
            return ;
        },
    };
    let span = project(hit.perp_dist, game_data.height);
    let look = player.ver as i64;
    if !textured {
        let color = shade_flat(palette(hit.material), hit.side);
        out.push(
            DrawCommand::Line {
                x: x as i64,
                y_start: span.draw_start - look,
                y_end: span.draw_end - look,
                color,
            },
        );
        assert(out@ =~= old(out)@ + seq![flat_line(*player, *game_data, hit, x as int)]);
        return ;
    }
    let top = map.top_material();
    assert(hit.material <= top);
    let texture = &game_data.textures[(hit.material - 1) as usize];
    let tx = texture_x(hit.wall_frac, texture.width);
    let ghost strip = textured_strip(*player, *game_data, hit, x as int);
    let mut row = span.draw_start;
    if row >= span.draw_end {
        assert(out@ =~= old(out)@ + strip);
        return ;
    }
    while row < span.draw_end
        invariant
            span == span_of(game_data.height as int, hit.perp_dist@),
            0 < span.line_height <= 0x1_0000_0000_0001,
            wall_top(game_data.height as int, span.line_height as int)
                <= span.draw_start,
            span.draw_end <= wall_top(
                game_data.height as int,
                span.line_height as int,
            ) + span.line_height,
            0 <= span.draw_start <= row <= span.draw_end < game_data.height,
            look == player.ver,
            1 <= hit.material <= game_data.textures@.len(),
            *texture == game_data.textures@[hit.material - 1],
            tx == texture_column(hit.wall_frac@, texture.width as int),
            strip == textured_strip(*player, *game_data, hit, x as int),
            out@ == old(out)@ + strip.subrange(0, row - span.draw_start),
        decreases span.draw_end - row,
    {
        let ty = texture_y(row, game_data.height, &span, texture.height);
        let color = shade_texture(sample(texture, tx, ty), hit.side);
        let ghost before = out@;
        out.push(DrawCommand::Point { x: x as i64, y: row - look, color });
        proof {
            let i = row - span.draw_start;
            assert(strip[i] == textured_pixel(*player, *game_data, hit, x as int, row as int));
            assert(strip.subrange(0, i + 1) =~= strip.subrange(0, i).push(strip[i]));
            assert(out@ =~= old(out)@ + strip.subrange(0, i + 1));
        }
        row = row + 1;
    }
    assert(strip.subrange(0, row - span.draw_start) =~= strip);
}

/// The drawing commands of a frame, column by column from left to right.
///
/// In the flat mode each column is one line in the colour of its wall.  In
/// the textured mode each column is a strip of pixels of the texture of its
/// wall; this fails, before anything is rendered, where the map holds a
/// material without a texture.
pub fn render_view_canvas(
    player: &PlayerData,
    game_data: &GameData,
    map: &GridMap,
    textured: bool,
) -> (r: Result<Vec<DrawCommand>, RenderError>)
    ensures
        textured && !textures_suffice(map.spec_top(), *game_data) ==> r == Err::<
            Vec<DrawCommand>,
            RenderError,
        >(RenderError::MissingTexture),
        !(textured && !textures_suffice(map.spec_top(), *game_data)) ==> r.is_ok() && r.unwrap()@
            == frame_commands(*player, *game_data, map@, textured, game_data.width as nat),
{
    if textured && check_textures(game_data, map).is_err() {
        return Err(RenderError::MissingTexture);
    }
    let mut out: Vec<DrawCommand> = Vec::new();
    let mut x: u32 = 0;
    while x < game_data.width
        invariant
            x <= game_data.width,
            textured ==> textures_suffice(map.spec_top(), *game_data),
            out@ == frame_commands(*player, *game_data, map@, textured, x as nat),
        decreases game_data.width - x,
    {
        render_column(player, game_data, map, textured, x, &mut out);
        x = x + 1;
    }
    Ok(out)
}

/// Sets the pixel at `(x, y)` of a buffer whose rows take `pitch` bytes.
pub fn write_pixel(buffer: &mut Vec<u8>, pitch: usize, x: i64, y: i64, c: Color)
    ensures
        final(buffer)@ == put_pixel(old(buffer)@, pitch as int, x as int, y as int, c),
{
    if x < 0 || y < 0 {
        return ;
    }
    let len = buffer.len() as u128;
    let in_row = (x as u128) * 4 + 4;
    if in_row > pitch as u128 {
        return ;
    }
    assert(y * pitch <= 0x7fff_ffff_ffff_ffff * 0xffff_ffff_ffff_ffff) by (nonlinear_arith)
        requires
            0 <= y <= 0x7fff_ffff_ffff_ffff,
            0 <= pitch <= 0xffff_ffff_ffff_ffff,
    ;
    let offset = (y as u128) * (pitch as u128) + (x as u128) * 4;
    if offset + 4 > len {
        return ;
    }
    let o = offset as usize;
    buffer.set(o, c.r);
    buffer.set(o + 1, c.g);
    buffer.set(o + 2, c.b);
    buffer.set(o + 3, c.a);
}

/// Renders a frame in the textured mode into a buffer of pixels, four
/// bytes (red, green, blue, alpha) to a pixel and `pitch` bytes to a row.
///
/// The buffer is left as it was where the map holds a material without a
/// texture.
pub fn render_view(
    player: &PlayerData,
    buffer: &mut Vec<u8>,
    pitch: usize,
    game_data: &GameData,
    map: &GridMap,
) -> (r: Result<(), RenderError>)
    ensures
        !textures_suffice(map.spec_top(), *game_data) ==> r == Err::<(), RenderError>(
            RenderError::MissingTexture,
        ) && final(buffer)@ == old(buffer)@,
        final(buffer)@.len() == old(buffer)@.len(),
        textures_suffice(map.spec_top(), *game_data) ==> r.is_ok() && final(buffer)@ == blit(
            old(buffer)@,
            pitch as int,
            frame_commands(*player, *game_data, map@, true, game_data.width as nat),
        ),
{
    if check_textures(game_data, map).is_err() {
        return Err(RenderError::MissingTexture);
    }
    proof {
        lemma_blit_len(
            buffer@,
            pitch as int,
            frame_commands(*player, *game_data, map@, true, game_data.width as nat),
        );
    }
    let mut x: u32 = 0;
    while x < game_data.width
        invariant
            x <= game_data.width,
            textures_suffice(map.spec_top(), *game_data),
            buffer@ == blit(
                old(buffer)@,
                pitch as int,
                frame_commands(*player, *game_data, map@, true, x as nat),
            ),
        decreases game_data.width - x,
    {
        let mut strip: Vec<DrawCommand> = Vec::new();
        render_column(player, game_data, map, true, x, &mut strip);
        let ghost done = frame_commands(*player, *game_data, map@, true, x as nat);
        assert(strip@ =~= column_commands(*player, *game_data, map@, true, x as int));
        let mut i: usize = 0;
        while i < strip.len()
            invariant
                i <= strip.len(),
                buffer@ == blit(old(buffer)@, pitch as int, done + strip@.subrange(0, i as int)),
            decreases strip.len() - i,
        {
            let cmd = strip[i];
            proof {
                let upto = done + strip@.subrange(0, i as int);
                let next = done + strip@.subrange(0, i + 1);
                assert(next.drop_last() =~= upto);
                assert(next.last() == cmd);
            }
            match cmd {
                DrawCommand::Point { x, y, color } => {
                    write_pixel(buffer, pitch, x, y, color);
                },
                DrawCommand::Line { .. } => {},
            }
            i = i + 1;
        }
        proof {
            assert(strip@.subrange(0, i as int) =~= strip@);
        }
        x = x + 1;
    }
    Ok(())
}

} // verus!
