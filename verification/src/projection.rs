//! From a hit to a column of pixels: the span of rows that the wall takes
//! on the screen, its colour, and the texture coordinates of its rows.
//!
//! Walls whose face looks along the y axis (hits of side [`Axis::Y`]) are
//! drawn darker, in the flat and in the textured mode alike.

use crate::data::LoadedTexture;
use crate::fixed::{Fixed, ONE};
use crate::raycast::Axis;
use vstd::arithmetic::div_mod::{
    lemma_div_by_multiple, lemma_div_by_multiple_is_strongly_ordered, lemma_div_pos_is_pos,
};
use vstd::prelude::*;

verus! {

/// A colour with its opacity.
#[derive(Clone, Copy, Debug, PartialEq, Eq, Structural)]
pub struct Color {
    pub r: u8,
    pub g: u8,
    pub b: u8,
    pub a: u8,
}

/// The rows of one screen column that a wall covers.
#[derive(Clone, Copy, Debug, PartialEq, Eq, Structural)]
pub struct ColumnSpan {
    /// The height of the whole wall in pixels, also where it exceeds the
    /// screen.
    pub line_height: i64,
    /// The first row of the wall on the screen.
    pub draw_start: i64,
    /// The last row of the wall on the screen.
    pub draw_end: i64,
}

/// The raw value of the least distance that a wall is projected at.
pub const MIN_DIST: i64 = 1;

/// The colour that stands in for a pixel that a texture does not have.
pub open spec fn white() -> Color {
    Color { r: 255, g: 255, b: 255, a: 255 }
}

/// The raw distance that a wall at raw distance `perp` is projected at.
pub open spec fn projected_dist(perp: int) -> int {
    if perp < MIN_DIST {
        MIN_DIST as int
    } else {
        perp
    }
}

/// The height in pixels of a wall at raw distance `perp` on a screen of
/// `height` rows: `height` divided by the distance, rounded to the nearest
/// integer, halves upwards.
pub open spec fn line_height(height: int, perp: int) -> int {
    (2 * height * ONE + projected_dist(perp)) / (2 * projected_dist(perp))
}

/// `v`, kept within the rows `0 ..= height - 1`.
pub open spec fn clamp_row(v: int, height: int) -> int {
    if v > height - 1 {
        if height - 1 < 0 {
            0
        } else {
            height - 1
        }
    } else if v < 0 {
        0
    } else {
        v
    }
}

/// The row at which a wall of `lines` pixels starts when it is centred on a
/// screen of `height` rows.  It is negative for a wall taller than the
/// screen.
pub open spec fn wall_top(height: int, lines: int) -> int {
    height / 2 - lines / 2
}

/// The span of a wall at raw distance `perp` on a screen of `height` rows.
pub open spec fn span_of(height: int, perp: int) -> ColumnSpan {
    let lines = line_height(height, perp);
    ColumnSpan {
        line_height: lines as i64,
        draw_start: clamp_row(wall_top(height, lines), height) as i64,
        draw_end: clamp_row(lines / 2 + height / 2, height) as i64,
    }
}

/// The colour of a material in the flat mode.
pub open spec fn palette_of(material: u8) -> Color {
    if material == 1 {
        Color { r: 255, g: 0, b: 0, a: 255 }
    } else if material == 2 {
        Color { r: 0, g: 255, b: 0, a: 255 }
    } else if material == 3 {
        Color { r: 0, g: 0, b: 255, a: 255 }
    } else if material == 4 {
        Color { r: 128, g: 128, b: 128, a: 255 }
    } else {
        Color { r: 0, g: 255, b: 255, a: 255 }
    }
}

/// A colour of the flat mode as it shows on a face of the given side: all
/// four channels are halved on a face that looks along the y axis.
pub open spec fn flat_shaded(c: Color, side: Axis) -> Color {
    if side == Axis::Y {
        Color { r: c.r / 2, g: c.g / 2, b: c.b / 2, a: c.a / 2 }
    } else {
        c
    }
}

/// A pixel of a texture as it shows on a face of the given side: red,
/// green and blue are halved on a face that looks along the y axis.
pub open spec fn texture_shaded(c: Color, side: Axis) -> Color {
    if side == Axis::Y {
        Color { r: c.r / 2, g: c.g / 2, b: c.b / 2, a: c.a }
    } else {
        c
    }
}

/// The column of a texture of `width` columns that shows at the place
/// `wall_frac` (raw) along a face.
pub open spec fn texture_column(wall_frac: int, width: int) -> int {
    (wall_frac * width) / (ONE as int)
}

/// The row of a texture of `tex_height` rows that shows in screen row `row`
/// of a wall of `lines` pixels on a screen of `height` rows: the rows of
/// the wall are mapped evenly onto the rows of the texture.
pub open spec fn texture_row(row: int, height: int, lines: int, tex_height: int) -> int {
    ((row - wall_top(height, lines)) * tex_height) / lines
}

/// The pixel of `texture` at `(x, y)`, or white where it has none.
pub open spec fn sampled(texture: LoadedTexture, x: int, y: int) -> Color {
    if texture.has_pixel(x, y) {
        let p = texture.pixel_at(x, y);
        Color { r: p.0, g: p.1, b: p.2, a: p.3 }
    } else {
        white()
    }
}

/// The span of a wall at distance `perp` on a screen of `height` rows.
///
/// A distance below the least positive one is taken for that one, so that
/// a wall at distance zero has a height too.
pub fn project(perp: Fixed, height: u32) -> (span: ColumnSpan)
    ensures
        span == span_of(height as int, perp@),
        span.line_height == line_height(height as int, perp@),
        0 <= span.line_height <= 0x1_0000_0000_0001,
        0 <= span.draw_start <= span.draw_end || height == 0,
        span.draw_end < height || height == 0,
        wall_top(height as int, span.line_height as int) <= span.draw_start,
        span.draw_end <= wall_top(height as int, span.line_height as int) + span.line_height
            || span.line_height == 0,
{
    let dist: i128 = if perp.raw < MIN_DIST {
        MIN_DIST as i128
    } else {
        perp.raw as i128
    };
    let h = height as i128;
    let lines_wide: i128 = (2 * h * 65536 + dist) / (2 * dist);
    assert(0 <= lines_wide <= 0x1_0000_0000_0001) by (nonlinear_arith)
        requires
            lines_wide == (2 * h * 65536 + dist) / (2 * dist),
            0 <= h <= 0xffff_ffff,
            dist >= 1,
    ;
    let lines = lines_wide as i64;
    let half = (height / 2) as i64;
    let last = height as i64 - 1;
    let top = half - lines / 2;
    let bottom = lines / 2 + half;
    ColumnSpan {
        line_height: lines,
        draw_start: clamp_to_rows(top, last),
        draw_end: clamp_to_rows(bottom, last),
    }
}

/// `v`, kept within `0 ..= last`.
fn clamp_to_rows(v: i64, last: i64) -> (r: i64)
    requires
        -1 <= last,
    ensures
        r == clamp_row(v as int, last + 1),
{
    if v > last {
        if last < 0 {
            0
        } else {
            last
        }
    } else if v < 0 {
        0
    } else {
        v
    }
}

/// The colour of a material in the flat mode.
pub fn palette(material: u8) -> (c: Color)
    ensures
        c == palette_of(material),
{
    if material == 1 {
        Color { r: 255, g: 0, b: 0, a: 255 }
    } else if material == 2 {
        Color { r: 0, g: 255, b: 0, a: 255 }
    } else if material == 3 {
        Color { r: 0, g: 0, b: 255, a: 255 }
    } else if material == 4 {
        Color { r: 128, g: 128, b: 128, a: 255 }
    } else {
        Color { r: 0, g: 255, b: 255, a: 255 }
    }
}

/// Shades a colour of the flat mode for a face of the given side.
pub fn shade_flat(c: Color, side: Axis) -> (r: Color)
    ensures
        r == flat_shaded(c, side),
{
    match side {
        Axis::Y => Color { r: c.r / 2, g: c.g / 2, b: c.b / 2, a: c.a / 2 },
        Axis::X => c,
    }
}

/// Shades a pixel of a texture for a face of the given side.
pub fn shade_texture(c: Color, side: Axis) -> (r: Color)
    ensures
        r == texture_shaded(c, side),
{
    match side {
        Axis::Y => Color { r: c.r / 2, g: c.g / 2, b: c.b / 2, a: c.a },
        Axis::X => c,
    }
}

/// The pixel of `texture` at `(x, y)`, or opaque white where the texture
/// has no such pixel.
pub fn sample(texture: &LoadedTexture, x: i64, y: i64) -> (c: Color)
    ensures
        c == sampled(*texture, x as int, y as int),
{
    if x < 0 || y < 0 || x > 0xffff_ffff || y > 0xffff_ffff {
        return Color { r: 255, g: 255, b: 255, a: 255 };
    }
    match texture.get_pixel(x as usize, y as usize) {
        Some((r, g, b, a)) => Color { r, g, b, a },
        None => Color { r: 255, g: 255, b: 255, a: 255 },
    }
}

/// The column of a texture of `width` columns that shows at `wall_frac`
/// along a face.
pub fn texture_x(wall_frac: Fixed, width: u32) -> (x: i64)
    requires
        0 <= wall_frac@ < ONE,
    ensures
        x == texture_column(wall_frac@, width as int),
        0 <= x < width || width == 0,
{
    assert(0 <= wall_frac.raw * width <= 0xffff * width) by (nonlinear_arith)
        requires
            0 <= wall_frac.raw <= 0xffff,
            0 <= width,
    ;
    let wide: u64 = (wall_frac.raw as u64) * (width as u64);
    (wide / 65536) as i64
}

/// The row of a texture of `tex_height` rows that shows in screen row `row`
/// of the wall with the given span on a screen of `height` rows.
pub fn texture_y(row: i64, height: u32, span: &ColumnSpan, tex_height: u32) -> (y: i64)
    requires
        0 < span.line_height <= 0x1_0000_0000_0001,
        wall_top(height as int, span.line_height as int) <= row < wall_top(
            height as int,
            span.line_height as int,
        ) + span.line_height,
    ensures
        y == texture_row(row as int, height as int, span.line_height as int, tex_height as int),
        0 <= y < tex_height || tex_height == 0,
{
    let lines = span.line_height as i128;
    let top = (height / 2) as i128 - lines / 2;
    let offset = row as i128 - top;
    proof {
        lemma_even_mapping(offset as int, lines as int, tex_height as int);
    }
    assert(0 <= offset * tex_height <= 0x1_0000_0000_0001 * 0xffff_ffff) by (nonlinear_arith)
        requires
            0 <= offset <= 0x1_0000_0000_0001,
            0 <= tex_height <= 0xffff_ffff,
    ;
    let y = (offset * (tex_height as i128)) / lines;
    y as i64
}

/// Mapping `lines` rows evenly onto `rows` rows sends each of them to one
/// of the `rows` rows.
pub proof fn lemma_even_mapping(offset: int, lines: int, rows: int)
    requires
        0 <= offset < lines,
        0 <= rows,
    ensures
        0 <= (offset * rows) / lines,
        (offset * rows) / lines < rows || rows == 0,
{
    assert(0 <= offset * rows) by (nonlinear_arith)
        requires
            0 <= offset,
            0 <= rows,
    ;
    lemma_div_pos_is_pos(offset * rows, lines);
    if rows > 0 {
        assert(offset * rows < rows * lines) by (nonlinear_arith)
            requires
                0 <= offset < lines,
                0 < rows,
        ;
        lemma_div_by_multiple_is_strongly_ordered(offset * rows, rows * lines, rows, lines);
        lemma_div_by_multiple(rows, lines);
    }
}

/// The two modes darken the same faces.  A colour or a pixel shows as it
/// is on a face that looks along the x axis, whatever the mode; on a face
/// that looks along the y axis both modes halve red, green and blue, so
/// that no channel is brighter there than on the other face.
pub proof fn lemma_modes_shade_same_face(c: Color, side: Axis)
    ensures
        flat_shaded(c, Axis::X) == c,
        texture_shaded(c, Axis::X) == c,
        flat_shaded(c, Axis::Y).r == c.r / 2 && texture_shaded(c, Axis::Y).r == c.r / 2,
        flat_shaded(c, Axis::Y).g == c.g / 2 && texture_shaded(c, Axis::Y).g == c.g / 2,
        flat_shaded(c, Axis::Y).b == c.b / 2 && texture_shaded(c, Axis::Y).b == c.b / 2,
        flat_shaded(c, side).r == texture_shaded(c, side).r,
        flat_shaded(c, side).g == texture_shaded(c, side).g,
        flat_shaded(c, side).b == texture_shaded(c, side).b,
        flat_shaded(c, Axis::Y).r <= flat_shaded(c, Axis::X).r,
        flat_shaded(c, Axis::Y).g <= flat_shaded(c, Axis::X).g,
        flat_shaded(c, Axis::Y).b <= flat_shaded(c, Axis::X).b,
        texture_shaded(c, Axis::Y).r <= texture_shaded(c, Axis::X).r,
        texture_shaded(c, Axis::Y).g <= texture_shaded(c, Axis::X).g,
        texture_shaded(c, Axis::Y).b <= texture_shaded(c, Axis::X).b,
        (flat_shaded(c, side) != c) ==> side == Axis::Y,
        (texture_shaded(c, side) != c) ==> side == Axis::Y,
{
}

} // verus!
