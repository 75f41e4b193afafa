//! The camera: one ray for each column of the screen.
//!
//! The rays of a frame end on the camera plane, a segment at a right angle
//! to the heading.  Column `0` looks at one end of it, the last column just
//! short of the other end, and the columns in between are spread evenly.
//! Together with the perpendicular distance this gives straight walls.

use crate::data::{PlayerData, Vec2};
use crate::fixed::{Fixed, ONE};
use vstd::prelude::*;

verus! {

/// The raw place of a column on the camera plane: `2 * column / width - 1`,
/// rounded down.  It runs from `-1` on the left to just under `1`.
pub open spec fn camera_x(column: int, width: int) -> int {
    (2 * column * ONE) / width - ONE
}

/// The direction of the ray through a column: the heading plus the camera
/// plane scaled by the place of the column.
pub open spec fn ray_direction(player: PlayerData, column: int, width: int) -> Vec2<Fixed> {
    let place = Fixed { raw: camera_x(column, width) as i64 };
    Vec2 {
        x: player.dir.x.plus(player.cam.x.times(place)),
        y: player.dir.y.plus(player.cam.y.times(place)),
    }
}

/// The place of a column on the camera plane lies in `[-1, 1)`.
pub proof fn lemma_camera_x_range(column: int, width: int)
    requires
        0 <= column < width,
    ensures
        -ONE <= camera_x(column, width) < ONE,
{
    assert(0 <= (2 * column * 65536) / width < 2 * 65536) by (nonlinear_arith)
        requires
            0 <= column < width,
    ;
}

/// The direction of the ray through column `column` of a screen that is
/// `viewport_width` columns wide.
pub fn ray_direction_for_column(player: &PlayerData, column: u32, viewport_width: u32) -> (d: Vec2<
    Fixed,
>)
    requires
        column < viewport_width,
    ensures
        d == ray_direction(*player, column as int, viewport_width as int),
{
    proof {
        lemma_camera_x_range(column as int, viewport_width as int);
    }
    let place = Fixed { raw: (2 * (column as i64) * ONE) / (viewport_width as i64) - ONE };
    Vec2 { x: player.dir.x + player.cam.x * place, y: player.dir.y + player.cam.y * place }
}

} // verus!
