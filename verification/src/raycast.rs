//! Casting a ray through the grid.
//!
//! A ray leaves its origin and crosses one grid line after the other, always
//! the nearer of the next line across the x axis and the next line across
//! the y axis.  The order of the crossings depends on the origin and the
//! direction alone; the map decides where the walk ends.  All distances are
//! compared exactly, by cross-multiplication, so a ray that runs along an
//! axis never crosses a line of that axis.

use crate::data::Vec2;
use crate::fixed::{abs, abs_i128, Fixed, ONE};
use crate::map::{
    cell, grid_height, grid_width, in_grid, interior, on_border, well_formed, GridMap,
};
use vstd::prelude::*;

verus! {

/// The axis across which a ray entered a cell.  A ray that crosses a line
/// `x = const` has side `X`: it meets a wall face that looks east or west.
#[derive(Clone, Copy, Debug, PartialEq, Eq, Structural)]
pub enum Axis {
    X,
    Y,
}

/// Where a ray met a wall.
#[derive(Clone, Copy, Debug, PartialEq, Eq, Structural)]
pub struct RayHit {
    /// The distance from the camera plane to the wall, in units of the
    /// length of the direction, rounded down.
    pub perp_dist: Fixed,
    /// The material code of the wall, never `0`.
    pub material: u8,
    /// The axis of the crossing that met the wall.
    pub side: Axis,
    /// How far along the face of the wall the ray struck, in `[0, 1)`.
    pub wall_frac: Fixed,
    /// The cell of the wall.
    pub cell_x: usize,
    pub cell_y: usize,
}

/// Why no ray was cast.
#[derive(Clone, Copy, Debug, PartialEq, Eq, Structural)]
pub enum CastError {
    /// The direction is the zero vector.
    ZeroDirection,
    /// The origin does not lie in a cell away from the edges of the map.
    OutsideMap,
}

/// The raw distance along one axis from the coordinate `o` to the first
/// grid line that a ray with direction `d` along that axis meets.
pub open spec fn first_line(o: int, d: int) -> int {
    if d < 0 {
        o % (ONE as int)
    } else {
        ONE - o % (ONE as int)
    }
}

/// The raw distance along one axis from `o` to the line that is crossed
/// after `n` earlier crossings of that axis.
pub open spec fn line_dist(o: int, d: int, n: int) -> int {
    first_line(o, d) + n * ONE
}

/// The cell coordinate reached from cell `c` by `n` crossings in the
/// direction of `d`.
pub open spec fn advance(c: int, d: int, n: int) -> int {
    if d < 0 {
        c - n
    } else {
        c + n
    }
}

/// Whether, after `nx` crossings along x and `ny` along y, the next line
/// across the x axis is strictly nearer than the next across the y axis.
pub open spec fn x_nearer(o: Vec2<Fixed>, d: Vec2<Fixed>, nx: int, ny: int) -> bool {
    d.x@ != 0 && (d.y@ == 0 || line_dist(o.x@, d.x@, nx) * abs(d.y@) < line_dist(o.y@, d.y@, ny)
        * abs(d.x@))
}

/// The numbers of crossings along x and along y among the first `k`
/// crossings of the ray.
pub open spec fn crossings(o: Vec2<Fixed>, d: Vec2<Fixed>, k: nat) -> (int, int)
    decreases k,
{
    if k == 0 {
        (0, 0)
    } else {
        let (nx, ny) = crossings(o, d, (k - 1) as nat);
        if x_nearer(o, d, nx, ny) {
            (nx + 1, ny)
        } else {
            (nx, ny + 1)
        }
    }
}

/// The x coordinate of the cell that the ray is in after `k` crossings.
pub open spec fn cell_x(o: Vec2<Fixed>, d: Vec2<Fixed>, k: nat) -> int {
    advance(o.x.spec_floor(), d.x@, crossings(o, d, k).0)
}

/// The y coordinate of the cell that the ray is in after `k` crossings.
pub open spec fn cell_y(o: Vec2<Fixed>, d: Vec2<Fixed>, k: nat) -> int {
    advance(o.y.spec_floor(), d.y@, crossings(o, d, k).1)
}

/// The cell that the ray is in after `k` crossings lies in the grid and is
/// empty.
pub open spec fn passes(g: Seq<Seq<u8>>, o: Vec2<Fixed>, d: Vec2<Fixed>, k: nat) -> bool {
    in_grid(g, cell_x(o, d, k), cell_y(o, d, k)) && cell(g, cell_x(o, d, k), cell_y(o, d, k)) == 0
}

/// The `k`-th crossing is the first that leads into a wall.
pub open spec fn first_hit(g: Seq<Seq<u8>>, o: Vec2<Fixed>, d: Vec2<Fixed>, k: nat) -> bool {
    &&& k >= 1
    &&& in_grid(g, cell_x(o, d, k), cell_y(o, d, k))
    &&& cell(g, cell_x(o, d, k), cell_y(o, d, k)) != 0
    &&& forall|j: nat| 1 <= j < k ==> #[trigger] passes(g, o, d, j)
}

/// The axis of the `k`-th crossing.
pub open spec fn side_at(o: Vec2<Fixed>, d: Vec2<Fixed>, k: nat) -> Axis {
    let (nx, ny) = crossings(o, d, (k - 1) as nat);
    if x_nearer(o, d, nx, ny) {
        Axis::X
    } else {
        Axis::Y
    }
}

/// The raw distance along the axis of the `k`-th crossing from the origin
/// to the line that is crossed there.
pub open spec fn axis_dist_at(o: Vec2<Fixed>, d: Vec2<Fixed>, k: nat) -> int {
    let (nx, ny) = crossings(o, d, (k - 1) as nat);
    match side_at(o, d, k) {
        Axis::X => line_dist(o.x@, d.x@, nx),
        Axis::Y => line_dist(o.y@, d.y@, ny),
    }
}

/// The raw perpendicular distance at the `k`-th crossing: the distance
/// along the axis divided by the length of the direction along that axis,
/// rounded down.
pub open spec fn perp_at(o: Vec2<Fixed>, d: Vec2<Fixed>, k: nat) -> int {
    match side_at(o, d, k) {
        Axis::X => (axis_dist_at(o, d, k) * ONE) / abs(d.x@),
        Axis::Y => (axis_dist_at(o, d, k) * ONE) / abs(d.y@),
    }
}

/// Where along the face of the wall the ray strikes: the fractional part
/// of the coordinate, along the other axis, of the point at distance `perp`
/// on the ray.
pub open spec fn wall_frac_of(o: Vec2<Fixed>, d: Vec2<Fixed>, side: Axis, perp: Fixed) -> int {
    match side {
        Axis::X => o.y.plus(perp.times(d.y)).spec_fract(),
        Axis::Y => o.x.plus(perp.times(d.x)).spec_fract(),
    }
}

/// What is reported when the `k`-th crossing meets a wall.
pub open spec fn hit_at(g: Seq<Seq<u8>>, o: Vec2<Fixed>, d: Vec2<Fixed>, k: nat) -> RayHit {
    let perp = Fixed { raw: perp_at(o, d, k) as i64 };
    RayHit {
        perp_dist: perp,
        material: cell(g, cell_x(o, d, k), cell_y(o, d, k)),
        side: side_at(o, d, k),
        wall_frac: Fixed { raw: wall_frac_of(o, d, side_at(o, d, k), perp) as i64 },
        cell_x: cell_x(o, d, k) as usize,
        cell_y: cell_y(o, d, k) as usize,
    }
}

/// The number of the first crossing that leads into a wall.
pub open spec fn hit_index(g: Seq<Seq<u8>>, o: Vec2<Fixed>, d: Vec2<Fixed>) -> nat {
    choose|k: nat| first_hit(g, o, d, k)
}

/// Whether a ray can be cast: it has a direction and starts in a cell away
/// from the edges.
pub open spec fn castable(g: Seq<Seq<u8>>, o: Vec2<Fixed>, d: Vec2<Fixed>) -> bool {
    (d.x@ != 0 || d.y@ != 0) && interior(g, o.x.spec_floor(), o.y.spec_floor())
}

/// The result of casting the ray from `o` in direction `d`.
pub open spec fn cast_spec(g: Seq<Seq<u8>>, o: Vec2<Fixed>, d: Vec2<Fixed>) -> Result<
    RayHit,
    CastError,
> {
    if d.x@ == 0 && d.y@ == 0 {
        Err(CastError::ZeroDirection)
    } else if !interior(g, o.x.spec_floor(), o.y.spec_floor()) {
        Err(CastError::OutsideMap)
    } else {
        Ok(hit_at(g, o, d, hit_index(g, o, d)))
    }
}

/// No two crossings are both the first that leads into a wall.
pub proof fn lemma_first_hit_unique(
    g: Seq<Seq<u8>>,
    o: Vec2<Fixed>,
    d: Vec2<Fixed>,
    a: nat,
    b: nat,
)
    requires
        first_hit(g, o, d, a),
        first_hit(g, o, d, b),
    ensures
        a == b,
{
    if a < b {
        assert(passes(g, o, d, a));
    }
    if b < a {
        assert(passes(g, o, d, b));
    }
}

/// The crossings along the two axes add up to the number of crossings.
pub proof fn lemma_crossings_sum(o: Vec2<Fixed>, d: Vec2<Fixed>, k: nat)
    ensures
        crossings(o, d, k).0 >= 0,
        crossings(o, d, k).1 >= 0,
        crossings(o, d, k).0 + crossings(o, d, k).1 == k,
    decreases k,
{
    if k > 0 {
        lemma_crossings_sum(o, d, (k - 1) as nat);
    }
}

/// The raw coordinate of the face of the cells with coordinate `c` that a
/// ray running in the direction of `d` strikes first.
pub open spec fn face_line(c: int, d: int) -> int {
    if d < 0 {
        (c + 1) * ONE
    } else {
        c * ONE
    }
}

/// Every ray that starts in a cell away from the edges of a well-formed
/// grid meets a wall: some crossing is the first that leads into a cell of
/// the grid that is not empty.
pub proof fn lemma_ray_meets_wall(g: Seq<Seq<u8>>, o: Vec2<Fixed>, d: Vec2<Fixed>)
    requires
        well_formed(g),
        interior(g, o.x.spec_floor(), o.y.spec_floor()),
    ensures
        first_hit(g, o, d, hit_index(g, o, d)),
        hit_at(g, o, d, hit_index(g, o, d)).material != 0,
        d.x@ != 0 || d.y@ != 0 ==> cast_spec(g, o, d).is_ok(),
{
    lemma_walk_ends(g, o, d, 0);
}

/// A walk that has passed `k` empty cells ends at a wall later on.
proof fn lemma_walk_ends(g: Seq<Seq<u8>>, o: Vec2<Fixed>, d: Vec2<Fixed>, k: nat)
    requires
        well_formed(g),
        interior(g, o.x.spec_floor(), o.y.spec_floor()),
        interior(g, cell_x(o, d, k), cell_y(o, d, k)),
        forall|j: nat| 1 <= j <= k ==> #[trigger] passes(g, o, d, j),
    ensures
        exists|m: nat| first_hit(g, o, d, m),
    decreases grid_width(g) + grid_height(g) - k,
{
    lemma_crossings_sum(o, d, k);
    let next = k + 1;
    let (nx, ny) = crossings(o, d, k);
    assert(crossings(o, d, next) == if x_nearer(o, d, nx, ny) {
        (nx + 1, ny)
    } else {
        (nx, ny + 1)
    });
    assert(in_grid(g, cell_x(o, d, next), cell_y(o, d, next)));
    if cell(g, cell_x(o, d, next), cell_y(o, d, next)) != 0 {
        assert(first_hit(g, o, d, next));
    } else {
        assert(passes(g, o, d, next));
        assert(!on_border(g, cell_x(o, d, next), cell_y(o, d, next)));
        lemma_walk_ends(g, o, d, next);
    }
}

/// The point of the ray at the perpendicular distance lies on the face of
/// the wall.  Along the axis of the crossing, the origin moved by the
/// distance to the crossed line is the coordinate of the struck face of the
/// cell; and the perpendicular distance times the length of the direction
/// along that axis is that distance, short of it by less than one rounding
/// step.
pub proof fn lemma_hit_on_face(o: Vec2<Fixed>, d: Vec2<Fixed>, k: nat)
    requires
        k >= 1,
        d.x@ != 0 || d.y@ != 0,
    ensures
        axis_dist_at(o, d, k) >= 0,
        match side_at(o, d, k) {
            Axis::X => {
                &&& d.x@ != 0
                &&& advance(o.x@, d.x@, axis_dist_at(o, d, k)) == face_line(cell_x(o, d, k), d.x@)
                &&& perp_at(o, d, k) * abs(d.x@) <= axis_dist_at(o, d, k) * ONE < (perp_at(o, d, k)
                    + 1) * abs(d.x@)
            },
            Axis::Y => {
                &&& d.y@ != 0
                &&& advance(o.y@, d.y@, axis_dist_at(o, d, k)) == face_line(cell_y(o, d, k), d.y@)
                &&& perp_at(o, d, k) * abs(d.y@) <= axis_dist_at(o, d, k) * ONE < (perp_at(o, d, k)
                    + 1) * abs(d.y@)
            },
        },
{
    let before = (k - 1) as nat;
    lemma_crossings_sum(o, d, before);
    let (nx, ny) = crossings(o, d, before);
    assert(crossings(o, d, k) == if x_nearer(o, d, nx, ny) {
        (nx + 1, ny)
    } else {
        (nx, ny + 1)
    });
    let dist = axis_dist_at(o, d, k);
    let perp = perp_at(o, d, k);
    match side_at(o, d, k) {
        Axis::X => {
            lemma_floor_bounds(dist * ONE, abs(d.x@));
            lemma_line_is_face(o.x@, d.x@, nx);
        },
        Axis::Y => {
            lemma_floor_bounds(dist * ONE, abs(d.y@));
            lemma_line_is_face(o.y@, d.y@, ny);
        },
    }
}

/// The crossing after `n` earlier ones is at the struck face of the cell
/// that is `n + 1` cells away.
proof fn lemma_line_is_face(o: int, d: int, n: int)
    ensures
        advance(o, d, line_dist(o, d, n)) == face_line(advance(o / (ONE as int), d, n + 1), d),
{
    assert(o == (o / 65536) * 65536 + o % 65536) by (nonlinear_arith);
}

/// A quotient rounded down, times the divisor, is short of the dividend by
/// less than the divisor.
proof fn lemma_floor_bounds(a: int, b: int)
    requires
        b > 0,
    ensures
        (a / b) * b <= a < (a / b + 1) * b,
{
    assert((a / b) * b <= a < (a / b + 1) * b) by (nonlinear_arith)
        requires
            b > 0,
    ;
}

/// The place along the face of the wall is a fraction of the face: it is
/// at least zero and less than one.
pub proof fn lemma_wall_frac_in_face(o: Vec2<Fixed>, d: Vec2<Fixed>, side: Axis, perp: Fixed)
    ensures
        0 <= wall_frac_of(o, d, side, perp) < ONE,
{
}

/// A bound on the products that the comparison of two distances makes.
proof fn lemma_compare_bound(dist: int, len: int)
    requires
        0 <= dist <= 0x8000_0000_0000,
        0 <= len <= 0x8000_0000_0000_0000,
    ensures
        0 <= dist * len <= 0x8000_0000_0000 * 0x8000_0000_0000_0000,
{
    assert(0 <= dist * len <= 0x8000_0000_0000 * 0x8000_0000_0000_0000) by (nonlinear_arith)
        requires
            0 <= dist <= 0x8000_0000_0000,
            0 <= len <= 0x8000_0000_0000_0000,
    ;
}

/// Casts a ray from `origin` in `direction` and reports the first wall in
/// its way.
///
/// Fails on the zero direction, and on an origin that does not lie in a
/// cell away from the edges of the map.  Every other ray meets a wall.
pub fn cast(origin: Vec2<Fixed>, direction: Vec2<Fixed>, map: &GridMap) -> (r: Result<
    RayHit,
    CastError,
>)
    ensures
        r == cast_spec(map@, origin, direction),
        castable(map@, origin, direction) ==> first_hit(
            map@,
            origin,
            direction,
            hit_index(map@, origin, direction),
        ),
        r matches Ok(hit) ==> {
            &&& hit.material != 0
            &&& in_grid(map@, hit.cell_x as int, hit.cell_y as int)
            &&& hit.material == cell(map@, hit.cell_x as int, hit.cell_y as int)
            &&& 0 <= hit.perp_dist@
            &&& 0 <= hit.wall_frac@ < ONE
        },
{
    let ghost g = map@;
    proof {
        use_type_invariant(map);
        map.lemma_inv();
    }
    let dx = direction.x.raw;
    let dy = direction.y.raw;
    if dx == 0 && dy == 0 {
        return Err(CastError::ZeroDirection);
    }
    let width = map.width();
    let height = map.height();
    let start_x = origin.x.floor();
    let start_y = origin.y.floor();
    if start_x <= 0 || start_y <= 0 || start_x >= width as i64 - 1 || start_y >= height as i64
        - 1 {
        return Err(CastError::OutsideMap);
    }
    let len_x = abs_i128(dx);
    let len_y = abs_i128(dy);
    let frac_x = origin.x.fract().raw;
    let frac_y = origin.y.fract().raw;
    let mut dist_x: i64 = if dx < 0 {
        frac_x
    } else {
        ONE - frac_x
    };
    let mut dist_y: i64 = if dy < 0 {
        frac_y
    } else {
        ONE - frac_y
    };
    let mut cx: usize = start_x as usize;
    let mut cy: usize = start_y as usize;
    let ghost mut k: nat = 0;
    let ghost mut nx: int = 0;
    let ghost mut ny: int = 0;
    loop
        invariant
            g == map@,
            well_formed(g),
            width == grid_width(g),
            height == grid_height(g),
            dx == direction.x@,
            dy == direction.y@,
            dx != 0 || dy != 0,
            len_x == abs(dx as int),
            len_y == abs(dy as int),
            start_x == origin.x.spec_floor(),
            start_y == origin.y.spec_floor(),
            castable(g, origin, direction),
            crossings(origin, direction, k) == (nx, ny),
            0 <= nx,
            0 <= ny,
            nx + ny == k,
            cx == advance(start_x as int, dx as int, nx),
            cy == advance(start_y as int, dy as int, ny),
            interior(g, cx as int, cy as int),
            dist_x == line_dist(origin.x@, dx as int, nx),
            dist_y == line_dist(origin.y@, dy as int, ny),
            forall|j: nat| 1 <= j <= k ==> #[trigger] passes(g, origin, direction, j),
        decreases width + height - nx - ny,
    {
        proof {
            lemma_compare_bound(dist_x as int, len_y as int);
            lemma_compare_bound(dist_y as int, len_x as int);
        }
        let take_x = dx != 0 && (dy == 0 || (dist_x as i128) * len_y < (dist_y as i128) * len_x);
        assert(take_x == x_nearer(origin, direction, nx, ny));
        let axis_dist = if take_x {
            dist_x
        } else {
            dist_y
        };
        if take_x {
            dist_x = dist_x + ONE;
            if dx < 0 {
                cx = cx - 1;
            } else {
                cx = cx + 1;
            }
        } else {
            dist_y = dist_y + ONE;
            if dy < 0 {
                cy = cy - 1;
            } else {
                cy = cy + 1;
            }
        }
        proof {
            if take_x {
                nx = nx + 1;
            } else {
                ny = ny + 1;
            }
            k = k + 1;
            assert(crossings(origin, direction, k) == (nx, ny));
            assert(cell_x(origin, direction, k) == cx);
            assert(cell_y(origin, direction, k) == cy);
        }
        let code = map.cell_at(cx, cy);
        if code != 0 {
            let side = if take_x {
                Axis::X
            } else {
                Axis::Y
            };
            let len = if take_x {
                len_x
            } else {
                len_y
            };
            assert(len > 0);
            assert(0 <= axis_dist < 0x8000_0000_0000);
            let perp_raw: i128 = ((axis_dist as i128) * 65536) / len;
            assert(0 <= perp_raw <= axis_dist * 65536) by (nonlinear_arith)
                requires
                    perp_raw == (axis_dist * 65536) / (len as int),
                    0 <= axis_dist,
                    len > 0,
            ;
            let perp = Fixed { raw: perp_raw as i64 };
            let frac = if take_x {
                (origin.y + perp * direction.y).fract()
            } else {
                (origin.x + perp * direction.x).fract()
            };
            let hit = RayHit {
                perp_dist: perp,
                material: code,
                side,
                wall_frac: frac,
                cell_x: cx,
                cell_y: cy,
            };
            proof {
                assert(side == side_at(origin, direction, k));
                assert(axis_dist == axis_dist_at(origin, direction, k));
                assert(perp_raw == perp_at(origin, direction, k));
                assert(first_hit(g, origin, direction, k));
                lemma_first_hit_unique(g, origin, direction, k, hit_index(g, origin, direction));
                assert(hit == hit_at(g, origin, direction, k));
            }
            return Ok(hit);
        }
        proof {
            assert(passes(g, origin, direction, k));
            assert(!on_border(g, cx as int, cy as int));
        }
    }
}

} // verus!
