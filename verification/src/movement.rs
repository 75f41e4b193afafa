//! Moving the player through the map.
//!
//! A move is tried along the x axis first and then along the y axis, each
//! against the map on its own.  A player who walks into a wall at an angle
//! therefore slides along it.

use crate::data::{scaled, PlayerData, Vec2};
use crate::fixed::Fixed;
use crate::map::{blocked, GridMap};
use vstd::prelude::*;

verus! {

/// Whether a step along x from `pos` by `dx` is stopped.
pub open spec fn x_stopped(g: Seq<Seq<u8>>, pos: Vec2<Fixed>, dx: Fixed) -> bool {
    blocked(g, pos.x.plus(dx).spec_floor(), pos.y.spec_floor())
}

/// Whether a step along y from `pos` by `dy` is stopped.
pub open spec fn y_stopped(g: Seq<Seq<u8>>, pos: Vec2<Fixed>, dy: Fixed) -> bool {
    blocked(g, pos.x.spec_floor(), pos.y.plus(dy).spec_floor())
}

/// The position after a step along x from `pos` by `dx` was tried.
pub open spec fn moved_x(g: Seq<Seq<u8>>, pos: Vec2<Fixed>, dx: Fixed) -> Vec2<Fixed> {
    if x_stopped(g, pos, dx) {
        pos
    } else {
        Vec2 { x: pos.x.plus(dx), y: pos.y }
    }
}

/// The position after a step along y from `pos` by `dy` was tried.
pub open spec fn moved_y(g: Seq<Seq<u8>>, pos: Vec2<Fixed>, dy: Fixed) -> Vec2<Fixed> {
    if y_stopped(g, pos, dy) {
        pos
    } else {
        Vec2 { x: pos.x, y: pos.y.plus(dy) }
    }
}

/// The position after a move from `pos` by `delta` was tried: first along
/// x, then, from where that led, along y.
pub open spec fn moved(g: Seq<Seq<u8>>, pos: Vec2<Fixed>, delta: Vec2<Fixed>) -> Vec2<Fixed> {
    moved_y(g, moved_x(g, pos, delta.x), delta.y)
}

/// The two axes of a move are decided independently.  The step along an
/// axis is made exactly where nothing stops it on that axis, whatever
/// happens on the other; so a move comes to nothing only where each of its
/// steps is stopped or is no step at all.
pub proof fn lemma_move_slides(g: Seq<Seq<u8>>, pos: Vec2<Fixed>, delta: Vec2<Fixed>)
    ensures
        moved(g, pos, delta).x == if x_stopped(g, pos, delta.x) {
            pos.x
        } else {
            pos.x.plus(delta.x)
        },
        moved(g, pos, delta).y == if y_stopped(g, moved_x(g, pos, delta.x), delta.y) {
            pos.y
        } else {
            pos.y.plus(delta.y)
        },
        x_stopped(g, pos, delta.x) ==> moved(g, pos, delta) == moved_y(g, pos, delta.y),
        moved(g, pos, delta) == pos ==> {
            &&& x_stopped(g, pos, delta.x) || pos.x.plus(delta.x) == pos.x
            &&& y_stopped(g, moved_x(g, pos, delta.x), delta.y) || pos.y.plus(delta.y) == pos.y
        },
{
}

/// The position of the player after a move by `axis_delta` was tried.
pub fn try_move(player: &PlayerData, axis_delta: Vec2<Fixed>, map: &GridMap) -> (p: Vec2<Fixed>)
    ensures
        p == moved(map@, player.pos, axis_delta),
{
    let mut pos = player.pos;
    let candidate_x = pos.x + axis_delta.x;
    if !map.blocks(candidate_x.floor(), pos.y.floor()) {
        pos.x = candidate_x;
    }
    let candidate_y = pos.y + axis_delta.y;
    if !map.blocks(pos.x.floor(), candidate_y.floor()) {
        pos.y = candidate_y;
    }
    pos
}

/// Moves the player by `speed` along `direction`, as far as the map lets.
pub fn step_along(player: &mut PlayerData, direction: Vec2<Fixed>, speed: Fixed, map: &GridMap)
    ensures
        *final(player) == (PlayerData {
            pos: moved(map@, old(player).pos, scaled(direction, speed)),
            ..*old(player)
        }),
{
    let delta = direction * speed;
    let pos = try_move(player, delta, map);
    player.pos = pos;
}

} // verus!
