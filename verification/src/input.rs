//! What the keys and the events of a frame do to the player and to the
//! settings.
//!
//! Nothing is read from a device here.  Whoever owns the window hands over
//! the keys that are held down and the events that have come in, and gets
//! back what to do to the mouse.

use crate::data::{rotated, scaled, EndGame, GameData, PlayerData, Vec2};
use crate::fixed::{Fixed, ONE};
use crate::map::GridMap;
use crate::movement::{moved, step_along};
use vstd::prelude::*;

verus! {

/// How many cells the player walks in a second.
pub const WALK_SPEED: i32 = 3;

/// How many pixels the view tilts in a second.
pub const LOOK_SPEED: i32 = 100;

/// A key of the keyboard, as far as it matters.
#[derive(Clone, Copy, Debug, PartialEq, Eq, Structural)]
pub enum Key {
    Escape,
    M,
    T,
    Other,
}

/// A button of the mouse, as far as it matters.
#[derive(Clone, Copy, Debug, PartialEq, Eq, Structural)]
pub enum MouseButton {
    Right,
    Other,
}

/// Something that came in from the window.
#[derive(Clone, Copy, Debug, PartialEq, Eq, Structural)]
pub enum InputEvent {
    /// The window is to be closed.
    Quit,
    /// A key went down.
    KeyDown(Key),
    /// A button of the mouse went down.
    MouseButtonDown(MouseButton),
    /// The mouse is now at `(x, y)` in the window.
    MouseMotion { x: i32, y: i32 },
    /// Anything else.
    Other,
}

/// The movement keys that are held down.
#[derive(Clone, Copy, Debug, PartialEq, Eq, Structural)]
pub struct Keys {
    pub strafe_left: bool,
    pub strafe_right: bool,
    pub forward: bool,
    pub backward: bool,
}

/// The time that a frame stands for, and the turns that go with it.
#[derive(Clone, Copy, Debug, PartialEq, Eq, Structural)]
pub struct Tick {
    /// The seconds since the frame before.
    pub delta_time: Fixed,
    /// Cosine and sine of the angle by which the mouse turns the player to
    /// the left in this frame.
    pub turn_cos: Fixed,
    pub turn_sin: Fixed,
    /// Cosine and sine of the angle from the heading to the direction of a
    /// step to the right.
    pub strafe_cos: Fixed,
    pub strafe_sin: Fixed,
}

/// Something to do to the mouse.
#[derive(Clone, Copy, Debug, PartialEq, Eq, Structural)]
pub enum Action {
    /// Show the cursor and let it go if it is hidden and held; hide it and
    /// hold it in the window if not.
    ToggleCursor,
    /// Put the mouse at `(x, y)` in the window.
    WarpMouse { x: i32, y: i32 },
}

/// What came of the input of a frame.
pub struct InputOutcome {
    /// Whether the frame loop has to end.
    pub end: EndGame,
    /// What to do to the mouse, in this order.
    pub actions: Vec<Action>,
    /// Whether the cursor shows once that is done.
    pub cursor_showing: bool,
}

/// The state that events act on.
pub struct Session {
    pub player: PlayerData,
    pub game: GameData,
    pub cursor_showing: bool,
    pub actions: Seq<Action>,
    pub ended: bool,
}

/// `1`, `0` or `-1` as `v` is above, at or below zero.
pub open spec fn sign(v: int) -> int {
    if v > 0 {
        1
    } else if v < 0 {
        -1
    } else {
        0
    }
}

/// The value nearest to `v` that an `i32` can hold.
pub open spec fn saturate_i32(v: int) -> int {
    if v < i32::MIN {
        i32::MIN as int
    } else if v > i32::MAX {
        i32::MAX as int
    } else {
        v
    }
}

/// The distance that the player walks in the frame.
pub open spec fn walk_speed(tick: Tick) -> Fixed {
    (Fixed { raw: (WALK_SPEED * ONE) as i64 }).times(tick.delta_time)
}

/// The whole pixels that the view tilts in the frame.
pub open spec fn look_step(tick: Tick) -> int {
    (Fixed { raw: (LOOK_SPEED * ONE) as i64 }).times(tick.delta_time).spec_floor()
}

/// `v` turned by the angle of the frame: to the left for a positive `s`, to
/// the right for a negative one, not at all for zero.
pub open spec fn turned(v: Vec2<Fixed>, tick: Tick, s: int) -> Vec2<Fixed> {
    if s > 0 {
        rotated(v, tick.turn_cos, tick.turn_sin)
    } else if s < 0 {
        rotated(v, tick.turn_cos, tick.turn_sin.negated())
    } else {
        v
    }
}

/// The vertical look `ver` tilted by the step of the frame: up for a
/// positive `s`, down for a negative one.  It stays within the `i32` range.
pub open spec fn tilted(ver: i32, tick: Tick, s: int) -> i32 {
    if s > 0 {
        saturate_i32(ver + look_step(tick)) as i32
    } else if s < 0 {
        saturate_i32(ver - look_step(tick)) as i32
    } else {
        ver
    }
}

/// The player after the movement keys had their way.  A step to the side
/// comes first, to the left rather than to the right where both keys are
/// down; then a step forward or, where the forward key is not down, back.
pub open spec fn after_keys(g: Seq<Seq<u8>>, player: PlayerData, keys: Keys, tick: Tick) -> PlayerData {
    let speed = walk_speed(tick);
    let left = rotated(player.dir, tick.strafe_cos, tick.strafe_sin.negated());
    let right = rotated(player.dir, tick.strafe_cos, tick.strafe_sin);
    let side = if keys.strafe_left {
        moved(g, player.pos, scaled(left, speed))
    } else if keys.strafe_right {
        moved(g, player.pos, scaled(right, speed))
    } else {
        player.pos
    };
    let pos = if keys.forward {
        moved(g, side, scaled(player.dir, speed))
    } else if keys.backward {
        moved(g, side, scaled(player.dir, speed.negated()))
    } else {
        side
    };
    PlayerData { pos, ..player }
}

/// Whether an event ends the frame loop.
pub open spec fn ends(e: InputEvent) -> bool {
    e == InputEvent::Quit || e == InputEvent::KeyDown(Key::Escape)
}

/// The middle of the window.
pub open spec fn centre(game: GameData) -> Vec2<i32> {
    Vec2 { x: (game.width / 2) as i32, y: (game.height / 2) as i32 }
}

/// The session after an event that does not end the frame loop.
pub open spec fn after_event(s: Session, tick: Tick, e: InputEvent) -> Session {
    match e {
        InputEvent::KeyDown(Key::M) => Session {
            game: GameData { map_view: !s.game.map_view, ..s.game },
            ..s
        },
        InputEvent::KeyDown(Key::T) => Session {
            game: GameData { textured: !s.game.textured, ..s.game },
            player: PlayerData { ver: 0, ..s.player },
            ..s
        },
        InputEvent::MouseButtonDown(MouseButton::Right) => Session {
            cursor_showing: !s.cursor_showing,
            actions: s.actions.push(Action::ToggleCursor),
            ..s
        },
        InputEvent::MouseMotion { x, y } => if s.cursor_showing {
            s
        } else if s.game.mouse_set {
            Session { game: GameData { mouse_set: false, ..s.game }, ..s }
        } else {
            let to_left = sign(s.game.last_mouse_pos.x - x);
            let up = sign(y - s.game.last_mouse_pos.y);
            let mid = centre(s.game);
            Session {
                player: PlayerData {
                    dir: turned(s.player.dir, tick, to_left),
                    cam: turned(s.player.cam, tick, to_left),
                    ver: tilted(s.player.ver, tick, up),
                    ..s.player
                },
                game: GameData { last_mouse_pos: mid, mouse_set: true, ..s.game },
                actions: s.actions.push(Action::WarpMouse { x: mid.x, y: mid.y }),
                ..s
            }
        },
        _ => s,
    }
}

/// The session after a run of events, first to last.  The first event that
/// ends the frame loop marks the session as ended, and no event after it
/// has any effect.
pub open spec fn after_events(s: Session, tick: Tick, events: Seq<InputEvent>) -> Session
    decreases events.len(),
{
    if events.len() == 0 {
        s
    } else {
        let before = after_events(s, tick, events.drop_last());
        if before.ended {
            before
        } else if ends(events.last()) {
            Session { ended: true, ..before }
        } else {
            after_event(before, tick, events.last())
        }
    }
}

/// Once a run of events has ended the session, more events change nothing.
pub proof fn lemma_ended_stays(s: Session, tick: Tick, events: Seq<InputEvent>, n: int)
    requires
        0 <= n <= events.len(),
        after_events(s, tick, events.subrange(0, n)).ended,
    ensures
        after_events(s, tick, events) == after_events(s, tick, events.subrange(0, n)),
    decreases events.len() - n,
{
    if n == events.len() {
        assert(events.subrange(0, n) =~= events);
    } else {
        assert(events.subrange(0, n + 1).drop_last() =~= events.subrange(0, n));
        lemma_ended_stays(s, tick, events, n + 1);
    }
}

/// `1`, `0` or `-1` as `v` is above, at or below zero.
fn sign_of(v: i64) -> (s: i8)
    ensures
        s == sign(v as int),
{
    if v > 0 {
        1
    } else if v < 0 {
        -1
    } else {
        0
    }
}

/// Turns `v` by the angle of the frame.
fn turn(v: &mut Vec2<Fixed>, tick: &Tick, s: i8)
    ensures
        *final(v) == turned(*old(v), *tick, s as int),
{
    if s > 0 {
        v.rotate(tick.turn_cos, tick.turn_sin);
    } else if s < 0 {
        v.rotate(tick.turn_cos, tick.turn_sin.negate());
    }
}

/// Tilts the vertical look `ver` by the step of the frame.
fn tilt(ver: i32, tick: &Tick, s: i8) -> (r: i32)
    ensures
        r == tilted(ver, *tick, s as int),
{
    let step = (Fixed::from_int(LOOK_SPEED) * tick.delta_time).floor();
    let wide: i64 = if s > 0 {
        ver as i64 + step
    } else if s < 0 {
        ver as i64 - step
    } else {
        ver as i64
    };
    if wide > i32::MAX as i64 {
        i32::MAX
    } else if wide < i32::MIN as i64 {
        i32::MIN
    } else {
        wide as i32
    }
}

/// Moves the player as the movement keys ask.
pub fn apply_keys(player: &mut PlayerData, keys: &Keys, tick: &Tick, map: &GridMap)
    ensures
        *final(player) == after_keys(map@, *old(player), *keys, *tick),
{
    let speed = Fixed::from_int(WALK_SPEED) * tick.delta_time;
    let heading = player.dir;
    if keys.strafe_left {
        let mut left = heading;
        left.rotate(tick.strafe_cos, tick.strafe_sin.negate());
        step_along(player, left, speed, map);
    } else if keys.strafe_right {
        let mut right = heading;
        right.rotate(tick.strafe_cos, tick.strafe_sin);
        step_along(player, right, speed, map);
    }
    if keys.forward {
        step_along(player, heading, speed, map);
    } else if keys.backward {
        step_along(player, heading, speed.negate(), map);
    }
}

/// Takes the input of a frame: moves the player as the keys ask, then
/// handles the events in their order, up to the first that ends the frame
/// loop.
///
/// `cursor_showing` says whether the cursor shows when the frame begins.
pub fn player_input(
    player: &mut PlayerData,
    game_data: &mut GameData,
    keys: &Keys,
    events: &Vec<InputEvent>,
    cursor_showing: bool,
    tick: &Tick,
    map: &GridMap,
) -> (out: InputOutcome)
    ensures
        ({
            let start = Session {
                player: after_keys(map@, *old(player), *keys, *tick),
                game: *old(game_data),
                cursor_showing,
                actions: Seq::empty(),
                ended: false,
            };
            let end = after_events(start, *tick, events@);
            &&& *final(player) == end.player
            &&& *final(game_data) == end.game
            &&& out.cursor_showing == end.cursor_showing
            &&& out.actions@ == end.actions
            &&& out.end == EndGame(end.ended)
        }),
{
    apply_keys(player, keys, tick, map);
    let ghost start = Session {
        player: *player,
        game: *game_data,
        cursor_showing,
        actions: Seq::empty(),
        ended: false,
    };
    let mut cursor = cursor_showing;
    let mut actions: Vec<Action> = Vec::new();
    let mut i: usize = 0;
    assert(events@.subrange(0, 0) =~= Seq::<InputEvent>::empty());
    while i < events.len()
        invariant
            i <= events.len(),
            start == (Session {
                player: after_keys(map@, *old(player), *keys, *tick),
                game: *old(game_data),
                cursor_showing,
                actions: Seq::empty(),
                ended: false,
            }),
            after_events(start, *tick, events@.subrange(0, i as int)) == (Session {
                player: *player,
                game: *game_data,
                cursor_showing: cursor,
                actions: actions@,
                ended: false,
            }),
        decreases events.len() - i,
    {
        let event = events[i];
        proof {
            assert(events@.subrange(0, i + 1).drop_last() =~= events@.subrange(0, i as int));
            assert(events@.subrange(0, i + 1).last() == event);
        }
        match event {
            InputEvent::Quit | InputEvent::KeyDown(Key::Escape) => {
                proof {
                    let upto = events@.subrange(0, i + 1);
                    assert(ends(upto.last()));
                    assert(!after_events(start, *tick, upto.drop_last()).ended);
                    assert(after_events(start, *tick, upto).ended);
                    lemma_ended_stays(start, *tick, events@, i + 1);
                }
                return InputOutcome { end: EndGame(true), actions, cursor_showing: cursor };
            },
            InputEvent::KeyDown(Key::M) => {
                game_data.map_view = !game_data.map_view;
            },
            InputEvent::KeyDown(Key::T) => {
                game_data.textured = !game_data.textured;
                player.ver = 0;
            },
            InputEvent::MouseButtonDown(MouseButton::Right) => {
                cursor = !cursor;
                actions.push(Action::ToggleCursor);
            },
            InputEvent::MouseMotion { x, y } => {
                if cursor {
                } else if game_data.mouse_set {
                    game_data.mouse_set = false;
                } else {
                    let to_left = sign_of(game_data.last_mouse_pos.x as i64 - x as i64);
                    let up = sign_of(y as i64 - game_data.last_mouse_pos.y as i64);
                    let mut dir = player.dir;
                    let mut cam = player.cam;
                    turn(&mut dir, tick, to_left);
                    turn(&mut cam, tick, to_left);
                    player.dir = dir;
                    player.cam = cam;
                    player.ver = tilt(player.ver, tick, up);
                    let half_width = (game_data.width / 2) as i32;
                    let half_height = (game_data.height / 2) as i32;
                    actions.push(Action::WarpMouse { x: half_width, y: half_height });
                    game_data.last_mouse_pos = Vec2::new(half_width, half_height);
                    game_data.mouse_set = true;
                }
            },
            _ => {},
        }
        i = i + 1;
    }
    assert(events@.subrange(0, i as int) =~= events@);
    InputOutcome { end: EndGame(false), actions, cursor_showing: cursor }
}

} // verus!
