//! The player: grid movement, round-start colour pick, survival state
//! and the transitions it triggers.

use vstd::prelude::*;

use crate::board;
use crate::board::{Board, BoardMode, Position};
use crate::phases::{Phase, Phases, TimelineModel};
use crate::state::{AppState, TransitionRequest};

verus! {

/// How many alive-player colours the palette offers.
pub const COLOR_COUNT: usize = 5;

/// Whether the player has been hit this round.
#[derive(Clone, Copy, Debug)]
pub struct Health {
    pub dead: bool,
}

impl Default for Health {
    /// A fresh round starts with the player alive.
    fn default() -> (r: Health)
        ensures
            !r.dead,
    {
        Health { dead: false }
    }
}

/// The player's round-to-round appearance: which palette colour the cube
/// currently wears.
#[derive(Clone, Copy, Debug)]
pub struct Player {
    pub color: usize,
}

impl Player {
    pub fn new() -> (r: Player)
        ensures
            r.color == 0,
    {
        Player { color: 0 }
    }
}

/// Relies on fastrand::usize: a uniformly random value in the given
/// range; panics only when the range is empty.
#[verifier::external_body]
fn random_below(bound: usize) -> (r: usize)
    requires
        1 <= bound,
    ensures
        r < bound,
{
    fastrand::usize(..bound)
}

/// Map a draw from the remaining palette onto a colour other than the
/// current one: draws below the current colour name themselves, the rest
/// shift up by one to skip it.
pub fn pick_other_color(current: usize, draw: usize) -> (r: usize)
    requires
        current < COLOR_COUNT,
        draw < COLOR_COUNT - 1,
    ensures
        r < COLOR_COUNT,
        r != current,
{
    if draw < current {
        draw
    } else {
        draw + 1
    }
}

/// Draw a fresh colour for the next round, always different from the
/// one just worn.
pub fn next_color(current: usize) -> (r: usize)
    requires
        current < COLOR_COUNT,
    ensures
        r < COLOR_COUNT,
        r != current,
{
    let draw = random_below(COLOR_COUNT - 1);
    pick_other_color(current, draw)
}

/// Entering Setup: the player returns to the origin square, alive, in a
/// newly drawn colour, and eases in just ahead of the surrounding tiles.
pub fn enter_setup(
    position: &mut Position,
    player: &mut Player,
    phases: &mut Phases<BoardMode>,
    health: &mut Health,
)
    requires
        old(player).color < COLOR_COUNT,
    ensures
        *final(position) == (Position { x: 0, y: 0 }),
        final(player).color < COLOR_COUNT,
        final(player).color != old(player).color,
        !final(health).dead,
        final(phases)@ == (TimelineModel {
            seq: seq![
                Phase { mode: BoardMode::Waiting, duration_ms: 400u64 },
                Phase { mode: BoardMode::Entering, duration_ms: 1000u64 },
                Phase { mode: BoardMode::Shown, duration_ms: 0u64 },
            ],
            start: 0int,
            progress_num: 0int,
            progress_den: 1int,
            just_reset: true,
            just_transitioned: true,
        }),
{
    position.x = 0;
    position.y = 0;
    let mut vec: Vec<Phase<BoardMode>> = Vec::new();
    vec.push(Phase { mode: BoardMode::Waiting, duration_ms: 400 });
    vec.push(Phase { mode: BoardMode::Entering, duration_ms: 1000 });
    vec.push(Phase { mode: BoardMode::Shown, duration_ms: 0 });
    proof {
        assert(vec@ =~= seq![
            Phase { mode: BoardMode::Waiting, duration_ms: 400u64 },
            Phase { mode: BoardMode::Entering, duration_ms: 1000u64 },
            Phase { mode: BoardMode::Shown, duration_ms: 0u64 },
        ]);
    }
    phases.reset(vec);
    player.color = next_color(player.color);
    health.dead = false;
}

/// Entering Teardown: the player sinks away on the same staggered
/// schedule as the tile it stands on.
pub fn enter_teardown(position: Position, phases: &mut Phases<BoardMode>)
    requires
        -1 <= position.x <= 1,
        -1 <= position.y <= 1,
    ensures
        final(phases)@ == (TimelineModel {
            seq: seq![
                Phase {
                    mode: BoardMode::Waiting,
                    duration_ms: (100 + 50 * board::diagonal_offset(position)) as u64,
                },
                Phase { mode: BoardMode::Exiting, duration_ms: 1000u64 },
                Phase { mode: BoardMode::Hidden, duration_ms: 0u64 },
            ],
            start: 0int,
            progress_num: 0int,
            progress_den: 1int,
            just_reset: true,
            just_transitioned: true,
        }),
{
    board::enter_teardown(phases, position);
}

/// One frame of grid movement: combine the four direction keys into a
/// step and take it only onto a square the board has. Opposite keys
/// cancel out; no key pressed means no move.
pub fn movement(
    position: &mut Position,
    board: &Board,
    right: bool,
    left: bool,
    up: bool,
    down: bool,
)
    requires
        i32::MIN < old(position).x < i32::MAX,
        i32::MIN < old(position).y < i32::MAX,
    ensures
        ({
            let dx: int = (if right {
                1int
            } else {
                0int
            }) - (if left {
                1int
            } else {
                0int
            });
            let dy: int = (if up {
                1int
            } else {
                0int
            }) - (if down {
                1int
            } else {
                0int
            });
            let target = Position { x: (old(position).x + dx) as i32, y: (old(position).y + dy) as i32 };
            *final(position) == if dx == 0 && dy == 0 {
                *old(position)
            } else if board.contains_spec(target) {
                target
            } else {
                *old(position)
            }
        }),
{
    let mut dx: i32 = 0;
    if right {
        dx = dx + 1;
    }
    if left {
        dx = dx - 1;
    }
    let mut dy: i32 = 0;
    if up {
        dy = dy + 1;
    }
    if down {
        dy = dy - 1;
    }
    if dx == 0 && dy == 0 {
        return ;
    }
    let target = Position::new(position.x + dx, position.y + dy);
    if board.contains(&target) {
        position.x = target.x;
        position.y = target.y;
    }
}

/// The level begins the moment the player steps off the origin square.
pub fn start_trigger(position: Position, request: &mut TransitionRequest)
    ensures
        final(request).pending == if position != (Position { x: 0, y: 0 }) {
            Some(AppState::Game)
        } else {
            old(request).pending
        },
{
    if position.x != 0 || position.y != 0 {
        request.request(AppState::Game);
    }
}

/// A hit this round requests the defeat state.
pub fn defeat(health: &Health, request: &mut TransitionRequest)
    ensures
        final(request).pending == if health.dead {
            Some(AppState::Defeat)
        } else {
            old(request).pending
        },
{
    if health.dead {
        request.request(AppState::Defeat);
    }
}

} // verus!
