//! The 3x3 tile board: grid positions, tile visibility modes and the
//! board-entry and board-exit choreography of each tile.
//!
//! Tiles rise and fall on a staggered schedule: each tile waits a little
//! longer the further it sits along the diagonal, so the board sweeps in
//! and out instead of moving as one block.

use vstd::prelude::*;

use crate::phases::{Phase, Phases, TimelineModel};

verus! {

/// A square of the 3x3 grid, or the grid-aligned position of a player or
/// laser. Both coordinates range over -1, 0, 1 on the standard board.
#[derive(Clone, Copy, PartialEq, Eq, Structural, Hash, Debug)]
pub struct Position {
    pub x: i32,
    pub y: i32,
}

impl Position {
    pub fn new(x: i32, y: i32) -> (r: Position)
        ensures
            r == (Position { x, y }),
    {
        Position { x, y }
    }

    pub fn from_xy(x: i32, y: i32) -> (r: Position)
        ensures
            r == (Position { x, y }),
    {
        Position::new(x, y)
    }
}

/// Visibility mode of a board tile (also used for the player's and the
/// lasers' entry/exit easing).
#[derive(Clone, Copy, PartialEq, Eq, Structural, Debug)]
pub enum BoardMode {
    Hidden,
    Entering,
    Shown,
    Exiting,
    Waiting,
}

/// The set of grid squares a player may stand on.
#[derive(Clone, Debug)]
pub struct Board {
    pub tiles: Vec<Position>,
}

impl Board {
    /// Whether `position` is a square of this board.
    pub open spec fn contains_spec(self, position: Position) -> bool {
        self.tiles@.contains(position)
    }

    /// Add a square to the board; adding one already present changes
    /// nothing.
    pub fn insert(&mut self, position: Position)
        ensures
            forall|q: Position|
                final(self).contains_spec(q) == (old(self).contains_spec(q) || q == position),
    {
        if !self.contains(&position) {
            self.tiles.push(position);
            proof {
                let pre = old(self).tiles@;
                let post = self.tiles@;
                assert(post == pre.push(position));
                assert forall|q: Position|
                    self.contains_spec(q) == (old(self).contains_spec(q) || q == position) by {
                    if old(self).contains_spec(q) {
                        let i = choose|i: int| 0 <= i < pre.len() && pre[i] == q;
                        assert(post[i] == q);
                        assert(post.contains(q));
                    }
                    if q == position {
                        assert(post[pre.len() as int] == q);
                        assert(post.contains(q));
                    }
                    if self.contains_spec(q) {
                        let i = choose|i: int| 0 <= i < post.len() && post[i] == q;
                        if i < pre.len() {
                            assert(pre[i] == q);
                            assert(pre.contains(q));
                        } else {
                            assert(q == position);
                        }
                    }
                }
            }
        }
    }

    /// Whether `position` is a square of this board.
    pub fn contains(&self, position: &Position) -> (r: bool)
        ensures
            r == self.contains_spec(*position),
    {
        let mut i: usize = 0;
        while i < self.tiles.len()
            invariant
                0 <= i <= self.tiles@.len(),
                forall|j: int| 0 <= j < i ==> self.tiles@[j] != *position,
            decreases self.tiles@.len() - i,
        {
            if self.tiles[i].x == position.x && self.tiles[i].y == position.y {
                assert(self.tiles@[i as int] == *position);
                return true;
            }
            i = i + 1;
        }
        false
    }

    /// The standard board: every square with both coordinates in -1..=1.
    pub fn grid() -> (r: Board)
        ensures
            forall|q: Position|
                r.contains_spec(q) == (-1 <= q.x <= 1 && -1 <= q.y <= 1),
    {
        let mut board = Board { tiles: Vec::new() };
        let mut y: i32 = -1;
        while y <= 1
            invariant
                -1 <= y <= 2,
                forall|q: Position|
                    board.contains_spec(q) == (-1 <= q.x <= 1 && -1 <= q.y < y),
            decreases 2 - y,
        {
            let mut x: i32 = -1;
            while x <= 1
                invariant
                    -1 <= y <= 1,
                    -1 <= x <= 2,
                    forall|q: Position|
                        board.contains_spec(q) == ((-1 <= q.x <= 1 && -1 <= q.y < y) || (-1 <= q.x
                            < x && q.y == y)),
                decreases 2 - x,
            {
                board.insert(Position::new(x, y));
                x = x + 1;
            }
            y = y + 1;
        }
        board
    }
}

impl Default for Board {
    /// An empty board, to be filled square by square at startup.
    fn default() -> (r: Board)
        ensures
            r.tiles@.len() == 0,
    {
        Board { tiles: Vec::new() }
    }
}

/// Diagonal offset of a grid position, which staggers each tile's entry
/// and exit schedule.
pub open spec fn diagonal_offset(position: Position) -> int {
    position.x - position.y
}

/// Entering Setup: seed a tile's timeline with the board-entry
/// choreography — a stagger proportional to the tile's diagonal offset,
/// a one-second rise, then permanently shown.
pub fn enter_setup(phases: &mut Phases<BoardMode>, position: Position)
    requires
        -1 <= position.x <= 1,
        -1 <= position.y <= 1,
    ensures
        final(phases)@ == (TimelineModel {
            seq: seq![
                Phase {
                    mode: BoardMode::Waiting,
                    duration_ms: (400 + 50 * diagonal_offset(position)) as u64,
                },
                Phase { mode: BoardMode::Entering, duration_ms: 1000u64 },
                Phase { mode: BoardMode::Shown, duration_ms: 0u64 },
            ],
            start: 0int,
            progress_num: 0int,
            progress_den: 1int,
            just_reset: true,
            just_transitioned: true,
        }),
{
    let offset = position.x - position.y;
    let wait_ms = (400 + offset * 50) as u64;
    let mut vec: Vec<Phase<BoardMode>> = Vec::new();
    vec.push(Phase { mode: BoardMode::Waiting, duration_ms: wait_ms });
    vec.push(Phase { mode: BoardMode::Entering, duration_ms: 1000 });
    vec.push(Phase { mode: BoardMode::Shown, duration_ms: 0 });
    proof {
        assert(vec@ =~= seq![
            Phase {
                mode: BoardMode::Waiting,
                duration_ms: (400 + 50 * diagonal_offset(position)) as u64,
            },
            Phase { mode: BoardMode::Entering, duration_ms: 1000u64 },
            Phase { mode: BoardMode::Shown, duration_ms: 0u64 },
        ]);
    }
    phases.reset(vec);
}

/// Entering Teardown: seed a tile's timeline with the board-exit
/// choreography — a shorter stagger, a one-second drop, then permanently
/// hidden.
pub fn enter_teardown(phases: &mut Phases<BoardMode>, position: Position)
    requires
        -1 <= position.x <= 1,
        -1 <= position.y <= 1,
    ensures
        final(phases)@ == (TimelineModel {
            seq: seq![
                Phase {
                    mode: BoardMode::Waiting,
                    duration_ms: (100 + 50 * diagonal_offset(position)) as u64,
                },
                Phase { mode: BoardMode::Exiting, duration_ms: 1000u64 },
                Phase { mode: BoardMode::Hidden, duration_ms: 0u64 },
            ],
            start: 0int,
            progress_num: 0int,
            progress_den: 1int,
            just_reset: true,
            just_transitioned: true,
        }),
{
    let offset = position.x - position.y;
    let wait_ms = (100 + offset * 50) as u64;
    let mut vec: Vec<Phase<BoardMode>> = Vec::new();
    vec.push(Phase { mode: BoardMode::Waiting, duration_ms: wait_ms });
    vec.push(Phase { mode: BoardMode::Exiting, duration_ms: 1000 });
    vec.push(Phase { mode: BoardMode::Hidden, duration_ms: 0 });
    proof {
        assert(vec@ =~= seq![
            Phase {
                mode: BoardMode::Waiting,
                duration_ms: (100 + 50 * diagonal_offset(position)) as u64,
            },
            Phase { mode: BoardMode::Exiting, duration_ms: 1000u64 },
            Phase { mode: BoardMode::Hidden, duration_ms: 0u64 },
        ]);
    }
    phases.reset(vec);
}

} // verus!
