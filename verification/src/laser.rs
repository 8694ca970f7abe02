//! Lasers: the lanes they occupy, their activity modes, the mobile
//! laser's tracking movement, hit detection, and the choreography each
//! game state seeds into their timelines.

use vstd::prelude::*;

use crate::board::{BoardMode, Position};
use crate::content::{
    lower_laser_board_phases, lower_laser_board_phases_spec, lower_laser_phases,
    lower_laser_phases_spec, middle_laser_board_phases, middle_laser_board_phases_spec,
    middle_laser_phases, middle_laser_phases_spec, mobile_laser_board_phases,
    mobile_laser_board_phases_spec, mobile_laser_phases, mobile_laser_phases_spec,
    upper_laser_board_phases, upper_laser_board_phases_spec, upper_laser_phases,
    upper_laser_phases_spec,
};
use crate::phases::{Phase, Phases, TimelineModel};
use crate::player::Health;

verus! {

/// Which way a laser's beam sweeps the board.
#[derive(Clone, Copy, PartialEq, Eq, Structural, Debug)]
pub enum Axis {
    Horizontal,
    Vertical,
}

/// A laser's activity mode: resting, warning the player, or firing.
#[derive(Clone, Copy, PartialEq, Eq, Structural, Debug)]
pub enum LaserMode {
    Ready,
    Charging,
    Shooting,
}

/// One laser: the axis its beam covers and whether it tracks the player
/// (the single mobile laser) or holds a fixed lane.
#[derive(Clone, Copy, PartialEq, Eq, Structural, Debug)]
pub struct Laser {
    pub axis: Axis,
    pub mobile: bool,
}

impl Laser {
    pub fn new(axis: Axis, mobile: bool) -> (r: Laser)
        ensures
            r == (Laser { axis, mobile }),
    {
        Laser { axis, mobile }
    }
}

/// Whether a laser standing at `laser_position` covers the player's
/// square: a horizontal beam sweeps its whole row, a vertical one its
/// whole column.
pub open spec fn aligned(axis: Axis, laser_position: Position, player_position: Position) -> bool {
    match axis {
        Axis::Horizontal => laser_position.y == player_position.y,
        Axis::Vertical => laser_position.x == player_position.x,
    }
}

/// Whether one laser snapshot (position, laser, activity timeline) kills
/// a player standing at `player_position` this tick.
pub open spec fn hits(
    entry: (Position, Laser, Phases<LaserMode>),
    player_position: Position,
) -> bool {
    entry.2@.seq[0].mode == LaserMode::Shooting && aligned(entry.1.axis, entry.0, player_position)
}

/// While resting, the mobile laser follows the player along its free
/// axis; charging or shooting freezes it, and fixed lasers never move.
pub fn movement(
    position: &mut Position,
    laser: &Laser,
    phases: &Phases<LaserMode>,
    player_position: Position,
)
    requires
        phases@.seq.len() >= 1,
    ensures
        *final(position) == (if laser.mobile && phases@.seq[0].mode == LaserMode::Ready {
            match laser.axis {
                Axis::Horizontal => Position { x: old(position).x, y: player_position.y },
                Axis::Vertical => Position { x: player_position.x, y: old(position).y },
            }
        } else {
            *old(position)
        }),
{
    if laser.mobile && matches!(phases.mode(), LaserMode::Ready) {
        match laser.axis {
            Axis::Horizontal => {
                position.y = player_position.y;
            },
            Axis::Vertical => {
                position.x = player_position.x;
            },
        }
    }
}

/// Hit detection over every laser: the player dies this tick exactly
/// when some laser is shooting and covers the player's square. A death
/// already recorded stays recorded.
pub fn attack(
    lasers: &Vec<(Position, Laser, Phases<LaserMode>)>,
    player_position: Position,
    health: &mut Health,
)
    requires
        forall|i: int| 0 <= i < lasers@.len() ==> lasers@[i].2@.seq.len() >= 1,
    ensures
        final(health).dead == (old(health).dead || exists|i: int|
            0 <= i < lasers@.len() && #[trigger] hits(lasers@[i], player_position)),
{
    let ghost dead0 = health.dead;
    let mut i: usize = 0;
    while i < lasers.len()
        invariant
            0 <= i <= lasers@.len(),
            forall|j: int| 0 <= j < lasers@.len() ==> lasers@[j].2@.seq.len() >= 1,
            health.dead == (dead0 || exists|j: int|
                0 <= j < i && #[trigger] hits(lasers@[j], player_position)),
        decreases lasers@.len() - i,
    {
        let entry = &lasers[i];
        let shooting = matches!(entry.2.mode(), LaserMode::Shooting);
        let covered = match entry.1.axis {
            Axis::Horizontal => entry.0.y == player_position.y,
            Axis::Vertical => entry.0.x == player_position.x,
        };
        if shooting && covered {
            health.dead = true;
            proof {
                assert(hits(lasers@[i as int], player_position));
            }
        }
        i = i + 1;
    }
}

/// Entering Setup: the mobile laser recentres and rides in with the
/// board; fixed lasers stay hidden below it. Every laser rests.
pub fn enter_setup(
    position: &mut Position,
    laser: &Laser,
    board_phases: &mut Phases<BoardMode>,
    laser_phases: &mut Phases<LaserMode>,
)
    ensures
        *final(position) == (if laser.mobile {
            Position { x: 0, y: 0 }
        } else {
            *old(position)
        }),
        final(board_phases)@ == (TimelineModel {
            seq: if laser.mobile {
                seq![
                    Phase { mode: BoardMode::Entering, duration_ms: 1000u64 },
                    Phase { mode: BoardMode::Shown, duration_ms: 0u64 },
                ]
            } else {
                seq![Phase { mode: BoardMode::Hidden, duration_ms: 0u64 }]
            },
            start: 0int,
            progress_num: 0int,
            progress_den: 1int,
            just_reset: true,
            just_transitioned: true,
        }),
        final(laser_phases)@ == (TimelineModel {
            seq: seq![Phase { mode: LaserMode::Ready, duration_ms: 0u64 }],
            start: 0int,
            progress_num: 0int,
            progress_den: 1int,
            just_reset: true,
            just_transitioned: true,
        }),
{
    let mut board_vec: Vec<Phase<BoardMode>> = Vec::new();
    if laser.mobile {
        position.x = 0;
        position.y = 0;
        board_vec.push(Phase { mode: BoardMode::Entering, duration_ms: 1000 });
        board_vec.push(Phase { mode: BoardMode::Shown, duration_ms: 0 });
        proof {
            assert(board_vec@ =~= seq![
                Phase { mode: BoardMode::Entering, duration_ms: 1000u64 },
                Phase { mode: BoardMode::Shown, duration_ms: 0u64 },
            ]);
        }
    } else {
        board_vec.push(Phase { mode: BoardMode::Hidden, duration_ms: 0 });
        proof {
            assert(board_vec@ =~= seq![Phase { mode: BoardMode::Hidden, duration_ms: 0u64 }]);
        }
    }
    board_phases.reset(board_vec);
    let mut laser_vec: Vec<Phase<LaserMode>> = Vec::new();
    laser_vec.push(Phase { mode: LaserMode::Ready, duration_ms: 0 });
    proof {
        assert(laser_vec@ =~= seq![Phase { mode: LaserMode::Ready, duration_ms: 0u64 }]);
    }
    laser_phases.reset(laser_vec);
}

/// Entering Start: install the level script. The mobile laser takes its
/// own tables; a fixed laser takes the pair authored for its lane.
pub fn enter_start(
    position: Position,
    laser: &Laser,
    board_phases: &mut Phases<BoardMode>,
    laser_phases: &mut Phases<LaserMode>,
)
    requires
        !laser.mobile ==> -1 <= position.y <= 1,
    ensures
        final(board_phases)@ == (TimelineModel {
            seq: if laser.mobile {
                mobile_laser_board_phases_spec()
            } else if position.y == 1 {
                upper_laser_board_phases_spec()
            } else if position.y == 0 {
                middle_laser_board_phases_spec()
            } else {
                lower_laser_board_phases_spec()
            },
            start: 0int,
            progress_num: 0int,
            progress_den: 1int,
            just_reset: true,
            just_transitioned: true,
        }),
        final(laser_phases)@ == (TimelineModel {
            seq: if laser.mobile {
                mobile_laser_phases_spec()
            } else if position.y == 1 {
                upper_laser_phases_spec()
            } else if position.y == 0 {
                middle_laser_phases_spec()
            } else {
                lower_laser_phases_spec()
            },
            start: 0int,
            progress_num: 0int,
            progress_den: 1int,
            just_reset: true,
            just_transitioned: true,
        }),
{
    let board_vec = if laser.mobile {
        mobile_laser_board_phases()
    } else if position.y == 1 {
        upper_laser_board_phases()
    } else if position.y == 0 {
        middle_laser_board_phases()
    } else {
        lower_laser_board_phases()
    };
    board_phases.reset(board_vec);
    let laser_vec = if laser.mobile {
        mobile_laser_phases()
    } else if position.y == 1 {
        upper_laser_phases()
    } else if position.y == 0 {
        middle_laser_phases()
    } else {
        lower_laser_phases()
    };
    laser_phases.reset(laser_vec);
}

/// Entering Victory or Teardown: every laser's lane glides out and its
/// turret returns to rest.
pub fn enter_teardown(
    board_phases: &mut Phases<BoardMode>,
    laser_phases: &mut Phases<LaserMode>,
)
    ensures
        final(board_phases)@ == (TimelineModel {
            seq: seq![
                Phase { mode: BoardMode::Exiting, duration_ms: 1000u64 },
                Phase { mode: BoardMode::Hidden, duration_ms: 0u64 },
            ],
            start: 0int,
            progress_num: 0int,
            progress_den: 1int,
            just_reset: true,
            just_transitioned: true,
        }),
        final(laser_phases)@ == (TimelineModel {
            seq: seq![Phase { mode: LaserMode::Ready, duration_ms: 0u64 }],
            start: 0int,
            progress_num: 0int,
            progress_den: 1int,
            just_reset: true,
            just_transitioned: true,
        }),
{
    let mut board_vec: Vec<Phase<BoardMode>> = Vec::new();
    board_vec.push(Phase { mode: BoardMode::Exiting, duration_ms: 1000 });
    board_vec.push(Phase { mode: BoardMode::Hidden, duration_ms: 0 });
    proof {
        assert(board_vec@ =~= seq![
            Phase { mode: BoardMode::Exiting, duration_ms: 1000u64 },
            Phase { mode: BoardMode::Hidden, duration_ms: 0u64 },
        ]);
    }
    board_phases.reset(board_vec);
    let mut laser_vec: Vec<Phase<LaserMode>> = Vec::new();
    laser_vec.push(Phase { mode: LaserMode::Ready, duration_ms: 0 });
    proof {
        assert(laser_vec@ =~= seq![Phase { mode: LaserMode::Ready, duration_ms: 0u64 }]);
    }
    laser_phases.reset(laser_vec);
}

} // verus!
