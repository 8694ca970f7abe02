//! Whole-session runs: a minimal driver loop around the library, the way
//! an engine would wire it, checking the state machine's full circuit.

use little_mad_trials::board;
use little_mad_trials::board::{Board, BoardMode, Position};
use little_mad_trials::countdown;
use little_mad_trials::countdown::Countdown;
use little_mad_trials::laser;
use little_mad_trials::laser::{Axis, Laser, LaserMode};
use little_mad_trials::phases::{transition, Phases};
use little_mad_trials::player;
use little_mad_trials::player::{Health, Player};
use little_mad_trials::state;
use little_mad_trials::state::{AppState, TransitionRequest};

#[derive(Clone, Copy, Default)]
struct Input {
    confirm: bool,
    right: bool,
}

struct Session {
    state: AppState,
    clock: Countdown,
    request: TransitionRequest,
    board: Board,
    tiles: Vec<(Position, Phases<BoardMode>)>,
    player_position: Position,
    player: Player,
    player_phases: Phases<BoardMode>,
    health: Health,
    lasers: Vec<(Position, Laser, Phases<BoardMode>, Phases<LaserMode>)>,
}

impl Session {
    fn new() -> Session {
        Session::with_lasers(true)
    }

    /// A session without lasers isolates the clock-driven circuit:
    /// nothing can interrupt the run, so it must end in Victory.
    fn with_lasers(armed: bool) -> Session {
        let mut tiles = Vec::new();
        for y in -1..=1 {
            for x in -1..=1 {
                tiles.push((Position::from_xy(x, y), Phases::new(BoardMode::Hidden)));
            }
        }
        let lasers = vec![
            (
                Position::from_xy(0, 0),
                Laser::new(Axis::Vertical, true),
                Phases::new(BoardMode::Hidden),
                Phases::new(LaserMode::Ready),
            ),
            (
                Position::from_xy(0, 1),
                Laser::new(Axis::Horizontal, false),
                Phases::new(BoardMode::Hidden),
                Phases::new(LaserMode::Ready),
            ),
            (
                Position::from_xy(0, 0),
                Laser::new(Axis::Horizontal, false),
                Phases::new(BoardMode::Hidden),
                Phases::new(LaserMode::Ready),
            ),
            (
                Position::from_xy(0, -1),
                Laser::new(Axis::Horizontal, false),
                Phases::new(BoardMode::Hidden),
                Phases::new(LaserMode::Ready),
            ),
        ];
        let lasers = if armed { lasers } else { Vec::new() };
        Session {
            state: AppState::Splash,
            clock: Countdown::new(),
            request: TransitionRequest::new(),
            board: Board::grid(),
            tiles,
            player_position: Position::from_xy(0, 0),
            player: Player::new(),
            player_phases: Phases::new(BoardMode::Hidden),
            health: Health::default(),
            lasers,
        }
    }

    fn enter(&mut self, next: AppState) {
        self.state = next;
        match next {
            AppState::Setup => {
                countdown::enter_setup(&mut self.clock);
                for (position, phases) in &mut self.tiles {
                    board::enter_setup(phases, *position);
                }
                player::enter_setup(
                    &mut self.player_position,
                    &mut self.player,
                    &mut self.player_phases,
                    &mut self.health,
                );
                for (position, laser, board_phases, laser_phases) in &mut self.lasers {
                    laser::enter_setup(position, laser, board_phases, laser_phases);
                }
            }
            AppState::Start => {
                countdown::enter_start(&mut self.clock);
                for (position, laser, board_phases, laser_phases) in &mut self.lasers {
                    laser::enter_start(*position, laser, board_phases, laser_phases);
                }
            }
            AppState::Victory => {
                countdown::enter_victory(&mut self.clock);
                for (_, _, board_phases, laser_phases) in &mut self.lasers {
                    laser::enter_teardown(board_phases, laser_phases);
                }
            }
            AppState::Teardown => {
                countdown::enter_teardown(&mut self.clock);
                for (position, phases) in &mut self.tiles {
                    board::enter_teardown(phases, *position);
                }
                player::enter_teardown(self.player_position, &mut self.player_phases);
                for (_, _, board_phases, laser_phases) in &mut self.lasers {
                    laser::enter_teardown(board_phases, laser_phases);
                }
            }
            AppState::Splash | AppState::Game | AppState::Defeat => {}
        }
    }

    fn tick(&mut self, delta_ms: u64, input: Input) {
        let clock_runs = matches!(
            self.state,
            AppState::Setup | AppState::Game | AppState::Victory | AppState::Teardown
        );
        if clock_runs {
            countdown::countdown(&mut self.clock, delta_ms);
        }
        if matches!(self.state, AppState::Setup | AppState::Game | AppState::Teardown) {
            countdown::transition(&self.clock, &mut self.request);
        }
        for (_, phases) in &mut self.tiles {
            transition(phases, &self.clock);
        }
        transition(&mut self.player_phases, &self.clock);
        for (_, _, board_phases, laser_phases) in &mut self.lasers {
            transition(board_phases, &self.clock);
            transition(laser_phases, &self.clock);
        }
        match self.state {
            AppState::Splash => {
                state::start(self.state, input.confirm, &mut self.request);
            }
            AppState::Start => {
                player::movement(
                    &mut self.player_position,
                    &self.board,
                    input.right,
                    false,
                    false,
                    false,
                );
                player::start_trigger(self.player_position, &mut self.request);
            }
            AppState::Game => {
                player::movement(
                    &mut self.player_position,
                    &self.board,
                    input.right,
                    false,
                    false,
                    false,
                );
                for (position, laser, _, laser_phases) in &mut self.lasers {
                    laser::movement(position, laser, laser_phases, self.player_position);
                }
                let snapshots: Vec<(Position, Laser, Phases<LaserMode>)> = self
                    .lasers
                    .iter()
                    .map(|(position, laser, _, laser_phases)| {
                        (*position, *laser, laser_phases.clone())
                    })
                    .collect();
                laser::attack(&snapshots, self.player_position, &mut self.health);
                player::defeat(&self.health, &mut self.request);
            }
            AppState::Victory | AppState::Defeat => {
                state::restart(self.state, input.confirm, &mut self.request);
            }
            AppState::Setup | AppState::Teardown => {}
        }
        if let Some(next) = self.request.take() {
            if next != self.state {
                self.enter(next);
            }
        }
    }

    fn run(&mut self, frames: usize, input: Input) {
        for _ in 0..frames {
            self.tick(16, input);
        }
    }
}

#[test]
fn surviving_the_run_wins_and_replays() {
    let mut session = Session::with_lasers(false);
    assert_eq!(session.state, AppState::Splash);

    session.tick(16, Input { confirm: true, ..Input::default() });
    assert_eq!(session.state, AppState::Setup);

    // The setup choreography lasts 1.5 s; ride it out.
    session.run(100, Input::default());
    assert_eq!(session.state, AppState::Start);

    // Step off the origin: the run begins.
    session.tick(16, Input { right: true, ..Input::default() });
    assert_eq!(session.state, AppState::Game);
    assert_eq!(session.player_position, Position::from_xy(1, 0));

    // Survive the full 20 s run: the clock's expiry requests Victory,
    // wherever the player stands.
    session.run(1300, Input::default());
    assert_eq!(session.state, AppState::Victory);
    assert!(!session.health.dead);

    // Confirm replays through Teardown and back to Setup.
    session.tick(16, Input { confirm: true, ..Input::default() });
    assert_eq!(session.state, AppState::Teardown);
    session.run(110, Input::default());
    assert_eq!(session.state, AppState::Setup);
}

#[test]
fn standing_in_a_swept_row_loses() {
    let mut session = Session::new();
    session.tick(16, Input { confirm: true, ..Input::default() });
    session.run(100, Input::default());
    assert_eq!(session.state, AppState::Start);

    // Step to (1, 0) and stay. The mobile laser fired its first burst
    // down the origin column before tracking caught up; while resting it
    // re-locks onto the player's column, so its second burst (1.7-1.9 s
    // into the run) sweeps the player's square.
    session.tick(16, Input { right: true, ..Input::default() });
    assert_eq!(session.state, AppState::Game);
    session.run(120, Input::default()); // ~1.9 s
    assert_eq!(session.state, AppState::Defeat);
    assert!(session.health.dead);

    // Confirm replays through Teardown and back to Setup.
    session.tick(16, Input { confirm: true, ..Input::default() });
    assert_eq!(session.state, AppState::Teardown);
    session.run(110, Input::default());
    assert_eq!(session.state, AppState::Setup);
}

#[test]
fn setup_choreography_raises_the_board() {
    let mut session = Session::new();
    session.tick(16, Input { confirm: true, ..Input::default() });
    assert_eq!(session.state, AppState::Setup);
    // Mid-setup, tiles are between Waiting and Entering.
    session.run(40, Input::default()); // 0.64 s
    for (position, phases) in &session.tiles {
        let expected_wait = 400 + 50 * (position.x - position.y) as i64;
        let mode = phases.mode();
        if (0.64 * 1000.0) as i64 >= expected_wait {
            assert!(matches!(mode, BoardMode::Entering));
        } else {
            assert!(matches!(mode, BoardMode::Waiting));
        }
    }
    // After the full 1.5 s the state machine moved on to Start and the
    // tiles keep easing toward Shown on the frozen setup clock.
    session.run(60, Input::default());
    assert_eq!(session.state, AppState::Start);
}
