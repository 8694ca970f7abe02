//! The level script: hand-authored phase tables for each archetype and
//! lane, plus the consistency check that keeps them aligned.
//!
//! Every laser activity table sums to exactly the run length, so each
//! timeline reaches its zero-duration final phase together with the
//! clock's expiry; every paired board visibility table runs one exit
//! glide longer. A desynchronized pair would only show up as a silent
//! visual mismatch (a tile risen with no laser active, or the reverse),
//! so [`lane_consistent`] checks the alignment up front instead.

use vstd::prelude::*;

use crate::board::BoardMode;
use crate::countdown::RUN_MS;
use crate::laser::LaserMode;
use crate::phases::{lemma_total_nonneg, lemma_total_push, lemma_total_split, total_ms, Phase};

verus! {

/// Extra time past the run's end covered by each board table: the exit
/// glide a lane's tile performs while the level winds down.
pub const EXIT_MS: u64 = 1000;

/// Append one phase, tracking the table's running total.
fn push_phase<T>(vec: &mut Vec<Phase<T>>, mode: T, duration_ms: u64)
    ensures
        final(vec)@ == old(vec)@.push(Phase { mode, duration_ms }),
        total_ms(final(vec)@) == total_ms(old(vec)@) + duration_ms,
{
    proof {
        lemma_total_push(vec@, Phase { mode, duration_ms });
    }
    vec.push(Phase { mode, duration_ms });
}

/// The mobile laser's lane stays shown for the whole run, then glides out.
pub open spec fn mobile_laser_board_phases_spec() -> Seq<Phase<BoardMode>> {
    seq![
        Phase { mode: BoardMode::Shown, duration_ms: 20000u64 },
        Phase { mode: BoardMode::Exiting, duration_ms: 1000u64 },
        Phase { mode: BoardMode::Hidden, duration_ms: 0u64 },
    ]
}

/// Board visibility table paired with the mobile laser.
pub fn mobile_laser_board_phases() -> (r: Vec<Phase<BoardMode>>)
    ensures
        r@ == mobile_laser_board_phases_spec(),
        total_ms(r@) == RUN_MS + EXIT_MS,
        r@.len() == 3,
        r@.last().duration_ms == 0,
{
    let mut vec: Vec<Phase<BoardMode>> = Vec::new();
    push_phase(&mut vec, BoardMode::Shown, 20000);  // 20000
    push_phase(&mut vec, BoardMode::Exiting, 1000);  // 21000
    push_phase(&mut vec, BoardMode::Hidden, 0);  // 21000
    proof {
        assert(vec@ =~= mobile_laser_board_phases_spec());
    }
    vec
}

/// The mobile laser fires five rounds of bursts with shrinking rests.
pub open spec fn mobile_laser_phases_spec() -> Seq<Phase<LaserMode>> {
    seq![
        // first round
        Phase { mode: LaserMode::Charging, duration_ms: 200u64 },
        Phase { mode: LaserMode::Shooting, duration_ms: 200u64 },
        Phase { mode: LaserMode::Ready, duration_ms: 800u64 },
        Phase { mode: LaserMode::Charging, duration_ms: 500u64 },
        Phase { mode: LaserMode::Shooting, duration_ms: 200u64 },
        Phase { mode: LaserMode::Ready, duration_ms: 800u64 },
        Phase { mode: LaserMode::Charging, duration_ms: 500u64 },
        Phase { mode: LaserMode::Shooting, duration_ms: 200u64 },
        Phase { mode: LaserMode::Ready, duration_ms: 1000u64 },
        // second round
        Phase { mode: LaserMode::Charging, duration_ms: 500u64 },
        Phase { mode: LaserMode::Shooting, duration_ms: 200u64 },
        Phase { mode: LaserMode::Ready, duration_ms: 800u64 },
        Phase { mode: LaserMode::Charging, duration_ms: 500u64 },
        Phase { mode: LaserMode::Shooting, duration_ms: 200u64 },
        Phase { mode: LaserMode::Ready, duration_ms: 800u64 },
        Phase { mode: LaserMode::Charging, duration_ms: 500u64 },
        Phase { mode: LaserMode::Shooting, duration_ms: 200u64 },
        Phase { mode: LaserMode::Ready, duration_ms: 1000u64 },
        // third round
        Phase { mode: LaserMode::Charging, duration_ms: 500u64 },
        Phase { mode: LaserMode::Shooting, duration_ms: 200u64 },
        Phase { mode: LaserMode::Ready, duration_ms: 300u64 },
        Phase { mode: LaserMode::Charging, duration_ms: 500u64 },
        Phase { mode: LaserMode::Shooting, duration_ms: 200u64 },
        Phase { mode: LaserMode::Ready, duration_ms: 300u64 },
        Phase { mode: LaserMode::Charging, duration_ms: 500u64 },
        Phase { mode: LaserMode::Shooting, duration_ms: 200u64 },
        Phase { mode: LaserMode::Ready, duration_ms: 1000u64 },
        // fourth round
        Phase { mode: LaserMode::Charging, duration_ms: 500u64 },
        Phase { mode: LaserMode::Shooting, duration_ms: 200u64 },
        Phase { mode: LaserMode::Ready, duration_ms: 300u64 },
        Phase { mode: LaserMode::Charging, duration_ms: 500u64 },
        Phase { mode: LaserMode::Shooting, duration_ms: 200u64 },
        Phase { mode: LaserMode::Ready, duration_ms: 300u64 },
        Phase { mode: LaserMode::Charging, duration_ms: 500u64 },
        Phase { mode: LaserMode::Shooting, duration_ms: 200u64 },
        Phase { mode: LaserMode::Ready, duration_ms: 1000u64 },
        // fifth round
        Phase { mode: LaserMode::Charging, duration_ms: 500u64 },
        Phase { mode: LaserMode::Shooting, duration_ms: 200u64 },
        Phase { mode: LaserMode::Ready, duration_ms: 0u64 },
        Phase { mode: LaserMode::Charging, duration_ms: 500u64 },
        Phase { mode: LaserMode::Shooting, duration_ms: 200u64 },
        Phase { mode: LaserMode::Ready, duration_ms: 0u64 },
        Phase { mode: LaserMode::Charging, duration_ms: 500u64 },
        Phase { mode: LaserMode::Shooting, duration_ms: 200u64 },
        Phase { mode: LaserMode::Ready, duration_ms: 0u64 },
        Phase { mode: LaserMode::Charging, duration_ms: 500u64 },
        Phase { mode: LaserMode::Shooting, duration_ms: 200u64 },
        Phase { mode: LaserMode::Ready, duration_ms: 0u64 },
        Phase { mode: LaserMode::Charging, duration_ms: 500u64 },
        Phase { mode: LaserMode::Shooting, duration_ms: 200u64 },
        // final
        Phase { mode: LaserMode::Ready, duration_ms: 0u64 },
    ]
}

/// Activity table of the mobile laser.
pub fn mobile_laser_phases() -> (r: Vec<Phase<LaserMode>>)
    ensures
        r@ == mobile_laser_phases_spec(),
        total_ms(r@) == RUN_MS,
        r@.len() == 51,
        r@.last().duration_ms == 0,
{
    let mut vec: Vec<Phase<LaserMode>> = Vec::new();
    // first round (0)
    push_phase(&mut vec, LaserMode::Charging, 200);  // 200
    push_phase(&mut vec, LaserMode::Shooting, 200);  // 400
    push_phase(&mut vec, LaserMode::Ready, 800);  // 1200
    push_phase(&mut vec, LaserMode::Charging, 500);  // 1700
    push_phase(&mut vec, LaserMode::Shooting, 200);  // 1900
    push_phase(&mut vec, LaserMode::Ready, 800);  // 2700
    push_phase(&mut vec, LaserMode::Charging, 500);  // 3200
    push_phase(&mut vec, LaserMode::Shooting, 200);  // 3400
    push_phase(&mut vec, LaserMode::Ready, 1000);  // 4400
    // second round (4400)
    push_phase(&mut vec, LaserMode::Charging, 500);  // 4900
    push_phase(&mut vec, LaserMode::Shooting, 200);  // 5100
    push_phase(&mut vec, LaserMode::Ready, 800);  // 5900
    push_phase(&mut vec, LaserMode::Charging, 500);  // 6400
    push_phase(&mut vec, LaserMode::Shooting, 200);  // 6600
    push_phase(&mut vec, LaserMode::Ready, 800);  // 7400
    push_phase(&mut vec, LaserMode::Charging, 500);  // 7900
    push_phase(&mut vec, LaserMode::Shooting, 200);  // 8100
    push_phase(&mut vec, LaserMode::Ready, 1000);  // 9100
    // third round (9100)
    push_phase(&mut vec, LaserMode::Charging, 500);  // 9600
    push_phase(&mut vec, LaserMode::Shooting, 200);  // 9800
    push_phase(&mut vec, LaserMode::Ready, 300);  // 10100
    push_phase(&mut vec, LaserMode::Charging, 500);  // 10600
    push_phase(&mut vec, LaserMode::Shooting, 200);  // 10800
    push_phase(&mut vec, LaserMode::Ready, 300);  // 11100
    push_phase(&mut vec, LaserMode::Charging, 500);  // 11600
    push_phase(&mut vec, LaserMode::Shooting, 200);  // 11800
    push_phase(&mut vec, LaserMode::Ready, 1000);  // 12800
    // fourth round (12800)
    push_phase(&mut vec, LaserMode::Charging, 500);  // 13300
    push_phase(&mut vec, LaserMode::Shooting, 200);  // 13500
    push_phase(&mut vec, LaserMode::Ready, 300);  // 13800
    push_phase(&mut vec, LaserMode::Charging, 500);  // 14300
    push_phase(&mut vec, LaserMode::Shooting, 200);  // 14500
    push_phase(&mut vec, LaserMode::Ready, 300);  // 14800
    push_phase(&mut vec, LaserMode::Charging, 500);  // 15300
    push_phase(&mut vec, LaserMode::Shooting, 200);  // 15500
    push_phase(&mut vec, LaserMode::Ready, 1000);  // 16500
    // fifth round (16500)
    push_phase(&mut vec, LaserMode::Charging, 500);  // 17000
    push_phase(&mut vec, LaserMode::Shooting, 200);  // 17200
    push_phase(&mut vec, LaserMode::Ready, 0);  // 17200
    push_phase(&mut vec, LaserMode::Charging, 500);  // 17700
    push_phase(&mut vec, LaserMode::Shooting, 200);  // 17900
    push_phase(&mut vec, LaserMode::Ready, 0);  // 17900
    push_phase(&mut vec, LaserMode::Charging, 500);  // 18400
    push_phase(&mut vec, LaserMode::Shooting, 200);  // 18600
    push_phase(&mut vec, LaserMode::Ready, 0);  // 18600
    push_phase(&mut vec, LaserMode::Charging, 500);  // 19100
    push_phase(&mut vec, LaserMode::Shooting, 200);  // 19300
    push_phase(&mut vec, LaserMode::Ready, 0);  // 19300
    push_phase(&mut vec, LaserMode::Charging, 500);  // 19800
    push_phase(&mut vec, LaserMode::Shooting, 200);  // 20000
    // final (20000)
    push_phase(&mut vec, LaserMode::Ready, 0);  // 20000
    proof {
        assert(vec@ =~= mobile_laser_phases_spec());
    }
    vec
}

/// The upper lane's tile rises for the second and fourth rounds.
pub open spec fn upper_laser_board_phases_spec() -> Seq<Phase<BoardMode>> {
    seq![
        Phase { mode: BoardMode::Hidden, duration_ms: 3400u64 },
        Phase { mode: BoardMode::Entering, duration_ms: 1000u64 },
        Phase { mode: BoardMode::Shown, duration_ms: 3700u64 },
        Phase { mode: BoardMode::Exiting, duration_ms: 1000u64 },
        Phase { mode: BoardMode::Hidden, duration_ms: 2700u64 },
        Phase { mode: BoardMode::Entering, duration_ms: 1000u64 },
        Phase { mode: BoardMode::Shown, duration_ms: 7200u64 },
        Phase { mode: BoardMode::Exiting, duration_ms: 1000u64 },
        Phase { mode: BoardMode::Hidden, duration_ms: 0u64 },
    ]
}

/// Board visibility table paired with the upper fixed laser.
pub fn upper_laser_board_phases() -> (r: Vec<Phase<BoardMode>>)
    ensures
        r@ == upper_laser_board_phases_spec(),
        total_ms(r@) == RUN_MS + EXIT_MS,
        r@.len() == 9,
        r@.last().duration_ms == 0,
{
    let mut vec: Vec<Phase<BoardMode>> = Vec::new();
    push_phase(&mut vec, BoardMode::Hidden, 3400);  // 3400
    push_phase(&mut vec, BoardMode::Entering, 1000);  // 4400
    push_phase(&mut vec, BoardMode::Shown, 3700);  // 8100
    push_phase(&mut vec, BoardMode::Exiting, 1000);  // 9100
    push_phase(&mut vec, BoardMode::Hidden, 2700);  // 11800
    push_phase(&mut vec, BoardMode::Entering, 1000);  // 12800
    push_phase(&mut vec, BoardMode::Shown, 7200);  // 20000
    push_phase(&mut vec, BoardMode::Exiting, 1000);  // 21000
    push_phase(&mut vec, BoardMode::Hidden, 0);  // 21000
    proof {
        assert(vec@ =~= upper_laser_board_phases_spec());
    }
    vec
}

/// The upper fixed laser fires in the second round and holds a long final shot.
pub open spec fn upper_laser_phases_spec() -> Seq<Phase<LaserMode>> {
    seq![
        // first round
        Phase { mode: LaserMode::Ready, duration_ms: 4400u64 },
        // second round
        Phase { mode: LaserMode::Charging, duration_ms: 500u64 },
        Phase { mode: LaserMode::Shooting, duration_ms: 200u64 },
        Phase { mode: LaserMode::Ready, duration_ms: 2300u64 },
        Phase { mode: LaserMode::Charging, duration_ms: 500u64 },
        Phase { mode: LaserMode::Shooting, duration_ms: 200u64 },
        Phase { mode: LaserMode::Ready, duration_ms: 4700u64 },
        // fourth round
        Phase { mode: LaserMode::Charging, duration_ms: 500u64 },
        Phase { mode: LaserMode::Shooting, duration_ms: 200u64 },
        Phase { mode: LaserMode::Ready, duration_ms: 1300u64 },
        Phase { mode: LaserMode::Charging, duration_ms: 500u64 },
        Phase { mode: LaserMode::Shooting, duration_ms: 4700u64 },
        // final
        Phase { mode: LaserMode::Ready, duration_ms: 0u64 },
    ]
}

/// Activity table of the upper fixed laser.
pub fn upper_laser_phases() -> (r: Vec<Phase<LaserMode>>)
    ensures
        r@ == upper_laser_phases_spec(),
        total_ms(r@) == RUN_MS,
        r@.len() == 13,
        r@.last().duration_ms == 0,
{
    let mut vec: Vec<Phase<LaserMode>> = Vec::new();
    // first round (0)
    push_phase(&mut vec, LaserMode::Ready, 4400);  // 4400
    // second round (4400)
    push_phase(&mut vec, LaserMode::Charging, 500);  // 4900
    push_phase(&mut vec, LaserMode::Shooting, 200);  // 5100
    push_phase(&mut vec, LaserMode::Ready, 2300);  // 7400
    push_phase(&mut vec, LaserMode::Charging, 500);  // 7900
    push_phase(&mut vec, LaserMode::Shooting, 200);  // 8100
    push_phase(&mut vec, LaserMode::Ready, 4700);  // 12800
    // fourth round (12800)
    push_phase(&mut vec, LaserMode::Charging, 500);  // 13300
    push_phase(&mut vec, LaserMode::Shooting, 200);  // 13500
    push_phase(&mut vec, LaserMode::Ready, 1300);  // 14800
    push_phase(&mut vec, LaserMode::Charging, 500);  // 15300
    push_phase(&mut vec, LaserMode::Shooting, 4700);  // 20000
    // final (20000)
    push_phase(&mut vec, LaserMode::Ready, 0);  // 20000
    proof {
        assert(vec@ =~= upper_laser_phases_spec());
    }
    vec
}

/// The middle lane's tile shows briefly in the second round and again in the fourth.
pub open spec fn middle_laser_board_phases_spec() -> Seq<Phase<BoardMode>> {
    seq![
        Phase { mode: BoardMode::Hidden, duration_ms: 4900u64 },
        Phase { mode: BoardMode::Entering, duration_ms: 1000u64 },
        Phase { mode: BoardMode::Shown, duration_ms: 700u64 },
        Phase { mode: BoardMode::Exiting, duration_ms: 1000u64 },
        Phase { mode: BoardMode::Hidden, duration_ms: 4200u64 },
        Phase { mode: BoardMode::Entering, duration_ms: 1000u64 },
        Phase { mode: BoardMode::Shown, duration_ms: 2700u64 },
        Phase { mode: BoardMode::Exiting, duration_ms: 1000u64 },
        Phase { mode: BoardMode::Hidden, duration_ms: 4500u64 },
        Phase { mode: BoardMode::Hidden, duration_ms: 0u64 },
    ]
}

/// Board visibility table paired with the middle fixed laser.
pub fn middle_laser_board_phases() -> (r: Vec<Phase<BoardMode>>)
    ensures
        r@ == middle_laser_board_phases_spec(),
        total_ms(r@) == RUN_MS + EXIT_MS,
        r@.len() == 10,
        r@.last().duration_ms == 0,
{
    let mut vec: Vec<Phase<BoardMode>> = Vec::new();
    push_phase(&mut vec, BoardMode::Hidden, 4900);  // 4900
    push_phase(&mut vec, BoardMode::Entering, 1000);  // 5900
    push_phase(&mut vec, BoardMode::Shown, 700);  // 6600
    push_phase(&mut vec, BoardMode::Exiting, 1000);  // 7600
    push_phase(&mut vec, BoardMode::Hidden, 4200);  // 11800
    push_phase(&mut vec, BoardMode::Entering, 1000);  // 12800
    push_phase(&mut vec, BoardMode::Shown, 2700);  // 15500
    push_phase(&mut vec, BoardMode::Exiting, 1000);  // 16500
    push_phase(&mut vec, BoardMode::Hidden, 4500);  // 21000
    push_phase(&mut vec, BoardMode::Hidden, 0);  // 21000
    proof {
        assert(vec@ =~= middle_laser_board_phases_spec());
    }
    vec
}

/// The middle fixed laser fires once in the second round and twice in the fourth.
pub open spec fn middle_laser_phases_spec() -> Seq<Phase<LaserMode>> {
    seq![
        // first round
        Phase { mode: LaserMode::Ready, duration_ms: 4400u64 },
        Phase { mode: LaserMode::Ready, duration_ms: 1500u64 },
        // second round
        Phase { mode: LaserMode::Charging, duration_ms: 500u64 },
        Phase { mode: LaserMode::Shooting, duration_ms: 200u64 },
        Phase { mode: LaserMode::Ready, duration_ms: 6200u64 },
        // fourth round
        Phase { mode: LaserMode::Charging, duration_ms: 500u64 },
        Phase { mode: LaserMode::Shooting, duration_ms: 200u64 },
        Phase { mode: LaserMode::Ready, duration_ms: 300u64 },
        Phase { mode: LaserMode::Charging, duration_ms: 500u64 },
        Phase { mode: LaserMode::Shooting, duration_ms: 200u64 },
        Phase { mode: LaserMode::Ready, duration_ms: 5500u64 },
        // final
        Phase { mode: LaserMode::Ready, duration_ms: 0u64 },
    ]
}

/// Activity table of the middle fixed laser.
pub fn middle_laser_phases() -> (r: Vec<Phase<LaserMode>>)
    ensures
        r@ == middle_laser_phases_spec(),
        total_ms(r@) == RUN_MS,
        r@.len() == 12,
        r@.last().duration_ms == 0,
{
    let mut vec: Vec<Phase<LaserMode>> = Vec::new();
    // first round (0)
    push_phase(&mut vec, LaserMode::Ready, 4400);  // 4400
    push_phase(&mut vec, LaserMode::Ready, 1500);  // 5900
    // second round (5900)
    push_phase(&mut vec, LaserMode::Charging, 500);  // 6400
    push_phase(&mut vec, LaserMode::Shooting, 200);  // 6600
    push_phase(&mut vec, LaserMode::Ready, 6200);  // 12800
    // fourth round (12800)
    push_phase(&mut vec, LaserMode::Charging, 500);  // 13300
    push_phase(&mut vec, LaserMode::Shooting, 200);  // 13500
    push_phase(&mut vec, LaserMode::Ready, 300);  // 13800
    push_phase(&mut vec, LaserMode::Charging, 500);  // 14300
    push_phase(&mut vec, LaserMode::Shooting, 200);  // 14500
    push_phase(&mut vec, LaserMode::Ready, 5500);  // 20000
    // final (20000)
    push_phase(&mut vec, LaserMode::Ready, 0);  // 20000
    proof {
        assert(vec@ =~= middle_laser_phases_spec());
    }
    vec
}

/// The lower lane's tile rises for the second and fourth rounds.
pub open spec fn lower_laser_board_phases_spec() -> Seq<Phase<BoardMode>> {
    seq![
        Phase { mode: BoardMode::Hidden, duration_ms: 3400u64 },
        Phase { mode: BoardMode::Entering, duration_ms: 1000u64 },
        Phase { mode: BoardMode::Shown, duration_ms: 3700u64 },
        Phase { mode: BoardMode::Exiting, duration_ms: 1000u64 },
        Phase { mode: BoardMode::Hidden, duration_ms: 3700u64 },
        Phase { mode: BoardMode::Entering, duration_ms: 1000u64 },
        Phase { mode: BoardMode::Shown, duration_ms: 6200u64 },
        Phase { mode: BoardMode::Exiting, duration_ms: 1000u64 },
        Phase { mode: BoardMode::Hidden, duration_ms: 0u64 },
    ]
}

/// Board visibility table paired with the lower fixed laser.
pub fn lower_laser_board_phases() -> (r: Vec<Phase<BoardMode>>)
    ensures
        r@ == lower_laser_board_phases_spec(),
        total_ms(r@) == RUN_MS + EXIT_MS,
        r@.len() == 9,
        r@.last().duration_ms == 0,
{
    let mut vec: Vec<Phase<BoardMode>> = Vec::new();
    push_phase(&mut vec, BoardMode::Hidden, 3400);  // 3400
    push_phase(&mut vec, BoardMode::Entering, 1000);  // 4400
    push_phase(&mut vec, BoardMode::Shown, 3700);  // 8100
    push_phase(&mut vec, BoardMode::Exiting, 1000);  // 9100
    push_phase(&mut vec, BoardMode::Hidden, 3700);  // 12800
    push_phase(&mut vec, BoardMode::Entering, 1000);  // 13800
    push_phase(&mut vec, BoardMode::Shown, 6200);  // 20000
    push_phase(&mut vec, BoardMode::Exiting, 1000);  // 21000
    push_phase(&mut vec, BoardMode::Hidden, 0);  // 21000
    proof {
        assert(vec@ =~= lower_laser_board_phases_spec());
    }
    vec
}

/// The lower fixed laser rests through round one, then mirrors the upper one a beat later.
pub open spec fn lower_laser_phases_spec() -> Seq<Phase<LaserMode>> {
    seq![
        // first round
        Phase { mode: LaserMode::Ready, duration_ms: 4400u64 },
        // second round
        Phase { mode: LaserMode::Charging, duration_ms: 500u64 },
        Phase { mode: LaserMode::Shooting, duration_ms: 200u64 },
        Phase { mode: LaserMode::Ready, duration_ms: 2300u64 },
        Phase { mode: LaserMode::Charging, duration_ms: 500u64 },
        Phase { mode: LaserMode::Shooting, duration_ms: 200u64 },
        Phase { mode: LaserMode::Ready, duration_ms: 4700u64 },
        // fourth round
        Phase { mode: LaserMode::Ready, duration_ms: 1000u64 },
        Phase { mode: LaserMode::Charging, duration_ms: 500u64 },
        Phase { mode: LaserMode::Shooting, duration_ms: 200u64 },
        Phase { mode: LaserMode::Ready, duration_ms: 300u64 },
        Phase { mode: LaserMode::Charging, duration_ms: 500u64 },
        Phase { mode: LaserMode::Shooting, duration_ms: 4700u64 },
        // final
        Phase { mode: LaserMode::Ready, duration_ms: 0u64 },
    ]
}

/// Activity table of the lower fixed laser.
pub fn lower_laser_phases() -> (r: Vec<Phase<LaserMode>>)
    ensures
        r@ == lower_laser_phases_spec(),
        total_ms(r@) == RUN_MS,
        r@.len() == 14,
        r@.last().duration_ms == 0,
{
    let mut vec: Vec<Phase<LaserMode>> = Vec::new();
    // first round (0)
    push_phase(&mut vec, LaserMode::Ready, 4400);  // 4400
    // second round (4400)
    push_phase(&mut vec, LaserMode::Charging, 500);  // 4900
    push_phase(&mut vec, LaserMode::Shooting, 200);  // 5100
    push_phase(&mut vec, LaserMode::Ready, 2300);  // 7400
    push_phase(&mut vec, LaserMode::Charging, 500);  // 7900
    push_phase(&mut vec, LaserMode::Shooting, 200);  // 8100
    push_phase(&mut vec, LaserMode::Ready, 4700);  // 12800
    // fourth round (12800)
    push_phase(&mut vec, LaserMode::Ready, 1000);  // 13800
    push_phase(&mut vec, LaserMode::Charging, 500);  // 14300
    push_phase(&mut vec, LaserMode::Shooting, 200);  // 14500
    push_phase(&mut vec, LaserMode::Ready, 300);  // 14800
    push_phase(&mut vec, LaserMode::Charging, 500);  // 15300
    push_phase(&mut vec, LaserMode::Shooting, 4700);  // 20000
    // final (20000)
    push_phase(&mut vec, LaserMode::Ready, 0);  // 20000
    proof {
        assert(vec@ =~= lower_laser_phases_spec());
    }
    vec
}

/// Total running time of a table, in milliseconds.
pub fn table_total<T>(table: &Vec<Phase<T>>) -> (r: u64)
    requires
        total_ms(table@) <= u64::MAX,
    ensures
        r == total_ms(table@),
{
    let mut total: u64 = 0;
    let mut i: usize = 0;
    proof {
        assert(table@.take(0) =~= Seq::<Phase<T>>::empty());
    }
    while i < table.len()
        invariant
            0 <= i <= table@.len(),
            total == total_ms(table@.take(i as int)),
            total_ms(table@) <= u64::MAX,
        decreases table@.len() - i,
    {
        proof {
            assert(table@.take(i + 1) =~= table@.take(i as int).push(table@[i as int]));
            lemma_total_push(table@.take(i as int), table@[i as int]);
            lemma_total_split(table@, i + 1);
            lemma_total_nonneg(table@.skip(i + 1));
        }
        total = total + table[i].duration_ms;
        i = i + 1;
    }
    proof {
        assert(table@.take(table@.len() as int) =~= table@);
    }
    total
}

/// The cross-table consistency check of one lane: its activity table
/// must cover exactly the run length, its board table exactly one exit
/// glide more, and both must close with a zero-duration final phase.
pub fn lane_consistent(board: &Vec<Phase<BoardMode>>, laser: &Vec<Phase<LaserMode>>) -> (r: bool)
    requires
        total_ms(board@) <= u64::MAX,
        total_ms(laser@) <= u64::MAX,
    ensures
        r == (board@.len() >= 1 && laser@.len() >= 1 && board@.last().duration_ms == 0
            && laser@.last().duration_ms == 0 && total_ms(laser@) == RUN_MS && total_ms(board@)
            == RUN_MS + EXIT_MS),
{
    if board.len() == 0 || laser.len() == 0 {
        return false;
    }
    let board_total = table_total(board);
    let laser_total = table_total(laser);
    board[board.len() - 1].duration_ms == 0 && laser[laser.len() - 1].duration_ms == 0
        && laser_total == RUN_MS && board_total == RUN_MS + EXIT_MS
}

} // verus!
