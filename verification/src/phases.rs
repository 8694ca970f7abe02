//! Per-entity phase timelines and the per-tick transition algorithm.
//!
//! A timeline is an ordered list of (mode, duration) phases; the front
//! phase is current. Each tick the transition algorithm compares the
//! shared clock's absolute elapsed time against the current phase's end,
//! pops at most one expired phase, and recomputes the fractional progress
//! of the (possibly new) current phase. Using absolute clock time rather
//! than per-tick deltas keeps every timeline exactly in sync regardless
//! of tick-rate jitter.
//!
//! The last phase of a timeline never pops, whatever its duration; by
//! convention it has duration zero, so its progress reads as complete.
//! Once the clock is finished, a timeline's effective clock time freezes
//! at the current segment's end, which drains the remaining phases one
//! per tick and then holds the final phase without error.

use vstd::prelude::*;

use crate::countdown::Countdown;

verus! {

/// One (mode, duration) segment of a timeline. A duration of zero marks
/// either an instantaneous marker phase or, in last position, the
/// timeline's permanent final state.
#[derive(Clone, Copy, PartialEq, Eq, Debug)]
pub struct Phase<T> {
    /// The subsystem-specific mode this phase selects.
    pub mode: T,
    /// How long the phase lasts once current, in milliseconds.
    pub duration_ms: u64,
}

impl<T> Phase<T> {
    pub fn new(mode: T, duration_ms: u64) -> (r: Phase<T>)
        ensures
            r == (Phase { mode, duration_ms }),
    {
        Phase { mode, duration_ms }
    }
}

/// Combined running time of a phase sequence, in milliseconds.
pub open spec fn total_ms<T>(s: Seq<Phase<T>>) -> int
    decreases s.len(),
{
    if s.len() == 0 {
        0
    } else {
        s[0].duration_ms + total_ms(s.drop_first())
    }
}

/// Appending a phase adds exactly its duration to the total.
pub proof fn lemma_total_push<T>(s: Seq<Phase<T>>, p: Phase<T>)
    ensures
        total_ms(s.push(p)) == total_ms(s) + p.duration_ms,
    decreases s.len(),
{
    if s.len() == 0 {
        assert(s.push(p)[0] == p);
        assert(s.push(p).drop_first() =~= Seq::<Phase<T>>::empty());
        assert(total_ms(Seq::<Phase<T>>::empty()) == 0);
        assert(total_ms(s.push(p)) == p.duration_ms + total_ms(s.push(p).drop_first()));
    } else {
        lemma_total_push(s.drop_first(), p);
        assert(s.push(p)[0] == s[0]);
        assert(s.push(p).drop_first() =~= s.drop_first().push(p));
        assert(total_ms(s.push(p)) == s[0].duration_ms + total_ms(s.push(p).drop_first()));
        assert(total_ms(s) == s[0].duration_ms + total_ms(s.drop_first()));
    }
}

/// Durations are unsigned, so no sequence has a negative total.
pub proof fn lemma_total_nonneg<T>(s: Seq<Phase<T>>)
    ensures
        total_ms(s) >= 0,
    decreases s.len(),
{
    if s.len() > 0 {
        lemma_total_nonneg(s.drop_first());
    }
}

/// A sequence's total is the total of any prefix plus that of the rest.
pub proof fn lemma_total_split<T>(s: Seq<Phase<T>>, i: int)
    requires
        0 <= i <= s.len(),
    ensures
        total_ms(s) == total_ms(s.take(i)) + total_ms(s.skip(i)),
    decreases i,
{
    if i == 0 {
        assert(s.take(0) =~= Seq::<Phase<T>>::empty());
        assert(s.skip(0) =~= s);
    } else {
        lemma_total_split(s, i - 1);
        assert(s.take(i) =~= s.take(i - 1).push(s[i - 1]));
        lemma_total_push(s.take(i - 1), s[i - 1]);
        assert(s.skip(i - 1)[0] == s[i - 1]);
        assert(s.skip(i - 1).drop_first() =~= s.skip(i));
    }
}

/// Fractional completion of the current phase, held as the exact ratio
/// `num / den` with `0 <= num <= den` and `den >= 1`, so values range
/// over [0, 1] without floating point.
#[derive(Clone, Copy, PartialEq, Eq, Structural, Debug)]
pub struct Progress {
    pub num: u64,
    pub den: u64,
}

impl Progress {
    pub open spec fn wf(self) -> bool {
        1 <= self.den && self.num <= self.den
    }

    /// Progress at the start of a phase.
    pub fn zero() -> (r: Progress)
        ensures
            r == (Progress { num: 0, den: 1 }),
    {
        Progress { num: 0, den: 1 }
    }

    /// Progress of a completed (or zero-duration) phase.
    pub fn one() -> (r: Progress)
        ensures
            r == (Progress { num: 1, den: 1 }),
    {
        Progress { num: 1, den: 1 }
    }
}

/// The mathematical model of a timeline: its phase sequence, the clock
/// time at which the current phase began, the current phase's progress
/// ratio, and the two one-tick edge flags.
#[verifier::ext_equal]
pub struct TimelineModel<T> {
    pub seq: Seq<Phase<T>>,
    pub start: int,
    pub progress_num: int,
    pub progress_den: int,
    pub just_reset: bool,
    pub just_transitioned: bool,
}

impl<T> TimelineModel<T> {
    /// A timeline always has a current phase, a non-negative segment
    /// start, and a progress ratio within [0, 1].
    pub open spec fn wf(self) -> bool {
        &&& self.seq.len() >= 1
        &&& self.start >= 0
        &&& 1 <= self.progress_den
        &&& 0 <= self.progress_num <= self.progress_den
    }

    /// Clock time at which the current phase ends.
    pub open spec fn seg_end(self) -> int {
        self.start + self.seq[0].duration_ms
    }

    /// The clock time the timeline sees this tick: the raw elapsed time
    /// while the clock runs, frozen at the segment end once it finished.
    pub open spec fn effective_now(self, clock: Countdown) -> int {
        if clock.is_finished() {
            self.seg_end()
        } else {
            clock.elapsed_ms as int
        }
    }

    /// Whether a tick against `clock` pops the current phase: the
    /// effective time reached the segment end and a later phase exists.
    pub open spec fn pops(self, clock: Countdown) -> bool {
        self.seq.len() > 1 && self.effective_now(clock) >= self.seg_end()
    }
}

/// One tick of the transition algorithm, as a function on models.
///
/// The edge flags age first: a just-reset timeline drops its reset flag,
/// any other drops its transitioned flag. A timeline already in its
/// final phase then changes nothing else. Otherwise at most one expired
/// phase pops (the segment start advancing by exactly its duration) and
/// the progress ratio of the now-current phase is recomputed from the
/// effective clock time, clamped to [0, 1]; a zero-duration phase reads
/// as complete.
pub open spec fn transition_model<T>(m: TimelineModel<T>, clock: Countdown) -> TimelineModel<T> {
    let aged_transitioned = if m.just_reset {
        m.just_transitioned
    } else {
        false
    };
    if m.seq.len() <= 1 {
        TimelineModel { just_reset: false, just_transitioned: aged_transitioned, ..m }
    } else {
        let eff = m.effective_now(clock);
        let popped = eff >= m.seg_end();
        let seq1 = if popped {
            m.seq.drop_first()
        } else {
            m.seq
        };
        let start1 = if popped {
            m.seg_end()
        } else {
            m.start
        };
        let d = seq1[0].duration_ms as int;
        let in_seg = if eff >= start1 {
            eff - start1
        } else {
            0
        };
        TimelineModel {
            seq: seq1,
            start: start1,
            progress_num: if d == 0 {
                1
            } else if in_seg >= d {
                d
            } else {
                in_seg
            },
            progress_den: if d == 0 {
                1
            } else {
                d
            },
            just_reset: false,
            just_transitioned: popped || aged_transitioned,
        }
    }
}

/// A tick preserves a timeline's well-formedness: the sequence stays
/// non-empty and the progress ratio stays within [0, 1].
pub proof fn lemma_transition_wf<T>(m: TimelineModel<T>, clock: Countdown)
    requires
        m.wf(),
    ensures
        transition_model(m, clock).wf(),
{
}

/// A single tick pops at most one phase from a timeline: the sequence
/// either stays as it is or loses exactly its front phase, however far
/// the clock advanced.
pub proof fn lemma_at_most_one_pop<T>(m: TimelineModel<T>, clock: Countdown)
    requires
        m.wf(),
    ensures
        m.pops(clock) ==> transition_model(m, clock).seq == m.seq.drop_first(),
        !m.pops(clock) ==> transition_model(m, clock).seq == m.seq,
        transition_model(m, clock).seq.len() >= m.seq.len() - 1,
        transition_model(m, clock).seq.len() >= 1,
{
}

/// Once a timeline is down to its final phase, further ticks are
/// idempotent: sequence, segment start and progress never change again;
/// only the edge flags age away.
pub proof fn lemma_final_phase_stable<T>(m: TimelineModel<T>, clock: Countdown)
    requires
        m.seq.len() == 1,
    ensures
        transition_model(m, clock).seq == m.seq,
        transition_model(m, clock).start == m.start,
        transition_model(m, clock).progress_num == m.progress_num,
        transition_model(m, clock).progress_den == m.progress_den,
{
}

/// The reset flag is a one-tick edge: whatever state a timeline is in,
/// it never survives a transition call.
pub proof fn lemma_reset_flag_one_shot<T>(m: TimelineModel<T>, clock: Countdown)
    ensures
        !transition_model(m, clock).just_reset,
{
}

/// Once the clock has finished, a timeline's effective time freezes at
/// each segment's end: every further tick drains exactly one phase, so
/// the remaining choreography winds down one step per tick and can never
/// pop forever.
pub proof fn lemma_finished_clock_drains<T>(m: TimelineModel<T>, clock: Countdown)
    requires
        m.wf(),
        clock.is_finished(),
        m.seq.len() > 1,
    ensures
        transition_model(m, clock).seq.len() == m.seq.len() - 1,
        transition_model(m, clock).start == m.seg_end(),
{
}

/// A zero-duration phase reads as complete the moment it becomes
/// current; in particular a timeline arriving at a zero-duration final
/// phase reports full progress.
pub proof fn lemma_zero_duration_reads_complete<T>(m: TimelineModel<T>, clock: Countdown)
    requires
        m.wf(),
        m.seq.len() > 1,
        transition_model(m, clock).seq[0].duration_ms == 0,
    ensures
        transition_model(m, clock).progress_num == transition_model(m, clock).progress_den,
{
}

/// Within one phase segment, progress is non-decreasing: across two
/// successive ticks of a monotone clock (same run, elapsed time only
/// growing), if the second tick does not pop a phase then it keeps the
/// progress denominator and never lowers the numerator.
pub proof fn lemma_progress_monotonic<T>(m: TimelineModel<T>, c1: Countdown, c2: Countdown)
    requires
        m.wf(),
        c1.wf(),
        c2.wf(),
        c1.duration_ms == c2.duration_ms,
        c1.elapsed_ms <= c2.elapsed_ms,
        transition_model(transition_model(m, c1), c2).seq == transition_model(m, c1).seq,
    ensures
        transition_model(transition_model(m, c1), c2).progress_den == transition_model(
            m,
            c1,
        ).progress_den,
        transition_model(transition_model(m, c1), c2).progress_num >= transition_model(
            m,
            c1,
        ).progress_num,
{
    let m1 = transition_model(m, c1);
    let m2 = transition_model(m1, c2);
    if m.seq.len() > 1 && m1.seq.len() > 1 {
        assert(m2.seq.len() == m1.seq.len());
        assert(!m1.pops(c2));
        assert(!c2.is_finished());
        assert(!c1.is_finished() || m.pops(c1));
    }
}

/// A per-entity phase timeline: the ordered phase list (front = current),
/// the clock time at which the current phase began, the current phase's
/// progress, and one-tick edge flags for one-shot reactions.
#[derive(Clone, Debug)]
pub struct Phases<T> {
    pub vec: Vec<Phase<T>>,
    pub start_ms: u64,
    pub progress: Progress,
    pub just_reset: bool,
    pub just_transitioned: bool,
}

impl<T> View for Phases<T> {
    type V = TimelineModel<T>;

    open spec fn view(&self) -> TimelineModel<T> {
        TimelineModel {
            seq: self.vec@,
            start: self.start_ms as int,
            progress_num: self.progress.num as int,
            progress_den: self.progress.den as int,
            just_reset: self.just_reset,
            just_transitioned: self.just_transitioned,
        }
    }
}

impl<T> Phases<T> {
    /// A timeline holding a single zero-duration placeholder phase: the
    /// entity sits in `base` mode until a reset installs choreography.
    pub fn new(base: T) -> (r: Phases<T>)
        ensures
            r@ == (TimelineModel {
                seq: seq![Phase { mode: base, duration_ms: 0u64 }],
                start: 0int,
                progress_num: 0int,
                progress_den: 1int,
                just_reset: true,
                just_transitioned: true,
            }),
            r@.wf(),
    {
        let mut vec: Vec<Phase<T>> = Vec::new();
        vec.push(Phase { mode: base, duration_ms: 0 });
        let r = Phases {
            vec,
            start_ms: 0,
            progress: Progress::zero(),
            just_reset: true,
            just_transitioned: true,
        };
        proof {
            assert(r@.seq =~= seq![Phase { mode: base, duration_ms: 0u64 }]);
            assert(r@ =~= (TimelineModel {
                seq: seq![Phase { mode: base, duration_ms: 0u64 }],
                start: 0int,
                progress_num: 0int,
                progress_den: 1int,
                just_reset: true,
                just_transitioned: true,
            }));
        }
        r
    }

    /// Replace the choreography wholesale: install a new phase list,
    /// zero the segment start and progress, and raise both edge flags.
    /// Called by the owning system the moment a state transition is
    /// entered, alongside the clock reset.
    pub fn reset(&mut self, vec: Vec<Phase<T>>)
        requires
            vec@.len() >= 1,
        ensures
            final(self)@ == (TimelineModel {
                seq: vec@,
                start: 0int,
                progress_num: 0int,
                progress_den: 1int,
                just_reset: true,
                just_transitioned: true,
            }),
            final(self)@.wf(),
    {
        self.vec = vec;
        self.start_ms = 0;
        self.progress = Progress::zero();
        self.just_reset = true;
        self.just_transitioned = true;
        proof {
            assert(self@ =~= (TimelineModel {
                seq: self.vec@,
                start: 0int,
                progress_num: 0int,
                progress_den: 1int,
                just_reset: true,
                just_transitioned: true,
            }));
        }
    }
}

impl<T: Copy> Phases<T> {
    /// The current mode: that of the front phase. An empty timeline is an
    /// invariant violation, excluded by the precondition.
    pub fn mode(&self) -> (r: T)
        requires
            self@.seq.len() >= 1,
        ensures
            r == self@.seq[0].mode,
    {
        self.vec[0].mode
    }
}

/// One tick of the transition algorithm on a live timeline; the exec
/// counterpart of [`transition_model`], applied to every entity's
/// timeline after the shared clock has advanced.
pub fn transition<T>(phases: &mut Phases<T>, countdown: &Countdown)
    requires
        old(phases)@.wf(),
        old(phases)@.seq.len() > 1 ==> old(phases)@.seg_end() <= u64::MAX,
    ensures
        final(phases)@ == transition_model(old(phases)@, *countdown),
        final(phases)@.wf(),
        final(phases)@.seq.len() >= old(phases)@.seq.len() - 1,
{
    if phases.just_reset {
        phases.just_reset = false;
    } else {
        phases.just_transitioned = false;
    }
    if phases.vec.len() <= 1 {
        proof {
            assert(phases@ =~= transition_model(old(phases)@, *countdown));
        }
        return ;
    }
    let seg_end = phases.start_ms + phases.vec[0].duration_ms;
    let effective_now = if countdown.finished() {
        seg_end
    } else {
        countdown.elapsed_ms
    };
    if effective_now >= seg_end {
        phases.start_ms = seg_end;
        phases.vec.remove(0);
        phases.just_transitioned = true;
        proof {
            assert(phases.vec@ =~= old(phases).vec@.drop_first());
        }
    }
    let new_duration = phases.vec[0].duration_ms;
    let elapsed_in_segment = if effective_now >= phases.start_ms {
        effective_now - phases.start_ms
    } else {
        0
    };
    phases.progress = if new_duration == 0 {
        Progress::one()
    } else {
        Progress {
            num: if elapsed_in_segment >= new_duration {
                new_duration
            } else {
                elapsed_in_segment
            },
            den: new_duration,
        }
    };
    proof {
        assert(phases@ =~= transition_model(old(phases)@, *countdown));
    }
}

} // verus!
