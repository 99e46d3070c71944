//! The animation clock: maps elapsed wall-clock time since the start of the
//! current loop iteration to a discrete frame index within the active
//! looping sequence, resetting the loop whenever elapsed time runs past the
//! final frame.

use vstd::prelude::*;
use vstd::arithmetic::div_mod::{lemma_basic_div, lemma_div_by_multiple, lemma_div_is_ordered};

verus! {

/// Selector for one of the character's named animation sequences.
#[derive(Clone, Copy, PartialEq, Eq, Structural, Debug)]
pub enum SequenceId {
    Idle,
    Run,
    Attack,
}

/// The frame counts of the character's animation sequences. All sequences
/// are non-empty (`wf`), so a frame index for any of them exists.
#[derive(Clone, Copy, PartialEq, Eq, Structural, Debug)]
pub struct SequenceSet {
    pub idle_len: usize,
    pub run_len: usize,
    pub attack_len: usize,
}

impl SequenceSet {
    /// Every sequence holds at least one frame.
    pub open spec fn wf(self) -> bool {
        self.idle_len >= 1 && self.run_len >= 1 && self.attack_len >= 1
    }

    /// Length of the sequence named by `id`.
    pub open spec fn spec_len_of(self, id: SequenceId) -> usize {
        match id {
            SequenceId::Idle => self.idle_len,
            SequenceId::Run => self.run_len,
            SequenceId::Attack => self.attack_len,
        }
    }

    /// Length of the sequence named by `id`.
    pub fn len_of(&self, id: SequenceId) -> (n: usize)
        ensures
            n == self.spec_len_of(id),
    {
        match id {
            SequenceId::Idle => self.idle_len,
            SequenceId::Run => self.run_len,
            SequenceId::Attack => self.attack_len,
        }
    }
}

/// The raw frame index: how many whole frame durations have elapsed since
/// the current loop iteration started.
pub open spec fn raw_index(elapsed_ms: int, frame_duration_ms: int) -> int {
    elapsed_ms / frame_duration_ms
}

/// Whether the raw index has run past the final frame of a sequence of
/// `n` frames, so that playback must wrap around to frame 0.
pub open spec fn wraps(elapsed_ms: int, frame_duration_ms: int, n: int) -> bool {
    raw_index(elapsed_ms, frame_duration_ms) > n - 1
}

/// The frame index that is displayed: the raw index while it is still a
/// valid index, and 0 once playback has wrapped.
pub open spec fn frame_index(elapsed_ms: int, frame_duration_ms: int, n: int) -> int {
    if wraps(elapsed_ms, frame_duration_ms, n) {
        0
    } else {
        raw_index(elapsed_ms, frame_duration_ms)
    }
}

/// Animation playback state: which sequence is active and the instant, in
/// milliseconds of the caller's monotone clock, at which the current loop
/// iteration started.
///
/// Switching the active sequence deliberately does not touch
/// `loop_start_ms`: the clock free-runs against a single timeline no matter
/// which sequence is displayed.
#[derive(Clone, Copy, PartialEq, Eq, Structural, Debug)]
pub struct Playback {
    pub active: SequenceId,
    pub loop_start_ms: u64,
}

/// The playback state after querying the clock at `now_ms` against a
/// sequence of `n` frames: the loop start is refreshed to `now_ms` exactly
/// when playback wraps.
pub open spec fn spec_after_frame_query(
    s: Playback,
    n: int,
    now_ms: u64,
    frame_duration_ms: int,
) -> Playback {
    if wraps(now_ms - s.loop_start_ms, frame_duration_ms, n) {
        Playback { active: s.active, loop_start_ms: now_ms }
    } else {
        s
    }
}

impl Playback {
    /// Fresh playback state: the idle sequence, with the current loop
    /// iteration starting at `now_ms`.
    pub fn new(now_ms: u64) -> (s: Playback)
        ensures
            s == (Playback { active: SequenceId::Idle, loop_start_ms: now_ms }),
    {
        Playback { active: SequenceId::Idle, loop_start_ms: now_ms }
    }

    /// Queries the animation clock at instant `now_ms` against the active
    /// sequence's length `n`: returns the frame index to display this
    /// frame, and starts a new loop iteration (resetting the loop start to
    /// `now_ms`) when elapsed time has run past the final frame.
    ///
    /// The returned index is always a valid index of the sequence.
    pub fn current_frame(&mut self, n: usize, now_ms: u64, frame_duration_ms: u64) -> (idx: usize)
        requires
            n >= 1,
            frame_duration_ms > 0,
            now_ms >= old(self).loop_start_ms,
        ensures
            idx < n,
            idx == frame_index(
                now_ms - old(self).loop_start_ms,
                frame_duration_ms as int,
                n as int,
            ),
            *final(self) == spec_after_frame_query(
                *old(self),
                n as int,
                now_ms,
                frame_duration_ms as int,
            ),
    {
        let elapsed: u64 = now_ms - self.loop_start_ms;
        let raw: u64 = elapsed / frame_duration_ms;
        if raw > (n - 1) as u64 {
            self.loop_start_ms = now_ms;
            0
        } else {
            raw as usize
        }
    }
}

/// The frame index is always in range: for every elapsed duration, every
/// positive frame duration and every non-empty sequence, the displayed
/// index lies in `[0, n - 1]`.
pub proof fn lemma_frame_index_in_range(elapsed_ms: int, frame_duration_ms: int, n: int)
    requires
        elapsed_ms >= 0,
        frame_duration_ms > 0,
        n >= 1,
    ensures
        0 <= frame_index(elapsed_ms, frame_duration_ms, n) <= n - 1,
{
    lemma_div_is_ordered(0, elapsed_ms, frame_duration_ms);
}

/// Idempotence of the clock query: querying again at the same instant,
/// against the same sequence length and frame duration, yields the same
/// frame index and leaves the playback state unchanged.
pub proof fn lemma_frame_query_idempotent(s: Playback, n: int, now_ms: u64, frame_duration_ms: int)
    requires
        n >= 1,
        frame_duration_ms > 0,
        now_ms >= s.loop_start_ms,
    ensures
        ({
            let s1 = spec_after_frame_query(s, n, now_ms, frame_duration_ms);
            frame_index(now_ms - s1.loop_start_ms, frame_duration_ms, n) == frame_index(
                now_ms - s.loop_start_ms,
                frame_duration_ms,
                n,
            ) && spec_after_frame_query(s1, n, now_ms, frame_duration_ms) == s1
        }),
{
    let s1 = spec_after_frame_query(s, n, now_ms, frame_duration_ms);
    if wraps(now_ms - s.loop_start_ms, frame_duration_ms, n) {
        assert(s1.loop_start_ms == now_ms);
        lemma_basic_div(0, frame_duration_ms);
        assert(raw_index(0, frame_duration_ms) == 0);
    }
}

/// The looping law: once elapsed time reaches `n` whole frame durations,
/// the clock wraps, the query returns frame 0 with the loop start reset to
/// `now_ms`, and any further query strictly less than one frame duration
/// after the reset still yields frame 0.
pub proof fn lemma_looping(s: Playback, n: int, now_ms: u64, frame_duration_ms: int, t: int)
    requires
        n >= 1,
        frame_duration_ms > 0,
        now_ms >= s.loop_start_ms,
        now_ms - s.loop_start_ms >= n * frame_duration_ms,
        now_ms <= t < now_ms + frame_duration_ms,
    ensures
        wraps(now_ms - s.loop_start_ms, frame_duration_ms, n),
        frame_index(now_ms - s.loop_start_ms, frame_duration_ms, n) == 0,
        spec_after_frame_query(s, n, now_ms, frame_duration_ms).loop_start_ms == now_ms,
        frame_index(t - now_ms, frame_duration_ms, n) == 0,
{
    let e = now_ms - s.loop_start_ms;
    lemma_div_by_multiple(n, frame_duration_ms);
    lemma_div_is_ordered(n * frame_duration_ms, e, frame_duration_ms);
    assert(raw_index(e, frame_duration_ms) >= n);
    lemma_basic_div(t - now_ms, frame_duration_ms);
}

} // verus!
