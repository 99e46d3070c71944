use platformer_core::animation::{Playback, SequenceId, SequenceSet};

fn idle_playback(loop_start_ms: u64) -> Playback {
    Playback { active: SequenceId::Idle, loop_start_ms }
}

#[test]
fn four_frame_sequence_at_750ms_yields_last_frame_without_wrap() {
    // A 4-frame idle sequence at 200 ms per frame: 750 ms since loop start
    // is raw index 3 (750 / 200 = 3.75, floored), the last valid index.
    let mut p = idle_playback(0);
    let idx = p.current_frame(4, 750, 200);
    assert_eq!(idx, 3);
    assert_eq!(p.loop_start_ms, 0);
    assert_eq!(p.active, SequenceId::Idle);
}

#[test]
fn frame_advances_every_frame_duration() {
    let mut p = idle_playback(1000);
    assert_eq!(p.current_frame(4, 1000, 200), 0);
    assert_eq!(p.current_frame(4, 1199, 200), 0);
    assert_eq!(p.current_frame(4, 1200, 200), 1);
    assert_eq!(p.current_frame(4, 1399, 200), 1);
    assert_eq!(p.current_frame(4, 1400, 200), 2);
    assert_eq!(p.current_frame(4, 1799, 200), 3);
    // No query wrapped, so the loop start never moved.
    assert_eq!(p.loop_start_ms, 1000);
}

#[test]
fn wrap_resets_loop_start_and_returns_frame_zero() {
    let mut p = idle_playback(0);
    // 800 ms = 4 whole frame durations: past the last index of a 4-frame
    // sequence, so playback wraps.
    let idx = p.current_frame(4, 800, 200);
    assert_eq!(idx, 0);
    assert_eq!(p.loop_start_ms, 800);
    // Elapsed since the reset is below one frame duration, so the next
    // query still yields frame 0.
    let idx2 = p.current_frame(4, 999, 200);
    assert_eq!(idx2, 0);
    assert_eq!(p.loop_start_ms, 800);
}

#[test]
fn wrap_boundary_is_exact() {
    let mut p = idle_playback(0);
    // 799 ms is still raw index 3: no wrap.
    assert_eq!(p.current_frame(4, 799, 200), 3);
    assert_eq!(p.loop_start_ms, 0);
}

#[test]
fn repeated_query_at_same_instant_is_idempotent() {
    let mut p = idle_playback(500);
    let first = p.current_frame(5, 1100, 200);
    let after_first = p;
    let second = p.current_frame(5, 1100, 200);
    assert_eq!(first, second);
    assert_eq!(p, after_first);
    assert_eq!(first, 3);
}

#[test]
fn repeated_query_at_same_instant_is_idempotent_across_wrap() {
    let mut p = idle_playback(0);
    let first = p.current_frame(3, 900, 200);
    let after_first = p;
    let second = p.current_frame(3, 900, 200);
    assert_eq!(first, 0);
    assert_eq!(second, 0);
    assert_eq!(p, after_first);
}

#[test]
fn single_frame_sequence_always_shows_frame_zero() {
    let mut p = idle_playback(0);
    assert_eq!(p.current_frame(1, 0, 200), 0);
    assert_eq!(p.current_frame(1, 150, 200), 0);
    // Once elapsed passes one frame duration the clock wraps every query,
    // which is harmless: the index stays 0.
    assert_eq!(p.current_frame(1, 450, 200), 0);
    assert_eq!(p.loop_start_ms, 450);
    assert_eq!(p.current_frame(1, 500, 200), 0);
}

#[test]
fn index_stays_in_range_for_many_instants() {
    for n in 1usize..6 {
        for now in 0u64..3000 {
            let mut p = idle_playback(0);
            let idx = p.current_frame(n, now, 200);
            assert!(idx < n);
        }
    }
}

#[test]
fn sequence_lengths_are_looked_up_by_id() {
    let seqs = SequenceSet { idle_len: 4, run_len: 5, attack_len: 5 };
    assert_eq!(seqs.len_of(SequenceId::Idle), 4);
    assert_eq!(seqs.len_of(SequenceId::Run), 5);
    assert_eq!(seqs.len_of(SequenceId::Attack), 5);
}

#[test]
fn new_playback_starts_idle_at_given_instant() {
    let p = Playback::new(123);
    assert_eq!(p.active, SequenceId::Idle);
    assert_eq!(p.loop_start_ms, 123);
}
