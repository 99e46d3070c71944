//! The per-frame transition of the game loop. Each rendered frame the host
//! steps the physics world, reads the controlled character's post-step
//! transform, and then calls [`frame_tick`], which makes every decision of
//! that frame: which sequence and frame index to render, at which position
//! and facing, and which forces to queue so the next physics step feels
//! this frame's held keys.
//!
//! The host performs the outside work in this order: physics step, clear,
//! debug-draw the entities' bounds, draw the character sprite as the
//! returned plan says, then queue the plan's forces. The plan's sprite
//! position is exactly the post-step position handed in, so the render
//! always reflects the state just computed, and the forces are returned
//! rather than applied, so they cannot be integrated before the next step.

use vstd::prelude::*;
use crate::FRAME_DURATION_MS;
use crate::animation::{Playback, SequenceId, SequenceSet, frame_index, spec_after_frame_query};
use crate::input::{Inputs, map_inputs, spec_map_inputs};

verus! {

/// Everything one frame decides, handed back to the host loop. The type is
/// generic over the position values the host uses; the plan routes the
/// post-step position through to the sprite render untouched.
pub struct FramePlan<P> {
    /// The sequence whose frame is rendered this frame: the one made
    /// active by the previous frame's input.
    pub sequence: SequenceId,
    /// The frame index to render, a valid index of `sequence`.
    pub frame: usize,
    /// The position to render the sprite at: the post-step transform.
    pub sprite_pos: P,
    /// Whether the sprite is drawn horizontally flipped (facing left),
    /// as decided by input up to and including the previous frame.
    pub flip: bool,
    /// Horizontal force to queue for the next physics step.
    pub force_x: i32,
    /// Vertical force to queue for the next physics step.
    pub force_y: i32,
}

/// The controlled character's frame-to-frame state: animation playback and
/// the facing kept across frames.
#[derive(Clone, Copy, PartialEq, Eq, Structural, Debug)]
pub struct HeroState {
    pub playback: Playback,
    pub flip: bool,
}

impl HeroState {
    /// Fresh state: idle, facing right, the animation timeline starting at
    /// `now_ms`.
    pub fn new(now_ms: u64) -> (s: HeroState)
        ensures
            s.playback.active == SequenceId::Idle,
            s.playback.loop_start_ms == now_ms,
            !s.flip,
    {
        HeroState { playback: Playback::new(now_ms), flip: false }
    }
}

/// One frame's decisions, taken after the physics step and the post-step
/// transform query.
///
/// The returned plan renders the sequence that was active when the frame
/// began, at the frame index the animation clock derives from `now_ms`,
/// at exactly `post_step_pos`, with the facing kept from the previous
/// frame. The sampled keys decide the plan's forces and the state carried
/// into the next frame: the next active sequence and facing.
pub fn frame_tick<P>(
    state: &mut HeroState,
    seqs: &SequenceSet,
    post_step_pos: P,
    inputs: Inputs,
    now_ms: u64,
) -> (plan: FramePlan<P>)
    requires
        seqs.wf(),
        now_ms >= old(state).playback.loop_start_ms,
    ensures
        plan.sprite_pos == post_step_pos,
        plan.sequence == old(state).playback.active,
        plan.flip == old(state).flip,
        plan.frame < seqs.spec_len_of(old(state).playback.active),
        plan.frame == frame_index(
            now_ms - old(state).playback.loop_start_ms,
            FRAME_DURATION_MS as int,
            seqs.spec_len_of(old(state).playback.active) as int,
        ),
        ({
            let action = spec_map_inputs(inputs, old(state).flip);
            &&& plan.force_x == action.force_x
            &&& plan.force_y == action.force_y
            &&& final(state).playback.active == action.sequence
            &&& final(state).flip == action.flip
        }),
        final(state).playback.loop_start_ms == spec_after_frame_query(
            old(state).playback,
            seqs.spec_len_of(old(state).playback.active) as int,
            now_ms,
            FRAME_DURATION_MS as int,
        ).loop_start_ms,
{
    let sequence = state.playback.active;
    let n = seqs.len_of(sequence);
    let frame = state.playback.current_frame(n, now_ms, FRAME_DURATION_MS);
    let rendered_flip = state.flip;
    let action = map_inputs(inputs, state.flip);
    state.playback.active = action.sequence;
    state.flip = action.flip;
    FramePlan {
        sequence,
        frame,
        sprite_pos: post_step_pos,
        flip: rendered_flip,
        force_x: action.force_x,
        force_y: action.force_y,
    }
}

} // verus!
