//! The input-to-action mapper: once per frame it turns the sampled key
//! state into the force to queue on the controlled body for the next
//! physics step, the animation sequence to make active, and the horizontal
//! facing of the sprite.

use vstd::prelude::*;
use crate::animation::SequenceId;

verus! {

/// Magnitude of the horizontal force applied while a movement key is held.
pub const HORIZONTAL_FORCE: i32 = 250;

/// `-HORIZONTAL_FORCE`: the horizontal force while moving left.
pub const NEG_HORIZONTAL_FORCE: i32 = -250;

/// `-VERTICAL_FORCE`: the vertical force while the jump key is held. The
/// vertical axis grows downward, so the upward jump force is negative.
pub const NEG_VERTICAL_FORCE: i32 = -250;

/// The key state sampled once per frame: whether each of the four logical
/// actions is currently held down (level-triggered, not edge-triggered).
#[derive(Clone, Copy, PartialEq, Eq, Structural, Debug)]
pub struct Inputs {
    pub move_right: bool,
    pub move_left: bool,
    pub jump: bool,
    pub attack: bool,
}

/// What one frame's input sampling decides: the force vector to queue for
/// the next physics step, the sequence that becomes active, and whether the
/// sprite is drawn horizontally flipped (facing left).
#[derive(Clone, Copy, PartialEq, Eq, Structural, Debug)]
pub struct Action {
    pub force_x: i32,
    pub force_y: i32,
    pub sequence: SequenceId,
    pub flip: bool,
}

/// The action derived from held keys, given the facing kept from the
/// previous frame.
///
/// Horizontal priority: move-right wins over move-left; with neither held
/// there is no horizontal force, the idle sequence is selected and the
/// facing is left unchanged. The jump force is independent and stacks with
/// horizontal movement. The attack key overrides the sequence selection
/// alone; forces and facing are untouched by it.
pub open spec fn spec_map_inputs(i: Inputs, prev_flip: bool) -> Action {
    Action {
        force_x: if i.move_right {
            HORIZONTAL_FORCE
        } else if i.move_left {
            NEG_HORIZONTAL_FORCE
        } else {
            0
        },
        force_y: if i.jump {
            NEG_VERTICAL_FORCE
        } else {
            0
        },
        sequence: if i.attack {
            SequenceId::Attack
        } else if i.move_right || i.move_left {
            SequenceId::Run
        } else {
            SequenceId::Idle
        },
        flip: if i.move_right {
            false
        } else if i.move_left {
            true
        } else {
            prev_flip
        },
    }
}

/// Maps one frame's sampled key state to the action for that frame.
pub fn map_inputs(i: Inputs, prev_flip: bool) -> (a: Action)
    ensures
        a == spec_map_inputs(i, prev_flip),
{
    let mut force_x: i32 = 0;
    let mut sequence: SequenceId = SequenceId::Idle;
    let mut flip: bool = prev_flip;
    if i.move_right {
        force_x = HORIZONTAL_FORCE;
        sequence = SequenceId::Run;
        flip = false;
    } else if i.move_left {
        force_x = NEG_HORIZONTAL_FORCE;
        sequence = SequenceId::Run;
        flip = true;
    }
    let force_y: i32 = if i.jump {
        NEG_VERTICAL_FORCE
    } else {
        0
    };
    if i.attack {
        sequence = SequenceId::Attack;
    }
    Action { force_x, force_y, sequence, flip }
}

/// Priority law: when move-right and attack are held in the same frame,
/// the active sequence resolves to attack while the rightward force is
/// still applied — sequence selection and force derivation are independent.
pub proof fn lemma_attack_wins_force_kept(i: Inputs, prev_flip: bool)
    requires
        i.move_right,
        i.attack,
    ensures
        spec_map_inputs(i, prev_flip).sequence == SequenceId::Attack,
        spec_map_inputs(i, prev_flip).force_x == HORIZONTAL_FORCE,
{
}

} // verus!
