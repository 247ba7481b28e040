//! One frame of the simulation: actor movement, spawning, collision
//! resolution with scoring, the frame counter, the two buttons, and the
//! audio commands handed back to the host.

use crate::button::in_hitbox;
use crate::button::Clickable;
use crate::geometry::COORD_LIMIT;
use crate::pancake::caught_count;
use crate::pancake::maybe_spawn;
use crate::pancake::resolve_pancakes;
use crate::pancake::spawned_pancake;
use crate::pancake::survivors;
use crate::pancake::Pancake;
use crate::state::background_action;
use crate::state::next_skin;
use crate::state::spec_background_action;
use crate::state::BackgroundAudio;
use crate::state::GameState;
use crate::state::SKIN_COUNT;
use vstd::arithmetic::div_mod::lemma_add_mod_noop;
use vstd::arithmetic::div_mod::lemma_small_mod;
use vstd::prelude::*;

verus! {

/// Everything the host samples for one frame: directional input, the four
/// random draws, the pointer, and whether the background clip is playing.
#[derive(Clone, Copy, Debug, PartialEq, Eq, Structural)]
pub struct FrameInput {
    pub left_pressed: bool,
    pub right_pressed: bool,
    /// Spawn trigger draw; an object appears when it is divisible by 64.
    pub rand_spawn: u32,
    /// Field draws for the spawned object, used only on a spawning frame.
    pub rand_x: u32,
    pub rand_vel: u32,
    pub rand_radius: u32,
    pub mouse_x: i32,
    pub mouse_y: i32,
    /// Edge signal: true only on the frame the left button goes down.
    pub left_just_pressed: bool,
    /// Playback state of the background clip, sampled this frame.
    pub background_playing: bool,
}

/// The side effects the host carries out after a step.
#[derive(Clone, Copy, Debug, PartialEq, Eq, Structural)]
pub struct FrameOutput {
    /// How many times to fire the munch sound: one per catch, none while
    /// muted.
    pub munch_plays: usize,
    /// What to do with the background clip.
    pub background: BackgroundAudio,
}

/// The actor's anchor after this frame's directional input: two units left,
/// two units right, both or neither.
pub open spec fn moved_cat_x(cat_x: int, left: bool, right: bool) -> int {
    cat_x + (if left {
        -2int
    } else {
        0int
    }) + (if right {
        2int
    } else {
        0int
    })
}

/// The falling objects once this frame's spawn draw has been resolved; a new
/// object lands at the end of the list.
pub open spec fn pancakes_after_spawn(ps: Seq<Pancake>, input: FrameInput) -> Seq<Pancake> {
    if input.rand_spawn % 64 == 0 {
        ps.push(spawned_pancake(input.rand_x, input.rand_vel, input.rand_radius))
    } else {
        ps
    }
}

/// The actor's collision center this frame; it sits one radius below and to
/// the right of the anchor.
pub open spec fn cat_center_x(s: GameState, input: FrameInput) -> int {
    moved_cat_x(s.cat_x as int, input.left_pressed, input.right_pressed) + s.cat_r
}

/// The actor's collision center this frame; it sits one radius below and to
/// the right of the anchor.
pub open spec fn cat_center_y(s: GameState) -> int {
    s.cat_y + s.cat_r
}

/// How many objects the actor catches this frame, the freshly spawned one
/// included.
pub open spec fn caught_in_step(s: GameState, input: FrameInput) -> nat {
    caught_count(
        pancakes_after_spawn(s.pancakes@, input),
        cat_center_x(s, input),
        cat_center_y(s),
        s.cat_r as int,
    )
}

/// Whether this frame's pointer sample clicks the skin button.
pub open spec fn skin_clicked(s: GameState, input: FrameInput) -> bool {
    in_hitbox(s.skin_change_button.hitbox, input.mouse_x as int, input.mouse_y as int)
        && input.left_just_pressed
}

/// Whether this frame's pointer sample clicks the mute button.
pub open spec fn mute_clicked(s: GameState, input: FrameInput) -> bool {
    in_hitbox(s.mute_button.hitbox, input.mouse_x as int, input.mouse_y as int)
        && input.left_just_pressed
}

/// Addition on `u32` that wraps around, as the frame and score counters do.
pub open spec fn wrap_add_u32(a: u32, n: nat) -> u32 {
    (((a + n) % 0x1_0000_0000) as u32)
}

/// Advance the simulation by one frame.
///
/// In order: directional input moves the actor (unclamped — it may leave the
/// screen); the spawn draw may append an object; every object falls and is
/// resolved against the actor, caught ones scoring and bumping
/// `last_munch_at`; the frame counter advances; both buttons run their hover
/// test and a click on one of them cycles the skin or flips the mute flag;
/// last the background check runs against the just-updated mute flag. The
/// munch sound count uses the mute flag as it stood at collision time,
/// before any click this frame.
#[verifier::rlimit(100)]
pub fn step(state: &mut GameState, input: &FrameInput) -> (out: FrameOutput)
    requires
        old(state).wf(),
        -COORD_LIMIT + 16 <= old(state).cat_x <= COORD_LIMIT - 16,
        -COORD_LIMIT + 16 <= old(state).cat_y <= COORD_LIMIT - 16,
    ensures
        final(state).wf(),
        final(state).cat_x == moved_cat_x(
            old(state).cat_x as int,
            input.left_pressed,
            input.right_pressed,
        ),
        final(state).cat_y == old(state).cat_y,
        final(state).cat_r == old(state).cat_r,
        final(state).pancakes@ == survivors(
            pancakes_after_spawn(old(state).pancakes@, *input),
            cat_center_x(*old(state), *input),
            cat_center_y(*old(state)),
            old(state).cat_r as int,
        ),
        final(state).score == wrap_add_u32(old(state).score, caught_in_step(*old(state), *input)),
        final(state).last_munch_at == (if caught_in_step(*old(state), *input) > 0 {
            old(state).frame
        } else {
            old(state).last_munch_at
        }),
        final(state).frame == wrap_add_u32(old(state).frame, 1),
        final(state).skin_change_button == old(state).skin_change_button.with_hovered(
            in_hitbox(
                old(state).skin_change_button.hitbox,
                input.mouse_x as int,
                input.mouse_y as int,
            ),
        ),
        final(state).mute_button == old(state).mute_button.with_hovered(
            in_hitbox(old(state).mute_button.hitbox, input.mouse_x as int, input.mouse_y as int),
        ),
        final(state).cat_id == (if skin_clicked(*old(state), *input) {
            next_skin(old(state).cat_id as nat)
        } else {
            old(state).cat_id as nat
        }),
        final(state).mute_toggle == (if mute_clicked(*old(state), *input) {
            !old(state).mute_toggle
        } else {
            old(state).mute_toggle
        }),
        out.munch_plays == (if old(state).mute_toggle {
            0nat
        } else {
            caught_in_step(*old(state), *input)
        }),
        out.background == spec_background_action(
            final(state).mute_toggle,
            input.background_playing,
        ),
{
    // Directional input; both directions may apply in the same frame, and the
    // actor is deliberately not clamped to the screen.
    if input.left_pressed {
        state.cat_x = state.cat_x - 2;
    }
    if input.right_pressed {
        state.cat_x = state.cat_x + 2;
    }
    // Spawning.
    match maybe_spawn(input.rand_spawn, input.rand_x, input.rand_vel, input.rand_radius) {
        Some(p) => state.pancakes.push(p),
        None => {},
    }
    // Collision resolution against the actor's effective center.
    let cat_cx = state.cat_x + state.cat_r;
    let cat_cy = state.cat_y + state.cat_r;
    let cat_r = state.cat_r;
    let caught = resolve_pancakes(&mut state.pancakes, cat_cx, cat_cy, cat_r);
    let munch_plays: usize = if state.mute_toggle {
        0
    } else {
        caught
    };
    if caught > 0 {
        state.last_munch_at = state.frame;
    }
    let caught_wrapped: u32 = ((caught as u64) % 0x1_0000_0000u64) as u32;
    proof {
        // The score wraps: adding the catch count modulo 2^32 is the same as
        // adding it in full and wrapping once.
        lemma_small_mod(old(state).score as nat, 0x1_0000_0000nat);
        lemma_small_mod(caught_wrapped as nat, 0x1_0000_0000nat);
        lemma_add_mod_noop(old(state).score as int, caught as int, 0x1_0000_0000int);
    }
    state.score = state.score.wrapping_add(caught_wrapped);
    state.frame = state.frame.wrapping_add(1);
    // The two controls: hover runs every frame, clicks only on the edge
    // signal while hovered.
    let skin_hitbox = state.skin_change_button.hitbox;
    let skin_hover = state.skin_change_button.hover(skin_hitbox, input.mouse_x, input.mouse_y);
    if skin_hover && input.left_just_pressed {
        let bumped = state.cat_id + 1;
        state.cat_id = if bumped >= SKIN_COUNT {
            0
        } else {
            bumped
        };
    }
    let mute_hitbox = state.mute_button.hitbox;
    let mute_hover = state.mute_button.hover(mute_hitbox, input.mouse_x, input.mouse_y);
    if mute_hover && input.left_just_pressed {
        state.mute_toggle = !state.mute_toggle;
    }
    let background = background_action(state.mute_toggle, input.background_playing);
    FrameOutput { munch_plays, background }
}


} // verus!
