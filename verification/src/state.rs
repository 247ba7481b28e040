//! The persisted game state, the per-frame input and output records, and the
//! frame-independent helpers: skin selection, the munch display window, and
//! the background-audio check.

use crate::button::Clickable;
use crate::button::UIButton;
use crate::pancake::Pancake;
use vstd::prelude::*;

verus! {

/// Number of cat skins the skin button cycles through.
pub const SKIN_COUNT: usize = 3;

/// The actor's collision radius.
pub const CAT_RADIUS: i64 = 8;

/// The actor's starting anchor position.
pub const CAT_START_X: i64 = 128;

/// The actor's starting anchor position.
pub const CAT_START_Y: i64 = 112;

/// Frames the munch acknowledgment stays on screen after a catch.
pub const MUNCH_WINDOW: u32 = 60;

/// The munch acknowledgment is never shown before this frame, so a fresh
/// session does not open with it (`last_munch_at` starts at zero).
pub const MUNCH_EARLIEST_FRAME: u32 = 64;

/// The authoritative per-session snapshot, loaded by the host before each
/// frame and saved after it.
pub struct GameState {
    /// Frames simulated so far; wraps at the `u32` limit.
    pub frame: u32,
    /// Frame index of the most recent catch.
    pub last_munch_at: u32,
    /// Index into the skin list; always below `SKIN_COUNT`.
    pub cat_id: usize,
    pub cat_x: i64,
    pub cat_y: i64,
    pub cat_r: i64,
    pub pancakes: Vec<Pancake>,
    /// Catches so far; wraps at the `u32` limit.
    pub score: u32,
    pub skin_change_button: UIButton,
    pub mute_button: UIButton,
    /// When set, the munch sound and the background music are suppressed.
    pub mute_toggle: bool,
}

impl GameState {
    /// Holds at the start of a session and is preserved by every step.
    pub open spec fn wf(self) -> bool {
        &&& self.cat_id < SKIN_COUNT
        &&& self.cat_r == CAT_RADIUS
        &&& forall|i: int| 0 <= i < self.pancakes@.len() ==> #[trigger] self.pancakes@[i].wf()
    }

    /// A fresh session: centered actor, empty sky, nothing caught, sound on.
    pub fn new() -> (s: GameState)
        ensures
            s.wf(),
            s.frame == 0,
            s.last_munch_at == 0,
            s.cat_id == 0,
            s.cat_x == CAT_START_X,
            s.cat_y == CAT_START_Y,
            s.cat_r == CAT_RADIUS,
            s.pancakes@ == Seq::<Pancake>::empty(),
            s.score == 0,
            s.skin_change_button.hitbox == (200i32, 10i32, 40i32, 10i32),
            s.skin_change_button.hovered == false,
            s.mute_button.hitbox == (220i32, 130i32, 30i32, 10i32),
            s.mute_button.hovered == false,
            s.mute_toggle == false,
    {
        let pancakes: Vec<Pancake> = Vec::new();
        GameState {
            frame: 0,
            last_munch_at: 0,
            cat_id: 0,
            cat_x: CAT_START_X,
            cat_y: CAT_START_Y,
            cat_r: CAT_RADIUS,
            pancakes,
            score: 0,
            skin_change_button: UIButton::new("new cat", (200, 10, 40, 10)),
            mute_button: UIButton::new("sound", (220, 130, 30, 10)),
            mute_toggle: false,
        }
    }
}

/// The skin the given index selects.
pub fn skin_name(cat_id: usize) -> (s: &'static str)
    requires
        cat_id < SKIN_COUNT,
    ensures
        cat_id == 0 ==> s@ == "munch_cat"@,
        cat_id == 1 ==> s@ == "munch_cat_white"@,
        cat_id == 2 ==> s@ == "munch_cat_black"@,
{
    if cat_id == 0 {
        "munch_cat"
    } else if cat_id == 1 {
        "munch_cat_white"
    } else {
        "munch_cat_black"
    }
}

/// The skin index after a qualifying click: one step along
/// `0, 1, ..., SKIN_COUNT - 1` and back to `0`.
pub open spec fn next_skin(cat_id: nat) -> nat {
    (cat_id + 1) % (SKIN_COUNT as nat)
}

/// Law: with three skins, three clicks bring the selection back around.
pub proof fn lemma_skin_cycle(cat_id: nat)
    requires
        cat_id < SKIN_COUNT,
    ensures
        next_skin(next_skin(next_skin(cat_id))) == cat_id,
{
}

/// Whether the munch acknowledgment is on screen: at least `MUNCH_WINDOW`-many
/// frames must not yet have passed since the last catch, and the display never
/// appears before frame `MUNCH_EARLIEST_FRAME`. The elapsed time saturates at
/// zero so a `last_munch_at` beyond `frame` can never underflow.
pub open spec fn spec_munch_display(frame: u32, last_munch_at: u32) -> bool {
    &&& frame >= MUNCH_EARLIEST_FRAME
    &&& (if frame >= last_munch_at {
        frame - last_munch_at
    } else {
        0
    }) <= MUNCH_WINDOW
}

/// Whether the presentation layer shows the munch acknowledgment this frame.
pub fn munch_display(frame: u32, last_munch_at: u32) -> (r: bool)
    ensures
        r == spec_munch_display(frame, last_munch_at),
{
    frame >= MUNCH_EARLIEST_FRAME && frame.saturating_sub(last_munch_at) <= MUNCH_WINDOW
}

/// The command the host's audio layer is to carry out for the background
/// clip this frame.
#[derive(Clone, Copy, Debug, PartialEq, Eq, Structural)]
pub enum BackgroundAudio {
    /// Start the clip: sound is on and the clip is silent.
    Start,
    /// Pause the clip: sound has been muted while the clip plays.
    Pause,
    /// Do nothing: the clip is already in the wanted state.
    Leave,
}

/// The background check as a function of the mute flag and the playback
/// state. A command is only issued when the state is wrong, which is what
/// makes the check idempotent.
pub open spec fn spec_background_action(mute: bool, playing: bool) -> BackgroundAudio {
    if !mute && !playing {
        BackgroundAudio::Start
    } else if mute && playing {
        BackgroundAudio::Pause
    } else {
        BackgroundAudio::Leave
    }
}

/// Decide what to do with the background clip, given the mute flag and
/// whether the clip is playing right now.
pub fn background_action(mute: bool, playing: bool) -> (a: BackgroundAudio)
    ensures
        a == spec_background_action(mute, playing),
{
    if !mute && !playing {
        BackgroundAudio::Start
    } else if mute && playing {
        BackgroundAudio::Pause
    } else {
        BackgroundAudio::Leave
    }
}

/// Law: while the mute flag is set, the background check never starts the
/// clip, whatever its playback state.
pub proof fn lemma_mute_suppresses_background_start(playing: bool)
    ensures
        spec_background_action(true, playing) != BackgroundAudio::Start,
{
}

/// The playback state after the host carries out a background command.
pub open spec fn background_after(a: BackgroundAudio, playing: bool) -> bool {
    match a {
        BackgroundAudio::Start => true,
        BackgroundAudio::Pause => false,
        BackgroundAudio::Leave => playing,
    }
}

/// Law: the background check is idempotent. Once its command has been
/// carried out, running the check again in the same frame, with no state
/// change in between, issues no further command.
pub proof fn lemma_background_check_idempotent(mute: bool, playing: bool)
    ensures
        spec_background_action(
            mute,
            background_after(spec_background_action(mute, playing), playing),
        ) == BackgroundAudio::Leave,
{
}

} // verus!
