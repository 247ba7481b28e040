use pancake_cat::button::Clickable;
use pancake_cat::button::UIButton;
use pancake_cat::button::BASE_COLOR;
use pancake_cat::button::HIGHLIGHT_COLOR;
use pancake_cat::state::background_action;
use pancake_cat::state::munch_display;
use pancake_cat::state::skin_name;
use pancake_cat::state::BackgroundAudio;

#[test]
fn new_button_starts_unhovered() {
    let b = UIButton::new("sound", (220, 130, 30, 10));
    assert_eq!(b.hitbox, (220, 130, 30, 10));
    assert_eq!(b.text, "sound");
    assert!(!b.hovered);
}

#[test]
fn draw_colors_swap_on_hover() {
    let mut b = UIButton::new("new cat", (200, 10, 40, 10));
    assert_eq!(b.draw(), (BASE_COLOR, HIGHLIGHT_COLOR));
    b.hovered = true;
    assert_eq!(b.draw(), (HIGHLIGHT_COLOR, BASE_COLOR));
}

#[test]
fn hover_inside_and_outside() {
    let mut b = UIButton::new("new cat", (200, 10, 40, 10));
    assert!(b.hover((200, 10, 40, 10), 210, 15));
    assert!(b.hovered);
    assert!(!b.hover((200, 10, 40, 10), 199, 15));
    assert!(!b.hovered);
}

#[test]
fn hover_bounds_are_inclusive() {
    let mut b = UIButton::new("new cat", (200, 10, 40, 10));
    assert!(b.hover((200, 10, 40, 10), 200, 10));
    assert!(b.hover((200, 10, 40, 10), 240, 20));
    assert!(!b.hover((200, 10, 40, 10), 241, 20));
    assert!(!b.hover((200, 10, 40, 10), 240, 21));
}

#[test]
fn skin_names_in_order() {
    assert_eq!(skin_name(0), "munch_cat");
    assert_eq!(skin_name(1), "munch_cat_white");
    assert_eq!(skin_name(2), "munch_cat_black");
}

#[test]
fn munch_display_window() {
    // Never before frame 64, however recent the catch.
    assert!(!munch_display(63, 60));
    assert!(!munch_display(0, 0));
    // Within 60 frames of the catch.
    assert!(munch_display(64, 4));
    assert!(munch_display(124, 64));
    // 61 frames elapsed: gone.
    assert!(!munch_display(125, 64));
    // A catch index beyond the frame saturates to an elapsed time of zero.
    assert!(munch_display(64, 100));
}

#[test]
fn background_check_commands() {
    assert_eq!(background_action(false, false), BackgroundAudio::Start);
    assert_eq!(background_action(false, true), BackgroundAudio::Leave);
    assert_eq!(background_action(true, true), BackgroundAudio::Pause);
    assert_eq!(background_action(true, false), BackgroundAudio::Leave);
}

#[test]
fn background_check_is_idempotent() {
    // Carrying out the first command and checking again issues nothing more,
    // whatever the starting state.
    for mute in [false, true] {
        for playing in [false, true] {
            let playing_after = match background_action(mute, playing) {
                BackgroundAudio::Start => true,
                BackgroundAudio::Pause => false,
                BackgroundAudio::Leave => playing,
            };
            assert_eq!(background_action(mute, playing_after), BackgroundAudio::Leave);
        }
    }
}
