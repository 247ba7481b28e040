//! Clickable on-screen controls: hover tracking against a rectangular hitbox
//! and the colours the presentation layer paints a control with.

use vstd::prelude::*;
use vstd::string::StringExecFns;

verus! {

/// Fill colour of a hovered control; text colour of an idle one.
pub const HIGHLIGHT_COLOR: u32 = 0x003366FF;

/// Text colour of a hovered control; fill colour of an idle one.
pub const BASE_COLOR: u32 = 0xFFFFFFFF;

/// Whether the pointer at `(mx, my)` lies inside the rectangle
/// `(x, y, width, height)`; all four edges count as inside.
pub open spec fn in_hitbox(hitbox: (i32, i32, i32, i32), mx: int, my: int) -> bool {
    &&& hitbox.0 <= mx <= hitbox.0 + hitbox.2
    &&& hitbox.1 <= my <= hitbox.1 + hitbox.3
}

/// A control that tracks whether the pointer is over it. The hover test runs
/// every frame, whatever the click state: the flag is a continuous visual
/// affordance, not an edge signal.
pub trait Clickable: Sized {
    /// The control with its hover flag set to `state` and all else unchanged.
    spec fn with_hovered(self, state: bool) -> Self;

    /// Record the outcome of the hover test.
    fn hover_toggle(&mut self, state: bool)
        ensures
            *final(self) == old(self).with_hovered(state),
    ;

    /// Test the pointer against `hitbox`, store the outcome in the hover
    /// flag, and report it.
    fn hover(&mut self, hitbox: (i32, i32, i32, i32), mx: i32, my: i32) -> (r: bool)
        ensures
            r == in_hitbox(hitbox, mx as int, my as int),
            *final(self) == old(self).with_hovered(r),
    {
        let inside = mx as i64 >= hitbox.0 as i64 && mx as i64 <= hitbox.0 as i64 + hitbox.2 as i64
            && my as i64 >= hitbox.1 as i64 && my as i64 <= hitbox.1 as i64 + hitbox.3 as i64;
        self.hover_toggle(inside);
        inside
    }
}

/// A rectangular button with a label. `hitbox` is `(x, y, width, height)` in
/// screen coordinates; `hitbox` and `text` never change after construction,
/// and `hovered` mirrors the most recent pointer sample.
pub struct UIButton {
    pub hitbox: (i32, i32, i32, i32),
    pub text: String,
    pub hovered: bool,
}

impl UIButton {
    pub fn new(text: &str, hitbox: (i32, i32, i32, i32)) -> (r: Self)
        ensures
            r.hitbox == hitbox,
            r.text@ == text@,
            r.hovered == false,
    {
        UIButton { hitbox, text: String::from_str(text), hovered: false }
    }

    /// Fill and text colours for this frame, in that order; they swap while
    /// the pointer is over the button.
    pub open spec fn spec_draw(self) -> (u32, u32) {
        if self.hovered {
            (HIGHLIGHT_COLOR, BASE_COLOR)
        } else {
            (BASE_COLOR, HIGHLIGHT_COLOR)
        }
    }

    /// The colour pair the presentation layer paints the button with; the
    /// rectangle itself is `hitbox` and the label `text`.
    pub fn draw(&self) -> (colors: (u32, u32))
        ensures
            colors == self.spec_draw(),
    {
        match self.hovered {
            true => (HIGHLIGHT_COLOR, BASE_COLOR),
            false => (BASE_COLOR, HIGHLIGHT_COLOR),
        }
    }
}

impl Clickable for UIButton {
    open spec fn with_hovered(self, state: bool) -> Self {
        UIButton { hovered: state, ..self }
    }

    fn hover_toggle(&mut self, state: bool) {
        self.hovered = state;
    }
}

} // verus!
