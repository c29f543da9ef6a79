//! The shared input state: what the keyboard, the mouse buttons, the cursor
//! and the scroll wheel look like to the frame that is being computed.

use crate::buttons::{ButtonTracker, EdgeSets};
use vstd::prelude::*;

verus! {

/// A logical key, known by its number.
#[derive(Clone, Copy, PartialEq, Eq, Structural, Debug, Hash)]
pub struct KeyCode {
    pub code: u32,
}

/// A logical mouse button. Buttons beyond the usual three keep the index
/// that the platform gave them.
#[derive(Clone, Copy, PartialEq, Eq, Structural, Debug, Hash)]
pub enum MouseButton {
    Left,
    Right,
    Middle,
    Other(u16),
}

/// Two single-precision numbers, each held as its IEEE 754 bit pattern.
/// The pattern `0` is the number zero.
#[derive(Clone, Copy, PartialEq, Eq, Structural, Debug, Hash)]
pub struct Vec2Bits {
    pub x: u32,
    pub y: u32,
}

impl Vec2Bits {
    /// The pair (0, 0).
    pub open spec fn zero() -> Vec2Bits {
        Vec2Bits { x: 0, y: 0 }
    }
}

impl MouseButton {
    /// The number under which the button is tracked: 0, 1 and 2 for left,
    /// right and middle, and 3 more than its index for any other.
    pub open spec fn index(self) -> u32 {
        match self {
            MouseButton::Left => 0,
            MouseButton::Right => 1,
            MouseButton::Middle => 2,
            MouseButton::Other(n) => (n + 3) as u32,
        }
    }

    /// Computes `index`.
    pub fn code(self) -> (c: u32)
        ensures
            c == self.index(),
    {
        match self {
            MouseButton::Left => 0,
            MouseButton::Right => 1,
            MouseButton::Middle => 2,
            MouseButton::Other(n) => {
                let wide: u32 = n as u32;
                wide + 3
            },
        }
    }

    /// Two buttons with the same number are the same button.
    pub proof fn lemma_index_injective(a: MouseButton, b: MouseButton)
        requires
            a.index() == b.index(),
        ensures
            a == b,
    {
    }
}

/// The numbering of the keys.
pub open spec fn key_numbering() -> spec_fn(KeyCode) -> u32 {
    |k: KeyCode| k.code
}

/// The numbering of the mouse buttons.
pub open spec fn button_numbering() -> spec_fn(MouseButton) -> u32 {
    |b: MouseButton| b.index()
}

/// The shared input state as a mathematical value.
pub ghost struct InputModel {
    /// Level and edge state of the keys.
    pub keys: EdgeSets<KeyCode>,
    /// Level and edge state of the mouse buttons.
    pub mouse: EdgeSets<MouseButton>,
    /// Last known cursor position, in window coordinates.
    pub mouse_position: Vec2Bits,
    /// Scroll reported for the current frame.
    pub mouse_wheel: Vec2Bits,
}

impl InputModel {
    /// The state at startup.
    pub open spec fn initial() -> InputModel {
        InputModel {
            keys: EdgeSets::empty(),
            mouse: EdgeSets::empty(),
            mouse_position: Vec2Bits::zero(),
            mouse_wheel: Vec2Bits::zero(),
        }
    }

    /// What holds of every reachable state.
    pub open spec fn wf(self) -> bool {
        self.keys.wf() && self.mouse.wf()
    }

    /// The state after `key` goes down.
    pub open spec fn key_down(self, key: KeyCode) -> InputModel {
        InputModel { keys: self.keys.press(key), ..self }
    }

    /// The state after `key` goes up.
    pub open spec fn key_up(self, key: KeyCode) -> InputModel {
        InputModel { keys: self.keys.release(key), ..self }
    }

    /// The state after `button` goes down.
    pub open spec fn mouse_down(self, button: MouseButton) -> InputModel {
        InputModel { mouse: self.mouse.press(button), ..self }
    }

    /// The state after `button` goes up.
    pub open spec fn mouse_up(self, button: MouseButton) -> InputModel {
        InputModel { mouse: self.mouse.release(button), ..self }
    }

    /// The state after the cursor is reported at `position`.
    pub open spec fn cursor_at(self, position: Vec2Bits) -> InputModel {
        InputModel { mouse_position: position, ..self }
    }

    /// The state after a scroll of `lines` is reported: it replaces what was
    /// reported before.
    pub open spec fn scrolled(self, lines: Vec2Bits) -> InputModel {
        InputModel { mouse_wheel: lines, ..self }
    }

    /// The state after the end-of-frame clearing: all transitions are
    /// forgotten and the scroll is zero; what is held and where the cursor is
    /// stay.
    pub open spec fn end_frame(self) -> InputModel {
        InputModel {
            keys: self.keys.clear_edges(),
            mouse: self.mouse.clear_edges(),
            mouse_position: self.mouse_position,
            mouse_wheel: Vec2Bits::zero(),
        }
    }

    /// Every operation keeps a well-formed state well-formed, and the initial
    /// state is well-formed.
    pub proof fn lemma_wf_preserved(
        self,
        key: KeyCode,
        button: MouseButton,
        position: Vec2Bits,
        lines: Vec2Bits,
    )
        requires
            self.wf(),
        ensures
            InputModel::initial().wf(),
            self.key_down(key).wf(),
            self.key_up(key).wf(),
            self.mouse_down(button).wf(),
            self.mouse_up(button).wf(),
            self.cursor_at(position).wf(),
            self.scrolled(lines).wf(),
            self.end_frame().wf(),
    {
    }
}

/// The shared input state. It is changed by one event at a time and by the
/// end-of-frame clearing, and read in between.
pub struct InputState {
    keys: ButtonTracker,
    mouse: ButtonTracker,
    mouse_position: Vec2Bits,
    mouse_wheel: Vec2Bits,
}

impl View for InputState {
    type V = InputModel;

    closed spec fn view(&self) -> InputModel {
        InputModel {
            keys: EdgeSets::decode(self.keys@, key_numbering()),
            mouse: EdgeSets::decode(self.mouse@, button_numbering()),
            mouse_position: self.mouse_position,
            mouse_wheel: self.mouse_wheel,
        }
    }
}

proof fn lemma_numberings_injective()
    ensures
        forall|x: KeyCode, y: KeyCode| #[trigger]
            key_numbering()(x) == #[trigger] key_numbering()(y) ==> x == y,
        forall|x: MouseButton, y: MouseButton| #[trigger]
            button_numbering()(x) == #[trigger] button_numbering()(y) ==> x == y,
{
    assert forall|x: MouseButton, y: MouseButton| #[trigger]
        button_numbering()(x) == #[trigger] button_numbering()(y) implies x == y by {
        MouseButton::lemma_index_injective(x, y);
    }
}

impl InputState {
    /// The state at startup: nothing held, no transition, cursor and scroll
    /// at zero.
    pub fn new() -> (s: Self)
        ensures
            s@ == InputModel::initial(),
            s@.wf(),
    {
        let s = InputState {
            keys: ButtonTracker::new(),
            mouse: ButtonTracker::new(),
            mouse_position: Vec2Bits { x: 0, y: 0 },
            mouse_wheel: Vec2Bits { x: 0, y: 0 },
        };
        proof {
            lemma_numberings_injective();
            EdgeSets::<KeyCode>::lemma_decode_commutes(
                s.keys@,
                key_numbering(),
                KeyCode { code: 0 },
            );
            EdgeSets::<MouseButton>::lemma_decode_commutes(
                s.mouse@,
                button_numbering(),
                MouseButton::Left,
            );
        }
        s
    }

    /// Records that `key` went down.
    pub fn key_down(&mut self, key: KeyCode)
        ensures
            final(self)@ == old(self)@.key_down(key),
            old(self)@.wf() ==> final(self)@.wf(),
    {
        proof {
            lemma_numberings_injective();
            EdgeSets::<KeyCode>::lemma_decode_commutes(self.keys@, key_numbering(), key);
        }
        self.keys.press(key.code);
    }

    /// Records that `key` went up.
    pub fn key_up(&mut self, key: KeyCode)
        ensures
            final(self)@ == old(self)@.key_up(key),
            old(self)@.wf() ==> final(self)@.wf(),
    {
        proof {
            lemma_numberings_injective();
            EdgeSets::<KeyCode>::lemma_decode_commutes(self.keys@, key_numbering(), key);
        }
        self.keys.release(key.code);
    }

    /// Records that `button` went down.
    pub fn mouse_down(&mut self, button: MouseButton)
        ensures
            final(self)@ == old(self)@.mouse_down(button),
            old(self)@.wf() ==> final(self)@.wf(),
    {
        proof {
            lemma_numberings_injective();
            EdgeSets::<MouseButton>::lemma_decode_commutes(
                self.mouse@,
                button_numbering(),
                button,
            );
        }
        self.mouse.press(button.code());
    }

    /// Records that `button` went up.
    pub fn mouse_up(&mut self, button: MouseButton)
        ensures
            final(self)@ == old(self)@.mouse_up(button),
            old(self)@.wf() ==> final(self)@.wf(),
    {
        proof {
            lemma_numberings_injective();
            EdgeSets::<MouseButton>::lemma_decode_commutes(
                self.mouse@,
                button_numbering(),
                button,
            );
        }
        self.mouse.release(button.code());
    }

    /// Overwrites the cursor position.
    pub fn set_mouse_position(&mut self, position: Vec2Bits)
        ensures
            final(self)@ == old(self)@.cursor_at(position),
            old(self)@.wf() ==> final(self)@.wf(),
    {
        self.mouse_position = position;
    }

    /// Overwrites the scroll of the current frame.
    pub fn set_mouse_wheel(&mut self, lines: Vec2Bits)
        ensures
            final(self)@ == old(self)@.scrolled(lines),
            old(self)@.wf() ==> final(self)@.wf(),
    {
        self.mouse_wheel = lines;
    }

    /// The end-of-frame clearing.
    pub fn end_frame(&mut self)
        ensures
            final(self)@ == old(self)@.end_frame(),
            final(self)@.mouse_wheel == Vec2Bits::zero(),
            old(self)@.wf() ==> final(self)@.wf(),
    {
        proof {
            lemma_numberings_injective();
            EdgeSets::<KeyCode>::lemma_decode_commutes(
                self.keys@,
                key_numbering(),
                KeyCode { code: 0 },
            );
            EdgeSets::<MouseButton>::lemma_decode_commutes(
                self.mouse@,
                button_numbering(),
                MouseButton::Left,
            );
        }
        self.keys.clear_edges();
        self.mouse.clear_edges();
        self.mouse_wheel = Vec2Bits { x: 0, y: 0 };
    }

    /// Whether `key` is held.
    pub fn is_key_down(&self, key: KeyCode) -> (r: bool)
        ensures
            r == self@.keys.pressed.contains(key),
    {
        self.keys.is_pressed(key.code)
    }

    /// Whether `key` went down during the current frame.
    pub fn is_key_pressed(&self, key: KeyCode) -> (r: bool)
        ensures
            r == self@.keys.just_pressed.contains(key),
    {
        self.keys.is_just_pressed(key.code)
    }

    /// Whether `key` was released during the current frame.
    pub fn is_key_released(&self, key: KeyCode) -> (r: bool)
        ensures
            r == self@.keys.just_released.contains(key),
    {
        self.keys.is_just_released(key.code)
    }

    /// Whether `button` is held.
    pub fn is_mouse_button_down(&self, button: MouseButton) -> (r: bool)
        ensures
            r == self@.mouse.pressed.contains(button),
    {
        self.mouse.is_pressed(button.code())
    }

    /// Whether `button` went down during the current frame.
    pub fn is_mouse_button_pressed(&self, button: MouseButton) -> (r: bool)
        ensures
            r == self@.mouse.just_pressed.contains(button),
    {
        self.mouse.is_just_pressed(button.code())
    }

    /// Whether `button` was released during the current frame.
    pub fn is_mouse_button_released(&self, button: MouseButton) -> (r: bool)
        ensures
            r == self@.mouse.just_released.contains(button),
    {
        self.mouse.is_just_released(button.code())
    }

    /// The last known cursor position.
    pub fn mouse_position(&self) -> (p: Vec2Bits)
        ensures
            p == self@.mouse_position,
    {
        self.mouse_position
    }

    /// The scroll reported for the current frame.
    pub fn mouse_wheel(&self) -> (w: Vec2Bits)
        ensures
            w == self@.mouse_wheel,
    {
        self.mouse_wheel
    }
}

} // verus!
