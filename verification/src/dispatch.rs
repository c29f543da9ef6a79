//! Routing of one platform event: to nobody when the interface layer took
//! it, else into the shared input state, to the renderer's resize handler or
//! to the loop's control signal.

use crate::input::{InputModel, InputState, KeyCode, MouseButton, Vec2Bits};
use crate::resolution::ResolutionConfig;
use vstd::prelude::*;

verus! {

/// What a scroll event carries.
#[derive(Clone, Copy, PartialEq, Eq, Structural, Debug)]
pub enum ScrollDelta {
    /// A scroll in lines.
    Lines(Vec2Bits),
    /// A scroll in pixels, which is not supported.
    Pixels,
}

/// A platform event, reduced to what the routing reads.
#[derive(Clone, Copy, PartialEq, Eq, Structural, Debug)]
pub enum WindowEvent {
    /// A key went down or up. `key` is `None` where the platform's key has
    /// no logical key.
    Keyboard { pressed: bool, key: Option<KeyCode> },
    /// The cursor moved to `position`.
    CursorMoved { position: Vec2Bits },
    /// A mouse button went down or up.
    MouseInput { pressed: bool, button: MouseButton },
    /// The wheel was turned.
    MouseWheel { delta: ScrollDelta },
    /// The window was resized to this physical size.
    Resized { width: u32, height: u32 },
    /// The scale factor changed; this is the new physical size.
    ScaleFactorChanged { width: u32, height: u32 },
    /// The user asked to close the window.
    CloseRequested,
    /// Any other event.
    Other,
}

/// What remains to be done outside the input state after an event was
/// routed.
#[derive(Clone, Copy, PartialEq, Eq, Structural, Debug)]
pub enum Effect {
    /// Nothing.
    Nothing,
    /// The renderer is to be resized to this physical size.
    Resize { width: u32, height: u32 },
    /// A scroll in an unsupported unit was dropped and is to be logged.
    UnsupportedScroll,
    /// The loop is to terminate.
    Exit,
}

/// An event together with the interface layer's verdict on it.
#[derive(Clone, Copy, PartialEq, Eq, Structural, Debug)]
pub struct Offered {
    /// Whether the interface layer consumed the event.
    pub consumed: bool,
    pub event: WindowEvent,
}

/// The input state after `offered` was routed in state `m`.
pub open spec fn input_after(m: InputModel, offered: Offered) -> InputModel {
    if offered.consumed {
        m
    } else {
        match offered.event {
            WindowEvent::Keyboard { pressed, key: Some(k) } => if pressed {
                m.key_down(k)
            } else {
                m.key_up(k)
            },
            WindowEvent::CursorMoved { position } => m.cursor_at(position),
            WindowEvent::MouseInput { pressed, button } => if pressed {
                m.mouse_down(button)
            } else {
                m.mouse_up(button)
            },
            WindowEvent::MouseWheel { delta: ScrollDelta::Lines(lines) } => m.scrolled(lines),
            _ => m,
        }
    }
}

/// The input state after each event of `events` was routed in turn, starting
/// in state `m`.
pub open spec fn input_after_all(m: InputModel, events: Seq<Offered>) -> InputModel
    decreases events.len(),
{
    if events.len() == 0 {
        m
    } else {
        input_after(input_after_all(m, events.drop_last()), events.last())
    }
}

/// The input state after each frame of `frames` in turn: the events of the
/// frame are routed, then the end-of-frame clearing is done.
pub open spec fn input_after_frames(m: InputModel, frames: Seq<Seq<Offered>>) -> InputModel
    decreases frames.len(),
{
    if frames.len() == 0 {
        m
    } else {
        input_after_all(
            input_after_frames(m, frames.drop_last()),
            frames.last(),
        ).end_frame()
    }
}

/// The router of platform events. It holds the size floor below which a
/// resize is ignored, and nothing else.
#[derive(Clone, Copy, PartialEq, Eq, Structural, Debug)]
pub struct Dispatcher {
    pub min_width: u32,
    pub min_height: u32,
}

impl Dispatcher {
    /// What routing `offered` leaves to be done outside the input state.
    pub open spec fn effect_of(self, offered: Offered) -> Effect {
        if offered.consumed {
            Effect::Nothing
        } else {
            match offered.event {
                WindowEvent::MouseWheel { delta: ScrollDelta::Pixels } => Effect::UnsupportedScroll,
                WindowEvent::Resized { width, height } => if width > self.min_width && height
                    > self.min_height {
                    Effect::Resize { width, height }
                } else {
                    Effect::Nothing
                },
                WindowEvent::ScaleFactorChanged { width, height } => Effect::Resize {
                    width,
                    height,
                },
                WindowEvent::CloseRequested => Effect::Exit,
                _ => Effect::Nothing,
            }
        }
    }

    /// A router whose floor is `min_resolution` with its zero dimensions
    /// raised to one.
    pub fn new(min_resolution: ResolutionConfig) -> (d: Dispatcher)
        ensures
            d.min_width == min_resolution.non_zero().spec_width(),
            d.min_height == min_resolution.non_zero().spec_height(),
    {
        let mut floor = min_resolution;
        let floor = floor.ensure_non_zero();
        Dispatcher { min_width: floor.width(), min_height: floor.height() }
    }

    /// Routes one event. A consumed event changes nothing and asks for
    /// nothing.
    pub fn dispatch(&self, input: &mut InputState, offered: Offered) -> (effect: Effect)
        ensures
            final(input)@ == input_after(old(input)@, offered),
            effect == self.effect_of(offered),
            offered.consumed ==> final(input)@ == old(input)@ && effect == Effect::Nothing,
            old(input)@.wf() ==> final(input)@.wf(),
            (effect matches Effect::Resize { width, height } && offered.event
                is Resized) <==> !offered.consumed && (offered.event matches WindowEvent::Resized {
                width: w,
                height: h,
            } && w > self.min_width && h > self.min_height),
    {
        if offered.consumed {
            return Effect::Nothing;
        }
        match offered.event {
            WindowEvent::Keyboard { pressed, key } => {
                match key {
                    Some(k) => {
                        if pressed {
                            input.key_down(k);
                        } else {
                            input.key_up(k);
                        }
                    },
                    None => {},
                }
                Effect::Nothing
            },
            WindowEvent::CursorMoved { position } => {
                input.set_mouse_position(position);
                Effect::Nothing
            },
            WindowEvent::MouseInput { pressed, button } => {
                if pressed {
                    input.mouse_down(button);
                } else {
                    input.mouse_up(button);
                }
                Effect::Nothing
            },
            WindowEvent::MouseWheel { delta } => {
                match delta {
                    ScrollDelta::Lines(lines) => {
                        input.set_mouse_wheel(lines);
                        Effect::Nothing
                    },
                    ScrollDelta::Pixels => Effect::UnsupportedScroll,
                }
            },
            WindowEvent::Resized { width, height } => {
                if width > self.min_width && height > self.min_height {
                    Effect::Resize { width, height }
                } else {
                    Effect::Nothing
                }
            },
            WindowEvent::ScaleFactorChanged { width, height } => Effect::Resize { width, height },
            WindowEvent::CloseRequested => Effect::Exit,
            WindowEvent::Other => Effect::Nothing,
        }
    }
}

/// The unconsumed event that `key` went down.
pub open spec fn key_down_event(key: KeyCode) -> Offered {
    Offered { consumed: false, event: WindowEvent::Keyboard { pressed: true, key: Some(key) } }
}

/// The unconsumed event that `key` went up.
pub open spec fn key_up_event(key: KeyCode) -> Offered {
    Offered { consumed: false, event: WindowEvent::Keyboard { pressed: false, key: Some(key) } }
}

/// The unconsumed event of a scroll by `lines`.
pub open spec fn scroll_event(lines: Vec2Bits) -> Offered {
    Offered { consumed: false, event: WindowEvent::MouseWheel { delta: ScrollDelta::Lines(lines) } }
}

/// Whether `offered` is an unconsumed keyboard event for `key`.
pub open spec fn touches_key(offered: Offered, key: KeyCode) -> bool {
    !offered.consumed && (offered.event matches WindowEvent::Keyboard { key: Some(k), .. } && k
        == key)
}

/// Whether no event of `events` is an unconsumed keyboard event for `key`.
pub open spec fn quiet_for_key(events: Seq<Offered>, key: KeyCode) -> bool {
    forall|i: int| 0 <= i < events.len() ==> !touches_key(#[trigger] events[i], key)
}

/// Whether every frame of `frames` is quiet for `key`.
pub open spec fn quiet_frames_for_key(frames: Seq<Seq<Offered>>, key: KeyCode) -> bool {
    forall|i: int| 0 <= i < frames.len() ==> quiet_for_key(#[trigger] frames[i], key)
}

/// Whether `key` belongs to the same of the three key sets in `a` and in `b`.
pub open spec fn same_key_state(a: InputModel, b: InputModel, key: KeyCode) -> bool {
    &&& a.keys.pressed.contains(key) == b.keys.pressed.contains(key)
    &&& a.keys.just_pressed.contains(key) == b.keys.just_pressed.contains(key)
    &&& a.keys.just_released.contains(key) == b.keys.just_released.contains(key)
}

/// Routing keeps a well-formed input state well-formed, whatever the events.
pub proof fn lemma_routing_keeps_wf(m: InputModel, events: Seq<Offered>)
    requires
        m.wf(),
    ensures
        input_after_all(m, events).wf(),
    decreases events.len(),
{
    if events.len() > 0 {
        lemma_routing_keeps_wf(m, events.drop_last());
    }
}

/// An event that the interface layer consumed leaves the input state as it
/// was.
pub proof fn lemma_consumed_changes_nothing(m: InputModel, event: WindowEvent)
    ensures
        input_after(m, Offered { consumed: true, event }) == m,
{
}

/// Events that are quiet for a key leave the key where it was in each of the
/// three key sets.
pub proof fn lemma_quiet_events_keep_key(m: InputModel, events: Seq<Offered>, key: KeyCode)
    requires
        quiet_for_key(events, key),
    ensures
        same_key_state(input_after_all(m, events), m, key),
    decreases events.len(),
{
    if events.len() > 0 {
        let front = events.drop_last();
        assert forall|i: int| 0 <= i < front.len() implies !touches_key(
            #[trigger] front[i],
            key,
        ) by {
            assert(front[i] == events[i]);
        }
        lemma_quiet_events_keep_key(m, front, key);
        assert(!touches_key(events[events.len() - 1], key));
    }
}

/// Frames that are quiet for a key leave the key held or not held as it was,
/// and after at least one such frame the key is in neither edge set.
pub proof fn lemma_quiet_frames_keep_key(m: InputModel, frames: Seq<Seq<Offered>>, key: KeyCode)
    requires
        quiet_frames_for_key(frames, key),
    ensures
        input_after_frames(m, frames).keys.pressed.contains(key) == m.keys.pressed.contains(key),
        frames.len() > 0 ==> !input_after_frames(m, frames).keys.just_pressed.contains(key)
            && !input_after_frames(m, frames).keys.just_released.contains(key),
    decreases frames.len(),
{
    if frames.len() > 0 {
        let front = frames.drop_last();
        assert forall|i: int| 0 <= i < front.len() implies quiet_for_key(
            #[trigger] front[i],
            key,
        ) by {
            assert(front[i] == frames[i]);
        }
        lemma_quiet_frames_keep_key(m, front, key);
        assert(quiet_for_key(frames[frames.len() - 1], key));
        lemma_quiet_events_keep_key(input_after_frames(m, front), frames.last(), key);
    }
}

/// A key that goes down and then up within one frame has left no trace once
/// the frame is cleared: it is in none of the three key sets. This holds
/// whatever the state before, and whatever other events come between the two
/// and after them in that frame.
pub proof fn lemma_tap_leaves_no_trace(
    m: InputModel,
    key: KeyCode,
    between: Seq<Offered>,
    after: Seq<Offered>,
)
    requires
        quiet_for_key(between, key),
        quiet_for_key(after, key),
    ensures
        ({
            let down = input_after(m, key_down_event(key));
            let up = input_after(input_after_all(down, between), key_up_event(key));
            let cleared = input_after_all(up, after).end_frame();
            &&& !cleared.keys.pressed.contains(key)
            &&& !cleared.keys.just_pressed.contains(key)
            &&& !cleared.keys.just_released.contains(key)
        }),
{
    let down = input_after(m, key_down_event(key));
    let up = input_after(input_after_all(down, between), key_up_event(key));
    lemma_quiet_events_keep_key(up, after, key);
}

/// A key that goes down and is then held is reported as held from then on,
/// in the frame of the event and in every later frame, and as just pressed
/// in the frame of the event only.
///
/// `rest` is what else happens in the frame of the event, `frames` are the
/// complete frames that follow, and `part` is the beginning of the frame
/// after them; "held" says that all of these are quiet for the key.
pub proof fn lemma_held_key(
    m: InputModel,
    key: KeyCode,
    rest: Seq<Offered>,
    frames: Seq<Seq<Offered>>,
    part: Seq<Offered>,
)
    requires
        quiet_for_key(rest, key),
        quiet_frames_for_key(frames, key),
        quiet_for_key(part, key),
    ensures
        ({
            let first = input_after_all(input_after(m, key_down_event(key)), rest);
            let later = input_after_all(input_after_frames(first.end_frame(), frames), part);
            &&& first.keys.pressed.contains(key)
            &&& first.keys.just_pressed.contains(key)
            &&& later.keys.pressed.contains(key)
            &&& !later.keys.just_pressed.contains(key)
        }),
{
    let down = input_after(m, key_down_event(key));
    lemma_quiet_events_keep_key(down, rest, key);
    let first = input_after_all(down, rest);
    lemma_quiet_frames_keep_key(first.end_frame(), frames, key);
    lemma_quiet_events_keep_key(input_after_frames(first.end_frame(), frames), part, key);
}

/// The unconsumed event that `button` went down.
pub open spec fn button_down_event(button: MouseButton) -> Offered {
    Offered { consumed: false, event: WindowEvent::MouseInput { pressed: true, button } }
}

/// The unconsumed event that `button` went up.
pub open spec fn button_up_event(button: MouseButton) -> Offered {
    Offered { consumed: false, event: WindowEvent::MouseInput { pressed: false, button } }
}

/// Whether `offered` is an unconsumed mouse button event for `button`.
pub open spec fn touches_button(offered: Offered, button: MouseButton) -> bool {
    !offered.consumed && (offered.event matches WindowEvent::MouseInput { button: b, .. } && b
        == button)
}

/// Whether no event of `events` is an unconsumed mouse button event for
/// `button`.
pub open spec fn quiet_for_button(events: Seq<Offered>, button: MouseButton) -> bool {
    forall|i: int| 0 <= i < events.len() ==> !touches_button(#[trigger] events[i], button)
}

/// Whether every frame of `frames` is quiet for `button`.
pub open spec fn quiet_frames_for_button(frames: Seq<Seq<Offered>>, button: MouseButton) -> bool {
    forall|i: int| 0 <= i < frames.len() ==> quiet_for_button(#[trigger] frames[i], button)
}

/// Whether `button` belongs to the same of the three mouse button sets in `a`
/// and in `b`.
pub open spec fn same_button_state(a: InputModel, b: InputModel, button: MouseButton) -> bool {
    &&& a.mouse.pressed.contains(button) == b.mouse.pressed.contains(button)
    &&& a.mouse.just_pressed.contains(button) == b.mouse.just_pressed.contains(button)
    &&& a.mouse.just_released.contains(button) == b.mouse.just_released.contains(button)
}

/// Events that are quiet for a mouse button leave the button where it was in
/// each of the three mouse button sets.
pub proof fn lemma_quiet_events_keep_button(
    m: InputModel,
    events: Seq<Offered>,
    button: MouseButton,
)
    requires
        quiet_for_button(events, button),
    ensures
        same_button_state(input_after_all(m, events), m, button),
    decreases events.len(),
{
    if events.len() > 0 {
        let front = events.drop_last();
        assert forall|i: int| 0 <= i < front.len() implies !touches_button(
            #[trigger] front[i],
            button,
        ) by {
            assert(front[i] == events[i]);
        }
        lemma_quiet_events_keep_button(m, front, button);
        assert(!touches_button(events[events.len() - 1], button));
    }
}

/// Frames that are quiet for a mouse button leave the button held or not held
/// as it was, and after at least one such frame the button is in neither edge
/// set.
pub proof fn lemma_quiet_frames_keep_button(
    m: InputModel,
    frames: Seq<Seq<Offered>>,
    button: MouseButton,
)
    requires
        quiet_frames_for_button(frames, button),
    ensures
        input_after_frames(m, frames).mouse.pressed.contains(button) == m.mouse.pressed.contains(
            button,
        ),
        frames.len() > 0 ==> !input_after_frames(m, frames).mouse.just_pressed.contains(button)
            && !input_after_frames(m, frames).mouse.just_released.contains(button),
    decreases frames.len(),
{
    if frames.len() > 0 {
        let front = frames.drop_last();
        assert forall|i: int| 0 <= i < front.len() implies quiet_for_button(
            #[trigger] front[i],
            button,
        ) by {
            assert(front[i] == frames[i]);
        }
        lemma_quiet_frames_keep_button(m, front, button);
        assert(quiet_for_button(frames[frames.len() - 1], button));
        lemma_quiet_events_keep_button(input_after_frames(m, front), frames.last(), button);
    }
}

/// A mouse button that goes down and then up within one frame has left no
/// trace once the frame is cleared: it is in none of the three mouse button
/// sets, whatever the state before and whatever other events the frame saw.
pub proof fn lemma_click_leaves_no_trace(
    m: InputModel,
    button: MouseButton,
    between: Seq<Offered>,
    after: Seq<Offered>,
)
    requires
        quiet_for_button(between, button),
        quiet_for_button(after, button),
    ensures
        ({
            let down = input_after(m, button_down_event(button));
            let up = input_after(input_after_all(down, between), button_up_event(button));
            let cleared = input_after_all(up, after).end_frame();
            &&& !cleared.mouse.pressed.contains(button)
            &&& !cleared.mouse.just_pressed.contains(button)
            &&& !cleared.mouse.just_released.contains(button)
        }),
{
    let down = input_after(m, button_down_event(button));
    let up = input_after(input_after_all(down, between), button_up_event(button));
    lemma_quiet_events_keep_button(up, after, button);
}

/// A mouse button that goes down and is then held is reported as held from
/// then on, in the frame of the event and in every later frame, and as just
/// pressed in the frame of the event only. The parameters are those of
/// `lemma_held_key`.
pub proof fn lemma_held_button(
    m: InputModel,
    button: MouseButton,
    rest: Seq<Offered>,
    frames: Seq<Seq<Offered>>,
    part: Seq<Offered>,
)
    requires
        quiet_for_button(rest, button),
        quiet_frames_for_button(frames, button),
        quiet_for_button(part, button),
    ensures
        ({
            let first = input_after_all(input_after(m, button_down_event(button)), rest);
            let later = input_after_all(input_after_frames(first.end_frame(), frames), part);
            &&& first.mouse.pressed.contains(button)
            &&& first.mouse.just_pressed.contains(button)
            &&& later.mouse.pressed.contains(button)
            &&& !later.mouse.just_pressed.contains(button)
        }),
{
    let down = input_after(m, button_down_event(button));
    lemma_quiet_events_keep_button(down, rest, button);
    let first = input_after_all(down, rest);
    lemma_quiet_frames_keep_button(first.end_frame(), frames, button);
    lemma_quiet_events_keep_button(input_after_frames(first.end_frame(), frames), part, button);
}

/// Right after the end-of-frame clearing the scroll is zero, whatever events
/// the frame saw; so it is after any number of complete frames, if there was
/// at least one.
pub proof fn lemma_scroll_zero_after_clearing(
    m: InputModel,
    events: Seq<Offered>,
    frames: Seq<Seq<Offered>>,
)
    ensures
        input_after_all(m, events).end_frame().mouse_wheel == Vec2Bits::zero(),
        frames.len() > 0 ==> input_after_frames(m, frames).mouse_wheel == Vec2Bits::zero(),
{
}

/// Of the scrolls of one frame the last one is what the frame observes: right
/// after an unconsumed scroll by `lines`, the scroll is `lines`, whatever came
/// before.
pub proof fn lemma_last_scroll_wins(m: InputModel, events: Seq<Offered>, lines: Vec2Bits)
    ensures
        input_after(input_after_all(m, events), scroll_event(lines)).mouse_wheel == lines,
        input_after_all(m, events.push(scroll_event(lines))).mouse_wheel == lines,
{
    assert(events.push(scroll_event(lines)).drop_last() =~= events);
}

/// A resize reaches the renderer exactly when the interface layer did not
/// consume it and the new size exceeds the floor in both dimensions; the size
/// is handed on unchanged.
pub proof fn lemma_resize_gate(d: Dispatcher, consumed: bool, width: u32, height: u32)
    ensures
        ({
            let effect = d.effect_of(
                Offered { consumed, event: WindowEvent::Resized { width, height } },
            );
            if !consumed && width > d.min_width && height > d.min_height {
                effect == (Effect::Resize { width, height })
            } else {
                effect == Effect::Nothing
            }
        }),
{
}

} // verus!
