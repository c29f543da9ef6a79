use frame_loop::buttons::ButtonTracker;
use frame_loop::dispatch::{Dispatcher, Effect, Offered, ScrollDelta, WindowEvent};
use frame_loop::input::{InputState, KeyCode, MouseButton, Vec2Bits};
use frame_loop::resolution::ResolutionConfig;

fn pair(x: f32, y: f32) -> Vec2Bits {
    Vec2Bits { x: x.to_bits(), y: y.to_bits() }
}

fn key_event(pressed: bool, code: u32) -> Offered {
    Offered {
        consumed: false,
        event: WindowEvent::Keyboard { pressed, key: Some(KeyCode { code }) },
    }
}

fn scroll(x: f32, y: f32) -> Offered {
    Offered { consumed: false, event: WindowEvent::MouseWheel { delta: ScrollDelta::Lines(pair(x, y)) } }
}

fn router() -> Dispatcher {
    Dispatcher::new(ResolutionConfig::Physical(100, 50))
}

#[test]
fn new_state_is_empty() {
    let s = InputState::new();
    for code in [0u32, 1, 7, 160, u32::MAX] {
        let k = KeyCode { code };
        assert!(!s.is_key_down(k));
        assert!(!s.is_key_pressed(k));
        assert!(!s.is_key_released(k));
    }
    for b in [MouseButton::Left, MouseButton::Right, MouseButton::Middle, MouseButton::Other(0)] {
        assert!(!s.is_mouse_button_down(b));
        assert!(!s.is_mouse_button_pressed(b));
        assert!(!s.is_mouse_button_released(b));
    }
    assert_eq!(s.mouse_position(), pair(0.0, 0.0));
    assert_eq!(s.mouse_wheel(), pair(0.0, 0.0));
    assert_eq!(s.mouse_wheel(), Vec2Bits { x: 0, y: 0 });
}

#[test]
fn key_down_sets_level_and_edge() {
    let mut s = InputState::new();
    let k = KeyCode { code: 30 };
    s.key_down(k);
    assert!(s.is_key_down(k));
    assert!(s.is_key_pressed(k));
    assert!(!s.is_key_released(k));
    assert!(!s.is_key_down(KeyCode { code: 31 }));
}

#[test]
fn key_up_clears_level_and_sets_release_edge() {
    let mut s = InputState::new();
    let k = KeyCode { code: 30 };
    s.key_down(k);
    s.key_up(k);
    assert!(!s.is_key_down(k));
    assert!(!s.is_key_pressed(k));
    assert!(s.is_key_released(k));
}

#[test]
fn key_down_after_up_removes_release_edge() {
    let mut s = InputState::new();
    let k = KeyCode { code: 4 };
    s.key_down(k);
    s.key_up(k);
    s.key_down(k);
    assert!(s.is_key_down(k));
    assert!(s.is_key_pressed(k));
    assert!(!s.is_key_released(k));
}

#[test]
fn tap_within_one_frame_leaves_no_trace_after_clearing() {
    let mut s = InputState::new();
    let d = router();
    let k = KeyCode { code: 12 };
    d.dispatch(&mut s, key_event(true, 12));
    d.dispatch(&mut s, key_event(true, 99));
    d.dispatch(&mut s, scroll(1.0, 1.0));
    d.dispatch(&mut s, key_event(false, 12));
    d.dispatch(&mut s, key_event(false, 99));
    assert!(s.is_key_released(k));
    s.end_frame();
    assert!(!s.is_key_down(k));
    assert!(!s.is_key_pressed(k));
    assert!(!s.is_key_released(k));
}

#[test]
fn held_key_is_pressed_every_frame_and_just_pressed_once() {
    let mut s = InputState::new();
    let d = router();
    let k = KeyCode { code: 55 };
    d.dispatch(&mut s, key_event(true, 55));
    assert!(s.is_key_down(k));
    assert!(s.is_key_pressed(k));
    s.end_frame();
    for frame in 0..10u32 {
        d.dispatch(&mut s, key_event(true, 1000 + frame));
        d.dispatch(&mut s, key_event(false, 1000 + frame));
        assert!(s.is_key_down(k));
        assert!(!s.is_key_pressed(k));
        assert!(!s.is_key_released(k));
        s.end_frame();
        assert!(s.is_key_down(k));
        assert!(!s.is_key_pressed(k));
    }
    d.dispatch(&mut s, key_event(false, 55));
    assert!(!s.is_key_down(k));
    assert!(s.is_key_released(k));
}

#[test]
fn wheel_is_zero_after_every_clearing() {
    let mut s = InputState::new();
    let d = router();
    s.end_frame();
    assert_eq!(s.mouse_wheel(), Vec2Bits { x: 0, y: 0 });
    for n in 0..5 {
        for i in 0..n {
            d.dispatch(&mut s, scroll(i as f32, -3.5));
        }
        s.end_frame();
        assert_eq!(s.mouse_wheel(), Vec2Bits { x: 0, y: 0 });
        assert_eq!(f32::from_bits(s.mouse_wheel().x), 0.0);
        assert_eq!(f32::from_bits(s.mouse_wheel().y), 0.0);
    }
}

#[test]
fn last_scroll_of_a_frame_wins() {
    let mut s = InputState::new();
    let d = router();
    d.dispatch(&mut s, scroll(1.0, 0.0));
    assert_eq!(s.mouse_wheel(), pair(1.0, 0.0));
    d.dispatch(&mut s, scroll(0.0, 2.0));
    assert_eq!(s.mouse_wheel(), pair(0.0, 2.0));
    assert_ne!(s.mouse_wheel(), pair(1.0, 2.0));
    assert_eq!(f32::from_bits(s.mouse_wheel().x), 0.0);
    assert_eq!(f32::from_bits(s.mouse_wheel().y), 2.0);
}

#[test]
fn pixel_scroll_is_reported_and_ignored() {
    let mut s = InputState::new();
    let d = router();
    d.dispatch(&mut s, scroll(1.0, 4.0));
    let e = d.dispatch(
        &mut s,
        Offered { consumed: false, event: WindowEvent::MouseWheel { delta: ScrollDelta::Pixels } },
    );
    assert_eq!(e, Effect::UnsupportedScroll);
    assert_eq!(s.mouse_wheel(), pair(1.0, 4.0));
}

#[test]
fn line_scroll_asks_for_nothing() {
    let mut s = InputState::new();
    assert_eq!(router().dispatch(&mut s, scroll(0.5, 0.25)), Effect::Nothing);
}

#[test]
fn resize_at_or_below_the_floor_is_ignored() {
    let mut s = InputState::new();
    let d = router();
    for (width, height) in [(100u32, 50u32), (100, 51), (101, 50), (99, 1000), (1000, 49), (0, 0), (1, 1)] {
        let e = d.dispatch(&mut s, Offered { consumed: false, event: WindowEvent::Resized { width, height } });
        assert_eq!(e, Effect::Nothing);
    }
}

#[test]
fn resize_above_the_floor_reaches_the_renderer() {
    let mut s = InputState::new();
    let d = router();
    for (width, height) in [(101u32, 51u32), (1920, 1080), (u32::MAX, u32::MAX), (101, 4000)] {
        let e = d.dispatch(&mut s, Offered { consumed: false, event: WindowEvent::Resized { width, height } });
        assert_eq!(e, Effect::Resize { width, height });
    }
}

#[test]
fn consumed_resize_is_ignored() {
    let mut s = InputState::new();
    let e = router().dispatch(
        &mut s,
        Offered { consumed: true, event: WindowEvent::Resized { width: 1920, height: 1080 } },
    );
    assert_eq!(e, Effect::Nothing);
}

#[test]
fn scale_factor_change_always_resizes() {
    let mut s = InputState::new();
    let d = router();
    for (width, height) in [(0u32, 0u32), (100, 50), (10, 10), (1920, 1080)] {
        let e = d.dispatch(
            &mut s,
            Offered { consumed: false, event: WindowEvent::ScaleFactorChanged { width, height } },
        );
        assert_eq!(e, Effect::Resize { width, height });
    }
}

#[test]
fn close_request_asks_for_exit() {
    let mut s = InputState::new();
    let e = router().dispatch(&mut s, Offered { consumed: false, event: WindowEvent::CloseRequested });
    assert_eq!(e, Effect::Exit);
    let e = router().dispatch(&mut s, Offered { consumed: true, event: WindowEvent::CloseRequested });
    assert_eq!(e, Effect::Nothing);
}

#[test]
fn consumed_key_down_does_not_reach_the_input_state() {
    let mut s = InputState::new();
    let d = router();
    let k = KeyCode { code: 44 };
    let e = d.dispatch(
        &mut s,
        Offered { consumed: true, event: WindowEvent::Keyboard { pressed: true, key: Some(k) } },
    );
    assert_eq!(e, Effect::Nothing);
    assert!(!s.is_key_down(k));
    assert!(!s.is_key_pressed(k));
    assert!(!s.is_key_released(k));
}

#[test]
fn consumed_events_change_nothing() {
    let mut s = InputState::new();
    let d = router();
    d.dispatch(&mut s, key_event(true, 3));
    d.dispatch(&mut s, scroll(2.0, 3.0));
    d.dispatch(&mut s, Offered { consumed: false, event: WindowEvent::CursorMoved { position: pair(10.0, 20.0) } });
    let consumed = [
        WindowEvent::Keyboard { pressed: false, key: Some(KeyCode { code: 3 }) },
        WindowEvent::Keyboard { pressed: true, key: Some(KeyCode { code: 8 }) },
        WindowEvent::CursorMoved { position: pair(1.0, 1.0) },
        WindowEvent::MouseInput { pressed: true, button: MouseButton::Left },
        WindowEvent::MouseWheel { delta: ScrollDelta::Lines(pair(9.0, 9.0)) },
        WindowEvent::MouseWheel { delta: ScrollDelta::Pixels },
        WindowEvent::CloseRequested,
        WindowEvent::Other,
    ];
    for event in consumed {
        assert_eq!(d.dispatch(&mut s, Offered { consumed: true, event }), Effect::Nothing);
    }
    assert!(s.is_key_down(KeyCode { code: 3 }));
    assert!(s.is_key_pressed(KeyCode { code: 3 }));
    assert!(!s.is_key_released(KeyCode { code: 3 }));
    assert!(!s.is_key_down(KeyCode { code: 8 }));
    assert!(!s.is_mouse_button_down(MouseButton::Left));
    assert_eq!(s.mouse_wheel(), pair(2.0, 3.0));
    assert_eq!(s.mouse_position(), pair(10.0, 20.0));
}

#[test]
fn unmapped_key_is_dropped() {
    let mut s = InputState::new();
    let d = router();
    d.dispatch(&mut s, key_event(true, 5));
    let e = d.dispatch(&mut s, Offered { consumed: false, event: WindowEvent::Keyboard { pressed: false, key: None } });
    assert_eq!(e, Effect::Nothing);
    let e = d.dispatch(&mut s, Offered { consumed: false, event: WindowEvent::Keyboard { pressed: true, key: None } });
    assert_eq!(e, Effect::Nothing);
    assert!(s.is_key_down(KeyCode { code: 5 }));
    assert!(s.is_key_pressed(KeyCode { code: 5 }));
    assert!(!s.is_key_down(KeyCode { code: 0 }));
}

#[test]
fn cursor_position_is_overwritten() {
    let mut s = InputState::new();
    let d = router();
    d.dispatch(&mut s, Offered { consumed: false, event: WindowEvent::CursorMoved { position: pair(3.0, 4.0) } });
    d.dispatch(&mut s, Offered { consumed: false, event: WindowEvent::CursorMoved { position: pair(-1.5, 8.0) } });
    assert_eq!(s.mouse_position(), pair(-1.5, 8.0));
    s.end_frame();
    assert_eq!(s.mouse_position(), pair(-1.5, 8.0));
}

#[test]
fn mouse_buttons_follow_the_rule_of_the_keys() {
    let mut s = InputState::new();
    let d = router();
    let press = |button| Offered { consumed: false, event: WindowEvent::MouseInput { pressed: true, button } };
    let release = |button| Offered { consumed: false, event: WindowEvent::MouseInput { pressed: false, button } };
    d.dispatch(&mut s, press(MouseButton::Left));
    assert!(s.is_mouse_button_down(MouseButton::Left));
    assert!(s.is_mouse_button_pressed(MouseButton::Left));
    assert!(!s.is_mouse_button_released(MouseButton::Left));
    assert!(!s.is_mouse_button_down(MouseButton::Right));
    d.dispatch(&mut s, release(MouseButton::Left));
    assert!(!s.is_mouse_button_down(MouseButton::Left));
    assert!(!s.is_mouse_button_pressed(MouseButton::Left));
    assert!(s.is_mouse_button_released(MouseButton::Left));
    d.dispatch(&mut s, press(MouseButton::Left));
    assert!(s.is_mouse_button_down(MouseButton::Left));
    assert!(s.is_mouse_button_pressed(MouseButton::Left));
    assert!(!s.is_mouse_button_released(MouseButton::Left));
    s.end_frame();
    assert!(s.is_mouse_button_down(MouseButton::Left));
    assert!(!s.is_mouse_button_pressed(MouseButton::Left));
    assert!(!s.is_mouse_button_released(MouseButton::Left));
}

#[test]
fn other_mouse_buttons_keep_their_index() {
    let mut s = InputState::new();
    s.mouse_down(MouseButton::Other(0));
    s.mouse_down(MouseButton::Other(7));
    assert!(s.is_mouse_button_down(MouseButton::Other(0)));
    assert!(s.is_mouse_button_down(MouseButton::Other(7)));
    assert!(!s.is_mouse_button_down(MouseButton::Other(1)));
    assert!(!s.is_mouse_button_down(MouseButton::Left));
    assert!(!s.is_mouse_button_down(MouseButton::Right));
    assert!(!s.is_mouse_button_down(MouseButton::Middle));
    s.mouse_down(MouseButton::Other(u16::MAX));
    assert!(s.is_mouse_button_down(MouseButton::Other(u16::MAX)));
    s.mouse_up(MouseButton::Other(7));
    assert!(!s.is_mouse_button_down(MouseButton::Other(7)));
    assert!(s.is_mouse_button_released(MouseButton::Other(7)));
    assert!(s.is_mouse_button_down(MouseButton::Other(0)));
}

#[test]
fn mouse_button_codes() {
    assert_eq!(MouseButton::Left.code(), 0);
    assert_eq!(MouseButton::Right.code(), 1);
    assert_eq!(MouseButton::Middle.code(), 2);
    assert_eq!(MouseButton::Other(0).code(), 3);
    assert_eq!(MouseButton::Other(5).code(), 8);
    assert_eq!(MouseButton::Other(u16::MAX).code(), 65538);
}

#[test]
fn keys_and_mouse_buttons_do_not_mix() {
    let mut s = InputState::new();
    s.key_down(KeyCode { code: 0 });
    assert!(!s.is_mouse_button_down(MouseButton::Left));
    s.mouse_down(MouseButton::Right);
    assert!(!s.is_key_down(KeyCode { code: 1 }));
}

#[test]
fn tracker_press_release_clear() {
    let mut t = ButtonTracker::new();
    assert!(!t.is_pressed(1));
    t.press(1);
    t.press(2);
    assert!(t.is_pressed(1) && t.is_just_pressed(1) && !t.is_just_released(1));
    t.release(1);
    assert!(!t.is_pressed(1) && !t.is_just_pressed(1) && t.is_just_released(1));
    assert!(t.is_pressed(2) && t.is_just_pressed(2));
    t.clear_edges();
    assert!(!t.is_pressed(1) && !t.is_just_pressed(1) && !t.is_just_released(1));
    assert!(t.is_pressed(2) && !t.is_just_pressed(2) && !t.is_just_released(2));
}

#[test]
fn release_of_a_key_that_was_not_down() {
    let mut s = InputState::new();
    let k = KeyCode { code: 77 };
    s.key_up(k);
    assert!(!s.is_key_down(k));
    assert!(!s.is_key_pressed(k));
    assert!(s.is_key_released(k));
    s.end_frame();
    assert!(!s.is_key_released(k));
}

#[test]
fn dispatcher_floor_has_no_zero_dimension() {
    let d = Dispatcher::new(ResolutionConfig::Logical(0, 0));
    assert_eq!((d.min_width, d.min_height), (1, 1));
    let d = Dispatcher::new(ResolutionConfig::Physical(0, 7));
    assert_eq!((d.min_width, d.min_height), (1, 7));
    let d = Dispatcher::new(ResolutionConfig::Physical(640, 480));
    assert_eq!((d.min_width, d.min_height), (640, 480));
    let mut s = InputState::new();
    let d = Dispatcher::new(ResolutionConfig::Logical(0, 0));
    let e = d.dispatch(&mut s, Offered { consumed: false, event: WindowEvent::Resized { width: 1, height: 1 } });
    assert_eq!(e, Effect::Nothing);
    let e = d.dispatch(&mut s, Offered { consumed: false, event: WindowEvent::Resized { width: 2, height: 2 } });
    assert_eq!(e, Effect::Resize { width: 2, height: 2 });
}
