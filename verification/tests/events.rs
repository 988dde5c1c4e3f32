use wlroots::events::pointer_events::{
    AbsoluteMotionEvent, AxisEvent, ButtonEvent, ButtonState, MotionEvent, PointerAxis,
    PointerButton, PointerMotion, PointerMotionAbsolute,
};

#[test]
fn button_view_reports_the_payload() {
    let payload = PointerButton { device: 0x10, button: 272, state: ButtonState::Pressed };
    let event = ButtonEvent::from_ptr(&payload);
    assert_eq!(event.button(), 272);
    assert_eq!(event.state(), ButtonState::Pressed);
}

#[test]
fn button_view_reports_a_release() {
    let payload = PointerButton { device: 0x10, button: 273, state: ButtonState::Released };
    let event = ButtonEvent::from_ptr(&payload);
    assert_eq!(event.button(), 273);
    assert_eq!(event.state(), ButtonState::Released);
}

#[test]
fn axis_view_reports_the_delta() {
    let payload = PointerAxis { device: 0x10, delta: 1.5f64.to_bits() };
    let event = AxisEvent::from_ptr(&payload);
    assert_eq!(f64::from_bits(event.delta()), 1.5);
}

#[test]
fn axis_view_keeps_every_bit() {
    let payload = PointerAxis { device: 0x10, delta: (-0.0f64).to_bits() };
    let event = AxisEvent::from_ptr(&payload);
    assert_eq!(event.delta(), 0x8000_0000_0000_0000);
}

#[test]
fn motion_view_reports_device_and_delta() {
    let payload =
        PointerMotion { device: 0x20, delta_x: 2.25f64.to_bits(), delta_y: (-4.5f64).to_bits() };
    let event = MotionEvent::from_ptr(&payload);
    assert_eq!(event.device().to_ptr(), 0x20);
    let (dx, dy) = event.delta();
    assert_eq!(f64::from_bits(dx), 2.25);
    assert_eq!(f64::from_bits(dy), -4.5);
}

#[test]
fn absolute_motion_view_reports_the_device() {
    let payload = PointerMotionAbsolute { device: 0x30 };
    let event = AbsoluteMotionEvent::from_ptr(&payload);
    assert_eq!(event.device().to_ptr(), 0x30);
}
