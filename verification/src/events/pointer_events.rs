//! Pointers and their events.
//!
//! The backend owns the payload of an event and keeps it only while the
//! signal is being delivered. A view borrows the payload, so it cannot be
//! kept longer than that: what a handler needs afterwards it copies out
//! through the accessors. Amounts that the backend measures in fractions
//! (a motion, a scroll) are carried as the bit pattern of an IEEE 754
//! double, sixty-four bits in a `u64`.
use vstd::prelude::*;
use crate::types::input_device::InputDevice;

verus! {

/// Whether a button went down or up.
#[derive(Clone, Copy, Debug, PartialEq, Eq, Structural)]
pub enum ButtonState {
    Released,
    Pressed,
}

/// Payload of a button signal.
#[derive(Clone, Copy, Debug, PartialEq, Eq, Structural)]
pub struct PointerButton {
    /// Handle of the device that the button belongs to.
    pub device: usize,
    /// Identifier of the button.
    pub button: u32,
    /// The state that the button went into.
    pub state: ButtonState,
}

/// Payload of an axis signal.
#[derive(Clone, Copy, Debug, PartialEq, Eq, Structural)]
pub struct PointerAxis {
    /// Handle of the device that was scrolled.
    pub device: usize,
    /// Bits of the scroll amount.
    pub delta: u64,
}

/// Payload of a relative motion signal.
#[derive(Clone, Copy, Debug, PartialEq, Eq, Structural)]
pub struct PointerMotion {
    /// Handle of the device that moved.
    pub device: usize,
    /// Bits of the horizontal amount.
    pub delta_x: u64,
    /// Bits of the vertical amount.
    pub delta_y: u64,
}

/// Payload of an absolute motion signal.
#[derive(Clone, Copy, Debug, PartialEq, Eq, Structural)]
pub struct PointerMotionAbsolute {
    /// Handle of the device that moved.
    pub device: usize,
}

/// View of the payload of an axis signal.
pub struct AxisEvent<'event> {
    event: &'event PointerAxis,
}

/// View of the payload of a button signal.
pub struct ButtonEvent<'event> {
    event: &'event PointerButton,
}

/// View of the payload of a relative motion signal.
pub struct MotionEvent<'event> {
    event: &'event PointerMotion,
}

/// View of the payload of an absolute motion signal.
pub struct AbsoluteMotionEvent<'event> {
    event: &'event PointerMotionAbsolute,
}

impl<'event> View for ButtonEvent<'event> {
    type V = PointerButton;

    closed spec fn view(&self) -> PointerButton {
        *self.event
    }
}

impl<'event> ButtonEvent<'event> {
    /// The view of `event`.
    pub fn from_ptr(event: &'event PointerButton) -> (view: Self)
        ensures
            view@ == *event,
    {
        ButtonEvent { event }
    }

    /// The state that the button went into.
    pub fn state(&self) -> (state: ButtonState)
        ensures
            state == self@.state,
    {
        self.event.state
    }

    /// Identifier of the button.
    pub fn button(&self) -> (button: u32)
        ensures
            button == self@.button,
    {
        self.event.button
    }
}

impl<'event> View for AxisEvent<'event> {
    type V = PointerAxis;

    closed spec fn view(&self) -> PointerAxis {
        *self.event
    }
}

impl<'event> AxisEvent<'event> {
    /// The view of `event`.
    pub fn from_ptr(event: &'event PointerAxis) -> (view: Self)
        ensures
            view@ == *event,
    {
        AxisEvent { event }
    }

    /// Bits of the scroll amount.
    pub fn delta(&self) -> (delta: u64)
        ensures
            delta == self@.delta,
    {
        self.event.delta
    }
}

impl<'event> View for MotionEvent<'event> {
    type V = PointerMotion;

    closed spec fn view(&self) -> PointerMotion {
        *self.event
    }
}

impl<'event> MotionEvent<'event> {
    /// The view of `event`.
    pub fn from_ptr(event: &'event PointerMotion) -> (view: Self)
        ensures
            view@ == *event,
    {
        MotionEvent { event }
    }

    /// The device that moved.
    pub fn device(&self) -> (device: InputDevice)
        ensures
            device.to_ptr() == self@.device,
    {
        InputDevice::from_ptr(self.event.device)
    }

    /// Bits of the horizontal and of the vertical amount.
    pub fn delta(&self) -> (delta: (u64, u64))
        ensures
            delta == (self@.delta_x, self@.delta_y),
    {
        (self.event.delta_x, self.event.delta_y)
    }
}

impl<'event> View for AbsoluteMotionEvent<'event> {
    type V = PointerMotionAbsolute;

    closed spec fn view(&self) -> PointerMotionAbsolute {
        *self.event
    }
}

impl<'event> AbsoluteMotionEvent<'event> {
    /// The view of `event`.
    pub fn from_ptr(event: &'event PointerMotionAbsolute) -> (view: Self)
        ensures
            view@ == *event,
    {
        AbsoluteMotionEvent { event }
    }

    /// The device that moved.
    pub fn device(&self) -> (device: InputDevice)
        ensures
            device.to_ptr() == self@.device,
    {
        InputDevice::from_ptr(self.event.device)
    }
}

} // verus!
