//! Input devices as the backend announces them.
use vstd::prelude::*;

verus! {

/// The class of an input device.
#[derive(Clone, Copy, Debug, PartialEq, Eq, Structural)]
pub enum InputDeviceType {
    Keyboard,
    Pointer,
    Touch,
    TabletTool,
    TabletPad,
}

/// An input device of the backend, known by its handle.
#[derive(Clone, Copy, Debug, PartialEq, Eq, Structural)]
pub struct InputDevice {
    device: usize,
}

impl InputDevice {
    /// Handle of the device.
    pub closed spec fn spec_to_ptr(&self) -> usize {
        self.device
    }

    /// The device with the handle `device`.
    pub fn from_ptr(device: usize) -> (dev: InputDevice)
        ensures
            dev.spec_to_ptr() == device,
    {
        InputDevice { device }
    }

    /// Handle of the device.
    #[verifier::when_used_as_spec(spec_to_ptr)]
    pub fn to_ptr(&self) -> (device: usize)
        ensures
            device == self.spec_to_ptr(),
    {
        self.device
    }
}

} // verus!
