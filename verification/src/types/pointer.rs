//! Pointer devices.
use vstd::prelude::*;

verus! {

/// A pointer device of the backend, known by the handle of its input device.
#[derive(Clone, Copy, Debug, PartialEq, Eq, Structural)]
pub struct PointerHandle {
    device: usize,
}

impl PointerHandle {
    /// Handle of the input device behind the pointer.
    pub closed spec fn spec_input_device(&self) -> usize {
        self.device
    }

    /// The pointer whose input device has the handle `device`.
    pub fn from_ptr(device: usize) -> (pointer: PointerHandle)
        ensures
            pointer.spec_input_device() == device,
    {
        PointerHandle { device }
    }

    /// Handle of the input device behind the pointer.
    #[verifier::when_used_as_spec(spec_input_device)]
    pub fn input_device(&self) -> (device: usize)
        ensures
            device == self.spec_input_device(),
    {
        self.device
    }
}

} // verus!
