//! Outputs and their arrangement.
use vstd::prelude::*;

verus! {

/// An output of the backend, known by its handle.
#[derive(Clone, Copy, Debug, PartialEq, Eq, Structural)]
pub struct OutputHandle {
    output: usize,
}

impl OutputHandle {
    /// Handle of the output.
    pub closed spec fn spec_to_ptr(&self) -> usize {
        self.output
    }

    /// The output with the handle `output`.
    pub fn from_ptr(output: usize) -> (handle: OutputHandle)
        ensures
            handle.spec_to_ptr() == output,
    {
        OutputHandle { output }
    }

    /// Handle of the output.
    #[verifier::when_used_as_spec(spec_to_ptr)]
    pub fn to_ptr(&self) -> (output: usize)
        ensures
            output == self.spec_to_ptr(),
    {
        self.output
    }
}

/// The geometric arrangement of the outputs, which bounds where a cursor can
/// go. The backend keeps the geometry; the toolkit keeps the handle.
#[derive(Debug, PartialEq, Eq, Structural)]
pub struct OutputLayout {
    layout: usize,
}

impl OutputLayout {
    /// Handle of the layout.
    pub closed spec fn spec_to_ptr(&self) -> usize {
        self.layout
    }

    /// The layout with the handle `layout`, or nothing for the null handle.
    pub fn new(layout: usize) -> (made: Option<OutputLayout>)
        ensures
            made is Some <==> layout != 0,
            made matches Some(l) ==> l.spec_to_ptr() == layout,
    {
        if layout == 0 {
            None
        } else {
            Some(OutputLayout { layout })
        }
    }

    /// Handle of the layout.
    #[verifier::when_used_as_spec(spec_to_ptr)]
    pub fn to_ptr(&self) -> (layout: usize)
        ensures
            layout == self.spec_to_ptr(),
    {
        self.layout
    }
}

} // verus!
