//! The renderer that draws with OpenGL ES 2.
use vstd::prelude::*;

verus! {

/// The backend's renderer, known by its handle.
#[derive(Debug, PartialEq, Eq, Structural)]
pub struct GLES2 {
    renderer: usize,
}

impl GLES2 {
    /// Handle of the renderer.
    pub closed spec fn spec_to_ptr(&self) -> usize {
        self.renderer
    }

    /// The renderer with the handle `renderer`, or nothing if the backend
    /// could not make one and handed out the null handle.
    pub fn new(renderer: usize) -> (made: Option<GLES2>)
        ensures
            made is Some <==> renderer != 0,
            made matches Some(r) ==> r.spec_to_ptr() == renderer,
    {
        if renderer == 0 {
            None
        } else {
            Some(GLES2 { renderer })
        }
    }

    /// Handle of the renderer.
    #[verifier::when_used_as_spec(spec_to_ptr)]
    pub fn to_ptr(&self) -> (renderer: usize)
        ensures
            renderer == self.spec_to_ptr(),
    {
        self.renderer
    }
}

} // verus!
