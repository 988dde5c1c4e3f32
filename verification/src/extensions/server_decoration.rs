//! The extension by which clients and the compositor agree on who draws the
//! window decorations.
use vstd::prelude::*;

verus! {

/// The backend's decoration manager, known by its handle.
#[derive(Debug, PartialEq, Eq, Structural)]
pub struct ServerDecorationManager {
    manager: usize,
}

impl ServerDecorationManager {
    /// Handle of the manager.
    pub closed spec fn spec_to_ptr(&self) -> usize {
        self.manager
    }

    /// The manager with the handle `manager`, or nothing if the backend
    /// could not make one and handed out the null handle.
    pub fn new(manager: usize) -> (made: Option<ServerDecorationManager>)
        ensures
            made is Some <==> manager != 0,
            made matches Some(m) ==> m.spec_to_ptr() == manager,
    {
        if manager == 0 {
            None
        } else {
            Some(ServerDecorationManager { manager })
        }
    }

    /// Handle of the manager.
    #[verifier::when_used_as_spec(spec_to_ptr)]
    pub fn to_ptr(&self) -> (manager: usize)
        ensures
            manager == self.spec_to_ptr(),
    {
        self.manager
    }
}

} // verus!
