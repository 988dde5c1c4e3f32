//! Typed views of the payloads that the backend's signals carry.
pub mod pointer_events;
