//! Runtime core of a compositor toolkit that sits on a signal-driven
//! windowing backend.
//!
//! The backend owns devices, outputs, cursors and the event loop, and reports
//! everything through signals. This crate holds the part that is independent
//! of the backend: the bookkeeping of listeners on signals, the hot-plug
//! lifecycle of devices, the single running compositor, the cursor state and
//! the typed views of event payloads. Native resources appear as handles, the
//! address of the resource as a `usize`, with `0` for the null handle. What
//! the backend answers to a call is handed to the function that needs it.
pub mod compositor;
pub mod events;
pub mod extensions;
pub mod manager;
pub mod render;
pub mod signal;
pub mod types;
