//! Renderers that the backend provides.
pub mod gles2;

pub use self::gles2::GLES2;
