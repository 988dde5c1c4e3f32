//! Wrappers of the backend's resources.
pub mod cursor;
pub mod input_device;
pub mod output;
pub mod pointer;
pub mod xcursor;
pub mod xcursor_theme;

pub use self::cursor::{Cursor, CursorImage};
pub use self::input_device::{InputDevice, InputDeviceType};
pub use self::output::{OutputHandle, OutputLayout};
pub use self::pointer::PointerHandle;
pub use self::xcursor::{XCursor, XCursorData, XCursorImage, XCursorImageData};
pub use self::xcursor_theme::XCursorTheme;
