//! Managers of the devices that come and go while the compositor runs.
pub mod device_manager;
pub mod hotplug;
pub mod input_manager;
pub mod output_manager;
pub mod pointer_handler;

pub use self::device_manager::{Device, DeviceManager};
pub use self::input_manager::{Input, InputAdded, InputManager, InputManagerHandler};
pub use self::output_manager::{Output, OutputAdded, OutputManager, OutputManagerHandler};
pub use self::pointer_handler::{PointerHandler, PointerWrapper};
