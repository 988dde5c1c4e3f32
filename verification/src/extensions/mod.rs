//! Optional protocol extensions that the backend provides.
pub mod server_decoration;
