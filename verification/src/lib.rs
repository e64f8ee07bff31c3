//! Client side of the Termux:GUI protocol: message framing, request
//! construction and response handling for activities and views.

pub mod activity;
pub mod connection;
pub mod ffi;
pub mod frame;
pub mod hardwarebuffer;
pub mod items;
pub mod terr;
pub mod views;

pub use activity::Activity;
pub use connection::Connection;
pub use ffi::hb;
pub use hardwarebuffer::HardwareBuffer;
pub use terr::{Res, TguiErr};
pub use views::button::Button;
pub use views::surface_view::SurfaceView;
pub use views::{SetEv, View, ViewType};
