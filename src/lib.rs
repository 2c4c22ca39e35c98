//! Toast notifications: a queue of transient messages with increasing ids,
//! dismissal flags and removal by id.

pub mod toast;
pub mod toaster;

pub use crate::toast::{ToastBuilder, ToastData, ToastId, ToastLevel, ToastPosition};
pub use crate::toaster::context::ToasterContext;
