//! Filesystem provisioning for removable storage.
//!
//! - [`storage`]: the supported filesystem types, the capability of a block
//!   device, and the binding of a filesystem to a device, made by formatting
//!   the device or by taking an existing filesystem for granted;
//! - [`tool`]: the external program that formats, seen as something that is
//!   run with arguments and reports success or failure;
//! - [`text`]: the cleaning of user-supplied text before it is compared;
//! - [`args`]: what the command line decides for the library;
//! - [`error`]: the errors.

pub mod args;
pub mod error;
pub mod storage;
pub mod text;
pub mod tool;

pub use crate::error::FilesystemError;
pub use crate::storage::{BlockDevice, Filesystem, FilesystemType};
pub use crate::tool::{Tool, ToolFailure};
