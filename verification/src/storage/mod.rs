//! Block devices and the filesystems on them.

pub mod filesystem;
pub mod markers;

pub use self::filesystem::{Filesystem, FilesystemType};
pub use self::markers::BlockDevice;
