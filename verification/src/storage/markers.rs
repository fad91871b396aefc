//! Capabilities of storage devices.

use vstd::prelude::*;

verus! {

/// Something that a filesystem can be made on or found on.
pub trait BlockDevice {
    /// The path under which formatting tools reach the device.
    fn path(&self) -> &str;
}

/// Whether `path` is a path that `block` may report as its own.
pub open spec fn reports_path<B: BlockDevice + ?Sized>(block: &B, path: Seq<char>) -> bool {
    exists|reported: &str| reported@ == path && call_ensures(B::path, (block,), reported)
}

} // verus!
