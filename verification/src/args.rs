//! What the command line decides for the library.

use crate::storage::FilesystemType;
use crate::text::cleaned;
use std::str::FromStr;
use vstd::prelude::*;

verus! {

/// The type of the root filesystem for what a user chose: the type that the
/// text selects, and `Ext4` where there is no text or it selects none.
pub open spec fn root_filesystem_for(choice: Option<Seq<char>>) -> FilesystemType {
    match choice {
        Some(text) => match FilesystemType::selected_by(cleaned(text)) {
            Some(fs_type) => fs_type,
            None => FilesystemType::Ext4,
        },
        None => FilesystemType::Ext4,
    }
}

/// Decides the type of the root filesystem from the text given for it on the
/// command line, if any. Text that cannot be parsed falls back to `Ext4`, as
/// a missing one does.
pub fn root_filesystem(choice: Option<&str>) -> (fs_type: FilesystemType)
    ensures
        fs_type == root_filesystem_for(
            match choice {
                Some(text) => Some(text@),
                None => None,
            },
        ),
{
    match choice {
        Some(text) => match FilesystemType::from_str(text) {
            Ok(fs_type) => fs_type,
            Err(_) => FilesystemType::Ext4,
        },
        None => FilesystemType::Ext4,
    }
}

} // verus!
