//! Filesystem types, and filesystems bound to block devices.

use super::markers::{reports_path, BlockDevice};
use crate::error::FilesystemError;
use crate::text::{
    clean, cleaned, is_ascii_text, is_blank, lemma_cleaned_ignores_ascii_case,
    lemma_cleaned_ignores_surrounding_white_space, lowercase, same_but_for_ascii_case, trimmed,
};
use crate::tool::{are_texts_of, reports, Tool, ToolFailure};
use vstd::prelude::*;

verus! {

/// The kinds of filesystem that can be made.
#[derive(Debug, Clone, Copy, PartialEq, Eq, Structural)]
pub enum FilesystemType {
    /// The default for a root filesystem.
    Ext4,
    /// For boot partitions; not offered to users as a root filesystem.
    Vfat,
    /// A root filesystem for flash storage.
    F2FS,
}

impl FilesystemType {
    /// The text of [`FilesystemType::to_mount_type`].
    pub open spec fn mount_type(self) -> Seq<char> {
        match self {
            FilesystemType::Ext4 => "ext4"@,
            FilesystemType::Vfat => "vfat"@,
            FilesystemType::F2FS => "f2fs"@,
        }
    }

    /// The text of [`FilesystemType::to_format_flag`].
    pub open spec fn format_flag(self) -> Seq<char> {
        match self {
            FilesystemType::Ext4 => "-F"@,
            FilesystemType::Vfat => "-F32"@,
            FilesystemType::F2FS => "-f"@,
        }
    }

    /// The arguments of the formatting tool for a device at `path`: the
    /// type's flag, then the path.
    pub open spec fn format_invocation(self, path: Seq<char>) -> Seq<Seq<char>> {
        seq![self.format_flag(), path]
    }

    /// The type that a cleaned text selects, if any. Users may select
    /// `Ext4` and `F2FS`; `Vfat` is never selected by text.
    pub open spec fn selected_by(text: Seq<char>) -> Option<FilesystemType> {
        if text == "ext4"@ {
            Some(FilesystemType::Ext4)
        } else if text == "f2fs"@ {
            Some(FilesystemType::F2FS)
        } else {
            None
        }
    }

    /// Whether `r` is the outcome of selecting a type by the cleaned text
    /// `text`: the selected type, or else the error that carries the text.
    pub open spec fn is_selection(text: Seq<char>, r: Result<FilesystemType, FilesystemError>) -> bool {
        match r {
            Ok(t) => Self::selected_by(text) == Some(t),
            Err(FilesystemError::UnsupportedFilesystem { input }) => Self::selected_by(text) is None
                && input@ == text,
            Err(_) => false,
        }
    }

    /// The name by which a mount selects the filesystem driver.
    pub fn to_mount_type(self) -> (name: &'static str)
        ensures
            name@ == self.mount_type(),
    {
        match self {
            FilesystemType::Ext4 => "ext4",
            FilesystemType::Vfat => "vfat",
            FilesystemType::F2FS => "f2fs",
        }
    }

    /// The flag that makes the type's formatting tool write without asking.
    pub fn to_format_flag(self) -> (flag: &'static str)
        ensures
            flag@ == self.format_flag(),
    {
        match self {
            FilesystemType::Ext4 => "-F",
            FilesystemType::Vfat => "-F32",
            FilesystemType::F2FS => "-f",
        }
    }

    /// The arguments to run the formatting tool with, for a device at `path`.
    pub fn format_arguments(self, path: &str) -> (args: Vec<String>)
        ensures
            args@.len() == 2,
            args@[0]@ == self.format_flag(),
            args@[1]@ == path@,
            args.deep_view() == self.format_invocation(path@),
    {
        let mut args: Vec<String> = Vec::new();
        args.push(self.to_format_flag().to_owned());
        args.push(path.to_owned());
        args
    }

    /// Selects a type by a text that is already trimmed and in lower case.
    pub fn from_cleaned(text: String) -> (r: Result<FilesystemType, FilesystemError>)
        ensures
            Self::is_selection(text@, r),
    {
        if text == "ext4".to_owned() {
            Ok(FilesystemType::Ext4)
        } else if text == "f2fs".to_owned() {
            Ok(FilesystemType::F2FS)
        } else {
            Err(FilesystemError::UnsupportedFilesystem { input: text })
        }
    }
}

impl std::str::FromStr for FilesystemType {
    type Err = FilesystemError;

    /// Parses what a user wrote: the text is trimmed and lower-cased, and
    /// then has to be `ext4` or `f2fs`.
    fn from_str(s: &str) -> (r: Result<FilesystemType, FilesystemError>)
        ensures
            FilesystemType::is_selection(cleaned(s@), r),
    {
        FilesystemType::from_cleaned(clean(s))
    }
}

/// Every filesystem type has a mount type of its own, and the mount type of
/// a type that users may select, parsed as a user's text, selects that type
/// again.
pub proof fn lemma_mount_type_round_trip(t: FilesystemType, u: FilesystemType)
    ensures
        t != u ==> t.mount_type() != u.mount_type(),
        t != FilesystemType::Vfat ==> FilesystemType::selected_by(cleaned(t.mount_type())) == Some(
            t,
        ),
{
    reveal_strlit("ext4");
    reveal_strlit("vfat");
    reveal_strlit("f2fs");
    assert("ext4"@[0] == 'e' && "vfat"@[0] == 'v' && "f2fs"@[0] == 'f');
    if t != FilesystemType::Vfat {
        let name = t.mount_type();
        assert(trimmed(name) == name);
        assert(lowercase(name) == name);
    }
}

/// Selecting a type looks neither at the case of ASCII letters nor at white
/// space around the text.
pub proof fn lemma_selection_ignores_case_and_surrounding_space(
    before: Seq<char>,
    a: Seq<char>,
    after: Seq<char>,
    b: Seq<char>,
)
    requires
        is_blank(before),
        is_blank(after),
        is_ascii_text(a),
        same_but_for_ascii_case(a, b),
    ensures
        FilesystemType::selected_by(cleaned(before + a + after)) == FilesystemType::selected_by(
            cleaned(b),
        ),
{
    lemma_cleaned_ignores_surrounding_white_space(before, a, after);
    lemma_cleaned_ignores_ascii_case(a, b);
}

/// Text never selects `Vfat`.
pub proof fn lemma_vfat_is_not_selected(text: Seq<char>)
    ensures
        FilesystemType::selected_by(text) != Some(FilesystemType::Vfat),
{
}

/// A filesystem of a known type on a block device.
///
/// The device is borrowed, never owned: it has to outlive the value, and the
/// value never closes or releases it.
#[derive(Debug)]
pub struct Filesystem<'a, B: BlockDevice + ?Sized> {
    fs_type: FilesystemType,
    block: &'a B,
}

impl<'a, B: BlockDevice + ?Sized> Filesystem<'a, B> {
    /// What [`Filesystem::fs_type`] returns.
    pub closed spec fn spec_fs_type(&self) -> FilesystemType {
        self.fs_type
    }

    /// What [`Filesystem::block`] returns.
    pub closed spec fn spec_block(&self) -> &'a B {
        self.block
    }

    /// Whether `r` is what formatting `block` as `fs_type` comes to once the
    /// tool has reported `outcome`: the filesystem bound to the device where
    /// the tool succeeded, and else the error that keeps the tool's failure.
    pub open spec fn is_formatted(
        block: &'a B,
        fs_type: FilesystemType,
        outcome: Result<(), ToolFailure>,
        r: Result<Self, FilesystemError>,
    ) -> bool {
        match outcome {
            Ok(_) => r matches Ok(fs) && fs.fs_type() == fs_type && fs.block() == block,
            Err(cause) => r == Err::<Self, FilesystemError>(
                FilesystemError::FormatFailed { cause },
            ),
        }
    }

    /// Formats `block` as `fs_type` by one run of `mkfs`, and binds the new
    /// filesystem to the device if the run succeeded.
    ///
    /// The tool is handed the type's flag and then the path that the device
    /// reports, and the result is what [`Filesystem::formatted`] makes of the
    /// tool's report on these arguments. Which program `mkfs` runs is the
    /// caller's choice.
    pub fn format<T: Tool + ?Sized>(block: &'a B, fs_type: FilesystemType, mkfs: &T) -> (r: Result<
        Self,
        FilesystemError,
    >)
        ensures
            exists|path: Seq<char>, outcome: Result<(), ToolFailure>|
                reports_path(block, path) && reports(
                    mkfs,
                    fs_type.format_invocation(path),
                    outcome,
                ) && Self::is_formatted(block, fs_type, outcome, r),
    {
        let path = block.path();
        let args = fs_type.format_arguments(path);
        let given = args.as_slice();
        let outcome = mkfs.run(given);
        assert(reports_path(block, path@));
        assert(are_texts_of(fs_type.format_invocation(path@), given));
        assert(reports(mkfs, fs_type.format_invocation(path@), outcome));
        Self::formatted(block, fs_type, outcome)
    }

    /// Concludes a formatting of `block` as `fs_type` from what the tool
    /// reported: no filesystem is bound unless the tool succeeded.
    pub fn formatted(block: &'a B, fs_type: FilesystemType, outcome: Result<(), ToolFailure>) -> (r:
        Result<Self, FilesystemError>)
        ensures
            Self::is_formatted(block, fs_type, outcome, r),
    {
        match outcome {
            Ok(()) => Ok(Filesystem { fs_type, block }),
            Err(cause) => Err(FilesystemError::FormatFailed { cause }),
        }
    }

    /// Binds a filesystem that is known to exist on `block`. Nothing is run
    /// and nothing is checked.
    pub fn from_partition(block: &'a B, fs_type: FilesystemType) -> (fs: Self)
        ensures
            fs.fs_type() == fs_type,
            fs.block() == block,
    {
        Filesystem { fs_type, block }
    }

    /// The device that holds the filesystem.
    #[verifier::when_used_as_spec(spec_block)]
    pub fn block(&self) -> (block: &'a B)
        ensures
            block == self.spec_block(),
    {
        self.block
    }

    /// The type of the filesystem.
    #[verifier::when_used_as_spec(spec_fs_type)]
    pub fn fs_type(&self) -> (fs_type: FilesystemType)
        ensures
            fs_type == self.spec_fs_type(),
    {
        self.fs_type
    }
}

} // verus!
