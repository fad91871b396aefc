use alma::args::root_filesystem;
use alma::text::{clean, trim, white_space};
use alma::{FilesystemError, FilesystemType};
use std::str::FromStr;

fn unsupported(input: &str) -> Result<FilesystemType, FilesystemError> {
    Err(FilesystemError::UnsupportedFilesystem { input: input.to_string() })
}

#[test]
fn mount_types_are_fixed() {
    assert_eq!(FilesystemType::Ext4.to_mount_type(), "ext4");
    assert_eq!(FilesystemType::Vfat.to_mount_type(), "vfat");
    assert_eq!(FilesystemType::F2FS.to_mount_type(), "f2fs");
}

#[test]
fn mount_types_are_distinct() {
    let all = [FilesystemType::Ext4, FilesystemType::Vfat, FilesystemType::F2FS];
    for a in all {
        for b in all {
            assert_eq!(a == b, a.to_mount_type() == b.to_mount_type());
        }
    }
}

#[test]
fn selectable_mount_types_parse_back() {
    for fs_type in [FilesystemType::Ext4, FilesystemType::F2FS] {
        assert_eq!(FilesystemType::from_str(fs_type.to_mount_type()), Ok(fs_type));
    }
}

#[test]
fn parsing_ignores_case_and_surrounding_space() {
    assert_eq!(FilesystemType::from_str("EXT4"), Ok(FilesystemType::Ext4));
    assert_eq!(FilesystemType::from_str("Ext4"), Ok(FilesystemType::Ext4));
    assert_eq!(FilesystemType::from_str(" ext4 "), Ok(FilesystemType::Ext4));
    assert_eq!(FilesystemType::from_str("F2FS"), Ok(FilesystemType::F2FS));
    assert_eq!(FilesystemType::from_str("\tf2Fs\r\n"), Ok(FilesystemType::F2FS));
    assert_eq!("  eXt4".parse::<FilesystemType>(), Ok(FilesystemType::Ext4));
}

#[test]
fn parsing_rejects_what_users_may_not_select() {
    assert_eq!(FilesystemType::from_str("vfat"), unsupported("vfat"));
    assert_eq!(FilesystemType::from_str("btrfs"), unsupported("btrfs"));
    assert_eq!(FilesystemType::from_str(""), unsupported(""));
}

#[test]
fn rejection_carries_the_cleaned_text() {
    assert_eq!(FilesystemType::from_str("  VFAT\n"), unsupported("vfat"));
    assert_eq!(FilesystemType::from_str(" \t "), unsupported(""));
    assert_eq!(FilesystemType::from_str("ext 4"), unsupported("ext 4"));
    assert_eq!(FilesystemType::from_str("\u{2003}BTR FS\u{3000}"), unsupported("btr fs"));
    assert_eq!(FilesystemType::from_str("ÄXT4"), unsupported("äxt4"));
    assert_eq!(FilesystemType::from_str("ΣΑΣ"), unsupported("σας"));
}

#[test]
fn unsupported_message_names_the_cleaned_text() {
    let error = FilesystemType::from_str(" Btrfs ").unwrap_err();
    assert_eq!(error.message(), "btrfs is not supported or was not understood.");
    let empty = FilesystemType::from_str("").unwrap_err();
    assert_eq!(empty.message(), " is not supported or was not understood.");
}

#[test]
fn cleaned_text_is_taken_as_it_is() {
    assert_eq!(FilesystemType::from_cleaned("ext4".to_string()), Ok(FilesystemType::Ext4));
    assert_eq!(FilesystemType::from_cleaned("f2fs".to_string()), Ok(FilesystemType::F2FS));
    assert_eq!(FilesystemType::from_cleaned("vfat".to_string()), unsupported("vfat"));
    assert_eq!(FilesystemType::from_cleaned("EXT4".to_string()), unsupported("EXT4"));
    assert_eq!(FilesystemType::from_cleaned(" ext4".to_string()), unsupported(" ext4"));
    assert_eq!(FilesystemType::from_cleaned(String::new()), unsupported(""));
}

#[test]
fn format_flags_are_fixed() {
    assert_eq!(FilesystemType::Ext4.to_format_flag(), "-F");
    assert_eq!(FilesystemType::Vfat.to_format_flag(), "-F32");
    assert_eq!(FilesystemType::F2FS.to_format_flag(), "-f");
}

#[test]
fn format_arguments_are_flag_then_path() {
    assert_eq!(FilesystemType::Ext4.format_arguments("/dev/sda2"), vec!["-F", "/dev/sda2"]);
    assert_eq!(FilesystemType::Vfat.format_arguments("/dev/sda1"), vec!["-F32", "/dev/sda1"]);
    assert_eq!(FilesystemType::F2FS.format_arguments("/dev/loop0p3"), vec!["-f", "/dev/loop0p3"]);
}

#[test]
fn format_arguments_keep_the_path_verbatim() {
    assert_eq!(FilesystemType::Ext4.format_arguments(""), vec!["-F", ""]);
    assert_eq!(
        FilesystemType::F2FS.format_arguments(" /dev/My Disk\u{e9} "),
        vec!["-f", " /dev/My Disk\u{e9} "]
    );
}

#[test]
fn white_space_is_what_the_standard_library_calls_so() {
    let mut count = 0;
    for n in 0..=0x10FFFFu32 {
        if let Some(c) = char::from_u32(n) {
            assert_eq!(white_space(c), c.is_whitespace(), "U+{:04X}", n);
            if white_space(c) {
                count += 1;
            }
        }
    }
    assert_eq!(count, 25);
}

#[test]
fn trim_removes_white_space_at_both_ends_only() {
    assert_eq!(trim(""), "");
    assert_eq!(trim("ext4"), "ext4");
    assert_eq!(trim("  ext4"), "ext4");
    assert_eq!(trim("ext4 \t\r\n"), "ext4");
    assert_eq!(trim(" a b  c "), "a b  c");
    assert_eq!(trim(" \u{a0}\u{2028} "), "");
    assert_eq!(trim("\u{3000}\u{e9}t\u{e9}\u{85}"), "\u{e9}t\u{e9}");
    assert_eq!(trim("\u{200b}x\u{200b}"), "\u{200b}x\u{200b}");
}

#[test]
fn trim_agrees_with_the_standard_library() {
    let pieces = ["", " ", "\t", "\n", "\u{a0}", "\u{1680}", "\u{2009}", "\u{feff}", "x", "Ä", "f2fs"];
    for a in pieces {
        for b in pieces {
            for c in pieces {
                let text = format!("{}{}{}", a, b, c);
                assert_eq!(trim(&text), text.trim());
            }
        }
    }
}

#[test]
fn clean_trims_then_lowers() {
    assert_eq!(clean("  EXT4 "), "ext4");
    assert_eq!(clean("F2fs"), "f2fs");
    assert_eq!(clean(" Hello World\n"), "hello world");
    assert_eq!(clean("\u{2002}ÉTÉ"), "été");
    assert_eq!(clean(""), "");
}

#[test]
fn clean_lowers_each_ascii_letter_and_nothing_else() {
    for n in 0..128u8 {
        let c = char::from(n);
        let expected = if c.is_ascii_uppercase() { char::from(n + 32) } else { c };
        assert_eq!(clean(&format!("x{}x", c)), format!("x{}x", expected));
    }
}

#[test]
fn clean_lowers_beyond_ascii() {
    assert_eq!(clean("ΟΔΥΣΣΕΥΣ"), "οδυσσευς");
    assert_eq!(clean("İ"), "i\u{307}");
    assert_eq!(clean("\u{a0}ẞ \u{212a}\u{2009}"), "ß k");
}

#[test]
fn root_filesystem_falls_back_to_ext4() {
    assert_eq!(root_filesystem(None), FilesystemType::Ext4);
    assert_eq!(root_filesystem(Some("vfat")), FilesystemType::Ext4);
    assert_eq!(root_filesystem(Some("btrfs")), FilesystemType::Ext4);
    assert_eq!(root_filesystem(Some("")), FilesystemType::Ext4);
}

#[test]
fn root_filesystem_follows_the_choice() {
    assert_eq!(root_filesystem(Some("ext4")), FilesystemType::Ext4);
    assert_eq!(root_filesystem(Some("f2fs")), FilesystemType::F2FS);
    assert_eq!(root_filesystem(Some(" F2FS ")), FilesystemType::F2FS);
}
