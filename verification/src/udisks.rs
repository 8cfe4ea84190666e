//! Decisions of the udisks2 adapters: device names and object paths, the
//! strings that udisks expects for tables and filesystems, the reading of D-Bus
//! error messages, and the layout and sizes used by the native FAT32 formatter
//! and the image writer.
use vstd::prelude::*;
use crate::domain::{FilesystemKind, FormatError, PartitionScheme, WriteError};
use vstd::string::StringSliceAdditionalSpecFns;
use crate::partitioner::{partition_layout, Partitioner};
use crate::text::{
    chars_of, concat_str, contains, find, parse_u64, parsed_u64, saturating_mul,
    saturating_product, starts_with, strip_leading, string_from_chars, to_lowercase, trim,
    trim_start_matches,
    trimmed, unicode_lowercase,
};

verus! {

/// Formats a device through udisks2 (table, one partition, `mkfs`).
pub struct Udisks2Formatter;

/// Formats a device as GPT or MBR plus FAT32 written natively.
pub struct NativeFatFormatter;

/// Writes an image to a device opened through udisks2 and verifies it.
pub struct Udisks2BlockWriter;

/// Opens a device in the file manager, mounting it through udisks2 if needed.
pub struct Udisks2DeviceBrowser;

/// FAT32 volume creation.
pub struct Fat32;

/// Size of the zero-fill blocks of a full format.
pub const ZERO_CHUNK: usize = 4194304;

/// The kernel name of a device path: the path without its leading `/dev/`
/// prefixes.
pub open spec fn device_name(path: Seq<char>) -> Seq<char> {
    trim_start_matches(path, "/dev/"@)
}

/// The udisks2 object path of the block device `name`.
pub open spec fn block_object_path(name: Seq<char>) -> Seq<char> {
    "/org/freedesktop/UDisks2/block_devices/"@ + name
}

/// The kernel name of the device at `path` (`/dev/sdb` gives `sdb`).
pub fn block_device_name(path: &str) -> (r: String)
    ensures
        r@ == device_name(path@),
{
    string_from_chars(strip_leading(&chars_of(path), &chars_of("/dev/")))
}

/// The udisks2 object path of the block device `name`.
pub fn udisks_block_path(name: &str) -> (r: String)
    ensures
        r@ == block_object_path(name@),
{
    concat_str("/org/freedesktop/UDisks2/block_devices/", name)
}

/// The lowercased message reports a polkit refusal.
pub open spec fn says_unauthorized(lower: Seq<char>) -> bool {
    contains(lower, "notauthorized"@) || contains(lower, "not authorized"@)
}

/// The lowercased message reports a busy device.
pub open spec fn says_busy(lower: Seq<char>) -> bool {
    contains(lower, "busy"@) || contains(lower, "mounted"@) || contains(lower, "in use"@)
}

/// The lowercased message reports a missing program.
pub open spec fn says_missing(lower: Seq<char>) -> bool {
    contains(lower, "not found"@) || contains(lower, "failed to execute"@) || contains(
        lower,
        "no such file"@,
    )
}

/// The format error that a udisks failure `message` (lowercased `lower`) means
/// in the step of filesystem `fs_human` (empty outside the `mkfs` step).
pub open spec fn format_error_is(e: FormatError, lower: Seq<char>, message: Seq<char>, fs_human: Seq<char>) -> bool {
    match e {
        FormatError::Unauthorized => says_unauthorized(lower),
        FormatError::DeviceBusy => !says_unauthorized(lower) && says_busy(lower),
        FormatError::ToolMissing(f) => !says_unauthorized(lower) && !says_busy(lower)
            && fs_human.len() > 0 && says_missing(lower) && f@ == fs_human,
        FormatError::Backend(m) => !says_unauthorized(lower) && !says_busy(lower) && !(
        fs_human.len() > 0 && says_missing(lower)) && m@ == message,
    }
}

/// The format error that a D-Bus failure `message` (lowercased `lower`) means
/// for the native formatter.
pub open spec fn dbus_format_error_is(e: FormatError, lower: Seq<char>, message: Seq<char>) -> bool {
    match e {
        FormatError::Unauthorized => says_unauthorized(lower),
        FormatError::DeviceBusy => !says_unauthorized(lower) && says_busy(lower),
        FormatError::ToolMissing(_) => false,
        FormatError::Backend(m) => !says_unauthorized(lower) && !says_busy(lower) && m@ == message,
    }
}

/// The write error that a D-Bus failure `message` (lowercased `lower`) means.
pub open spec fn dbus_write_error_is(e: WriteError, lower: Seq<char>, message: Seq<char>) -> bool {
    match e {
        WriteError::Unauthorized => says_unauthorized(lower),
        WriteError::DeviceBusy => !says_unauthorized(lower) && says_busy(lower),
        WriteError::Io(m) => !says_unauthorized(lower) && !says_busy(lower) && m@ == message,
        _ => false,
    }
}

fn mentions(lower: &Vec<char>, word: &str) -> (b: bool)
    ensures
        b == contains(lower@, word@),
{
    find(lower, &chars_of(word))
}

fn unauthorized_text(lower: &Vec<char>) -> (b: bool)
    ensures
        b == says_unauthorized(lower@),
{
    mentions(lower, "notauthorized") || mentions(lower, "not authorized")
}

fn busy_text(lower: &Vec<char>) -> (b: bool)
    ensures
        b == says_busy(lower@),
{
    mentions(lower, "busy") || mentions(lower, "mounted") || mentions(lower, "in use")
}

fn missing_text(lower: &Vec<char>) -> (b: bool)
    ensures
        b == says_missing(lower@),
{
    mentions(lower, "not found") || mentions(lower, "failed to execute") || mentions(
        lower,
        "no such file",
    )
}

/// The table type that udisks expects for a partition scheme.
pub open spec fn table_name(scheme: PartitionScheme) -> Seq<char> {
    match scheme {
        PartitionScheme::Gpt => "gpt"@,
        PartitionScheme::Mbr => "dos"@,
    }
}

/// The filesystem type that udisks `Block.Format` expects.
pub open spec fn filesystem_name(fs: FilesystemKind) -> Seq<char> {
    match fs {
        FilesystemKind::Fat32 => "vfat"@,
        FilesystemKind::Ntfs => "ntfs"@,
        FilesystemKind::ExFat => "exfat"@,
        FilesystemKind::Ext4 => "ext4"@,
    }
}

/// The filesystem name shown in error messages.
pub open spec fn filesystem_title(fs: FilesystemKind) -> Seq<char> {
    match fs {
        FilesystemKind::Fat32 => "FAT32"@,
        FilesystemKind::Ntfs => "NTFS"@,
        FilesystemKind::ExFat => "exFAT"@,
        FilesystemKind::Ext4 => "ext4"@,
    }
}

impl Udisks2Formatter {
    /// Creates the formatter.
    pub fn new() -> (r: Udisks2Formatter)
        ensures
            r == Udisks2Formatter,
    {
        Udisks2Formatter
    }

    /// Partition scheme to udisks table type.
    pub fn udisks_table(scheme: PartitionScheme) -> (r: &'static str)
        ensures
            r@ == table_name(scheme),
    {
        match scheme {
            PartitionScheme::Gpt => "gpt",
            PartitionScheme::Mbr => "dos",
        }
    }

    /// Filesystem to the type accepted by udisks `Block.Format`.
    pub fn udisks_fs(fs: FilesystemKind) -> (r: &'static str)
        ensures
            r@ == filesystem_name(fs),
    {
        match fs {
            FilesystemKind::Fat32 => "vfat",
            FilesystemKind::Ntfs => "ntfs",
            FilesystemKind::ExFat => "exfat",
            FilesystemKind::Ext4 => "ext4",
        }
    }

    /// Filesystem to its name in error messages.
    pub fn human_fs(fs: FilesystemKind) -> (r: &'static str)
        ensures
            r@ == filesystem_title(fs),
    {
        match fs {
            FilesystemKind::Fat32 => "FAT32",
            FilesystemKind::Ntfs => "NTFS",
            FilesystemKind::ExFat => "exFAT",
            FilesystemKind::Ext4 => "ext4",
        }
    }

    /// Reads a udisks failure message: a polkit refusal, a busy device, a
    /// missing `mkfs` tool (only in the step of filesystem `fs_human`), or any
    /// other failure carrying the message.
    pub fn classify_err(message: &str, fs_human: &str) -> (e: FormatError)
        ensures
            format_error_is(e, unicode_lowercase(message@), message@, fs_human@),
    {
        let lower = to_lowercase(message);
        Self::classify_lowered(lower.as_str(), message, fs_human)
    }

    /// `classify_err` given the lowercased message `lower`.
    pub fn classify_lowered(lower: &str, message: &str, fs_human: &str) -> (e: FormatError)
        ensures
            format_error_is(e, lower@, message@, fs_human@),
    {
        let l = chars_of(lower);
        if unauthorized_text(&l) {
            FormatError::Unauthorized
        } else if busy_text(&l) {
            FormatError::DeviceBusy
        } else if !fs_human.is_empty() && missing_text(&l) {
            FormatError::ToolMissing(fs_human.to_owned())
        } else {
            FormatError::Backend(message.to_owned())
        }
    }
}

impl NativeFatFormatter {
    /// Creates the formatter.
    pub fn new() -> (r: NativeFatFormatter)
        ensures
            r == NativeFatFormatter,
    {
        NativeFatFormatter
    }

    /// Reads a D-Bus or polkit failure message.
    pub fn map_dbus_err(message: &str) -> (e: FormatError)
        ensures
            dbus_format_error_is(e, unicode_lowercase(message@), message@),
    {
        let lower = chars_of(to_lowercase(message).as_str());
        if unauthorized_text(&lower) {
            FormatError::Unauthorized
        } else if busy_text(&lower) {
            FormatError::DeviceBusy
        } else {
            FormatError::Backend(message.to_owned())
        }
    }

    /// Device size in bytes from the text of its sysfs `size` file (512-byte
    /// sectors, saturating).
    pub fn device_size(raw_size: &str) -> (r: Result<u64, FormatError>)
        ensures
            match r {
                Ok(n) => parsed_u64(trim(raw_size@)) matches Some(s) && n == saturating_product(
                    s,
                    512,
                ),
                Err(e) => parsed_u64(trim(raw_size@)) is None && (e matches FormatError::Backend(m)
                    && m@ == "tamanho do dispositivo inválido"@),
            },
    {
        match parse_u64(&trimmed(&chars_of(raw_size))) {
            Some(s) => Ok(saturating_mul(s, 512)),
            None => Err(FormatError::Backend("tamanho do dispositivo inválido".to_owned())),
        }
    }

    /// The partition for FAT32 on a device of `device_bytes` bytes, refused
    /// when the device is too small to hold one.
    pub fn fat32_partition(device_bytes: u64) -> (r: Result<(u64, u64), FormatError>)
        ensures
            match r {
                Ok(p) => p == partition_layout(device_bytes) && p.1 > 0,
                Err(e) => partition_layout(device_bytes).1 == 0 && (e matches FormatError::Backend(m)
                    && m@ == "dispositivo muito pequeno para FAT32"@),
            },
    {
        let (start, len) = Partitioner::single_partition(device_bytes);
        if len == 0 {
            return Err(FormatError::Backend("dispositivo muito pequeno para FAT32".to_owned()));
        }
        Ok((start, len))
    }

    /// Length of the next zero-fill block when `written` of `len` bytes are done.
    pub fn zero_chunk(len: u64, written: u64) -> (r: usize)
        requires
            written < len,
        ensures
            r as int == if len - written < ZERO_CHUNK {
                len - written
            } else {
                ZERO_CHUNK as int
            },
            0 < r <= ZERO_CHUNK,
    {
        if len - written < ZERO_CHUNK as u64 {
            (len - written) as usize
        } else {
            ZERO_CHUNK
        }
    }
}

/// The 11-byte FAT volume label: the first bytes of the label's UTF-8 encoding,
/// padded with spaces.
pub open spec fn fat_label(bytes: Seq<u8>) -> Seq<u8> {
    Seq::new(11, |i: int| if i < bytes.len() { bytes[i] } else { 0x20u8 })
}

impl Fat32 {
    /// The volume label field for `label`, truncated or padded to 11 bytes.
    pub fn volume_label(label: &str) -> (name: [u8; 11])
        ensures
            name@ == fat_label(label.spec_bytes()),
    {
        let bytes = label.as_bytes();
        let mut name = [0x20u8; 11];
        let mut i: usize = 0;
        while i < 11 && i < bytes.len()
            invariant
                i <= 11,
                bytes@ == label.spec_bytes(),
                i <= bytes@.len(),
                name@.len() == 11,
                forall|k: int| 0 <= k < i ==> name@[k] == bytes@[k],
                forall|k: int| i <= k < 11 ==> name@[k] == 0x20u8,
            decreases 11 - i,
        {
            name[i] = bytes[i];
            i = i + 1;
        }
        assert(name@ =~= fat_label(label.spec_bytes()));
        name
    }
}

impl Udisks2BlockWriter {
    /// Creates the writer.
    pub fn new() -> (r: Udisks2BlockWriter)
        ensures
            r == Udisks2BlockWriter,
    {
        Udisks2BlockWriter
    }

    /// Reads a D-Bus or polkit failure message.
    pub fn map_dbus_err(message: &str) -> (e: WriteError)
        ensures
            dbus_write_error_is(e, unicode_lowercase(message@), message@),
    {
        let lower = chars_of(to_lowercase(message).as_str());
        if unauthorized_text(&lower) {
            WriteError::Unauthorized
        } else if busy_text(&lower) {
            WriteError::DeviceBusy
        } else {
            WriteError::Io(message.to_owned())
        }
    }

    /// Device size in bytes from the text of its sysfs `size` file.
    pub fn device_size(raw_size: &str) -> (r: Result<u64, WriteError>)
        ensures
            match r {
                Ok(n) => parsed_u64(trim(raw_size@)) matches Some(s) && n == saturating_product(
                    s,
                    512,
                ),
                Err(e) => parsed_u64(trim(raw_size@)) is None && (e matches WriteError::Io(m) && m@
                    == "tamanho do dispositivo inválido"@),
            },
    {
        match parse_u64(&trimmed(&chars_of(raw_size))) {
            Some(s) => Ok(saturating_mul(s, 512)),
            None => Err(WriteError::Io("tamanho do dispositivo inválido".to_owned())),
        }
    }

    /// An image of `image_len` bytes fits on a device of `device_len` bytes.
    pub fn ensure_fits(image_len: u64, device_len: u64) -> (r: Result<(), WriteError>)
        ensures
            r is Ok <==> image_len <= device_len,
            r matches Err(e) ==> e == WriteError::DeviceTooSmall,
    {
        if image_len > device_len {
            Err(WriteError::DeviceTooSmall)
        } else {
            Ok(())
        }
    }
}

/// The device path that the sysfs listing builds for a kernel name gives the
/// same name back to the udisks adapters, for any name that does not itself
/// start with `/dev/`.
pub proof fn lemma_device_name_round_trip(name: Seq<char>)
    requires
        !starts_with(name, "/dev/"@),
    ensures
        device_name("/dev/"@ + name) == name,
{
    let p = "/dev/"@;
    reveal_strlit("/dev/");
    assert(p.len() == 5);
    let s = p + name;
    assert(s.subrange(0, p.len() as int) =~= p);
    assert(s.skip(p.len() as int) =~= name);
    assert(starts_with(s, p));
    assert(trim_start_matches(name, p) == name);
    assert(trim_start_matches(s, p) == trim_start_matches(s.skip(p.len() as int), p));
}

} // verus!
