use nur::domain::{FilesystemKind, FormatError, PartitionScheme, WriteError};
use nur::udisks::{
    block_device_name, udisks_block_path, Fat32, NativeFatFormatter, Udisks2BlockWriter,
    Udisks2Formatter,
};

#[test]
fn maps_partition_table() {
    assert_eq!(Udisks2Formatter::udisks_table(PartitionScheme::Gpt), "gpt");
    assert_eq!(Udisks2Formatter::udisks_table(PartitionScheme::Mbr), "dos");
}

#[test]
fn maps_filesystem() {
    assert_eq!(Udisks2Formatter::udisks_fs(FilesystemKind::Fat32), "vfat");
    assert_eq!(Udisks2Formatter::udisks_fs(FilesystemKind::Ntfs), "ntfs");
    assert_eq!(Udisks2Formatter::udisks_fs(FilesystemKind::ExFat), "exfat");
    assert_eq!(Udisks2Formatter::udisks_fs(FilesystemKind::Ext4), "ext4");
}

#[test]
fn classify_err_maps_polkit_and_busy() {
    assert!(matches!(
        Udisks2Formatter::classify_err("GDBus.Error: NotAuthorized", "exFAT"),
        FormatError::Unauthorized
    ));
    assert!(matches!(
        Udisks2Formatter::classify_err("device is busy", "exFAT"),
        FormatError::DeviceBusy
    ));
}

#[test]
fn classify_err_tool_missing_only_with_filesystem() {
    assert!(matches!(
        Udisks2Formatter::classify_err("mkfs.exfat: command not found", "exFAT"),
        FormatError::ToolMissing(fs) if fs == "exFAT"
    ));
    assert!(matches!(
        Udisks2Formatter::classify_err("something not found", ""),
        FormatError::Backend(_)
    ));
}

#[test]
fn human_filesystem_names() {
    assert_eq!(Udisks2Formatter::human_fs(FilesystemKind::Fat32), "FAT32");
    assert_eq!(Udisks2Formatter::human_fs(FilesystemKind::Ntfs), "NTFS");
    assert_eq!(Udisks2Formatter::human_fs(FilesystemKind::ExFat), "exFAT");
    assert_eq!(Udisks2Formatter::human_fs(FilesystemKind::Ext4), "ext4");
}

#[test]
fn classify_err_keeps_message_otherwise() {
    assert_eq!(
        Udisks2Formatter::classify_err("Some Failure", "FAT32"),
        FormatError::Backend("Some Failure".to_owned())
    );
    assert_eq!(
        Udisks2Formatter::classify_err("Target IS MOUNTED", ""),
        FormatError::DeviceBusy
    );
    assert_eq!(
        Udisks2Formatter::classify_lowered("failed to execute mkfs", "Failed to execute mkfs", "NTFS"),
        FormatError::ToolMissing("NTFS".to_owned())
    );
}

#[test]
fn dbus_errors_of_native_formatter_and_writer() {
    assert_eq!(NativeFatFormatter::map_dbus_err("Not Authorized"), FormatError::Unauthorized);
    assert_eq!(NativeFatFormatter::map_dbus_err("resource in use"), FormatError::DeviceBusy);
    assert_eq!(
        NativeFatFormatter::map_dbus_err("boom"),
        FormatError::Backend("boom".to_owned())
    );
    assert_eq!(Udisks2BlockWriter::map_dbus_err("NOTAUTHORIZED"), WriteError::Unauthorized);
    assert_eq!(Udisks2BlockWriter::map_dbus_err("busy"), WriteError::DeviceBusy);
    assert_eq!(Udisks2BlockWriter::map_dbus_err("boom"), WriteError::Io("boom".to_owned()));
}

#[test]
fn device_names_and_object_paths() {
    assert_eq!(block_device_name("/dev/sdb"), "sdb");
    assert_eq!(block_device_name("/dev//dev/sdc"), "sdc");
    assert_eq!(block_device_name("/dev/dev/sdc"), "dev/sdc");
    assert_eq!(block_device_name("sdd"), "sdd");
    assert_eq!(
        udisks_block_path("sdb"),
        "/org/freedesktop/UDisks2/block_devices/sdb"
    );
}

#[test]
fn device_sizes_from_sysfs() {
    assert_eq!(NativeFatFormatter::device_size("131072\n"), Ok(64 * 1024 * 1024));
    assert_eq!(
        NativeFatFormatter::device_size("abc"),
        Err(FormatError::Backend("tamanho do dispositivo inválido".to_owned()))
    );
    assert_eq!(Udisks2BlockWriter::device_size(" 2 "), Ok(1024));
    assert_eq!(
        Udisks2BlockWriter::device_size("-1"),
        Err(WriteError::Io("tamanho do dispositivo inválido".to_owned()))
    );
}

#[test]
fn fat32_partition_and_zero_chunks() {
    assert_eq!(
        NativeFatFormatter::fat32_partition(64 * 1024 * 1024),
        Ok((1024 * 1024, 63 * 1024 * 1024))
    );
    assert_eq!(
        NativeFatFormatter::fat32_partition(1024 * 1024),
        Err(FormatError::Backend("dispositivo muito pequeno para FAT32".to_owned()))
    );
    assert_eq!(NativeFatFormatter::zero_chunk(10, 3), 7);
    assert_eq!(NativeFatFormatter::zero_chunk(10 * 1024 * 1024, 0), 4 * 1024 * 1024);
}

#[test]
fn image_must_fit() {
    assert_eq!(Udisks2BlockWriter::ensure_fits(10, 10), Ok(()));
    assert_eq!(Udisks2BlockWriter::ensure_fits(11, 10), Err(WriteError::DeviceTooSmall));
}

#[test]
fn fat_volume_label_is_padded_and_truncated() {
    assert_eq!(&Fat32::volume_label("BOOTUSB"), b"BOOTUSB    ");
    assert_eq!(&Fat32::volume_label("ABCDEFGHIJKLMN"), b"ABCDEFGHIJK");
    assert_eq!(&Fat32::volume_label(""), b"           ");
}
