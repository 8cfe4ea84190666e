use std::io::{Cursor, Read, Seek, SeekFrom, Write};
use nur::iso_inspector::IsoFileInspector;
use nur::domain::IsoKind;
use nur::partitioner::Partitioner;

#[test]
fn single_partition_aligns_to_1mib_and_fills() {
    let (start, len) = Partitioner::single_partition(64 * 1024 * 1024);
    assert_eq!(start, 1024 * 1024);
    assert_eq!(len % 512, 0);
    assert!(len >= 60 * 1024 * 1024);
}

#[test]
fn single_partition_zero_len_when_too_small() {
    let (_start, len) = Partitioner::single_partition(512 * 1024);
    assert_eq!(len, 0);
}

#[test]
fn single_partition_exact_values() {
    assert_eq!(Partitioner::single_partition(64 * 1024 * 1024), (1024 * 1024, 63 * 1024 * 1024));
    assert_eq!(Partitioner::single_partition(1024 * 1024), (1024 * 1024, 0));
    assert_eq!(Partitioner::single_partition(1024 * 1024 + 511), (1024 * 1024, 0));
    assert_eq!(Partitioner::single_partition(1024 * 1024 + 1000), (1024 * 1024, 512));
}

#[test]
fn mbr_sector_describes_one_fat32_partition() {
    let total = 64 * 1024 * 1024u64;
    let (start, len) = Partitioner::single_partition(total);
    let bytes = Partitioner::mbr_sector(start, len);
    assert_eq!(bytes[0x1BE], 0x00);
    assert_eq!(bytes[0x1BE + 4], 0x0C);
    assert_eq!([bytes[510], bytes[511]], [0x55, 0xAA]);
    let lba = u32::from_le_bytes(bytes[0x1BE + 8..0x1BE + 12].try_into().unwrap());
    assert_eq!(u64::from(lba), start / 512);
    let sectors = u32::from_le_bytes(bytes[0x1BE + 12..0x1BE + 16].try_into().unwrap());
    assert_eq!(u64::from(sectors), len / 512);
    assert_eq!(bytes[0x1BE + 1..0x1BE + 4], [0xFE, 0xFF, 0xFF]);
    assert_eq!(bytes[0x1BE + 5..0x1BE + 8], [0xFE, 0xFF, 0xFF]);
    assert!(bytes[..0x1BE].iter().all(|&b| b == 0));
}

#[test]
fn mbr_sector_is_recognised_as_hybrid() {
    let sector = Partitioner::mbr_sector(1024 * 1024, 512);
    assert_eq!(IsoFileInspector::classify_bytes(&sector, false), IsoKind::Isohybrid);
}

#[test]
fn mbr_sector_numbers_that_do_not_fit_become_zero() {
    let bytes = Partitioner::mbr_sector(u64::MAX, 512 * 0x1_0000_0000);
    assert_eq!(bytes[0x1C6..0x1CE], [0, 0, 0, 0, 0, 0, 0, 0]);
}

#[test]
fn protective_mbr_size_is_last_sector() {
    assert_eq!(Partitioner::protective_mbr_size(64 * 1024 * 1024), 131071);
    assert_eq!(Partitioner::protective_mbr_size(0), 0);
    assert_eq!(Partitioner::protective_mbr_size(u64::MAX), 0xFFFF_FFFF);
}

#[test]
fn gpt_extent_in_bytes() {
    assert_eq!(Partitioner::gpt_extent(2048, 4095), (2048 * 512, 2048 * 512));
}

#[test]
fn mbr_writes_one_fat32_partition() {
    let total = 64 * 1024 * 1024u64;
    let mut dev = Cursor::new(vec![0u8; total as usize]);
    let (start, len) = Partitioner::single_partition(total);
    dev.seek(SeekFrom::Start(0)).unwrap();
    dev.write_all(&Partitioner::mbr_sector(start, len)).unwrap();
    let mut bytes = [0u8; 512];
    dev.seek(SeekFrom::Start(0)).unwrap();
    dev.read_exact(&mut bytes).unwrap();
    assert_eq!(bytes[0x1BE + 4], 0x0C);
    assert_eq!([bytes[510], bytes[511]], [0x55, 0xAA]);
    let lba = u32::from_le_bytes(bytes[0x1BE + 8..0x1BE + 12].try_into().unwrap());
    assert_eq!(u64::from(lba), start / 512);
}

#[test]
fn checked_gpt_extent_refuses_what_does_not_fit() {
    assert_eq!(Partitioner::checked_gpt_extent(2048, 4095), Some((2048 * 512, 2048 * 512)));
    assert_eq!(Partitioner::checked_gpt_extent(10, 9), None);
    assert_eq!(Partitioner::checked_gpt_extent(u64::MAX / 512 + 1, u64::MAX), None);
    assert_eq!(Partitioner::checked_gpt_extent(0, u64::MAX / 512 - 1), Some((0, (u64::MAX / 512) * 512)));
    assert_eq!(Partitioner::checked_gpt_extent(0, u64::MAX / 512), None);
}
