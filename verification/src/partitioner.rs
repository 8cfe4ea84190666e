//! Layout of the single FAT32 partition that covers a device, and the bytes of
//! the DOS master boot record that describes it.
use vstd::prelude::*;
use crate::iso_inspector::{has_boot_signature, has_partition_entry, mbr_kind};
use crate::domain::IsoKind;

verus! {

/// Native partitioner.
pub struct Partitioner;

/// The partition starts at 1 MiB.
pub const PARTITION_ALIGN: u64 = 1048576;

/// Logical sector size.
pub const SECTOR_SIZE: u64 = 512;

/// `(start, len)` in bytes of the one partition that covers a device of
/// `device_bytes` bytes: it starts at 1 MiB and spans whole sectors up to the
/// end; a device of 1 MiB or less leaves it empty.
pub open spec fn partition_layout(device_bytes: u64) -> (u64, u64) {
    if device_bytes <= PARTITION_ALIGN {
        (PARTITION_ALIGN, 0)
    } else {
        (PARTITION_ALIGN, (((device_bytes - PARTITION_ALIGN) / 512) * 512) as u64)
    }
}

/// A byte offset as a 32-bit sector number, or 0 when it does not fit.
pub open spec fn sector_field(bytes: u64) -> u32 {
    if bytes / 512 <= u32::MAX {
        (bytes / 512) as u32
    } else {
        0
    }
}

/// Byte `k` (0 to 3) of `x` in little-endian order.
pub open spec fn le_byte(x: u32, k: int) -> u8 {
    if k == 0 {
        (x % 256) as u8
    } else if k == 1 {
        ((x / 256) % 256) as u8
    } else if k == 2 {
        ((x / 65536) % 256) as u8
    } else {
        ((x / 16777216) % 256) as u8
    }
}

/// The value of four little-endian bytes.
pub open spec fn le_value(b0: u8, b1: u8, b2: u8, b3: u8) -> int {
    b0 + 256 * b1 + 65536 * b2 + 16777216 * b3
}

/// Byte `i` of the MBR sector for a partition at `start` of `len` bytes: one
/// inactive entry at `0x1BE` with placeholder CHS values, type `0x0C`
/// (FAT32 LBA), the start sector and the sector count in little endian, then
/// the signature `0x55AA`; every other byte is zero.
pub open spec fn mbr_byte(start: u64, len: u64, i: int) -> u8 {
    if i == 0x1BF || i == 0x1C3 {
        0xFE
    } else if i == 0x1C0 || i == 0x1C1 || i == 0x1C4 || i == 0x1C5 {
        0xFF
    } else if i == 0x1C2 {
        0x0C
    } else if 0x1C6 <= i < 0x1CA {
        le_byte(sector_field(start), i - 0x1C6)
    } else if 0x1CA <= i < 0x1CE {
        le_byte(sector_field(len), i - 0x1CA)
    } else if i == 510 {
        0x55
    } else if i == 511 {
        0xAA
    } else {
        0
    }
}

/// The whole MBR sector.
pub open spec fn mbr_image(start: u64, len: u64) -> Seq<u8> {
    Seq::new(512, |i: int| mbr_byte(start, len, i))
}

fn le_bytes(x: u32) -> (r: (u8, u8, u8, u8))
    ensures
        r.0 == le_byte(x, 0),
        r.1 == le_byte(x, 1),
        r.2 == le_byte(x, 2),
        r.3 == le_byte(x, 3),
{
    ((x % 256) as u8, ((x / 256) % 256) as u8, ((x / 65536) % 256) as u8, ((x / 16777216)
        % 256) as u8)
}

fn sector_number(bytes: u64) -> (r: u32)
    ensures
        r == sector_field(bytes),
{
    let s = bytes / SECTOR_SIZE;
    if s <= 0xFFFF_FFFF {
        s as u32
    } else {
        0
    }
}

impl Partitioner {
    /// `(start, len)` in bytes of one partition covering the disk, starting at 1 MiB.
    pub fn single_partition(device_bytes: u64) -> (r: (u64, u64))
        ensures
            r == partition_layout(device_bytes),
    {
        if device_bytes <= PARTITION_ALIGN {
            return (PARTITION_ALIGN, 0);
        }
        let len = ((device_bytes - PARTITION_ALIGN) / SECTOR_SIZE) * SECTOR_SIZE;
        (PARTITION_ALIGN, len)
    }

    /// Sector 0 of a minimal DOS table with one FAT32 LBA partition (type
    /// `0x0C`) in `[start, start + len)`.
    pub fn mbr_sector(start: u64, len: u64) -> (sector: [u8; 512])
        ensures
            sector@ == mbr_image(start, len),
    {
        let mut sector = [0u8; 512];
        let (s0, s1, s2, s3) = le_bytes(sector_number(start));
        let (n0, n1, n2, n3) = le_bytes(sector_number(len));
        sector[0x1BF] = 0xFE;
        sector[0x1C0] = 0xFF;
        sector[0x1C1] = 0xFF;
        sector[0x1C2] = 0x0C;
        sector[0x1C3] = 0xFE;
        sector[0x1C4] = 0xFF;
        sector[0x1C5] = 0xFF;
        sector[0x1C6] = s0;
        sector[0x1C7] = s1;
        sector[0x1C8] = s2;
        sector[0x1C9] = s3;
        sector[0x1CA] = n0;
        sector[0x1CB] = n1;
        sector[0x1CC] = n2;
        sector[0x1CD] = n3;
        sector[510] = 0x55;
        sector[511] = 0xAA;
        assert(sector@ =~= mbr_image(start, len));
        sector
    }

    /// Size field of the protective MBR of a GPT disk of `device_bytes` bytes:
    /// the last sector number, or `0xFFFF_FFFF` when it does not fit in 32 bits.
    pub fn protective_mbr_size(device_bytes: u64) -> (r: u32)
        ensures
            r == (if device_bytes / 512 >= 1 && device_bytes / 512 - 1 <= u32::MAX {
                (device_bytes / 512 - 1) as u32
            } else if device_bytes / 512 == 0 {
                0u32
            } else {
                0xFFFF_FFFFu32
            }),
    {
        let total = device_bytes / SECTOR_SIZE;
        let last = total.saturating_sub(1);
        if last <= 0xFFFF_FFFF {
            last as u32
        } else {
            0xFFFF_FFFF
        }
    }

    /// `(start, len)` in bytes of a GPT partition spanning the sectors
    /// `first..=last`.
    pub fn gpt_extent(first: u64, last: u64) -> (r: (u64, u64))
        requires
            first <= last,
            first * 512 <= u64::MAX,
            (last - first + 1) * 512 <= u64::MAX,
        ensures
            r == ((first * 512) as u64, ((last - first + 1) * 512) as u64),
    {
        (first * SECTOR_SIZE, (last - first + 1) * SECTOR_SIZE)
    }

    /// `gpt_extent` of the sectors `first..=last` that the GPT writer reports,
    /// or `None` when they are out of order or their byte extent does not fit
    /// in 64 bits.
    pub fn checked_gpt_extent(first: u64, last: u64) -> (r: Option<(u64, u64)>)
        ensures
            r is Some <==> (first <= last && first * 512 <= u64::MAX && (last - first + 1) * 512
                <= u64::MAX),
            r matches Some(e) ==> e == ((first * 512) as u64, ((last - first + 1) * 512) as u64),
    {
        if first > last || first > u64::MAX / SECTOR_SIZE || last - first >= u64::MAX / SECTOR_SIZE {
            return None;
        }
        Some(Self::gpt_extent(first, last))
    }
}

/// The single partition fits in the device: it starts at 1 MiB, spans whole
/// sectors, ends no later than the device and leaves less than one sector
/// unused at its end.
pub proof fn lemma_partition_fits(device_bytes: u64)
    requires
        device_bytes > PARTITION_ALIGN,
    ensures
        partition_layout(device_bytes).0 == PARTITION_ALIGN,
        partition_layout(device_bytes).1 % 512 == 0,
        partition_layout(device_bytes).0 + partition_layout(device_bytes).1 <= device_bytes,
        device_bytes - (partition_layout(device_bytes).0 + partition_layout(device_bytes).1) < 512,
        partition_layout(device_bytes).1 > 0 <==> device_bytes >= PARTITION_ALIGN + 512,
{
}

/// The start and size fields of the written entry read back, as little-endian
/// 32-bit numbers, as the partition's start sector and sector count (0 when
/// they do not fit in 32 bits).
pub proof fn lemma_entry_fields_read_back(start: u64, len: u64)
    ensures
        le_value(
            mbr_image(start, len)[0x1C6],
            mbr_image(start, len)[0x1C7],
            mbr_image(start, len)[0x1C8],
            mbr_image(start, len)[0x1C9],
        ) == sector_field(start),
        le_value(
            mbr_image(start, len)[0x1CA],
            mbr_image(start, len)[0x1CB],
            mbr_image(start, len)[0x1CC],
            mbr_image(start, len)[0x1CD],
        ) == sector_field(len),
        start / 512 <= u32::MAX ==> sector_field(start) == start / 512,
        len / 512 <= u32::MAX ==> sector_field(len) == len / 512,
{
    let x = sector_field(start);
    let y = sector_field(len);
    assert(le_value(le_byte(x, 0), le_byte(x, 1), le_byte(x, 2), le_byte(x, 3)) == x);
    assert(le_value(le_byte(y, 0), le_byte(y, 1), le_byte(y, 2), le_byte(y, 3)) == y);
}

/// The table that the partitioner writes is recognised by the ISO inspector as
/// a hybrid boot sector: it carries the signature and a non-empty entry.
pub proof fn lemma_written_table_is_hybrid(start: u64, len: u64)
    ensures
        mbr_image(start, len).len() == 512,
        has_boot_signature(mbr_image(start, len)),
        has_partition_entry(mbr_image(start, len)),
        mbr_kind(mbr_image(start, len)) == IsoKind::Isohybrid,
{
    let m = mbr_image(start, len);
    assert(m[(0x1BE + 16 * 0 + 4) as int] == 0x0C);
}

} // verus!
