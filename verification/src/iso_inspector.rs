//! Classification of ISO images from their first sector: a hybrid image carries
//! the `0x55AA` boot signature and at least one non-empty MBR partition entry.
use vstd::prelude::*;
use crate::domain::IsoKind;

verus! {

/// Classifies ISO images by their MBR (entries at `0x1BE`, signature at `0x1FE`).
pub struct IsoFileInspector;

/// The first sector ends with the boot signature `0x55 0xAA`.
pub open spec fn has_boot_signature(mbr: Seq<u8>) -> bool {
    mbr[510] == 0x55 && mbr[511] == 0xAA
}

/// One of the four 16-byte partition entries at `0x1BE` holds a non-zero byte.
pub open spec fn has_partition_entry(mbr: Seq<u8>) -> bool {
    exists|i: int, j: int| 0 <= i < 4 && 0 <= j < 16 && #[trigger] mbr[0x1BE + 16 * i + j] != 0
}

/// The kind of image whose first sector is `mbr`.
pub open spec fn mbr_kind(mbr: Seq<u8>) -> IsoKind {
    if has_boot_signature(mbr) && has_partition_entry(mbr) {
        IsoKind::Isohybrid
    } else {
        IsoKind::Unsupported
    }
}

impl IsoFileInspector {
    /// Creates the inspector.
    pub fn new() -> (r: IsoFileInspector)
        ensures
            r == IsoFileInspector,
    {
        IsoFileInspector
    }

    /// Isohybrid exactly when the sector has the boot signature and a non-empty
    /// partition entry; the presence of the `CD001` descriptor does not matter.
    pub fn classify_bytes(mbr: &[u8; 512], _cd001: bool) -> (k: IsoKind)
        ensures
            k == mbr_kind(mbr@),
    {
        let signature = mbr[510] == 0x55 && mbr[511] == 0xAA;
        let mut has_partition = false;
        let mut p: usize = 0;
        while p < 64
            invariant
                mbr@.len() == 512,
                p <= 64,
                has_partition <==> exists|k: int| 0x1BE <= k < 0x1BE + p && mbr@[k] != 0,
            decreases 64 - p,
        {
            if mbr[0x1BE + p] != 0 {
                has_partition = true;
            }
            p = p + 1;
        }
        proof {
            if has_partition {
                let k = choose|k: int| 0x1BE <= k < 0x1BE + 64 && mbr@[k] != 0;
                let i = (k - 0x1BE) / 16;
                let j = (k - 0x1BE) % 16;
                assert(mbr@[0x1BE + 16 * i + j] != 0);
            }
        }
        if signature && has_partition {
            IsoKind::Isohybrid
        } else {
            IsoKind::Unsupported
        }
    }

    /// The primary volume descriptor read at `0x8001` starts with `CD001`.
    pub fn pvd_marker_present(bytes: &[u8; 5]) -> (b: bool)
        ensures
            b == (bytes@ == seq![0x43u8, 0x44, 0x30, 0x30, 0x31]),
    {
        let r = bytes[0] == 0x43 && bytes[1] == 0x44 && bytes[2] == 0x30 && bytes[3] == 0x30
            && bytes[4] == 0x31;
        assert(r ==> bytes@ =~= seq![0x43u8, 0x44, 0x30, 0x30, 0x31]);
        r
    }
}

} // verus!
