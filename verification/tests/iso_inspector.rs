use nur::domain::IsoKind;
use nur::iso_inspector::IsoFileInspector;

fn mbr_with_partition() -> [u8; 512] {
    let mut b = [0u8; 512];
    b[510] = 0x55;
    b[511] = 0xAA;
    b[0x1BE + 4] = 0x83;
    b
}

#[test]
fn isohybrid_when_signature_and_partition_present() {
    assert_eq!(
        IsoFileInspector::classify_bytes(&mbr_with_partition(), true),
        IsoKind::Isohybrid
    );
}

#[test]
fn unsupported_when_no_signature() {
    let mut b = mbr_with_partition();
    b[510] = 0x00;
    assert_eq!(
        IsoFileInspector::classify_bytes(&b, true),
        IsoKind::Unsupported
    );
}

#[test]
fn unsupported_when_no_partition() {
    let mut b = [0u8; 512];
    b[510] = 0x55;
    b[511] = 0xAA;
    assert_eq!(
        IsoFileInspector::classify_bytes(&b, true),
        IsoKind::Unsupported
    );
}

#[test]
fn last_entry_byte_counts_and_bytes_after_do_not() {
    let mut b = [0u8; 512];
    b[510] = 0x55;
    b[511] = 0xAA;
    b[0x1BE + 63] = 1;
    assert_eq!(IsoFileInspector::classify_bytes(&b, false), IsoKind::Isohybrid);
    b[0x1BE + 63] = 0;
    b[0x1BE + 64] = 1;
    b[0x1BD] = 1;
    assert_eq!(IsoFileInspector::classify_bytes(&b, false), IsoKind::Unsupported);
}

#[test]
fn cd001_marker() {
    assert!(IsoFileInspector::pvd_marker_present(b"CD001"));
    assert!(!IsoFileInspector::pvd_marker_present(b"CD002"));
}
