use nur::disk_service::{DiskServiceStub, SysfsDiskService};

#[test]
fn devolve_dois_dispositivos_canonicos() {
    let stub = DiskServiceStub::new();
    let dispositivos = stub.listar_dispositivos().unwrap();
    assert_eq!(dispositivos.len(), 2);
    assert_eq!(dispositivos[0].caminho().as_str(), "/dev/sdb");
}

#[test]
fn maps_usb_block_device() {
    let device = SysfsDiskService::build_device(
        "sdb",
        "/sys/devices/pci0000:00/usb1/1-1/host4/target4:0:0/4:0:0:0/block/sdb",
        62_500_000,
        true,
        "SanDisk Ultra\n",
    )
    .expect("dispositivo USB deve mapear");
    assert_eq!(device.path().as_str(), "/dev/sdb");
    assert_eq!(device.model(), "SanDisk Ultra");
    assert!(device.removable());
    assert_eq!(device.size().as_bytes(), 62_500_000 * 512);
}

#[test]
fn skips_non_usb_disk() {
    let mapped = SysfsDiskService::build_device(
        "nvme0n1",
        "/sys/devices/pci0000:00/0000:00:1d.0/nvme/nvme0/block/nvme0n1",
        1_000_000_000,
        false,
        "Samsung SSD",
    );
    assert!(mapped.is_none());
}

#[test]
fn stub_second_device_and_sizes() {
    let v = DiskServiceStub::new().listar_dispositivos().unwrap();
    assert_eq!(v[1].path().as_str(), "/dev/sdc");
    assert_eq!(v[1].model(), "Kingston DataTraveler");
    assert_eq!(v[0].size().as_bytes(), 32_000_000_000);
    assert_eq!(v[1].size().as_bytes(), 16_000_000_000);
}

#[test]
fn size_saturates() {
    let d = SysfsDiskService::build_device("sdx", "/usb/x", u64::MAX, false, "  M  ").unwrap();
    assert_eq!(d.size().as_bytes(), u64::MAX);
    assert_eq!(d.model(), "M");
}

#[test]
fn parses_sysfs_size_and_removable() {
    assert_eq!(SysfsDiskService::parse_size("62500000\n"), Some(62_500_000));
    assert_eq!(SysfsDiskService::parse_size("+7"), Some(7));
    assert_eq!(SysfsDiskService::parse_size(""), None);
    assert_eq!(SysfsDiskService::parse_size("12a"), None);
    assert_eq!(SysfsDiskService::parse_size("18446744073709551615"), Some(u64::MAX));
    assert_eq!(SysfsDiskService::parse_size("18446744073709551616"), None);
    assert!(SysfsDiskService::removable_flag("1\n"));
    assert!(!SysfsDiskService::removable_flag("0\n"));
    assert!(!SysfsDiskService::removable_flag("11"));
}
