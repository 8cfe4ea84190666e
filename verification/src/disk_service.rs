//! Listing of USB sticks: the mapping of `/sys/block` fields to devices, and a
//! fixed listing for previews.
use vstd::prelude::*;
use crate::domain::{ByteSize, Device, DevicePath, DiskError};
use crate::text::{
    chars_of, concat_str, contains, find, parse_u64, parsed_u64, saturating_mul,
    saturating_product, string_from_chars, trim, trimmed,
};

verus! {

/// Lists USB block devices from the fields of `/sys/block`.
pub struct SysfsDiskService;

/// Returns two fixed devices without touching the system.
pub struct DiskServiceStub;

/// The device that the sysfs fields describe, when its canonical path shows a
/// USB connection: path `/dev/<name>`, trimmed model name, capacity of
/// `size_sectors` 512-byte sectors (saturating) and the removable flag.
pub open spec fn usb_device(
    name: Seq<char>,
    canonical: Seq<char>,
    size_sectors: u64,
    removable: bool,
    model: Seq<char>,
    d: Device,
) -> bool {
    &&& d.spec_path() == "/dev/"@ + name
    &&& d.spec_model() == trim(model)
    &&& d.spec_size().spec_bytes() == saturating_product(size_sectors, 512)
    &&& d.spec_removable() == removable
}

impl SysfsDiskService {
    /// Creates the adapter.
    pub fn new() -> (r: SysfsDiskService)
        ensures
            r == SysfsDiskService,
    {
        SysfsDiskService
    }

    /// The device for one `/sys/block` entry: `Some` only when the canonical
    /// sysfs path contains `/usb`.
    pub fn build_device(
        name: &str,
        canonical: &str,
        size_sectors: u64,
        removable: bool,
        model: &str,
    ) -> (r: Option<Device>)
        ensures
            r is Some <==> contains(canonical@, "/usb"@),
            r matches Some(d) ==> usb_device(name@, canonical@, size_sectors, removable, model@, d),
    {
        if !find(&chars_of(canonical), &chars_of("/usb")) {
            return None;
        }
        let path = concat_str("/dev/", name);
        let model_text = string_from_chars(trimmed(&chars_of(model)));
        let d = Device::new(
            DevicePath::new(path),
            model_text,
            ByteSize::from_bytes(saturating_mul(size_sectors, 512)),
            removable,
        );
        Some(d)
    }

    /// The sector count in the text of a sysfs `size` file, parsed as a `u64`
    /// once trimmed.
    pub fn parse_size(raw: &str) -> (r: Option<u64>)
        ensures
            r == parsed_u64(trim(raw@)),
    {
        parse_u64(&trimmed(&chars_of(raw)))
    }

    /// The text of a sysfs `removable` file says `1`.
    pub fn removable_flag(raw: &str) -> (r: bool)
        ensures
            r == (trim(raw@) == "1"@),
    {
        let t = trimmed(&chars_of(raw));
        let one = chars_of("1");
        let r = t.len() == one.len() && crate::text::has_prefix(&t, &one);
        assert(r ==> t@ =~= one@);
        assert(t@.subrange(0, t@.len() as int) =~= t@);
        r
    }
}

impl DiskServiceStub {
    /// Creates the stub.
    pub fn new() -> (r: DiskServiceStub)
        ensures
            r == DiskServiceStub,
    {
        DiskServiceStub
    }

    /// Two canonical USB sticks: `/dev/sdb` (SanDisk Ultra, 32 GB) and
    /// `/dev/sdc` (Kingston DataTraveler, 16 GB), both removable.
    pub fn listar_dispositivos(&self) -> (r: Result<Vec<Device>, DiskError>)
        ensures
            r matches Ok(v) && v@.len() == 2 && v@[0].spec_path() == "/dev/sdb"@
                && v@[0].spec_model() == "SanDisk Ultra"@
                && v@[0].spec_size().spec_bytes() == 32_000_000_000
                && v@[0].spec_removable() && v@[1].spec_path() == "/dev/sdc"@
                && v@[1].spec_model() == "Kingston DataTraveler"@
                && v@[1].spec_size().spec_bytes() == 16_000_000_000 && v@[1].spec_removable(),
    {
        let mut v: Vec<Device> = Vec::new();
        v.push(
            Device::new(
                DevicePath::new("/dev/sdb".to_owned()),
                "SanDisk Ultra".to_owned(),
                ByteSize::from_bytes(32_000_000_000),
                true,
            ),
        );
        v.push(
            Device::new(
                DevicePath::new("/dev/sdc".to_owned()),
                "Kingston DataTraveler".to_owned(),
                ByteSize::from_bytes(16_000_000_000),
                true,
            ),
        );
        Ok(v)
    }
}

} // verus!
