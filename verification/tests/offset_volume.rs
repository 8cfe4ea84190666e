use nur::offset_volume::{OffsetVolume, SeekTarget};

#[test]
fn window_transfers_stay_inside() {
    let mut v = OffsetVolume::new(vec![0u8; 100], 10, 4);
    assert_eq!(v.seek(SeekTarget::Start(2)), 2);
    assert_eq!(v.transfer_len(4), 2);
    assert_eq!(v.device_offset(), 12);
    v.advance(2);
    assert_eq!(v.remaining(), 0);
    assert_eq!(v.transfer_len(4), 0);
}

#[test]
fn seeks_are_clamped() {
    let mut v = OffsetVolume::new((), 10, 20);
    assert_eq!(v.seek(SeekTarget::Start(5)), 5);
    assert_eq!(v.seek(SeekTarget::Current(-10)), 0);
    assert_eq!(v.seek(SeekTarget::End(0)), 20);
    assert_eq!(v.seek(SeekTarget::End(5)), 20);
    assert_eq!(v.seek(SeekTarget::End(-3)), 17);
    assert_eq!(v.seek(SeekTarget::Current(2)), 19);
    assert_eq!(v.seek(SeekTarget::Start(u64::MAX)), 0);
    assert_eq!(v.seek(SeekTarget::Start(1000)), 20);
}

#[test]
fn inner_device_is_kept() {
    let mut v = OffsetVolume::new(vec![1u8, 2, 3], 0, 3);
    v.inner_mut().push(4);
    assert_eq!(v.into_inner(), vec![1, 2, 3, 4]);
}

#[test]
fn checked_seek_refuses_out_of_range_targets() {
    let mut v = OffsetVolume::new((), 100, 50);
    assert_eq!(v.checked_seek(SeekTarget::Current(10)), Some(10));
    assert_eq!(v.checked_device_offset(), Some(110));
    assert_eq!(v.checked_seek(SeekTarget::End(i64::MAX)), None);
    assert_eq!(v.remaining(), 40);
    assert_eq!(v.checked_seek(SeekTarget::End(-5)), Some(45));
    assert_eq!(v.checked_seek(SeekTarget::Start(u64::MAX)), Some(0));
    let mut huge = OffsetVolume::new((), 0, u64::MAX);
    assert_eq!(huge.checked_seek(SeekTarget::Start(1)), None);
    let mut far = OffsetVolume::new((), u64::MAX, 10);
    assert_eq!(far.checked_device_offset(), Some(u64::MAX));
    far.advance(1);
    assert_eq!(far.checked_device_offset(), None);
}

// One write through the window onto an in-memory device: the window decides
// how many bytes go and where they land.
fn window_write(v: &mut OffsetVolume<Vec<u8>>, buf: &[u8]) -> usize {
    let n = v.transfer_len(buf.len());
    let at = v.checked_device_offset().unwrap() as usize;
    v.inner_mut()[at..at + n].copy_from_slice(&buf[..n]);
    v.advance(n);
    n
}

fn window_read(v: &mut OffsetVolume<Vec<u8>>, buf: &mut [u8]) -> usize {
    let n = v.transfer_len(buf.len());
    let at = v.checked_device_offset().unwrap() as usize;
    buf[..n].copy_from_slice(&v.inner_mut()[at..at + n]);
    v.advance(n);
    n
}

#[test]
fn writes_and_reads_within_window() {
    let mut v = OffsetVolume::new(vec![0u8; 100], 10, 20);
    v.checked_seek(SeekTarget::Start(0)).unwrap();
    assert_eq!(window_write(&mut v, &[1, 2, 3]), 3);
    v.checked_seek(SeekTarget::Start(0)).unwrap();
    let mut buf = [0u8; 3];
    assert_eq!(window_read(&mut v, &mut buf), 3);
    assert_eq!(buf, [1, 2, 3]);
}

#[test]
fn write_is_clamped_to_window_len() {
    let mut v = OffsetVolume::new(vec![0u8; 100], 10, 4);
    v.checked_seek(SeekTarget::Start(2)).unwrap();
    let n = window_write(&mut v, &[9, 9, 9, 9]);
    assert_eq!(n, 2);
}

#[test]
fn maps_offset_into_base() {
    let mut v = OffsetVolume::new(vec![0u8; 100], 10, 20);
    v.checked_seek(SeekTarget::Start(5)).unwrap();
    assert_eq!(window_write(&mut v, &[7]), 1);
    let inner = v.into_inner();
    assert_eq!(inner[15], 7);
}
