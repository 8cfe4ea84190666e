use nur::domain::{WriteError, WritePhase};
use nur::raw_copier::{CopyRun, RawCopier, VerifyRun, COPY_CHUNK};

#[test]
fn copy_progress_counts_written_bytes() {
    assert!(RawCopier::copy_progress(5, 0, 10).is_none());
    let p = RawCopier::copy_progress(5, 3, 10).unwrap();
    assert_eq!(p.phase(), WritePhase::Writing);
    assert_eq!(p.done(), 8);
    assert_eq!(p.total(), 10);
}

#[test]
fn verify_blocks() {
    assert_eq!(RawCopier::verify_chunk_len(0, 10), 10);
    assert_eq!(RawCopier::verify_chunk_len(0, 10 * 1024 * 1024), COPY_CHUNK);
    assert_eq!(RawCopier::verify_chunk_len(8 * 1024 * 1024, 10 * 1024 * 1024), 2 * 1024 * 1024);
    let a = vec![5u8; 8];
    let mut b = a.clone();
    let ok = RawCopier::compare_block(&a, &b, 8, 0, 8).unwrap();
    assert_eq!(ok.phase(), WritePhase::Verifying);
    assert_eq!(ok.done(), 8);
    b[7] = 0;
    assert_eq!(RawCopier::compare_block(&a, &b, 8, 0, 8), Err(WriteError::VerificationMismatch));
    assert!(RawCopier::compare_block(&a, &b, 7, 0, 8).is_ok());
}

#[test]
fn copy_reads_stop_at_total() {
    assert_eq!(RawCopier::copy_read_len(0, 10), 10);
    assert_eq!(RawCopier::copy_read_len(10, 10), 0);
    assert_eq!(RawCopier::copy_read_len(0, 10 * 1024 * 1024), COPY_CHUNK);
    // A source longer than `total`: only `total` bytes are copied.
    let source = vec![3u8; 25];
    let mut run = CopyRun::new(10);
    let mut dest = Vec::new();
    let mut pos = 0;
    loop {
        let want = run.next_read();
        let n = want.min(source.len() - pos);
        let block = &source[pos..pos + n];
        match run.record(block, n) {
            Some(p) => {
                dest.extend_from_slice(block);
                pos += n;
                assert_eq!(p.done(), pos as u64);
                assert_eq!(p.total(), 10);
            }
            None => break,
        }
    }
    assert_eq!(dest, vec![3u8; 10]);
    assert_eq!(run.done(), 10);
}

#[test]
fn copy_ends_with_a_short_source() {
    let mut run = CopyRun::new(100);
    assert_eq!(run.next_read(), 100);
    assert_eq!(run.record(&[1, 2, 3], 3).unwrap().done(), 3);
    assert!(run.record(&[], 0).is_none());
    assert_eq!(run.done(), 3);
}

#[test]
fn verify_run_counts_matching_blocks_and_stops_on_mismatch() {
    let mut run = VerifyRun::new(6);
    assert!(!run.finished());
    assert_eq!(run.next_block(), 6);
    assert_eq!(run.check(&[1, 2, 3], &[1, 2, 3], 3).unwrap().done(), 3);
    assert_eq!(run.check(&[4, 5, 6], &[4, 0, 6], 3), Err(WriteError::VerificationMismatch));
    assert_eq!(run.next_block(), 3);
    assert_eq!(run.check(&[4, 5, 6], &[4, 5, 6], 3).unwrap().done(), 6);
    assert!(run.finished());
}
