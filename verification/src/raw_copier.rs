//! Decisions of the raw image copy and of its read-back verification: progress
//! after each block, the size of each verified block, and the comparison.
use vstd::prelude::*;
use crate::domain::{WriteError, WritePhase, WriteProgress};

verus! {

/// Copy and verification over generic readers and writers, block by block.
pub struct RawCopier;

/// Block size of the copy and of the verification.
pub const COPY_CHUNK: usize = 4194304;

impl RawCopier {
    /// After a read of `n` bytes during the copy of `total` bytes, of which
    /// `done` are copied: `None` once nothing more came (`n == 0`, the source
    /// is exhausted or the `total` bytes are all copied), else the progress to
    /// report once they are written.
    pub fn copy_progress(done: u64, n: usize, total: u64) -> (r: Option<WriteProgress>)
        requires
            done + n <= total,
        ensures
            n == 0 ==> r is None,
            n > 0 ==> (r matches Some(p) && p.spec_phase() == WritePhase::Writing && p.spec_done()
                == done + n && p.spec_total() == total),
    {
        if n == 0 {
            None
        } else {
            Some(WriteProgress::new(WritePhase::Writing, done + n as u64, total))
        }
    }

    /// Size of the next read of the copy when `done` of `total` bytes are
    /// copied: a block, no more than what is left, and 0 once all are copied.
    pub fn copy_read_len(done: u64, total: u64) -> (r: usize)
        requires
            done <= total,
        ensures
            r as int == if total - done < COPY_CHUNK {
                total - done
            } else {
                COPY_CHUNK as int
            },
    {
        if total - done < COPY_CHUNK as u64 {
            (total - done) as usize
        } else {
            COPY_CHUNK
        }
    }

    /// Size of the next verified block when `done` of `total` bytes are checked.
    pub fn verify_chunk_len(done: u64, total: u64) -> (r: usize)
        requires
            done < total,
        ensures
            r as int == if total - done < COPY_CHUNK {
                total - done
            } else {
                COPY_CHUNK as int
            },
            0 < r <= COPY_CHUNK,
    {
        if total - done < COPY_CHUNK as u64 {
            (total - done) as usize
        } else {
            COPY_CHUNK
        }
    }

    /// Compares the first `want` bytes read back from the device with those of
    /// the image: the progress to report when they agree, a mismatch otherwise.
    pub fn compare_block(written: &[u8], original: &[u8], want: usize, done: u64, total: u64) -> (r: Result<WriteProgress, WriteError>)
        requires
            want <= written@.len(),
            want <= original@.len(),
            done + want <= u64::MAX,
        ensures
            r is Ok <==> written@.take(want as int) == original@.take(want as int),
            r matches Ok(p) ==> p.spec_phase() == WritePhase::Verifying && p.spec_done() == done
                + want && p.spec_total() == total,
            r matches Err(e) ==> e == WriteError::VerificationMismatch,
    {
        let mut i: usize = 0;
        while i < want
            invariant
                i <= want,
                want <= written@.len(),
                want <= original@.len(),
                forall|k: int| 0 <= k < i ==> written@[k] == original@[k],
            decreases want - i,
        {
            if written[i] != original[i] {
                assert(written@.take(want as int)[i as int] != original@.take(want as int)[i as int]);
                return Err(WriteError::VerificationMismatch);
            }
            i = i + 1;
        }
        assert(written@.take(want as int) =~= original@.take(want as int));
        Ok(WriteProgress::new(WritePhase::Verifying, done + want as u64, total))
    }
}

/// A copy of `total` bytes in progress: how many are copied, and (as a ghost)
/// the bytes handed to the device so far, in order. They are always the bytes
/// read so far, never more than `total`.
pub struct CopyRun {
    done: u64,
    total: u64,
    copied: Ghost<Seq<u8>>,
}

impl CopyRun {
    #[verifier::type_invariant]
    spec fn consistent(self) -> bool {
        &&& self.done <= self.total
        &&& self.copied@.len() == self.done
    }

    /// Bytes copied so far.
    pub closed spec fn spec_done(&self) -> u64 {
        self.done
    }

    /// Bytes to copy.
    pub closed spec fn spec_total(&self) -> u64 {
        self.total
    }

    /// The bytes handed to the device so far, in order.
    pub closed spec fn spec_copied(&self) -> Seq<u8> {
        self.copied@
    }

    /// A copy of `total` bytes, none copied yet.
    pub fn new(total: u64) -> (r: CopyRun)
        ensures
            r.spec_done() == 0,
            r.spec_total() == total,
            r.spec_copied() == Seq::<u8>::empty(),
    {
        CopyRun { done: 0, total, copied: Ghost(Seq::empty()) }
    }

    /// Bytes copied so far.
    pub fn done(&self) -> (r: u64)
        ensures
            r == self.spec_done(),
            self.spec_done() <= self.spec_total(),
            self.spec_copied().len() == self.spec_done(),
    {
        proof {
            use_type_invariant(self);
        }
        self.done
    }

    /// How many bytes the next read may bring: a block, no more than what is
    /// left of `total`; 0 once the copy is complete.
    pub fn next_read(&self) -> (r: usize)
        ensures
            r as int == if self.spec_total() - self.spec_done() < COPY_CHUNK {
                self.spec_total() - self.spec_done()
            } else {
                COPY_CHUNK as int
            },
            self.spec_done() + r <= self.spec_total(),
    {
        proof {
            use_type_invariant(self);
        }
        RawCopier::copy_read_len(self.done, self.total)
    }

    /// A read brought the first `n` bytes of `block`: `None` when it brought
    /// nothing (the copy ends), otherwise they are to be written and the
    /// progress reported.
    pub fn record(&mut self, block: &[u8], n: usize) -> (r: Option<WriteProgress>)
        requires
            n <= block@.len(),
            old(self).spec_done() + n <= old(self).spec_total(),
        ensures
            final(self).spec_total() == old(self).spec_total(),
            n == 0 ==> r is None && final(self).spec_done() == old(self).spec_done()
                && final(self).spec_copied() == old(self).spec_copied(),
            n > 0 ==> {
                &&& final(self).spec_done() == old(self).spec_done() + n
                &&& final(self).spec_copied() == old(self).spec_copied() + block@.take(n as int)
                &&& r matches Some(p) && p.spec_phase() == WritePhase::Writing
                    && p.spec_done() == final(self).spec_done() && p.spec_total() == old(
                    self,
                ).spec_total()
            },
            final(self).spec_copied().len() == final(self).spec_done(),
            final(self).spec_done() <= final(self).spec_total(),
    {
        proof {
            use_type_invariant(&*self);
        }
        let r = RawCopier::copy_progress(self.done, n, self.total);
        if n > 0 {
            let ghost next = self.copied@ + block@.take(n as int);
            *self = CopyRun { done: self.done + n as u64, total: self.total, copied: Ghost(next) };
        }
        r
    }
}

/// A read-back verification of `total` bytes in progress: how many are
/// checked, and (as ghosts) the bytes read from the device and from the image
/// so far, which are always the same.
pub struct VerifyRun {
    done: u64,
    total: u64,
    written: Ghost<Seq<u8>>,
    original: Ghost<Seq<u8>>,
}

impl VerifyRun {
    #[verifier::type_invariant]
    spec fn consistent(self) -> bool {
        &&& self.done <= self.total
        &&& self.written@.len() == self.done
        &&& self.written@ == self.original@
    }

    /// Bytes checked so far.
    pub closed spec fn spec_done(&self) -> u64 {
        self.done
    }

    /// Bytes to check.
    pub closed spec fn spec_total(&self) -> u64 {
        self.total
    }

    /// The bytes read back from the device so far.
    pub closed spec fn spec_written(&self) -> Seq<u8> {
        self.written@
    }

    /// The bytes read from the image so far.
    pub closed spec fn spec_original(&self) -> Seq<u8> {
        self.original@
    }

    /// A verification of `total` bytes, none checked yet.
    pub fn new(total: u64) -> (r: VerifyRun)
        ensures
            r.spec_done() == 0,
            r.spec_total() == total,
            r.spec_written() == Seq::<u8>::empty(),
            r.spec_original() == Seq::<u8>::empty(),
    {
        VerifyRun { done: 0, total, written: Ghost(Seq::empty()), original: Ghost(Seq::empty()) }
    }

    /// All `total` bytes are checked: the bytes read back from the device and
    /// those of the image are the same, and there are `total` of them.
    pub fn finished(&self) -> (r: bool)
        ensures
            r == (self.spec_done() == self.spec_total()),
            r ==> self.spec_written().len() == self.spec_total(),
            self.spec_written() == self.spec_original(),
            self.spec_written().len() == self.spec_done(),
            self.spec_done() <= self.spec_total(),
    {
        proof {
            use_type_invariant(self);
        }
        self.done == self.total
    }

    /// Size of the next block to read from both, when not finished.
    pub fn next_block(&self) -> (r: usize)
        requires
            self.spec_done() < self.spec_total(),
        ensures
            r as int == if self.spec_total() - self.spec_done() < COPY_CHUNK {
                self.spec_total() - self.spec_done()
            } else {
                COPY_CHUNK as int
            },
            0 < r <= COPY_CHUNK,
    {
        RawCopier::verify_chunk_len(self.done, self.total)
    }

    /// Compares the next `want` bytes read from the device (`written`) and
    /// from the image (`original`): when they agree they are counted and the
    /// progress is reported; otherwise the verification fails with a mismatch
    /// and nothing is counted.
    pub fn check(&mut self, written: &[u8], original: &[u8], want: usize) -> (r: Result<WriteProgress, WriteError>)
        requires
            want <= written@.len(),
            want <= original@.len(),
            old(self).spec_done() + want <= old(self).spec_total(),
        ensures
            final(self).spec_total() == old(self).spec_total(),
            r is Ok <==> written@.take(want as int) == original@.take(want as int),
            r matches Ok(p) ==> {
                &&& final(self).spec_done() == old(self).spec_done() + want
                &&& final(self).spec_written() == old(self).spec_written() + written@.take(want as int)
                &&& final(self).spec_original() == old(self).spec_original() + original@.take(want as int)
                &&& p.spec_phase() == WritePhase::Verifying
                &&& p.spec_done() == final(self).spec_done()
                &&& p.spec_total() == old(self).spec_total()
            },
            r matches Err(e) ==> e == WriteError::VerificationMismatch && final(self).spec_done()
                == old(self).spec_done() && final(self).spec_written() == old(self).spec_written()
                && final(self).spec_original() == old(self).spec_original(),
    {
        proof {
            use_type_invariant(&*self);
        }
        let r = RawCopier::compare_block(written, original, want, self.done, self.total);
        if r.is_ok() {
            let ghost w = self.written@ + written@.take(want as int);
            let ghost o = self.original@ + original@.take(want as int);
            *self = VerifyRun {
                done: self.done + want as u64,
                total: self.total,
                written: Ghost(w),
                original: Ghost(o),
            };
        }
        r
    }
}

/// Size of the verified block that starts at `done` of `total` bytes.
pub open spec fn block_len(done: nat, total: nat) -> nat {
    if total - done < COPY_CHUNK {
        (total - done) as nat
    } else {
        COPY_CHUNK as nat
    }
}

/// The blockwise verification from `done` to `total` of the device bytes `w`
/// against the image bytes `o` passes every block.
pub open spec fn blocks_agree(w: Seq<u8>, o: Seq<u8>, done: nat, total: nat) -> bool
    decreases total - done,
{
    if done >= total {
        true
    } else {
        let k = block_len(done, total);
        w.subrange(done as int, (done + k) as int) == o.subrange(done as int, (done + k) as int) && blocks_agree(
            w,
            o,
            done + k,
            total,
        )
    }
}

/// The verification passes every block exactly when the first `total` bytes
/// read back from the device are those of the image.
pub proof fn lemma_verify_whole_stream(w: Seq<u8>, o: Seq<u8>, total: nat)
    requires
        total <= w.len(),
        total <= o.len(),
    ensures
        blocks_agree(w, o, 0, total) <==> w.take(total as int) == o.take(total as int),
{
    lemma_blocks_agree_from(w, o, 0, total);
    assert(w.take(total as int) =~= w.subrange(0, total as int));
    assert(o.take(total as int) =~= o.subrange(0, total as int));
}

proof fn lemma_blocks_agree_from(w: Seq<u8>, o: Seq<u8>, done: nat, total: nat)
    requires
        done <= total,
        total <= w.len(),
        total <= o.len(),
    ensures
        blocks_agree(w, o, done, total) <==> w.subrange(done as int, total as int) == o.subrange(
            done as int,
            total as int,
        ),
    decreases total - done,
{
    if done < total {
        let k = block_len(done, total);
        lemma_blocks_agree_from(w, o, done + k, total);
        let a = w.subrange(done as int, total as int);
        let b = o.subrange(done as int, total as int);
        assert(a =~= w.subrange(done as int, (done + k) as int) + w.subrange((done + k) as int, total as int));
        assert(b =~= o.subrange(done as int, (done + k) as int) + o.subrange((done + k) as int, total as int));
        if a == b {
            assert(w.subrange(done as int, (done + k) as int) =~= a.subrange(0, k as int));
            assert(o.subrange(done as int, (done + k) as int) =~= b.subrange(0, k as int));
            assert(w.subrange((done + k) as int, total as int) =~= a.subrange(k as int, a.len() as int));
            assert(o.subrange((done + k) as int, total as int) =~= b.subrange(k as int, b.len() as int));
        }
    } else {
        assert(w.subrange(done as int, total as int) =~= o.subrange(done as int, total as int));
    }
}

} // verus!
