//! A window `[start, start + len)` over a device: the position bookkeeping that
//! confines reads, writes and seeks to one partition.
use vstd::prelude::*;

verus! {

/// Where a seek counts from.
#[derive(Debug, Clone, Copy, PartialEq, Eq, Structural)]
pub enum SeekTarget {
    /// Offset from the start of the window.
    Start(u64),
    /// Offset from the end of the window.
    End(i64),
    /// Offset from the current position.
    Current(i64),
}

/// The bookkeeping of a window: its start on the inner device, its length and
/// the current position, which never passes the end.
pub struct Window {
    start: u64,
    len: u64,
    pos: u64,
}

/// Window `[start, start + len)` over an inner device; the position is relative
/// to the window and never passes its end.
pub struct OffsetVolume<T> {
    inner: T,
    window: Window,
}

/// The value of `n` reinterpreted as a signed 64-bit integer.
pub open spec fn as_signed(n: u64) -> int {
    if n <= i64::MAX {
        n as int
    } else {
        n - 0x1_0000_0000_0000_0000
    }
}

/// `x` limited to `[lo, hi]`.
pub open spec fn clamp(x: int, lo: int, hi: int) -> int {
    if x < lo {
        lo
    } else if x > hi {
        hi
    } else {
        x
    }
}

/// The seek destination before clamping, in window coordinates.
pub open spec fn seek_destination(target: SeekTarget, len: u64, pos: u64) -> int {
    match target {
        SeekTarget::Start(n) => as_signed(n),
        SeekTarget::End(n) => len + n,
        SeekTarget::Current(n) => pos + n,
    }
}

/// The seek does not overflow signed 64-bit arithmetic.
pub open spec fn seek_in_range(target: SeekTarget, len: u64, pos: u64) -> bool {
    &&& len <= i64::MAX
    &&& i64::MIN <= seek_destination(target, len, pos) <= i64::MAX
}

impl Window {
    #[verifier::type_invariant]
    spec fn inside(self) -> bool {
        self.pos <= self.len
    }

    /// Window start on the inner device.
    pub closed spec fn spec_start(&self) -> u64 {
        self.start
    }

    /// Window length.
    pub closed spec fn spec_len(&self) -> u64 {
        self.len
    }

    /// Position inside the window.
    pub closed spec fn spec_pos(&self) -> u64 {
        self.pos
    }

    /// A window at position 0.
    pub fn new(start: u64, len: u64) -> (r: Window)
        ensures
            r.spec_start() == start,
            r.spec_len() == len,
            r.spec_pos() == 0,
    {
        Window { start, len, pos: 0 }
    }

    /// Bytes from the current position to the end of the window.
    pub fn remaining(&self) -> (r: u64)
        ensures
            self.spec_pos() <= self.spec_len(),
            r == self.spec_len() - self.spec_pos(),
    {
        proof {
            use_type_invariant(self);
        }
        self.len - self.pos
    }

    /// Offset on the inner device of the current position.
    pub fn device_offset(&self) -> (r: u64)
        requires
            self.spec_start() + self.spec_pos() <= u64::MAX,
        ensures
            r == self.spec_start() + self.spec_pos(),
    {
        self.start + self.pos
    }

    /// Moves the position forward by `n` bytes.
    pub fn advance(&mut self, n: usize)
        requires
            old(self).spec_pos() + n <= old(self).spec_len(),
        ensures
            final(self).spec_pos() == old(self).spec_pos() + n,
            final(self).spec_start() == old(self).spec_start(),
            final(self).spec_len() == old(self).spec_len(),
    {
        self.pos = self.pos + n as u64;
    }

    /// Moves the position to `target`, clamped to `[0, len]`; returns it.
    pub fn seek(&mut self, target: SeekTarget) -> (r: u64)
        requires
            seek_in_range(target, old(self).spec_len(), old(self).spec_pos()),
        ensures
            r == final(self).spec_pos(),
            r == clamp(
                seek_destination(target, old(self).spec_len(), old(self).spec_pos()),
                0,
                old(self).spec_len() as int,
            ),
            final(self).spec_start() == old(self).spec_start(),
            final(self).spec_len() == old(self).spec_len(),
    {
        proof {
            use_type_invariant(&*self);
        }
        let len = self.len as i64;
        let target: i64 = match target {
            SeekTarget::Start(n) => {
                if n > 0x7FFF_FFFF_FFFF_FFFF {
                    -1
                } else {
                    n as i64
                }
            },
            SeekTarget::End(n) => len + n,
            SeekTarget::Current(n) => self.pos as i64 + n,
        };
        let clamped: i64 = if target < 0 {
            0
        } else if target > len {
            len
        } else {
            target
        };
        self.pos = clamped as u64;
        self.pos
    }
}

impl<T> OffsetVolume<T> {
    /// Window start on the inner device.
    pub closed spec fn spec_start(&self) -> u64 {
        self.window.spec_start()
    }

    /// Window length.
    pub closed spec fn spec_len(&self) -> u64 {
        self.window.spec_len()
    }

    /// Position inside the window.
    pub closed spec fn spec_pos(&self) -> u64 {
        self.window.spec_pos()
    }

    /// The inner device.
    pub closed spec fn spec_inner(&self) -> T {
        self.inner
    }

    /// Creates the window at position 0.
    pub fn new(inner: T, start: u64, len: u64) -> (r: OffsetVolume<T>)
        ensures
            r.spec_inner() == inner,
            r.spec_start() == start,
            r.spec_len() == len,
            r.spec_pos() == 0,
    {
        OffsetVolume { inner, window: Window::new(start, len) }
    }

    /// Returns the inner device.
    pub fn into_inner(self) -> (r: T)
        ensures
            r == self.spec_inner(),
    {
        self.inner
    }

    /// The inner device, for the I/O that the window delegates.
    pub fn inner_mut(&mut self) -> (r: &mut T)
        ensures
            *r == old(self).spec_inner(),
            final(self).spec_inner() == *final(r),
            final(self).spec_start() == old(self).spec_start(),
            final(self).spec_len() == old(self).spec_len(),
            final(self).spec_pos() == old(self).spec_pos(),
    {
        &mut self.inner
    }

    /// Bytes from the current position to the end of the window.
    pub fn remaining(&self) -> (r: u64)
        ensures
            self.spec_pos() <= self.spec_len(),
            r == self.spec_len() - self.spec_pos(),
    {
        self.window.remaining()
    }

    /// How many bytes of a buffer of `buf_len` one read or write may move:
    /// never beyond the end of the window.
    pub fn transfer_len(&self, buf_len: usize) -> (r: usize)
        ensures
            r as int == if buf_len < self.spec_len() - self.spec_pos() {
                buf_len as int
            } else {
                self.spec_len() - self.spec_pos()
            },
            self.spec_pos() + r <= self.spec_len(),
    {
        let rem = self.remaining();
        if (buf_len as u64) < rem {
            buf_len
        } else {
            rem as usize
        }
    }

    /// Offset on the inner device of the current position.
    pub fn device_offset(&self) -> (r: u64)
        requires
            self.spec_start() + self.spec_pos() <= u64::MAX,
        ensures
            r == self.spec_start() + self.spec_pos(),
    {
        self.window.device_offset()
    }

    /// Moves the position forward by `n` bytes that were read or written.
    pub fn advance(&mut self, n: usize)
        requires
            old(self).spec_pos() + n <= old(self).spec_len(),
        ensures
            final(self).spec_pos() == old(self).spec_pos() + n,
            final(self).spec_inner() == old(self).spec_inner(),
            final(self).spec_start() == old(self).spec_start(),
            final(self).spec_len() == old(self).spec_len(),
    {
        self.window.advance(n);
    }

    /// Moves the position to `target`, clamped to `[0, len]`; returns it.
    pub fn seek(&mut self, target: SeekTarget) -> (r: u64)
        requires
            seek_in_range(target, old(self).spec_len(), old(self).spec_pos()),
        ensures
            r == final(self).spec_pos(),
            r == clamp(
                seek_destination(target, old(self).spec_len(), old(self).spec_pos()),
                0,
                old(self).spec_len() as int,
            ),
            final(self).spec_inner() == old(self).spec_inner(),
            final(self).spec_start() == old(self).spec_start(),
            final(self).spec_len() == old(self).spec_len(),
    {
        self.window.seek(target)
    }

    /// Offset on the inner device of the current position, or `None` when it
    /// does not fit in 64 bits.
    pub fn checked_device_offset(&self) -> (r: Option<u64>)
        ensures
            r matches Some(o) ==> o == self.spec_start() + self.spec_pos(),
            r is None <==> self.spec_start() + self.spec_pos() > u64::MAX,
    {
        self.window.start.checked_add(self.window.pos)
    }

    /// `seek` where the window length and the destination fit in a signed
    /// 64-bit integer; `None`, with nothing changed, where they do not.
    pub fn checked_seek(&mut self, target: SeekTarget) -> (r: Option<u64>)
        ensures
            seek_in_range(target, old(self).spec_len(), old(self).spec_pos()) ==> {
                &&& r == Some(final(self).spec_pos())
                &&& final(self).spec_pos() == clamp(
                    seek_destination(target, old(self).spec_len(), old(self).spec_pos()),
                    0,
                    old(self).spec_len() as int,
                )
                &&& final(self).spec_inner() == old(self).spec_inner()
                &&& final(self).spec_start() == old(self).spec_start()
                &&& final(self).spec_len() == old(self).spec_len()
            },
            !seek_in_range(target, old(self).spec_len(), old(self).spec_pos()) ==> {
                &&& r is None
                &&& final(self).spec_inner() == old(self).spec_inner()
                &&& final(self).spec_start() == old(self).spec_start()
                &&& final(self).spec_len() == old(self).spec_len()
                &&& final(self).spec_pos() == old(self).spec_pos()
            },
    {
        proof {
            use_type_invariant(&self.window);
        }
        let len = self.window.len;
        let pos = self.window.pos;
        if len > 0x7FFF_FFFF_FFFF_FFFF {
            return None;
        }
        let fits = match target {
            SeekTarget::Start(_) => true,
            SeekTarget::End(n) => n <= 0 || (n as u64) <= 0x7FFF_FFFF_FFFF_FFFF - len,
            SeekTarget::Current(n) => n <= 0 || pos <= 0x7FFF_FFFF_FFFF_FFFF
                && (n as u64) <= 0x7FFF_FFFF_FFFF_FFFF - pos,
        };
        if !fits {
            return None;
        }
        Some(self.seek(target))
    }
}

} // verus!
