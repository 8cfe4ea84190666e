//! Screenshot scheduling of the window: F12 captures numbered files, and an
//! automatic mode captures one file after the interface settles and then asks
//! the window to close.
use vstd::prelude::*;
use crate::text::{decimal, push_decimal, push_str, string_from_chars, concat_str};

verus! {

/// Frames to wait before the automatic capture.
pub const SETTLE_FRAMES: u32 = 3;

/// In the automatic mode, frames after which a capture that never arrived is
/// given up.
pub const MAX_FRAMES_AUTO: u32 = 600;

/// The decimal text of `n`, padded with zeros to at least three digits.
pub open spec fn padded3(n: nat) -> Seq<char> {
    let d = decimal(n);
    if d.len() >= 3 {
        d
    } else {
        Seq::new((3 - d.len()) as nat, |i: int| '0') + d
    }
}

/// The file name of the `n`-th manual capture.
pub open spec fn numbered_capture(n: nat) -> Seq<char> {
    "nur-screenshot-"@ + padded3(n) + ".png"@
}

/// The file name of the `n`-th manual capture.
pub fn numbered_capture_name(n: u32) -> (r: String)
    ensures
        r@ == numbered_capture(n as nat),
{
    let mut digits: Vec<char> = Vec::new();
    push_decimal(&mut digits, n as u64);
    let mut v: Vec<char> = Vec::new();
    push_str(&mut v, "nur-screenshot-");
    let ghost head = v@;
    let mut k = digits.len();
    while k < 3
        invariant
            digits.len() <= k <= 3 || (k == digits.len() && k >= 3),
            v@ == head + Seq::new((k - digits.len()) as nat, |i: int| '0'),
        decreases 3 - k,
    {
        v.push('0');
        k = k + 1;
        assert(v@ =~= head + Seq::new((k - digits.len()) as nat, |i: int| '0'));
    }
    let ghost zeros = v@;
    let mut j: usize = 0;
    while j < digits.len()
        invariant
            j <= digits.len(),
            v@ == zeros + digits@.take(j as int),
        decreases digits.len() - j,
    {
        v.push(digits[j]);
        j = j + 1;
        assert(v@ =~= zeros + digits@.take(j as int));
    }
    assert(digits@.take(digits.len() as int) =~= digits@);
    push_str(&mut v, ".png");
    proof {
        if digits@.len() >= 3 {
            assert(Seq::new((k - digits.len()) as nat, |i: int| '0') =~= Seq::<char>::empty());
        }
        assert(v@ =~= numbered_capture(n as nat));
    }
    string_from_chars(v)
}

/// What one frame asks of the window.
#[derive(Debug, Clone, Copy, PartialEq, Eq, Structural)]
pub struct FrameRequests {
    /// Screenshots to request.
    pub screenshots: u32,
    /// Keep repainting so that a requested screenshot arrives.
    pub repaint: bool,
    /// Give up: the automatic capture never arrived.
    pub abort: bool,
}

/// Screenshot coordinator with the automatic destination read from the
/// environment (`NUR_CAPTURE`).
pub struct Capturador {
    auto: Option<String>,
    auto_solicitado: bool,
    frames: u32,
    contador: u32,
    ultima_msg: Option<String>,
}

/// The text of an optional string.
pub open spec fn opt_text(s: Option<String>) -> Option<Seq<char>> {
    match s {
        Some(t) => Some(t@),
        None => None,
    }
}

/// A call on the coordinator, as the laws over a sequence of calls see it.
pub enum CaptureEvent {
    /// One frame, with whether F12 was pressed.
    Frame(bool),
    /// The destination of an arrived capture was taken.
    Destination,
    /// A capture was saved to the destination, or failed with a message.
    Saved(Seq<char>, Result<(), Seq<char>>),
}

/// The status message after `ev`, when it was `m` before: a saved capture
/// names its destination, a failed one its error, anything else keeps it.
pub open spec fn message_after(m: Option<Seq<char>>, ev: CaptureEvent) -> Option<Seq<char>> {
    match ev {
        CaptureEvent::Saved(dest, Ok(())) => Some("captura salva em "@ + dest),
        CaptureEvent::Saved(_, Err(e)) => Some("falha na captura: "@ + e),
        _ => m,
    }
}

/// The status message after the calls `evs`, starting from `m`.
pub open spec fn message_after_all(m: Option<Seq<char>>, evs: Seq<CaptureEvent>) -> Option<Seq<char>>
    decreases evs.len(),
{
    if evs.len() == 0 {
        m
    } else {
        message_after(message_after_all(m, evs.drop_last()), evs.last())
    }
}

/// What a call `ev` keeps and changes of the coordinator's log: the automatic
/// destination stays, and the status message follows `message_after`.
pub open spec fn log_step(before: Capturador, after: Capturador, ev: CaptureEvent) -> bool {
    &&& after.spec_auto() == before.spec_auto()
    &&& after.spec_message() == message_after(before.spec_message(), ev)
}

impl Capturador {
    /// Destination of the automatic capture, if that mode is on.
    pub closed spec fn spec_auto(&self) -> Option<Seq<char>> {
        opt_text(self.auto)
    }

    /// The automatic capture was requested.
    pub closed spec fn spec_requested(&self) -> bool {
        self.auto_solicitado
    }

    /// Frames seen in the automatic mode.
    pub closed spec fn spec_frames(&self) -> u32 {
        self.frames
    }

    /// Manual captures so far.
    pub closed spec fn spec_counter(&self) -> u32 {
        self.contador
    }

    /// Status message of the last capture.
    pub closed spec fn spec_message(&self) -> Option<Seq<char>> {
        opt_text(self.ultima_msg)
    }

    /// Creates the coordinator, with the automatic destination if one is set.
    pub fn new(auto: Option<String>) -> (r: Capturador)
        ensures
            r.spec_auto() == opt_text(auto),
            !r.spec_requested(),
            r.spec_frames() == 0,
            r.spec_counter() == 0,
            r.spec_message() is None,
    {
        Capturador { auto, auto_solicitado: false, frames: 0, contador: 0, ultima_msg: None }
    }

    /// The automatic capture is configured.
    pub fn auto_ativo(&self) -> (r: bool)
        ensures
            r == self.spec_auto() is Some,
    {
        self.auto.is_some()
    }

    /// Frames seen in the automatic mode.
    pub fn frames(&self) -> (r: u32)
        ensures
            r == self.spec_frames(),
    {
        self.frames
    }

    /// Manual captures so far.
    pub fn contador(&self) -> (r: u32)
        ensures
            r == self.spec_counter(),
    {
        self.contador
    }

    /// Status message of the last capture, if any.
    pub fn mensagem(&self) -> (r: Option<&str>)
        ensures
            match r {
                Some(m) => self.spec_message() == Some(m@),
                None => self.spec_message() is None,
            },
    {
        match &self.ultima_msg {
            Some(m) => Some(m.as_str()),
            None => None,
        }
    }

    /// One frame: F12 requests a capture; in the automatic mode the frame is
    /// counted, the capture is requested once from the third frame on, and the
    /// window keeps repainting.
    pub fn quadro(&mut self, f12: bool) -> (r: FrameRequests)
        requires
            old(self).spec_auto() is Some ==> old(self).spec_frames() < u32::MAX,
        ensures
            log_step(*old(self), *final(self), CaptureEvent::Frame(f12)),
            final(self).spec_counter() == old(self).spec_counter(),
            old(self).spec_auto() is None ==> final(self).spec_frames() == old(self).spec_frames()
                && final(self).spec_requested() == old(self).spec_requested() && r.screenshots == (
            if f12 {
                1u32
            } else {
                0u32
            }) && !r.repaint,
            old(self).spec_auto() is Some ==> {
                let due = old(self).spec_frames() + 1 >= SETTLE_FRAMES && !old(self).spec_requested();
                &&& final(self).spec_frames() == old(self).spec_frames() + 1
                &&& final(self).spec_requested() == (old(self).spec_requested() || due)
                &&& r.screenshots == (if f12 {
                    1int
                } else {
                    0int
                }) + (if due {
                    1int
                } else {
                    0int
                })
                &&& r.repaint
            },
            !r.abort,
    {
        let mut screenshots: u32 = if f12 {
            1
        } else {
            0
        };
        let mut repaint = false;
        if self.auto.is_some() {
            self.frames = self.frames + 1;
            if self.frames >= SETTLE_FRAMES && !self.auto_solicitado {
                screenshots = screenshots + 1;
                self.auto_solicitado = true;
            }
            repaint = true;
        }
        FrameRequests { screenshots, repaint, abort: false }
    }

    /// Destination of the next capture: the automatic one, or a new numbered
    /// file `nur-screenshot-NNN.png`.
    pub fn proximo_destino(&mut self) -> (r: String)
        requires
            old(self).spec_auto() is None ==> old(self).spec_counter() < u32::MAX,
        ensures
            log_step(*old(self), *final(self), CaptureEvent::Destination),
            final(self).spec_frames() == old(self).spec_frames(),
            final(self).spec_requested() == old(self).spec_requested(),
            match old(self).spec_auto() {
                Some(a) => r@ == a && final(self).spec_counter() == old(self).spec_counter(),
                None => final(self).spec_counter() == old(self).spec_counter() + 1 && r@
                    == numbered_capture(final(self).spec_counter() as nat),
            },
    {
        match &self.auto {
            Some(a) => a.clone(),
            None => {
                self.contador = self.contador + 1;
                numbered_capture_name(self.contador)
            },
        }
    }

    /// Records how saving a capture to `destino` went; returns whether the
    /// automatic capture is now complete.
    pub fn registrar(&mut self, destino: &str, resultado: Result<(), String>) -> (done: bool)
        ensures
            log_step(
                *old(self),
                *final(self),
                CaptureEvent::Saved(
                    destino@,
                    match resultado {
                        Ok(()) => Ok(()),
                        Err(e) => Err(e@),
                    },
                ),
            ),
            final(self).spec_frames() == old(self).spec_frames(),
            final(self).spec_requested() == old(self).spec_requested(),
            final(self).spec_counter() == old(self).spec_counter(),
            done == (resultado is Ok && old(self).spec_auto() is Some),
    {
        match resultado {
            Ok(()) => {
                self.ultima_msg = Some(concat_str("captura salva em ", destino));
                self.auto.is_some()
            },
            Err(e) => {
                self.ultima_msg = Some(concat_str("falha na captura: ", e.as_str()));
                false
            },
        }
    }
}

/// Over any sequence of calls, each taking `states[i]` to `states[i + 1]`,
/// whether the automatic capture is configured never changes: every state
/// has the automatic destination of the first.
pub proof fn lemma_auto_mode_fixed(states: Seq<Capturador>, evs: Seq<CaptureEvent>)
    requires
        states.len() == evs.len() + 1,
        forall|i: int| 0 <= i < evs.len() ==> log_step(states[i], #[trigger] states[i + 1], evs[i]),
    ensures
        forall|i: int| 0 <= i < states.len() ==> #[trigger] states[i].spec_auto() == states[0].spec_auto(),
    decreases evs.len(),
{
    if evs.len() > 0 {
        let n = evs.len() as int;
        let front = states.drop_last();
        assert forall|i: int| 0 <= i < evs.drop_last().len() implies log_step(
            front[i],
            #[trigger] front[i + 1],
            evs.drop_last()[i],
        ) by {
            assert(log_step(states[i], states[i + 1], evs[i]));
        }
        lemma_auto_mode_fixed(front, evs.drop_last());
        assert(log_step(states[n - 1], states[n], evs[n - 1]));
        assert(front[n - 1].spec_auto() == front[0].spec_auto());
        assert forall|i: int| 0 <= i < states.len() implies #[trigger] states[i].spec_auto()
            == states[0].spec_auto() by {
            if i < n {
                assert(front[i] == states[i]);
                assert(front[i].spec_auto() == front[0].spec_auto());
            }
        }
    }
}

/// Over any sequence of calls, each taking `states[i]` to `states[i + 1]`,
/// the status message at the end is the one the last saved or failed capture
/// left (`captura salva em <destino>` or `falha na captura: <erro>`), or the
/// first state's when no capture was saved; a new coordinator starts with none.
pub proof fn lemma_message_of_last_capture(states: Seq<Capturador>, evs: Seq<CaptureEvent>)
    requires
        states.len() == evs.len() + 1,
        forall|i: int| 0 <= i < evs.len() ==> log_step(states[i], #[trigger] states[i + 1], evs[i]),
    ensures
        states.last().spec_message() == message_after_all(states[0].spec_message(), evs),
    decreases evs.len(),
{
    if evs.len() > 0 {
        let n = evs.len() as int;
        assert forall|i: int| 0 <= i < evs.drop_last().len() implies log_step(
            states.drop_last()[i],
            #[trigger] states.drop_last()[i + 1],
            evs.drop_last()[i],
        ) by {
            assert(log_step(states[i], states[i + 1], evs[i]));
        }
        lemma_message_of_last_capture(states.drop_last(), evs.drop_last());
        assert(log_step(states[n - 1], states[n], evs[n - 1]));
    }
}

/// One frame of the window's coordinator from `before` to `after`, asking
/// `r`: F12 requests a capture; in the automatic mode the frame is counted,
/// the capture is requested once from the third frame on, and after
/// `MAX_FRAMES_AUTO` frames the wait is given up; while a capture is pending
/// the window keeps repainting.
pub open spec fn frame_step(before: Capturer, after: Capturer, r: FrameRequests, f12: bool) -> bool {
    &&& after.spec_auto() == before.spec_auto()
    &&& after.spec_counter() == before.spec_counter()
    &&& before.spec_auto() is None ==> {
        &&& after.spec_frames() == before.spec_frames()
        &&& after.spec_auto_requested() == before.spec_auto_requested()
        &&& r.screenshots == (if f12 {
            1int
        } else {
            0int
        })
        &&& after.spec_pending() == (before.spec_pending() || f12)
        &&& r.repaint == after.spec_pending()
        &&& !r.abort
    }
    &&& before.spec_auto() is Some ==> {
        let due = before.spec_frames() + 1 >= SETTLE_FRAMES && !before.spec_auto_requested();
        &&& after.spec_frames() == before.spec_frames() + 1
        &&& after.spec_auto_requested() == (before.spec_auto_requested() || due)
        &&& r.screenshots == (if f12 {
            1int
        } else {
            0int
        }) + (if due {
            1int
        } else {
            0int
        })
        &&& after.spec_pending() == (before.spec_pending() || f12 || due)
        &&& r.abort == (after.spec_frames() > MAX_FRAMES_AUTO)
        &&& r.repaint == (!r.abort && after.spec_pending())
    }
}

/// Screenshot coordinator of the application window, with the automatic
/// destination injected by the caller; the file writing is done elsewhere.
pub struct Capturer {
    auto: Option<String>,
    auto_requested: bool,
    frames: u32,
    counter: u32,
    pending: bool,
}

impl Capturer {
    /// Destination of the automatic capture.
    pub closed spec fn spec_auto(&self) -> Option<String> {
        self.auto
    }

    /// The automatic capture was requested.
    pub closed spec fn spec_auto_requested(&self) -> bool {
        self.auto_requested
    }

    /// Frames seen in the automatic mode.
    pub closed spec fn spec_frames(&self) -> u32 {
        self.frames
    }

    /// Manual captures so far.
    pub closed spec fn spec_counter(&self) -> u32 {
        self.counter
    }

    /// A requested capture has not arrived yet.
    pub closed spec fn spec_pending(&self) -> bool {
        self.pending
    }

    /// Creates the coordinator with the automatic destination, if any.
    pub fn new(auto: Option<String>) -> (r: Capturer)
        ensures
            r.spec_auto() == auto,
            !r.spec_auto_requested(),
            r.spec_frames() == 0,
            r.spec_counter() == 0,
            !r.spec_pending(),
    {
        Capturer { auto, auto_requested: false, frames: 0, counter: 0, pending: false }
    }

    /// Frames seen in the automatic mode.
    pub fn frames(&self) -> (r: u32)
        ensures
            r == self.spec_frames(),
    {
        self.frames
    }

    /// Manual captures so far.
    pub fn counter(&self) -> (r: u32)
        ensures
            r == self.spec_counter(),
    {
        self.counter
    }

    /// Sets or clears the automatic destination.
    pub fn set_auto(&mut self, auto: Option<String>)
        ensures
            final(self).spec_auto() == auto,
            final(self).spec_auto_requested() == old(self).spec_auto_requested(),
            final(self).spec_frames() == old(self).spec_frames(),
            final(self).spec_counter() == old(self).spec_counter(),
            final(self).spec_pending() == old(self).spec_pending(),
    {
        self.auto = auto;
    }

    /// One frame: F12 requests a capture; in the automatic mode the frame is
    /// counted, the capture is requested once from the third frame on, and
    /// after 600 frames the wait is given up; while a capture is pending the
    /// window keeps repainting.
    pub fn process_frame(&mut self, f12: bool) -> (r: FrameRequests)
        requires
            old(self).spec_auto() is Some ==> old(self).spec_frames() < u32::MAX,
        ensures
            frame_step(*old(self), *final(self), r, f12),
    {
        let mut screenshots: u32 = 0;
        if f12 {
            screenshots = 1;
            self.pending = true;
        }
        if self.auto.is_some() {
            self.frames = self.frames + 1;
            if self.frames >= SETTLE_FRAMES && !self.auto_requested {
                screenshots = screenshots + 1;
                self.auto_requested = true;
                self.pending = true;
            }
            if self.frames > MAX_FRAMES_AUTO {
                return FrameRequests { screenshots, repaint: false, abort: true };
            }
        }
        FrameRequests { screenshots, repaint: self.pending, abort: false }
    }

    /// Requests a capture on demand (a button, not F12).
    pub fn capture_now(&mut self)
        ensures
            final(self).spec_pending(),
            final(self).spec_auto() == old(self).spec_auto(),
            final(self).spec_auto_requested() == old(self).spec_auto_requested(),
            final(self).spec_frames() == old(self).spec_frames(),
            final(self).spec_counter() == old(self).spec_counter(),
    {
        self.pending = true;
    }

    /// A captured image arrived: nothing is pending any more; returns its
    /// destination, the automatic one or a new numbered file.
    pub fn image_arrived(&mut self) -> (r: String)
        requires
            old(self).spec_auto() is None ==> old(self).spec_counter() < u32::MAX,
        ensures
            !final(self).spec_pending(),
            final(self).spec_auto() == old(self).spec_auto(),
            final(self).spec_frames() == old(self).spec_frames(),
            final(self).spec_auto_requested() == old(self).spec_auto_requested(),
            match old(self).spec_auto() {
                Some(a) => r@ == a@ && final(self).spec_counter() == old(self).spec_counter(),
                None => final(self).spec_counter() == old(self).spec_counter() + 1 && r@
                    == numbered_capture(final(self).spec_counter() as nat),
            },
    {
        self.pending = false;
        self.next_destination()
    }

    /// Destination of the next capture: the automatic one or a new numbered file.
    pub fn next_destination(&mut self) -> (r: String)
        requires
            old(self).spec_auto() is None ==> old(self).spec_counter() < u32::MAX,
        ensures
            final(self).spec_pending() == old(self).spec_pending(),
            final(self).spec_auto() == old(self).spec_auto(),
            final(self).spec_frames() == old(self).spec_frames(),
            final(self).spec_auto_requested() == old(self).spec_auto_requested(),
            match old(self).spec_auto() {
                Some(a) => r@ == a@ && final(self).spec_counter() == old(self).spec_counter(),
                None => final(self).spec_counter() == old(self).spec_counter() + 1 && r@
                    == numbered_capture(final(self).spec_counter() as nat),
            },
    {
        match &self.auto {
            Some(a) => a.clone(),
            None => {
                self.counter = self.counter + 1;
                numbered_capture_name(self.counter)
            },
        }
    }

    /// A saved capture completes the automatic mode.
    pub fn saved_completes(&self) -> (r: bool)
        ensures
            r == self.spec_auto() is Some,
    {
        self.auto.is_some()
    }
}

/// Two manual captures in a row get different, increasing numbers.
pub proof fn lemma_numbered_captures_differ(n: nat, m: nat)
    requires
        n != m,
    ensures
        numbered_capture(n) != numbered_capture(m),
{
    lemma_decimal_injective(n, m);
    if numbered_capture(n) == numbered_capture(m) {
        let a = padded3(n);
        let b = padded3(m);
        let pre = "nur-screenshot-"@;
        let post = ".png"@;
        assert((pre + a + post).len() == (pre + b + post).len());
        assert(a =~= (pre + a + post).subrange(pre.len() as int, (pre.len() + a.len()) as int));
        assert(b =~= (pre + b + post).subrange(pre.len() as int, (pre.len() + b.len()) as int));
        lemma_padded3_injective(n, m);
    }
}

proof fn lemma_decimal_len(n: nat)
    ensures
        decimal(n).len() >= 1,
        decimal(n)[0] != '0' || n == 0,
    decreases n,
{
    if n >= 10 {
        lemma_decimal_len(n / 10);
        let d = decimal(n / 10);
        assert(decimal(n) == d.push(crate::text::digit_char(n % 10)));
    }
}

proof fn lemma_decimal_injective(n: nat, m: nat)
    ensures
        decimal(n) == decimal(m) ==> n == m,
    decreases n,
{
    if decimal(n) == decimal(m) {
        if n >= 10 && m >= 10 {
            assert(decimal(n) == decimal(n / 10).push(crate::text::digit_char(n % 10)));
            assert(decimal(m) == decimal(m / 10).push(crate::text::digit_char(m % 10)));
            assert(decimal(n).drop_last() =~= decimal(n / 10));
            assert(decimal(m).drop_last() =~= decimal(m / 10));
            lemma_decimal_injective(n / 10, m / 10);
            assert(decimal(n).last() == crate::text::digit_char(n % 10));
            assert(decimal(m).last() == crate::text::digit_char(m % 10));
            assert(crate::text::digit_char(n % 10) == crate::text::digit_char(m % 10));
            assert(n % 10 == m % 10);
            assert(n == 10 * (n / 10) + n % 10);
            assert(m == 10 * (m / 10) + m % 10);
        } else if n < 10 && m >= 10 {
            lemma_decimal_len(m / 10);
            assert(decimal(m) == decimal(m / 10).push(crate::text::digit_char(m % 10)));
            assert(decimal(m).len() >= 2);
        } else if n >= 10 && m < 10 {
            lemma_decimal_len(n / 10);
            assert(decimal(n) == decimal(n / 10).push(crate::text::digit_char(n % 10)));
            assert(decimal(n).len() >= 2);
        } else {
            assert(decimal(n)[0] == decimal(m)[0]);
        }
    }
}

proof fn lemma_padded3_injective(n: nat, m: nat)
    requires
        padded3(n) == padded3(m),
    ensures
        n == m,
{
    lemma_decimal_len(n);
    lemma_decimal_len(m);
    let a = decimal(n);
    let b = decimal(m);
    if a.len() == b.len() {
        if a.len() < 3 {
            assert(a =~= padded3(n).skip(3 - a.len()));
            assert(b =~= padded3(m).skip(3 - b.len()));
        }
        lemma_decimal_injective(n, m);
    } else if a.len() < b.len() {
        if b.len() >= 3 {
            assert(padded3(m)[0] == b[0]);
            if a.len() < 3 {
                assert(padded3(n)[0] == '0');
            } else {
                assert(false);
            }
            assert(b[0] == '0');
        } else {
            let k = 3 - b.len();
            assert(padded3(n)[k] == '0');
            assert(padded3(m)[k] == b[0]);
        }
        lemma_decimal_injective(n, m);
    } else {
        if a.len() >= 3 {
            assert(padded3(n)[0] == a[0]);
            if b.len() < 3 {
                assert(padded3(m)[0] == '0');
            } else {
                assert(false);
            }
        } else {
            let k = 3 - a.len();
            assert(padded3(m)[k] == '0');
            assert(padded3(n)[k] == a[0]);
        }
        lemma_decimal_injective(n, m);
    }
}


/// The automatic capture is requested exactly once, on the third frame: a
/// coordinator that has requested it exactly when it has seen at least
/// `SETTLE_FRAMES` frames (as a new one has) keeps that over any frame; the
/// frame asks for the automatic capture exactly when it is the
/// `SETTLE_FRAMES`-th, besides one for F12; and the wait is given up exactly
/// once more than `MAX_FRAMES_AUTO` frames were seen.
pub proof fn lemma_auto_capture_once(before: Capturer, after: Capturer, r: FrameRequests, f12: bool)
    requires
        before.spec_auto() is Some,
        before.spec_auto_requested() == (before.spec_frames() >= SETTLE_FRAMES),
        frame_step(before, after, r, f12),
    ensures
        after.spec_auto_requested() == (after.spec_frames() >= SETTLE_FRAMES),
        r.screenshots == (if f12 {
            1int
        } else {
            0int
        }) + (if after.spec_frames() == SETTLE_FRAMES {
            1int
        } else {
            0int
        }),
        r.abort == (after.spec_frames() > MAX_FRAMES_AUTO),
{
}

} // verus!
