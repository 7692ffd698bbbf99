//! Pkt-line framing scanner.
//!
//! Git's smart protocol frames its output in pkt-lines: a four-hex-digit
//! length header counting the whole line, with the all-zero header `0000`
//! as a flush marker that carries no body. The scanner consumes the
//! subprocess's output byte by byte, tracks where lines begin and end, and
//! recognises the flush marker, so the relay can forward bytes unchanged
//! while knowing where a protocol phase ends. A header that is not four
//! hex digits, or encodes a length of one to three, is a framing error.

use vstd::prelude::*;

verus! {

/// Position of the scanner inside the framing.
#[derive(Clone, Copy, Debug, PartialEq, Eq, Structural)]
pub enum ScanMode {
    /// Collecting the four hex digits of a length header.
    ReadingLength,
    /// Consuming the payload bytes of one pkt-line.
    ReadingBody,
    /// The last complete header was the flush marker.
    AtFlush,
    /// The stream violated the framing.
    Failed,
}

/// The scanner's abstract state: its mode, the header bytes collected so
/// far, and the body bytes still owed.
pub struct ScanState {
    pub mode: ScanMode,
    pub header: Seq<u8>,
    pub remaining: nat,
}

/// Whether `b` is an ASCII hexadecimal digit.
pub open spec fn is_hex_digit(b: u8) -> bool {
    (48 <= b <= 57) || (97 <= b <= 102) || (65 <= b <= 70)
}

/// The numeric value of one hexadecimal digit; other bytes count as zero.
pub open spec fn hex_digit_val(b: u8) -> nat {
    if 48 <= b <= 57 {
        (b - 48) as nat
    } else if 97 <= b <= 102 {
        (b - 87) as nat
    } else if 65 <= b <= 70 {
        (b - 55) as nat
    } else {
        0
    }
}

/// Whether every byte of a header is a hexadecimal digit.
pub open spec fn header_ok(h: Seq<u8>) -> bool {
    forall|i: int| 0 <= i < h.len() ==> is_hex_digit(#[trigger] h[i])
}

/// The length a four-digit header encodes.
pub open spec fn header_value(h: Seq<u8>) -> nat
    recommends
        h.len() == 4,
{
    hex_digit_val(h[0]) * 4096 + hex_digit_val(h[1]) * 256 + hex_digit_val(h[2]) * 16
        + hex_digit_val(h[3])
}

/// The flush marker.
pub open spec fn flush_pkt() -> Seq<u8> {
    seq![48u8, 48u8, 48u8, 48u8]
}

/// A scanner that has seen nothing, or stands at a line boundary.
pub open spec fn initial_state() -> ScanState {
    ScanState { mode: ScanMode::ReadingLength, header: Seq::empty(), remaining: 0 }
}

/// The absorbing error state.
pub open spec fn failed_state() -> ScanState {
    ScanState { mode: ScanMode::Failed, header: Seq::empty(), remaining: 0 }
}

/// The state right after a flush marker.
pub open spec fn flush_state() -> ScanState {
    ScanState { mode: ScanMode::AtFlush, header: Seq::empty(), remaining: 0 }
}

/// What a complete four-byte header decides: flush, error, an empty line,
/// or a body of `value - 4` bytes.
pub open spec fn complete_header(h: Seq<u8>) -> ScanState
    recommends
        h.len() == 4,
{
    if !header_ok(h) {
        failed_state()
    } else {
        let v = header_value(h);
        if v == 0 {
            flush_state()
        } else if v < 4 {
            failed_state()
        } else if v == 4 {
            initial_state()
        } else {
            ScanState { mode: ScanMode::ReadingBody, header: Seq::empty(), remaining: (v - 4) as nat }
        }
    }
}

/// Feeding one byte while a header is being collected.
pub open spec fn step_length(header: Seq<u8>, b: u8) -> ScanState {
    let h = header.push(b);
    if h.len() < 4 {
        ScanState { mode: ScanMode::ReadingLength, header: h, remaining: 0 }
    } else {
        complete_header(h)
    }
}

/// The scanner's transition on one byte. A flush marker is a boundary, not
/// an end: a byte arriving after it opens the next header.
pub open spec fn scan_step(s: ScanState, b: u8) -> ScanState {
    match s.mode {
        ScanMode::Failed => s,
        ScanMode::AtFlush => step_length(Seq::empty(), b),
        ScanMode::ReadingLength => step_length(s.header, b),
        ScanMode::ReadingBody => if s.remaining <= 1 {
            initial_state()
        } else {
            ScanState { mode: ScanMode::ReadingBody, header: Seq::empty(), remaining: (s.remaining - 1) as nat }
        },
    }
}

/// The scanner's state after a whole byte sequence.
pub open spec fn scan_seq(s: ScanState, bytes: Seq<u8>) -> ScanState
    decreases bytes.len(),
{
    if bytes.len() == 0 {
        s
    } else {
        scan_step(scan_seq(s, bytes.drop_last()), bytes.last())
    }
}

/// Computes the value of one hexadecimal digit.
fn hex_value_of(b: u8) -> (r: Option<u8>)
    ensures
        r is Some <==> is_hex_digit(b),
        r is Some ==> r->0 as nat == hex_digit_val(b),
{
    if 48 <= b && b <= 57 {
        Some(b - 48)
    } else if 97 <= b && b <= 102 {
        Some(b - 87)
    } else if 65 <= b && b <= 70 {
        Some(b - 55)
    } else {
        None
    }
}

/// The executable scanner.
#[derive(Debug)]
pub struct PktScanner {
    mode: ScanMode,
    header: Vec<u8>,
    remaining: usize,
}

impl View for PktScanner {
    type V = ScanState;

    closed spec fn view(&self) -> ScanState {
        ScanState { mode: self.mode, header: self.header@, remaining: self.remaining as nat }
    }
}

impl PktScanner {
    /// Representation invariant: a partial header only while reading one,
    /// and bytes owed exactly while reading a body.
    pub closed spec fn wf(self) -> bool {
        &&& self.header@.len() <= 3
        &&& (!(self.mode is ReadingLength) ==> self.header@.len() == 0)
        &&& (self.mode is ReadingBody <==> self.remaining >= 1)
        &&& self.remaining <= 65531
    }

    /// A scanner at a line boundary, before any byte.
    pub fn new() -> (s: PktScanner)
        ensures
            s@ == initial_state(),
            s.wf(),
    {
        let s = PktScanner { mode: ScanMode::ReadingLength, header: Vec::new(), remaining: 0 };
        proof {
            assert(s@.header =~= initial_state().header);
        }
        s
    }

    /// The mode the scanner stands in.
    pub fn current_mode(&self) -> (m: ScanMode)
        ensures
            m == self@.mode,
    {
        self.mode
    }

    /// Advances the scanner by one byte.
    pub fn feed_byte(&mut self, b: u8)
        requires
            old(self).wf(),
        ensures
            final(self).wf(),
            final(self)@ == scan_step(old(self)@, b),
    {
        match self.mode {
            ScanMode::Failed => {
            },
            ScanMode::ReadingBody => {
                self.remaining = self.remaining - 1;
                if self.remaining == 0 {
                    self.mode = ScanMode::ReadingLength;
                }
                proof {
                    assert(final(self)@.header =~= scan_step(old(self)@, b).header);
                }
            },
            ScanMode::AtFlush | ScanMode::ReadingLength => {
                self.mode = ScanMode::ReadingLength;
                self.header.push(b);
                if self.header.len() == 4 {
                    let ghost h = self.header@;
                    let d0 = hex_value_of(self.header[0]);
                    let d1 = hex_value_of(self.header[1]);
                    let d2 = hex_value_of(self.header[2]);
                    let d3 = hex_value_of(self.header[3]);
                    self.header.clear();
                    if d0.is_some() && d1.is_some() && d2.is_some() && d3.is_some() {
                        let v: u32 = (d0.unwrap() as u32) * 4096 + (d1.unwrap() as u32) * 256 + (
                        d2.unwrap() as u32) * 16 + (d3.unwrap() as u32);
                        proof {
                            assert(header_ok(h));
                            assert(v as nat == header_value(h));
                        }
                        if v == 0 {
                            self.mode = ScanMode::AtFlush;
                        } else if v < 4 {
                            self.mode = ScanMode::Failed;
                        } else if v == 4 {
                            self.mode = ScanMode::ReadingLength;
                        } else {
                            self.mode = ScanMode::ReadingBody;
                            self.remaining = (v - 4) as usize;
                        }
                    } else {
                        proof {
                            assert(!header_ok(h));
                        }
                        self.mode = ScanMode::Failed;
                    }
                    proof {
                        assert(final(self)@.header =~= scan_step(old(self)@, b).header);
                    }
                } else {
                    proof {
                        assert(final(self)@.header =~= scan_step(old(self)@, b).header);
                    }
                }
            },
        }
    }

    /// Scans a chunk, forwarding every consumed byte to `out` unchanged and
    /// in order. Consumption stops early only at a framing error, or at a
    /// flush marker when `stop_at_flush` is set; the clause over every
    /// shorter prefix says the stop happened at the first such point.
    pub fn scan_chunk(&mut self, input: &Vec<u8>, out: &mut Vec<u8>, stop_at_flush: bool) -> (consumed:
        usize)
        requires
            old(self).wf(),
        ensures
            final(self).wf(),
            consumed <= input@.len(),
            final(out)@ == old(out)@ + input@.take(consumed as int),
            final(self)@ == scan_seq(old(self)@, input@.take(consumed as int)),
            consumed < input@.len() ==> (final(self)@.mode is Failed || (stop_at_flush
                && final(self)@.mode is AtFlush)),
            forall|j: int|
                0 <= j < consumed ==> !((#[trigger] scan_seq(old(self)@, input@.take(j)).mode)
                    is Failed) && (stop_at_flush ==> !(scan_seq(old(self)@, input@.take(j)).mode
                    is AtFlush)),
    {
        let n = input.len();
        let mut consumed: usize = 0;
        proof {
            assert(input@.take(0) =~= Seq::<u8>::empty());
            assert(out@ =~= old(out)@ + input@.take(0));
        }
        while consumed < n
            invariant
                self.wf(),
                consumed <= n,
                n == input@.len(),
                out@ == old(out)@ + input@.take(consumed as int),
                self@ == scan_seq(old(self)@, input@.take(consumed as int)),
                forall|j: int|
                    0 <= j < consumed ==> !((#[trigger] scan_seq(old(self)@, input@.take(j)).mode)
                        is Failed) && (stop_at_flush ==> !(scan_seq(old(self)@, input@.take(
                    j)).mode is AtFlush)),
            decreases n - consumed,
        {
            let m = self.current_mode();
            let stop = match m {
                ScanMode::Failed => true,
                ScanMode::AtFlush => stop_at_flush,
                _ => false,
            };
            if stop {
                return consumed;
            }
            let b = input[consumed];
            self.feed_byte(b);
            out.push(b);
            proof {
                assert(input@.take(consumed + 1).drop_last() =~= input@.take(consumed as int));
                assert(input@.take(consumed + 1).last() == input@[consumed as int]);
                assert(out@ =~= old(out)@ + input@.take(consumed + 1));
            }
            consumed = consumed + 1;
        }
        consumed
    }
}

/// Scanning distributes over concatenation.
pub proof fn lemma_scan_seq_append(st: ScanState, a: Seq<u8>, b: Seq<u8>)
    ensures
        scan_seq(st, a + b) == scan_seq(scan_seq(st, a), b),
    decreases b.len(),
{
    if b.len() == 0 {
        assert(a + b =~= a);
    } else {
        lemma_scan_seq_append(st, a, b.drop_last());
        assert((a + b).drop_last() =~= a + b.drop_last());
        assert((a + b).last() == b.last());
    }
}

/// While a header is short, the scanner just collects it.
pub proof fn lemma_scan_partial_header(h: Seq<u8>, j: int)
    requires
        0 <= j <= 3,
        j <= h.len(),
    ensures
        scan_seq(initial_state(), h.take(j)) == (ScanState {
            mode: ScanMode::ReadingLength,
            header: h.take(j),
            remaining: 0,
        }),
    decreases j,
{
    if j == 0 {
        assert(h.take(0) =~= Seq::<u8>::empty());
    } else {
        lemma_scan_partial_header(h, j - 1);
        assert(h.take(j).drop_last() =~= h.take(j - 1));
        assert(h.take(j).last() == h[j - 1]);
        assert(h.take(j - 1).push(h[j - 1]) =~= h.take(j));
    }
}

/// Consuming fewer body bytes than owed leaves the scanner in the body.
pub proof fn lemma_scan_body(st: ScanState, bytes: Seq<u8>)
    requires
        st.mode is ReadingBody,
        st.header == Seq::<u8>::empty(),
        bytes.len() < st.remaining,
    ensures
        scan_seq(st, bytes) == (ScanState {
            mode: ScanMode::ReadingBody,
            header: Seq::<u8>::empty(),
            remaining: (st.remaining - bytes.len()) as nat,
        }),
    decreases bytes.len(),
{
    if bytes.len() > 0 {
        lemma_scan_body(st, bytes.drop_last());
    }
}

/// Consuming exactly the owed body bytes returns the scanner to a line
/// boundary.
pub proof fn lemma_scan_body_full(st: ScanState, bytes: Seq<u8>)
    requires
        st.mode is ReadingBody,
        st.header == Seq::<u8>::empty(),
        st.remaining >= 1,
        bytes.len() == st.remaining,
    ensures
        scan_seq(st, bytes) == initial_state(),
{
    if bytes.len() == 1 {
        assert(bytes.drop_last() =~= Seq::<u8>::empty());
    } else {
        lemma_scan_body(st, bytes.drop_last());
    }
}

/// A single well-formed data pkt-line: a four-hex-digit header whose value
/// counts the whole line, at least the header itself.
pub open spec fn is_data_pkt(p: Seq<u8>) -> bool {
    p.len() >= 4 && header_ok(p.take(4)) && header_value(p.take(4)) == p.len()
}

/// Scanning one data pkt-line from a line boundary passes through lengths
/// and bodies only, and ends back at a line boundary.
pub proof fn lemma_scan_data_pkt_prefix(p: Seq<u8>, j: int)
    requires
        is_data_pkt(p),
        0 <= j <= p.len(),
    ensures
        j < p.len() ==> (scan_seq(initial_state(), p.take(j)).mode is ReadingLength || scan_seq(
            initial_state(),
            p.take(j),
        ).mode is ReadingBody),
        j == p.len() ==> scan_seq(initial_state(), p.take(j)) == initial_state(),
{
    let v = header_value(p.take(4)) as int;
    if j <= 3 {
        lemma_scan_partial_header(p, j);
    } else {
        lemma_scan_partial_header(p, 3);
        assert(p.take(4).drop_last() =~= p.take(3));
        assert(p.take(4).last() == p[3]);
        assert(p.take(3).push(p[3]) =~= p.take(4));
        assert(scan_seq(initial_state(), p.take(4)) == complete_header(p.take(4)));
        if v == 4 {
            assert(scan_seq(initial_state(), p.take(4)) == initial_state());
            assert(j == 4);
        } else {
            let s4 = ScanState {
                mode: ScanMode::ReadingBody,
                header: Seq::<u8>::empty(),
                remaining: (v - 4) as nat,
            };
            assert(scan_seq(initial_state(), p.take(4)) == s4);
            assert(p.take(j) =~= p.take(4) + p.subrange(4, j));
            lemma_scan_seq_append(initial_state(), p.take(4), p.subrange(4, j));
            if j < p.len() {
                lemma_scan_body(s4, p.subrange(4, j));
            } else {
                lemma_scan_body_full(s4, p.subrange(4, j));
            }
        }
    }
}

/// A pkt-line stream as the relay accepts one protocol phase: any number
/// of well-formed data pkt-lines, ended by the flush marker.
pub open spec fn valid_pkt_stream(s: Seq<u8>) -> bool
    decreases s.len(),
{
    if s == flush_pkt() {
        true
    } else if s.len() >= 4 && header_ok(s.take(4)) && 4 <= header_value(s.take(4)) <= s.len() {
        valid_pkt_stream(s.skip(header_value(s.take(4)) as int))
    } else {
        false
    }
}

/// Law: scanning a well-formed pkt-line stream from a line boundary
/// reaches the flush marker exactly once, at the end of the stream, and
/// neither fails nor flushes at any earlier point.
pub proof fn lemma_pkt_stream_scan(s: Seq<u8>)
    requires
        valid_pkt_stream(s),
    ensures
        scan_seq(initial_state(), s).mode is AtFlush,
        forall|j: int|
            0 <= j < s.len() ==> !((#[trigger] scan_seq(initial_state(), s.take(j)).mode)
                is AtFlush) && !(scan_seq(initial_state(), s.take(j)).mode is Failed),
    decreases s.len(),
{
    if s == flush_pkt() {
        assert(s.len() == 4);
        assert forall|j: int| 0 <= j < s.len() implies !((#[trigger] scan_seq(
            initial_state(),
            s.take(j),
        ).mode) is AtFlush) && !(scan_seq(initial_state(), s.take(j)).mode is Failed) by {
            lemma_scan_partial_header(s, j);
        }
        lemma_scan_partial_header(s, 3);
        assert(s.take(4).drop_last() =~= s.take(3));
        assert(s.take(3).push(s[3]) =~= s.take(4));
        assert(s.take(4) =~= s);
        assert(header_value(s.take(4)) == 0);
        assert(scan_seq(initial_state(), s) == flush_state());
    } else {
        let v = header_value(s.take(4)) as int;
        let p = s.take(v);
        let rest = s.skip(v);
        assert(p.take(4) =~= s.take(4));
        assert(p.take(p.len() as int) =~= p);
        assert(is_data_pkt(p));
        lemma_pkt_stream_scan(rest);
        assert(s =~= p + rest);
        lemma_scan_seq_append(initial_state(), p, rest);
        lemma_scan_data_pkt_prefix(p, v);
        assert(scan_seq(initial_state(), s).mode is AtFlush);
        assert forall|j: int| 0 <= j < s.len() implies !((#[trigger] scan_seq(
            initial_state(),
            s.take(j),
        ).mode) is AtFlush) && !(scan_seq(initial_state(), s.take(j)).mode is Failed) by {
            if j <= v {
                assert(p.take(j) =~= s.take(j));
                lemma_scan_data_pkt_prefix(p, j);
            } else {
                assert(s.take(j) =~= p + rest.take(j - v));
                lemma_scan_seq_append(initial_state(), p, rest.take(j - v));
                assert(scan_seq(initial_state(), s.take(j)) == scan_seq(
                    initial_state(),
                    rest.take(j - v),
                ));
            }
        }
    }
}

/// Law: a relay run over a well-formed pkt-line stream consumes it whole;
/// with the stop conditions of `scan_chunk` this means every byte was
/// forwarded unchanged and in order, and the scanner stands at the flush
/// marker it reached exactly once, at the end.
pub proof fn lemma_relay_forwards_stream(s: Seq<u8>, consumed: int, stop_at_flush: bool)
    requires
        valid_pkt_stream(s),
        0 <= consumed <= s.len(),
        consumed < s.len() ==> (scan_seq(initial_state(), s.take(consumed)).mode is Failed || (
        stop_at_flush && scan_seq(initial_state(), s.take(consumed)).mode is AtFlush)),
    ensures
        consumed == s.len(),
        s.take(consumed) == s,
        scan_seq(initial_state(), s.take(consumed)).mode is AtFlush,
{
    lemma_pkt_stream_scan(s);
    assert(s.take(s.len() as int) =~= s);
}

} // verus!
