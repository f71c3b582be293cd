//! The interactive authentication shim: a minimal terminal bound to
//! a byte-oriented input side and a buffered output side, just
//! capable enough to run a line editor over the placeholder pipes.
//!
//! The actual pipe reads, polls and renders are the holder's; this
//! module decides what they mean: how output lines are encoded, what
//! entering raw mode emits, how read bytes become queued input
//! events, and when a geometry change surfaces as a resize event.

use vstd::prelude::*;
use vstd::utf8::{
    valid_utf8, valid_first_scalar, valid_leading_and_continuation_bytes_first_codepoint,
    length_of_first_codepoint, length_of_first_scalar, decode_first_codepoint,
    pop_first_scalar, is_leading_byte_width_1, is_leading_byte_width_3,
    is_continuation_byte, not_overlong_encoding, not_surrogate,
};
use termwiz::input::{InputEvent, InputParser};
use crate::bytes::{CR, LF};
use crate::errors::BridgeError;
use crate::geometry::PtySize;

verus! {

/// Valid UTF-8 is closed under concatenation.
pub proof fn lemma_valid_utf8_concat(a: Seq<u8>, b: Seq<u8>)
    requires
        valid_utf8(a),
        valid_utf8(b),
    ensures
        valid_utf8(a + b),
    decreases a.len(),
{
    if a.len() == 0 {
        assert(a + b =~= b);
    } else {
        assert(valid_first_scalar(a));
        let l = length_of_first_scalar(a);
        assert(1 <= l <= a.len());
        assert(valid_leading_and_continuation_bytes_first_codepoint(a + b));
        assert(length_of_first_codepoint(a + b) == l);
        assert(decode_first_codepoint(a + b) == decode_first_codepoint(a));
        assert(valid_first_scalar(a + b));
        assert(pop_first_scalar(a + b) =~= pop_first_scalar(a) + b);
        lemma_valid_utf8_concat(pop_first_scalar(a), b);
        assert(valid_utf8(a + b));
    }
}

/// A sequence holding one single well-formed scalar encoding is
/// valid UTF-8.
pub proof fn lemma_single_scalar_valid(s: Seq<u8>)
    requires
        valid_first_scalar(s),
        length_of_first_scalar(s) == s.len(),
    ensures
        valid_utf8(s),
{
    assert(pop_first_scalar(s) =~= Seq::<u8>::empty());
    assert(valid_utf8(Seq::<u8>::empty()));
}

/// The UTF-8 encoding of the Unicode replacement character.
pub proof fn lemma_replacement_valid()
    ensures
        valid_utf8(seq![0xefu8, 0xbfu8, 0xbdu8]),
{
    let s = seq![0xefu8, 0xbfu8, 0xbdu8];
    assert(is_leading_byte_width_3(s[0]));
    assert(is_continuation_byte(s[1]) && is_continuation_byte(s[2]));
    assert(valid_leading_and_continuation_bytes_first_codepoint(s));
    assert(length_of_first_codepoint(s) == 3);
    assert((((0xefu8 & 0x0f) as u32) << 12) | (((0xbfu8 & 0x3f) as u32) << 6) | ((0xbdu8
        & 0x3f) as u32) == 0xfffdu32) by (bit_vector);
    assert(decode_first_codepoint(s) == 0xfffdu32);
    assert(not_overlong_encoding(0xfffd, 3));
    assert(not_surrogate(0xfffd));
    assert(valid_first_scalar(s));
    lemma_single_scalar_valid(s);
}

/// Split raw input into a valid UTF-8 part for the escape-sequence
/// parser and a withheld tail.  Complete well-formed scalars pass
/// through unchanged; a trailing scalar that may still be completed
/// by the next read is withheld; anything ill-formed is replaced by
/// the replacement character.  Well-formed input passes through
/// whole.
pub fn sanitize_utf8(bytes: &[u8]) -> (r: (Vec<u8>, Vec<u8>))
    ensures
        valid_utf8(r.0@),
        r.1@.len() <= 3,
        valid_utf8(bytes@) ==> (r.0@ == bytes@ && r.1@.len() == 0),
{
    let n = bytes.len();
    let mut clean: Vec<u8> = Vec::new();
    let mut i: usize = 0;
    proof {
        assert(bytes@.skip(0) =~= bytes@);
        assert(bytes@.take(0) =~= clean@);
        assert(valid_utf8(clean@));
    }
    while i < n
        invariant
            n == bytes@.len(),
            0 <= i <= n,
            valid_utf8(clean@),
            valid_utf8(bytes@) ==> (valid_utf8(bytes@.skip(i as int)) && clean@
                == bytes@.take(i as int)),
        decreases n - i,
    {
        let ghost tail = bytes@.skip(i as int);
        let ghost clean_pre = clean@;
        let b0 = bytes[i];
        // How many bytes the leading byte announces; 0 marks a byte
        // that can never lead a scalar.
        let width: usize = if b0 <= 0x7f {
            1
        } else if 0xc0 <= b0 && b0 <= 0xdf {
            2
        } else if 0xe0 <= b0 && b0 <= 0xef {
            3
        } else if 0xf0 <= b0 && b0 <= 0xf7 {
            4
        } else {
            0
        };

        if width > 0 && width > n - i {
            // Possibly a scalar split across reads: withhold it when
            // every byte present so far fits the pattern.
            let mut fits = true;
            let mut k: usize = i + 1;
            while k < n
                invariant
                    i < k <= n,
                    n == bytes@.len(),
                    fits ==> forall|j: int|
                        i < j < k ==> is_continuation_byte(#[trigger] bytes@[j]),
                decreases n - k,
            {
                if !(0x80 <= bytes[k] && bytes[k] <= 0xbf) {
                    fits = false;
                }
                k = k + 1;
            }
            if fits {
                proof {
                    if valid_utf8(bytes@) {
                        assert(valid_first_scalar(tail));
                        assert(length_of_first_scalar(tail) <= tail.len());
                        assert(false);
                    }
                }
                let rest = vstd::slice::slice_to_vec(
                    vstd::slice::slice_subrange(bytes, i, n),
                );
                return (clean, rest);
            }
        }

        let mut emitted: usize = 0;
        if width == 1 {
            emitted = 1;
            proof {
                assert(is_leading_byte_width_1(tail[0]));
                assert((b0 & 0x7fu8) as u32 <= 0x7fu32) by (bit_vector);
                assert(valid_first_scalar(tail));
                assert(length_of_first_scalar(tail) == 1);
            }
        } else if width == 2 && n - i >= 2 {
            let b1 = bytes[i + 1];
            if 0x80 <= b1 && b1 <= 0xbf {
                let cp: u32 = (((b0 & 0x1f) as u32) << 6) | ((b1 & 0x3f) as u32);
                proof {
                    assert(cp == decode_first_codepoint(tail));
                    assert((((b0 & 0x1f) as u32) << 6) | ((b1 & 0x3f) as u32)
                        <= 0x7ffu32) by (bit_vector);
                }
                if 0x80 <= cp {
                    emitted = 2;
                    proof {
                        assert(valid_first_scalar(tail));
                        assert(length_of_first_scalar(tail) == 2);
                    }
                }
            }
        } else if width == 3 && n - i >= 3 {
            let b1 = bytes[i + 1];
            let b2 = bytes[i + 2];
            if 0x80 <= b1 && b1 <= 0xbf && 0x80 <= b2 && b2 <= 0xbf {
                let cp: u32 = (((b0 & 0x0f) as u32) << 12) | (((b1 & 0x3f) as u32) << 6)
                    | ((b2 & 0x3f) as u32);
                proof {
                    assert(cp == decode_first_codepoint(tail));
                }
                if 0x800 <= cp && !(0xd800 <= cp && cp <= 0xdfff) {
                    emitted = 3;
                    proof {
                        assert(valid_first_scalar(tail));
                        assert(length_of_first_scalar(tail) == 3);
                    }
                }
            }
        } else if width == 4 && n - i >= 4 {
            let b1 = bytes[i + 1];
            let b2 = bytes[i + 2];
            let b3 = bytes[i + 3];
            if 0x80 <= b1 && b1 <= 0xbf && 0x80 <= b2 && b2 <= 0xbf && 0x80 <= b3 && b3
                <= 0xbf {
                let cp: u32 = (((b0 & 0x07) as u32) << 18) | (((b1 & 0x3f) as u32) << 12)
                    | (((b2 & 0x3f) as u32) << 6) | ((b3 & 0x3f) as u32);
                proof {
                    assert(cp == decode_first_codepoint(tail));
                }
                if 0x10000 <= cp && cp <= 0x10ffff {
                    emitted = 4;
                    proof {
                        assert(valid_first_scalar(tail));
                        assert(length_of_first_scalar(tail) == 4);
                    }
                }
            }
        }

        if emitted > 0 {
            let ghost piece = bytes@.subrange(i as int, i + emitted);
            clean.extend_from_slice(vstd::slice::slice_subrange(bytes, i, i + emitted));
            proof {
                assert(forall|j: int| 0 <= j < emitted ==> piece[j] == tail[j]);
                assert(valid_first_scalar(piece));
                assert(length_of_first_scalar(piece) == emitted);
                lemma_single_scalar_valid(piece);
                lemma_valid_utf8_concat(clean_pre, piece);
                assert(clean@ =~= clean_pre + piece);
                if valid_utf8(bytes@) {
                    assert(bytes@.skip(i + emitted) =~= pop_first_scalar(tail));
                    assert(clean@ =~= bytes@.take(i + emitted));
                }
            }
            i = i + emitted;
        } else {
            // Ill-formed at this position: substitute the replacement
            // character for the offending byte.
            proof {
                if valid_utf8(bytes@) {
                    assert(valid_first_scalar(tail));
                    assert(false);
                }
            }
            let ghost rep = seq![0xefu8, 0xbfu8, 0xbdu8];
            clean.push(0xef);
            clean.push(0xbf);
            clean.push(0xbd);
            proof {
                lemma_replacement_valid();
                lemma_valid_utf8_concat(clean_pre, rep);
                assert(clean@ =~= clean_pre + rep);
            }
            i = i + 1;
        }
    }
    proof {
        assert(valid_utf8(bytes@) ==> clean@ =~= bytes@);
    }
    (clean, Vec::new())
}

/// Terminal input events are produced and consumed by the line
/// editor; this logic only queues and orders them.
#[verifier::external_type_specification]
#[verifier::external_body]
pub struct ExInputEvent(InputEvent);

/// The escape-sequence parser that turns raw bytes into input
/// events; it buffers partial sequences between reads.
#[verifier::external_type_specification]
#[verifier::external_body]
pub struct ExInputParser(InputParser);

/// Relies on termwiz's InputParser::new: a parser with nothing
/// buffered yet.
#[verifier::external_body]
fn new_input_parser() -> (r: InputParser) {
    InputParser::new()
}

/// Relies on termwiz's InputParser::parse_as_vec: turns the bytes
/// read (together with any buffered partial escape sequence) into
/// input events, in input order.  The bytes of every call must form
/// valid UTF-8: the parser's bracketed-paste handling converts the
/// pasted region lossily and then consumes the converted length from
/// its buffer, which can over-consume — and fail — on ill-formed
/// input.  Pastes are delimited by single-byte control sequences, so
/// per-call validity keeps every pasted region valid too.
#[verifier::external_body]
fn parse_input(parser: &mut InputParser, buf: &[u8], maybe_more: bool) -> (r: Vec<
    InputEvent,
>)
    requires
        valid_utf8(buf@),
{
    parser.parse_as_vec(buf, maybe_more)
}

/// A line of pane output, encoded for the terminal: every line feed
/// becomes carriage return plus line feed.
pub open spec fn crlf_of(s: Seq<u8>) -> Seq<u8>
    decreases s.len(),
{
    if s.len() == 0 {
        Seq::empty()
    } else {
        crlf_of(s.drop_last()) + (if s.last() == LF {
            seq![CR, LF]
        } else {
            seq![s.last()]
        })
    }
}

/// Encode one output line: line feeds become carriage return plus
/// line feed, and the line is terminated the same way.
pub fn output_line_bytes(s: &[u8]) -> (r: Vec<u8>)
    ensures
        r@ == crlf_of(s@) + seq![CR, LF],
{
    let mut r: Vec<u8> = Vec::new();
    let n = s.len();
    let mut i: usize = 0;
    proof {
        assert(s@.take(0) =~= Seq::<u8>::empty());
        assert(r@ =~= crlf_of(s@.take(0)));
    }
    while i < n
        invariant
            n == s@.len(),
            0 <= i <= n,
            r@ == crlf_of(s@.take(i as int)),
        decreases n - i,
    {
        proof {
            assert(s@.take(i + 1).drop_last() =~= s@.take(i as int));
            assert(s@.take(i + 1).last() == s@[i as int]);
        }
        let b = s[i];
        if b == LF {
            r.push(CR);
            r.push(LF);
        } else {
            r.push(b);
        }
        proof {
            assert(r@ =~= crlf_of(s@.take(i + 1)));
        }
        i = i + 1;
    }
    proof {
        assert(s@.take(n as int) =~= s@);
    }
    r.push(CR);
    r.push(LF);
    proof {
        assert(r@ =~= crlf_of(s@) + seq![CR, LF]);
    }
    r
}

/// What entering raw mode emits: the control sequence that switches
/// bracketed-paste mode on.  No true raw mode is needed — the
/// transport is already byte-oriented.
pub fn raw_mode_bytes() -> (r: Vec<u8>)
    ensures
        r@ == seq![27u8, 91u8, 63u8, 50u8, 48u8, 48u8, 52u8, 104u8],
{
    let mut r: Vec<u8> = Vec::new();
    r.push(27);
    r.push(91);
    r.push(63);
    r.push(50);
    r.push(48);
    r.push(48);
    r.push(52);
    r.push(104);
    proof {
        assert(r@ =~= seq![27u8, 91u8, 63u8, 50u8, 48u8, 48u8, 52u8, 104u8]);
    }
    r
}

/// The shim has no alternate screen: entering or leaving one fails
/// explicitly.
pub fn alternate_screen_unsupported() -> (r: Result<(), BridgeError>)
    ensures
        r == Err::<(), BridgeError>(BridgeError::NoAltScreen),
{
    Err(BridgeError::NoAltScreen)
}

/// The shim cannot set the screen size; the shared geometry is the
/// single source of truth while connecting.
pub fn set_screen_size_unsupported() -> (r: Result<(), BridgeError>)
    ensures
        r == Err::<(), BridgeError>(BridgeError::CannotSetScreenSize),
{
    Err(BridgeError::CannotSetScreenSize)
}

/// A geometry change observed while polling for input: when the live
/// size differs from the snapshot taken at poll start, exactly one
/// resize event carrying the new cell dimensions surfaces to the
/// line editor.
pub fn resize_check(started: PtySize, now: PtySize) -> (r: Option<(usize, usize)>)
    ensures
        now == started ==> r is None,
        now != started ==> r == Some((now.cols as usize, now.rows as usize)),
{
    if now != started {
        Some((now.cols as usize, now.rows as usize))
    } else {
        None
    }
}

/// One first-in first-out step of the input queue: `before` plus the
/// newly `parsed` events equals the `handed`-out event (when any)
/// followed by what is queued `after`.
pub open spec fn fifo_step(
    before: Seq<InputEvent>,
    parsed: Seq<InputEvent>,
    handed: Option<InputEvent>,
    after: Seq<InputEvent>,
) -> bool {
    let total = before + parsed;
    match handed {
        Some(e) => total.len() > 0 && e == total[0] && after == total.drop_first(),
        None => total.len() == 0 && after == total,
    }
}

/// The input side of the shim: the escape-sequence parser, the
/// queue of events already parsed but not yet handed out, and the
/// withheld tail of a scalar split across reads.
pub struct ShimInput {
    pub parser: InputParser,
    pub queue: Vec<InputEvent>,
    pub pending: Vec<u8>,
}

impl ShimInput {
    /// A fresh input side: nothing parsed, nothing queued.
    pub fn new() -> (r: Self)
        ensures
            r.queue@ == Seq::<InputEvent>::empty(),
            r.pending@ == Seq::<u8>::empty(),
    {
        ShimInput { parser: new_input_parser(), queue: Vec::new(), pending: Vec::new() }
    }

    /// Hand out the oldest queued event, if any; the queue is
    /// drained strictly in arrival order.
    pub fn next_queued(&mut self) -> (r: Option<InputEvent>)
        ensures
            old(self).queue@.len() == 0 ==> (r is None && final(self).queue@
                == old(self).queue@),
            old(self).queue@.len() > 0 ==> (r == Some(old(self).queue@[0])
                && final(self).queue@ == old(self).queue@.drop_first()),
            final(self).pending == old(self).pending,
            final(self).parser == old(self).parser,
    {
        if self.queue.len() == 0 {
            None
        } else {
            let e = self.queue.remove(0);
            proof {
                assert(self.queue@ =~= old(self).queue@.drop_first());
            }
            Some(e)
        }
    }

    /// Bytes became readable: parse them into events, append those
    /// to the queue in parse order, and hand out the oldest queued
    /// event.  First-in first-out order over the whole queue is
    /// preserved: for some sequence of newly parsed events, the old
    /// queue plus those events is the handed-out event followed by
    /// the new queue.
    pub fn on_readable(&mut self, buf: &[u8], maybe_more: bool) -> (r: Option<InputEvent>)
        ensures
            exists|parsed: Seq<InputEvent>|
                #[trigger] fifo_step(old(self).queue@, parsed, r, final(self).queue@),
            final(self).pending@.len() <= 3,
    {
        // Only well-formed UTF-8 ever reaches the parser: ill-formed
        // bytes are replaced, and a scalar split across reads waits
        // in `pending` for its remaining bytes.
        self.pending.extend_from_slice(buf);
        let mut gathered: Vec<u8> = Vec::new();
        core::mem::swap(&mut gathered, &mut self.pending);
        let (clean, rest) = sanitize_utf8(gathered.as_slice());
        self.pending = rest;
        let mut parsed = parse_input(&mut self.parser, clean.as_slice(), maybe_more);
        let ghost parsed_events = parsed@;
        self.queue.append(&mut parsed);
        let r = self.next_queued();
        proof {
            assert(fifo_step(old(self).queue@, parsed_events, r, self.queue@));
        }
        r
    }
}

} // verus!
