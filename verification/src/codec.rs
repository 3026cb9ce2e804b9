//! The wire codec: a deterministic, self-delimiting binary encoding of
//! requests and replies.
//!
//! Layout of one frame: a one-byte variant tag, then the variant's fields in
//! order. An identifier or diagnostic string is a one-byte length followed by
//! that many ASCII bytes; a data payload is a one-byte length followed by raw
//! bytes; a speed is four little-endian bytes. The tag and the embedded
//! lengths make every frame self-delimiting, so a decoder can tell "not yet
//! enough bytes" from "malformed bytes".

use vstd::prelude::*;
use vstd::bytes::{spec_u32_from_le_bytes, spec_u32_to_le_bytes, u32_from_le_bytes, u32_to_le_bytes};
use vstd::slice::slice_to_vec;
use vstd::string::{StrSliceExecFns, StringSliceAdditionalSpecFns};
use vstd::utf8::is_ascii_chars;

use crate::encoding::{Reply, ReplyView, Request, RequestView};

verus! {

broadcast use vstd::string::is_ascii_spec_bytes;

/// The bytes of an ASCII character sequence, one byte per character.
pub open spec fn ascii_bytes(s: Seq<char>) -> Seq<u8> {
    Seq::new(s.len(), |i: int| s[i] as u8)
}

/// The characters read off a byte sequence, one character per byte.
pub open spec fn byte_chars(d: Seq<u8>) -> Seq<char> {
    Seq::new(d.len(), |i: int| d[i] as char)
}

/// What the codec accepts as a string field: ASCII, and short enough for a
/// one-byte length prefix.
pub open spec fn ident_wf(s: Seq<char>) -> bool {
    is_ascii_chars(s) && s.len() <= 255
}

/// What the codec accepts as a data payload: short enough for a one-byte
/// length prefix.
pub open spec fn data_wf(d: Seq<u8>) -> bool {
    d.len() <= 255
}

/// A request the codec can put on the wire.
pub open spec fn request_wf(r: RequestView) -> bool {
    match r {
        RequestView::Version => true,
        RequestView::Clear => true,
        RequestView::Reset => true,
        RequestView::GpioInitPP { pin } => ident_wf(pin),
        RequestView::GpioSetHigh { pin } => ident_wf(pin),
        RequestView::GpioSetLow { pin } => ident_wf(pin),
        RequestView::GpioToggle { pin } => ident_wf(pin),
        RequestView::I2CInit { scl_pin, sda_pin, speed } => ident_wf(scl_pin) && ident_wf(sda_pin),
        RequestView::I2CWrite { ident, address, data } => ident_wf(ident) && data_wf(data),
        RequestView::SPIInit { sck_pin, miso_pin, mosi_pin, speed } => ident_wf(sck_pin)
            && ident_wf(miso_pin) && ident_wf(mosi_pin),
        RequestView::SPIWrite { ident, data } => ident_wf(ident) && data_wf(data),
    }
}

/// A reply the codec can put on the wire.
pub open spec fn reply_wf(r: ReplyView) -> bool {
    match r {
        ReplyView::VerboseErr { err } => ident_wf(err),
        _ => true,
    }
}

/// A length-prefixed ASCII string field.
pub open spec fn enc_str(s: Seq<char>) -> Seq<u8> {
    seq![s.len() as u8] + ascii_bytes(s)
}

/// A length-prefixed data payload field.
pub open spec fn enc_data(d: Seq<u8>) -> Seq<u8> {
    seq![d.len() as u8] + d
}

/// The variant tag of a request.
pub open spec fn request_tag(r: RequestView) -> u8 {
    match r {
        RequestView::Version => 0,
        RequestView::Clear => 1,
        RequestView::Reset => 2,
        RequestView::GpioInitPP { .. } => 3,
        RequestView::GpioSetHigh { .. } => 4,
        RequestView::GpioSetLow { .. } => 5,
        RequestView::GpioToggle { .. } => 6,
        RequestView::I2CInit { .. } => 7,
        RequestView::I2CWrite { .. } => 8,
        RequestView::SPIInit { .. } => 9,
        RequestView::SPIWrite { .. } => 10,
    }
}

/// The encoding of one request: tag, then fields.
pub open spec fn spec_encode_request(r: RequestView) -> Seq<u8> {
    seq![request_tag(r)] + match r {
        RequestView::Version => Seq::<u8>::empty(),
        RequestView::Clear => Seq::<u8>::empty(),
        RequestView::Reset => Seq::<u8>::empty(),
        RequestView::GpioInitPP { pin } => enc_str(pin),
        RequestView::GpioSetHigh { pin } => enc_str(pin),
        RequestView::GpioSetLow { pin } => enc_str(pin),
        RequestView::GpioToggle { pin } => enc_str(pin),
        RequestView::I2CInit { scl_pin, sda_pin, speed } => enc_str(scl_pin) + enc_str(sda_pin)
            + spec_u32_to_le_bytes(speed),
        RequestView::I2CWrite { ident, address, data } => enc_str(ident) + seq![address]
            + enc_data(data),
        RequestView::SPIInit { sck_pin, miso_pin, mosi_pin, speed } => enc_str(sck_pin) + enc_str(
            miso_pin,
        ) + enc_str(mosi_pin) + spec_u32_to_le_bytes(speed),
        RequestView::SPIWrite { ident, data } => enc_str(ident) + enc_data(data),
    }
}

/// The variant tag of a reply.
pub open spec fn reply_tag(r: ReplyView) -> u8 {
    match r {
        ReplyView::Success => 0,
        ReplyView::Incomplete => 1,
        ReplyView::NotImplemented => 2,
        ReplyView::Version { .. } => 3,
        ReplyView::VerboseErr { .. } => 4,
        ReplyView::ReceiveErr { .. } => 5,
        ReplyView::Failure { .. } => 6,
    }
}

/// The encoding of one reply: tag, then fields.
pub open spec fn spec_encode_reply(r: ReplyView) -> Seq<u8> {
    seq![reply_tag(r)] + match r {
        ReplyView::Success => Seq::<u8>::empty(),
        ReplyView::Incomplete => Seq::<u8>::empty(),
        ReplyView::NotImplemented => Seq::<u8>::empty(),
        ReplyView::Version { version } => seq![version],
        ReplyView::VerboseErr { err } => enc_str(err),
        ReplyView::ReceiveErr { bytes } => seq![bytes],
        ReplyView::Failure { bytes } => seq![bytes],
    }
}

/// The outcome of parsing one field, or one whole message, at a position:
/// the value and the position after it, or "more bytes needed", or
/// "malformed".
pub enum Parsed<T> {
    Done { v: T, next: int },
    More,
    Bad,
}

/// Parse one byte.
pub open spec fn parse_u8(b: Seq<u8>, pos: int) -> Parsed<u8> {
    if pos + 1 <= b.len() {
        Parsed::Done { v: b[pos], next: pos + 1 }
    } else {
        Parsed::More
    }
}

/// Parse a four-byte little-endian speed.
pub open spec fn parse_u32(b: Seq<u8>, pos: int) -> Parsed<u32> {
    if pos + 4 <= b.len() {
        Parsed::Done { v: spec_u32_from_le_bytes(b.subrange(pos, pos + 4)), next: pos + 4 }
    } else {
        Parsed::More
    }
}

/// Parse a length-prefixed ASCII string field. A byte outside the ASCII
/// range inside the field is malformed.
pub open spec fn parse_str(b: Seq<u8>, pos: int) -> Parsed<Seq<char>> {
    if pos + 1 > b.len() {
        Parsed::More
    } else {
        let n = b[pos] as int;
        if pos + 1 + n > b.len() {
            Parsed::More
        } else if exists|i: int| pos + 1 <= i < pos + 1 + n && b[i] >= 128 {
            Parsed::Bad
        } else {
            Parsed::Done { v: byte_chars(b.subrange(pos + 1, pos + 1 + n)), next: pos + 1 + n }
        }
    }
}

/// Parse a length-prefixed data payload field.
pub open spec fn parse_data(b: Seq<u8>, pos: int) -> Parsed<Seq<u8>> {
    if pos + 1 > b.len() {
        Parsed::More
    } else {
        let n = b[pos] as int;
        if pos + 1 + n > b.len() {
            Parsed::More
        } else {
            Parsed::Done { v: b.subrange(pos + 1, pos + 1 + n), next: pos + 1 + n }
        }
    }
}

/// Decode one request from the front of `b`. `Done` carries the request and
/// how many bytes of `b` it used; bytes after that belong to the next
/// message.
pub open spec fn spec_decode_request(b: Seq<u8>) -> Parsed<RequestView> {
    match parse_u8(b, 0) {
        Parsed::More => Parsed::More,
        Parsed::Bad => Parsed::Bad,
        Parsed::Done { v: tag, next } => {
            if tag == 0 {
                Parsed::Done { v: RequestView::Version, next }
            } else if tag == 1 {
                Parsed::Done { v: RequestView::Clear, next }
            } else if tag == 2 {
                Parsed::Done { v: RequestView::Reset, next }
            } else if tag == 3 || tag == 4 || tag == 5 || tag == 6 {
                match parse_str(b, next) {
                    Parsed::More => Parsed::More,
                    Parsed::Bad => Parsed::Bad,
                    Parsed::Done { v: pin, next } => Parsed::Done {
                        v: if tag == 3 {
                            RequestView::GpioInitPP { pin }
                        } else if tag == 4 {
                            RequestView::GpioSetHigh { pin }
                        } else if tag == 5 {
                            RequestView::GpioSetLow { pin }
                        } else {
                            RequestView::GpioToggle { pin }
                        },
                        next,
                    },
                }
            } else if tag == 7 {
                match parse_str(b, next) {
                    Parsed::More => Parsed::More,
                    Parsed::Bad => Parsed::Bad,
                    Parsed::Done { v: scl_pin, next } => match parse_str(b, next) {
                        Parsed::More => Parsed::More,
                        Parsed::Bad => Parsed::Bad,
                        Parsed::Done { v: sda_pin, next } => match parse_u32(b, next) {
                            Parsed::More => Parsed::More,
                            Parsed::Bad => Parsed::Bad,
                            Parsed::Done { v: speed, next } => Parsed::Done {
                                v: RequestView::I2CInit { scl_pin, sda_pin, speed },
                                next,
                            },
                        },
                    },
                }
            } else if tag == 8 {
                match parse_str(b, next) {
                    Parsed::More => Parsed::More,
                    Parsed::Bad => Parsed::Bad,
                    Parsed::Done { v: ident, next } => match parse_u8(b, next) {
                        Parsed::More => Parsed::More,
                        Parsed::Bad => Parsed::Bad,
                        Parsed::Done { v: address, next } => match parse_data(b, next) {
                            Parsed::More => Parsed::More,
                            Parsed::Bad => Parsed::Bad,
                            Parsed::Done { v: data, next } => Parsed::Done {
                                v: RequestView::I2CWrite { ident, address, data },
                                next,
                            },
                        },
                    },
                }
            } else if tag == 9 {
                match parse_str(b, next) {
                    Parsed::More => Parsed::More,
                    Parsed::Bad => Parsed::Bad,
                    Parsed::Done { v: sck_pin, next } => match parse_str(b, next) {
                        Parsed::More => Parsed::More,
                        Parsed::Bad => Parsed::Bad,
                        Parsed::Done { v: miso_pin, next } => match parse_str(b, next) {
                            Parsed::More => Parsed::More,
                            Parsed::Bad => Parsed::Bad,
                            Parsed::Done { v: mosi_pin, next } => match parse_u32(b, next) {
                                Parsed::More => Parsed::More,
                                Parsed::Bad => Parsed::Bad,
                                Parsed::Done { v: speed, next } => Parsed::Done {
                                    v: RequestView::SPIInit { sck_pin, miso_pin, mosi_pin, speed },
                                    next,
                                },
                            },
                        },
                    },
                }
            } else if tag == 10 {
                match parse_str(b, next) {
                    Parsed::More => Parsed::More,
                    Parsed::Bad => Parsed::Bad,
                    Parsed::Done { v: ident, next } => match parse_data(b, next) {
                        Parsed::More => Parsed::More,
                        Parsed::Bad => Parsed::Bad,
                        Parsed::Done { v: data, next } => Parsed::Done {
                            v: RequestView::SPIWrite { ident, data },
                            next,
                        },
                    },
                }
            } else {
                Parsed::Bad
            }
        },
    }
}

/// Decode one reply from the front of `b`.
pub open spec fn spec_decode_reply(b: Seq<u8>) -> Parsed<ReplyView> {
    match parse_u8(b, 0) {
        Parsed::More => Parsed::More,
        Parsed::Bad => Parsed::Bad,
        Parsed::Done { v: tag, next } => {
            if tag == 0 {
                Parsed::Done { v: ReplyView::Success, next }
            } else if tag == 1 {
                Parsed::Done { v: ReplyView::Incomplete, next }
            } else if tag == 2 {
                Parsed::Done { v: ReplyView::NotImplemented, next }
            } else if tag == 3 {
                match parse_u8(b, next) {
                    Parsed::More => Parsed::More,
                    Parsed::Bad => Parsed::Bad,
                    Parsed::Done { v: version, next } => Parsed::Done {
                        v: ReplyView::Version { version },
                        next,
                    },
                }
            } else if tag == 4 {
                match parse_str(b, next) {
                    Parsed::More => Parsed::More,
                    Parsed::Bad => Parsed::Bad,
                    Parsed::Done { v: err, next } => Parsed::Done {
                        v: ReplyView::VerboseErr { err },
                        next,
                    },
                }
            } else if tag == 5 || tag == 6 {
                match parse_u8(b, next) {
                    Parsed::More => Parsed::More,
                    Parsed::Bad => Parsed::Bad,
                    Parsed::Done { v: bytes, next } => Parsed::Done {
                        v: if tag == 5 {
                            ReplyView::ReceiveErr { bytes }
                        } else {
                            ReplyView::Failure { bytes }
                        },
                        next,
                    },
                }
            } else {
                Parsed::Bad
            }
        },
    }
}

/// The outcome of decoding a message from a byte buffer.
#[derive(Debug, Clone, PartialEq, Eq)]
pub enum Decoded<T> {
    /// One whole message, and how many bytes of the buffer it used.
    Complete { value: T, used: usize },
    /// The buffer holds a proper prefix of a message: keep reading.
    Incomplete,
    /// The buffer cannot be a prefix of any message.
    Malformed,
}

/// Relies on `String::push` from std: it appends exactly the one character.
#[verifier::external_body]
fn push_char(s: &mut String, c: char)
    ensures
        final(s)@ == old(s)@.push(c),
{
    s.push(c);
}

/// The outcome of taking one field out of a buffer.
enum Taken<T> {
    Done { v: T, next: usize },
    More,
    Bad,
}

/// Take one byte at `pos`.
fn take_u8(b: &[u8], pos: usize) -> (r: Taken<u8>)
    requires
        pos <= b@.len(),
    ensures
        match r {
            Taken::Done { v, next } => parse_u8(b@, pos as int) == (Parsed::Done {
                v,
                next: next as int,
            }) && next <= b@.len(),
            Taken::More => parse_u8(b@, pos as int) is More,
            Taken::Bad => false,
        },
{
    if pos >= b.len() {
        Taken::More
    } else {
        Taken::Done { v: b[pos], next: pos + 1 }
    }
}

/// Take a four-byte little-endian speed at `pos`.
fn take_u32(b: &[u8], pos: usize) -> (r: Taken<u32>)
    requires
        pos <= b@.len(),
    ensures
        match r {
            Taken::Done { v, next } => parse_u32(b@, pos as int) == (Parsed::Done {
                v,
                next: next as int,
            }) && next <= b@.len(),
            Taken::More => parse_u32(b@, pos as int) is More,
            Taken::Bad => false,
        },
{
    if b.len() - pos < 4 {
        Taken::More
    } else {
        let v = u32_from_le_bytes(&b[pos..pos + 4]);
        Taken::Done { v, next: pos + 4 }
    }
}

/// Take one length-prefixed ASCII string field at `pos`.
fn take_str(b: &[u8], pos: usize) -> (r: Taken<String>)
    requires
        pos <= b@.len(),
    ensures
        match r {
            Taken::Done { v, next } => parse_str(b@, pos as int) == (Parsed::Done {
                v: v@,
                next: next as int,
            }) && next <= b@.len() && ident_wf(v@),
            Taken::More => parse_str(b@, pos as int) is More,
            Taken::Bad => parse_str(b@, pos as int) is Bad,
        },
{
    if pos >= b.len() {
        return Taken::More;
    }
    let n = b[pos] as usize;
    if n > b.len() - pos - 1 {
        return Taken::More;
    }
    let mut s = String::new();
    let mut i: usize = 0;
    while i < n
        invariant
            b@.len() <= usize::MAX,
            pos + 1 + n <= b@.len(),
            n == b@[pos as int] as int,
            i <= n,
            s@ == byte_chars(b@.subrange(pos + 1, pos + 1 + i)),
            forall|j: int| pos + 1 <= j < pos + 1 + i ==> b@[j] < 128,
            forall|j: int| 0 <= j < s@.len() ==> '\0' <= #[trigger] s@[j] <= '\u{7f}',
        decreases n - i,
    {
        let byte = b[pos + 1 + i];
        if byte >= 128 {
            return Taken::Bad;
        }
        push_char(&mut s, byte as char);
        proof {
            assert(b@.subrange(pos + 1, pos + 1 + (i + 1)) =~= b@.subrange(pos + 1, pos + 1 + i)
                + seq![b@[pos + 1 + i]]);
            assert(s@ =~= byte_chars(b@.subrange(pos + 1, pos + 1 + (i + 1))));
        }
        i += 1;
    }
    proof {
        assert(parse_str(b@, pos as int) == (Parsed::Done {
            v: s@,
            next: pos + 1 + n,
        }));
    }
    Taken::Done { v: s, next: pos + 1 + n }
}

/// Take one length-prefixed data payload field at `pos`.
fn take_data(b: &[u8], pos: usize) -> (r: Taken<Vec<u8>>)
    requires
        pos <= b@.len(),
    ensures
        match r {
            Taken::Done { v, next } => parse_data(b@, pos as int) == (Parsed::Done {
                v: v@,
                next: next as int,
            }) && next <= b@.len() && data_wf(v@),
            Taken::More => parse_data(b@, pos as int) is More,
            Taken::Bad => false,
        },
{
    if pos >= b.len() {
        return Taken::More;
    }
    let n = b[pos] as usize;
    if n > b.len() - pos - 1 {
        return Taken::More;
    }
    let d = slice_to_vec(&b[pos + 1..pos + 1 + n]);
    Taken::Done { v: d, next: pos + 1 + n }
}

/// Decode one request from the front of the buffer, exactly as
/// [`spec_decode_request`] reads it.
pub fn decode_request(b: &[u8]) -> (r: Decoded<Request>)
    ensures
        match r {
            Decoded::Complete { value, used } => spec_decode_request(b@) == (Parsed::Done {
                v: value@,
                next: used as int,
            }) && used <= b@.len() && request_wf(value@),
            Decoded::Incomplete => spec_decode_request(b@) is More,
            Decoded::Malformed => spec_decode_request(b@) is Bad,
        },
{
    if b.len() == 0 {
        return Decoded::Incomplete;
    }
    let tag = b[0];
    match tag {
        0 => Decoded::Complete { value: Request::Version, used: 1 },
        1 => Decoded::Complete { value: Request::Clear, used: 1 },
        2 => Decoded::Complete { value: Request::Reset, used: 1 },
        3 | 4 | 5 | 6 => match take_str(b, 1) {
            Taken::More => Decoded::Incomplete,
            Taken::Bad => Decoded::Malformed,
            Taken::Done { v: pin, next } => Decoded::Complete {
                value: if tag == 3 {
                    Request::GpioInitPP { pin }
                } else if tag == 4 {
                    Request::GpioSetHigh { pin }
                } else if tag == 5 {
                    Request::GpioSetLow { pin }
                } else {
                    Request::GpioToggle { pin }
                },
                used: next,
            },
        },
        7 => match take_str(b, 1) {
            Taken::More => Decoded::Incomplete,
            Taken::Bad => Decoded::Malformed,
            Taken::Done { v: scl_pin, next } => match take_str(b, next) {
                Taken::More => Decoded::Incomplete,
                Taken::Bad => Decoded::Malformed,
                Taken::Done { v: sda_pin, next } => match take_u32(b, next) {
                    Taken::More => Decoded::Incomplete,
                    Taken::Bad => Decoded::Malformed,
                    Taken::Done { v: speed, next } => Decoded::Complete {
                        value: Request::I2CInit { scl_pin, sda_pin, speed },
                        used: next,
                    },
                },
            },
        },
        8 => match take_str(b, 1) {
            Taken::More => Decoded::Incomplete,
            Taken::Bad => Decoded::Malformed,
            Taken::Done { v: ident, next } => match take_u8(b, next) {
                Taken::More => Decoded::Incomplete,
                Taken::Bad => Decoded::Malformed,
                Taken::Done { v: address, next } => match take_data(b, next) {
                    Taken::More => Decoded::Incomplete,
                    Taken::Bad => Decoded::Malformed,
                    Taken::Done { v: data, next } => Decoded::Complete {
                        value: Request::I2CWrite { ident, address, data },
                        used: next,
                    },
                },
            },
        },
        9 => match take_str(b, 1) {
            Taken::More => Decoded::Incomplete,
            Taken::Bad => Decoded::Malformed,
            Taken::Done { v: sck_pin, next } => match take_str(b, next) {
                Taken::More => Decoded::Incomplete,
                Taken::Bad => Decoded::Malformed,
                Taken::Done { v: miso_pin, next } => match take_str(b, next) {
                    Taken::More => Decoded::Incomplete,
                    Taken::Bad => Decoded::Malformed,
                    Taken::Done { v: mosi_pin, next } => match take_u32(b, next) {
                        Taken::More => Decoded::Incomplete,
                        Taken::Bad => Decoded::Malformed,
                        Taken::Done { v: speed, next } => Decoded::Complete {
                            value: Request::SPIInit { sck_pin, miso_pin, mosi_pin, speed },
                            used: next,
                        },
                    },
                },
            },
        },
        10 => match take_str(b, 1) {
            Taken::More => Decoded::Incomplete,
            Taken::Bad => Decoded::Malformed,
            Taken::Done { v: ident, next } => match take_data(b, next) {
                Taken::More => Decoded::Incomplete,
                Taken::Bad => Decoded::Malformed,
                Taken::Done { v: data, next } => Decoded::Complete {
                    value: Request::SPIWrite { ident, data },
                    used: next,
                },
            },
        },
        _ => Decoded::Malformed,
    }
}

/// Decode one reply from the front of the buffer, exactly as
/// [`spec_decode_reply`] reads it.
pub fn decode_reply(b: &[u8]) -> (r: Decoded<Reply>)
    ensures
        match r {
            Decoded::Complete { value, used } => spec_decode_reply(b@) == (Parsed::Done {
                v: value@,
                next: used as int,
            }) && used <= b@.len() && reply_wf(value@),
            Decoded::Incomplete => spec_decode_reply(b@) is More,
            Decoded::Malformed => spec_decode_reply(b@) is Bad,
        },
{
    if b.len() == 0 {
        return Decoded::Incomplete;
    }
    let tag = b[0];
    match tag {
        0 => Decoded::Complete { value: Reply::Success, used: 1 },
        1 => Decoded::Complete { value: Reply::Incomplete, used: 1 },
        2 => Decoded::Complete { value: Reply::NotImplemented, used: 1 },
        3 => match take_u8(b, 1) {
            Taken::More => Decoded::Incomplete,
            Taken::Bad => Decoded::Malformed,
            Taken::Done { v: version, next } => Decoded::Complete {
                value: Reply::Version { version },
                used: next,
            },
        },
        4 => match take_str(b, 1) {
            Taken::More => Decoded::Incomplete,
            Taken::Bad => Decoded::Malformed,
            Taken::Done { v: err, next } => Decoded::Complete {
                value: Reply::VerboseErr { err },
                used: next,
            },
        },
        5 | 6 => match take_u8(b, 1) {
            Taken::More => Decoded::Incomplete,
            Taken::Bad => Decoded::Malformed,
            Taken::Done { v: bytes, next } => Decoded::Complete {
                value: if tag == 5 {
                    Reply::ReceiveErr { bytes }
                } else {
                    Reply::Failure { bytes }
                },
                used: next,
            },
        },
        _ => Decoded::Malformed,
    }
}

/// Append one length-prefixed ASCII string field.
fn emit_str(out: &mut Vec<u8>, s: &String)
    requires
        ident_wf(s@),
    ensures
        final(out)@ == old(out)@ + enc_str(s@),
{
    let st: &str = s.as_str();
    proof {
        assert(st.is_ascii());
        vstd::string::is_ascii_spec_bytes(st);
        assert(st.spec_bytes() =~= ascii_bytes(s@));
    }
    let n: usize = st.len();
    out.push(n as u8);
    proof {
        assert(out@ =~= old(out)@ + seq![s@.len() as u8] + ascii_bytes(s@).subrange(0, 0));
    }
    let mut i: usize = 0;
    while i < n
        invariant
            ident_wf(s@),
            st@ == s@,
            st.is_ascii(),
            n == s@.len(),
            i <= n,
            out@ == old(out)@ + seq![s@.len() as u8] + ascii_bytes(s@).subrange(0, i as int),
        decreases n - i,
    {
        let b = st.get_ascii(i);
        out.push(b);
        proof {
            assert(ascii_bytes(s@).subrange(0, i + 1) =~= ascii_bytes(s@).subrange(0, i as int)
                + seq![s@[i as int] as u8]);
        }
        i += 1;
    }
    proof {
        assert(ascii_bytes(s@).subrange(0, n as int) =~= ascii_bytes(s@));
        assert(out@ =~= old(out)@ + enc_str(s@));
    }
}

/// Append one length-prefixed data payload field.
fn emit_data(out: &mut Vec<u8>, d: &Vec<u8>)
    requires
        data_wf(d@),
    ensures
        final(out)@ == old(out)@ + enc_data(d@),
{
    out.push(d.len() as u8);
    out.extend_from_slice(d.as_slice());
    proof {
        assert(out@ =~= old(out)@ + enc_data(d@));
    }
}

/// Append four little-endian speed bytes.
fn emit_u32(out: &mut Vec<u8>, x: u32)
    ensures
        final(out)@ == old(out)@ + spec_u32_to_le_bytes(x),
{
    let bs = u32_to_le_bytes(x);
    out.extend_from_slice(bs.as_slice());
    proof {
        assert(out@ =~= old(out)@ + spec_u32_to_le_bytes(x));
    }
}

/// Encode one request into the bytes that travel host-to-device.
pub fn encode_request(r: &Request) -> (out: Vec<u8>)
    requires
        request_wf(r@),
    ensures
        out@ == spec_encode_request(r@),
{
    let mut out: Vec<u8> = Vec::new();
    match r {
        Request::Version => {
            out.push(0);
        },
        Request::Clear => {
            out.push(1);
        },
        Request::Reset => {
            out.push(2);
        },
        Request::GpioInitPP { pin } => {
            out.push(3);
            emit_str(&mut out, pin);
        },
        Request::GpioSetHigh { pin } => {
            out.push(4);
            emit_str(&mut out, pin);
        },
        Request::GpioSetLow { pin } => {
            out.push(5);
            emit_str(&mut out, pin);
        },
        Request::GpioToggle { pin } => {
            out.push(6);
            emit_str(&mut out, pin);
        },
        Request::I2CInit { scl_pin, sda_pin, speed } => {
            out.push(7);
            emit_str(&mut out, scl_pin);
            emit_str(&mut out, sda_pin);
            emit_u32(&mut out, *speed);
        },
        Request::I2CWrite { ident, address, data } => {
            out.push(8);
            emit_str(&mut out, ident);
            out.push(*address);
            emit_data(&mut out, data);
        },
        Request::SPIInit { sck_pin, miso_pin, mosi_pin, speed } => {
            out.push(9);
            emit_str(&mut out, sck_pin);
            emit_str(&mut out, miso_pin);
            emit_str(&mut out, mosi_pin);
            emit_u32(&mut out, *speed);
        },
        Request::SPIWrite { ident, data } => {
            out.push(10);
            emit_str(&mut out, ident);
            emit_data(&mut out, data);
        },
    }
    proof {
        assert(out@ =~= spec_encode_request(r@));
    }
    out
}

/// Encode one reply into the bytes that travel device-to-host.
pub fn encode_reply(r: &Reply) -> (out: Vec<u8>)
    requires
        reply_wf(r@),
    ensures
        out@ == spec_encode_reply(r@),
{
    let mut out: Vec<u8> = Vec::new();
    match r {
        Reply::Success => {
            out.push(0);
        },
        Reply::Incomplete => {
            out.push(1);
        },
        Reply::NotImplemented => {
            out.push(2);
        },
        Reply::Version { version } => {
            out.push(3);
            out.push(*version);
        },
        Reply::VerboseErr { err } => {
            out.push(4);
            emit_str(&mut out, err);
        },
        Reply::ReceiveErr { bytes } => {
            out.push(5);
            out.push(*bytes);
        },
        Reply::Failure { bytes } => {
            out.push(6);
            out.push(*bytes);
        },
    }
    proof {
        assert(out@ =~= spec_encode_reply(r@));
    }
    out
}

} // verus!
