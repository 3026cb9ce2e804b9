//! Laws of the wire codec: decoding inverts encoding, and a proper prefix of
//! a valid frame always reads as "more bytes needed", never as malformed.

use vstd::prelude::*;
use vstd::bytes::{lemma_auto_spec_u32_to_from_le_bytes, spec_u32_from_le_bytes, spec_u32_to_le_bytes};

use crate::codec::{
    ascii_bytes, byte_chars, data_wf, enc_data, enc_str, ident_wf, parse_data, parse_str,
    parse_u32, reply_wf, request_wf, spec_decode_reply, spec_decode_request, spec_encode_reply,
    spec_encode_request, Parsed,
};
use crate::encoding::{ReplyView, RequestView};

verus! {

/// Reading characters back off the bytes of an ASCII string gives the string.
proof fn lemma_ascii_chars_round_trip(s: Seq<char>)
    requires
        ident_wf(s),
    ensures
        byte_chars(ascii_bytes(s)) == s,
{
    assert forall|i: int| 0 <= i < s.len() implies byte_chars(ascii_bytes(s))[i] == s[i] by {
        assert('\0' <= s[i] <= '\u{7f}');
        assert(ascii_bytes(s)[i] == s[i] as u8);
    }
    assert(byte_chars(ascii_bytes(s)) =~= s);
}

/// A string field whose whole encoding lies in the buffer parses to exactly
/// that string.
proof fn lemma_parse_str_done(b: Seq<u8>, pos: int, s: Seq<char>)
    requires
        ident_wf(s),
        0 <= pos,
        pos + 1 + s.len() <= b.len(),
        b.subrange(pos, pos + 1 + s.len() as int) == enc_str(s),
    ensures
        parse_str(b, pos) == (Parsed::Done { v: s, next: pos + 1 + s.len() as int }),
{
    let e = enc_str(s);
    let n = s.len() as int;
    let sub = b.subrange(pos, pos + 1 + n);
    assert(sub[0] == b[pos]);
    assert(e[0] == s.len() as u8);
    assert(b[pos] as int == n);
    assert forall|i: int| pos + 1 <= i < pos + 1 + n implies b[i] == ascii_bytes(s)[i - pos - 1] by {
        assert(sub[i - pos] == b[i]);
        assert(e[i - pos] == ascii_bytes(s)[i - pos - 1]);
    }
    assert forall|i: int| pos + 1 <= i < pos + 1 + n implies b[i] < 128 by {
        assert(s[i - pos - 1] <= '\u{7f}');
        assert(ascii_bytes(s)[i - pos - 1] == s[i - pos - 1] as u8);
    }
    assert(b.subrange(pos + 1, pos + 1 + n) =~= ascii_bytes(s));
    lemma_ascii_chars_round_trip(s);
}

/// A buffer cut short anywhere inside a string field's encoding asks for
/// more bytes.
proof fn lemma_parse_str_more(b: Seq<u8>, pos: int, s: Seq<char>)
    requires
        ident_wf(s),
        0 <= pos <= b.len(),
        b.len() < pos + 1 + s.len(),
        b.subrange(pos, b.len() as int) == enc_str(s).subrange(0, b.len() - pos),
    ensures
        parse_str(b, pos) is More,
{
    if pos + 1 <= b.len() {
        let sub = b.subrange(pos, b.len() as int);
        assert(sub[0] == b[pos]);
        assert(enc_str(s).subrange(0, b.len() - pos)[0] == enc_str(s)[0]);
        assert(enc_str(s)[0] == s.len() as u8);
        assert(b[pos] as int == s.len() as int);
    }
}

/// A data field whose whole encoding lies in the buffer parses to exactly
/// that payload.
proof fn lemma_parse_data_done(b: Seq<u8>, pos: int, d: Seq<u8>)
    requires
        data_wf(d),
        0 <= pos,
        pos + 1 + d.len() <= b.len(),
        b.subrange(pos, pos + 1 + d.len() as int) == enc_data(d),
    ensures
        parse_data(b, pos) == (Parsed::Done { v: d, next: pos + 1 + d.len() as int }),
{
    let n = d.len() as int;
    let sub = b.subrange(pos, pos + 1 + n);
    assert(sub[0] == b[pos]);
    assert(enc_data(d)[0] == d.len() as u8);
    assert(b[pos] as int == n);
    assert forall|i: int| pos + 1 <= i < pos + 1 + n implies b[i] == d[i - pos - 1] by {
        assert(sub[i - pos] == b[i]);
        assert(enc_data(d)[i - pos] == d[i - pos - 1]);
    }
    assert(b.subrange(pos + 1, pos + 1 + n) =~= d);
}

/// A buffer cut short anywhere inside a data field's encoding asks for more
/// bytes.
proof fn lemma_parse_data_more(b: Seq<u8>, pos: int, d: Seq<u8>)
    requires
        data_wf(d),
        0 <= pos <= b.len(),
        b.len() < pos + 1 + d.len(),
        b.subrange(pos, b.len() as int) == enc_data(d).subrange(0, b.len() - pos),
    ensures
        parse_data(b, pos) is More,
{
    if pos + 1 <= b.len() {
        let sub = b.subrange(pos, b.len() as int);
        assert(sub[0] == b[pos]);
        assert(enc_data(d).subrange(0, b.len() - pos)[0] == enc_data(d)[0]);
        assert(enc_data(d)[0] == d.len() as u8);
        assert(b[pos] as int == d.len() as int);
    }
}

/// A speed field whose four bytes lie in the buffer parses to the speed.
proof fn lemma_parse_u32_done(b: Seq<u8>, pos: int, x: u32)
    requires
        0 <= pos,
        pos + 4 <= b.len(),
        b.subrange(pos, pos + 4) == spec_u32_to_le_bytes(x),
    ensures
        parse_u32(b, pos) == (Parsed::Done { v: x, next: pos + 4 }),
{
    lemma_auto_spec_u32_to_from_le_bytes();
    assert(spec_u32_to_le_bytes(x).len() == 4);
    assert(b.subrange(pos, pos + 4) == spec_u32_to_le_bytes(x));
    assert(spec_u32_from_le_bytes(b.subrange(pos, pos + 4)) == x);
}

/// Round trip: decoding the encoding of any well-formed request yields that
/// request, consuming the whole encoding.
#[verifier::rlimit(80)]
#[verifier::spinoff_prover]
pub proof fn lemma_request_round_trip(r: RequestView)
    requires
        request_wf(r),
    ensures
        spec_decode_request(spec_encode_request(r)) == (Parsed::Done {
            v: r,
            next: spec_encode_request(r).len() as int,
        }),
{
    lemma_auto_spec_u32_to_from_le_bytes();
    let b = spec_encode_request(r);
    match r {
        RequestView::Version => {},
        RequestView::Clear => {},
        RequestView::Reset => {},
        RequestView::GpioInitPP { pin } => {
            assert(b.subrange(1, 1 + 1 + pin.len() as int) =~= enc_str(pin));
            lemma_parse_str_done(b, 1, pin);
        },
        RequestView::GpioSetHigh { pin } => {
            assert(b.subrange(1, 1 + 1 + pin.len() as int) =~= enc_str(pin));
            lemma_parse_str_done(b, 1, pin);
        },
        RequestView::GpioSetLow { pin } => {
            assert(b.subrange(1, 1 + 1 + pin.len() as int) =~= enc_str(pin));
            lemma_parse_str_done(b, 1, pin);
        },
        RequestView::GpioToggle { pin } => {
            assert(b.subrange(1, 1 + 1 + pin.len() as int) =~= enc_str(pin));
            lemma_parse_str_done(b, 1, pin);
        },
        RequestView::I2CInit { scl_pin, sda_pin, speed } => {
            let o2 = 1 + 1 + scl_pin.len() as int;
            let o3 = o2 + 1 + sda_pin.len() as int;
            assert(b.subrange(1, o2) =~= enc_str(scl_pin));
            assert(b.subrange(o2, o3) =~= enc_str(sda_pin));
            assert(b.subrange(o3, o3 + 4) =~= spec_u32_to_le_bytes(speed));
            lemma_parse_str_done(b, 1, scl_pin);
            lemma_parse_str_done(b, o2, sda_pin);
            lemma_parse_u32_done(b, o3, speed);
        },
        RequestView::I2CWrite { ident, address, data } => {
            let o2 = 1 + 1 + ident.len() as int;
            let o3 = o2 + 1;
            assert(b.subrange(1, o2) =~= enc_str(ident));
            assert(b[o2] == address);
            assert(b.subrange(o3, o3 + 1 + data.len() as int) =~= enc_data(data));
            lemma_parse_str_done(b, 1, ident);
            lemma_parse_data_done(b, o3, data);
        },
        RequestView::SPIInit { sck_pin, miso_pin, mosi_pin, speed } => {
            let o2 = 1 + 1 + sck_pin.len() as int;
            let o3 = o2 + 1 + miso_pin.len() as int;
            let o4 = o3 + 1 + mosi_pin.len() as int;
            assert(b.subrange(1, o2) =~= enc_str(sck_pin));
            assert(b.subrange(o2, o3) =~= enc_str(miso_pin));
            assert(b.subrange(o3, o4) =~= enc_str(mosi_pin));
            assert(b.subrange(o4, o4 + 4) =~= spec_u32_to_le_bytes(speed));
            lemma_parse_str_done(b, 1, sck_pin);
            lemma_parse_str_done(b, o2, miso_pin);
            lemma_parse_str_done(b, o3, mosi_pin);
            lemma_parse_u32_done(b, o4, speed);
        },
        RequestView::SPIWrite { ident, data } => {
            let o2 = 1 + 1 + ident.len() as int;
            assert(b.subrange(1, o2) =~= enc_str(ident));
            assert(b.subrange(o2, o2 + 1 + data.len() as int) =~= enc_data(data));
            lemma_parse_str_done(b, 1, ident);
            lemma_parse_data_done(b, o2, data);
        },
    }
}

/// Round trip: decoding the encoding of any well-formed reply yields that
/// reply, consuming the whole encoding.
pub proof fn lemma_reply_round_trip(r: ReplyView)
    requires
        reply_wf(r),
    ensures
        spec_decode_reply(spec_encode_reply(r)) == (Parsed::Done {
            v: r,
            next: spec_encode_reply(r).len() as int,
        }),
{
    let b = spec_encode_reply(r);
    match r {
        ReplyView::VerboseErr { err } => {
            assert(b.subrange(1, 1 + 1 + err.len() as int) =~= enc_str(err));
            lemma_parse_str_done(b, 1, err);
        },
        _ => {},
    }
}

/// Incomplete-prefix: every proper prefix of a well-formed request's
/// encoding decodes as "more bytes needed", never as malformed.
pub proof fn lemma_request_prefix_incomplete(r: RequestView, k: int)
    requires
        request_wf(r),
        0 <= k < spec_encode_request(r).len(),
    ensures
        spec_decode_request(spec_encode_request(r).subrange(0, k)) is More,
{
    lemma_auto_spec_u32_to_from_le_bytes();
    let e = spec_encode_request(r);
    let p = e.subrange(0, k);
    if k == 0 {
        return ;
    }
    assert(p[0] == e[0]);
    match r {
        RequestView::Version => {},
        RequestView::Clear => {},
        RequestView::Reset => {},
        RequestView::GpioInitPP { pin } => {
            assert(e.subrange(1, 1 + 1 + pin.len() as int) =~= enc_str(pin));
            lemma_prefix_str_more(e, p, 1, pin);
        },
        RequestView::GpioSetHigh { pin } => {
            assert(e.subrange(1, 1 + 1 + pin.len() as int) =~= enc_str(pin));
            lemma_prefix_str_more(e, p, 1, pin);
        },
        RequestView::GpioSetLow { pin } => {
            assert(e.subrange(1, 1 + 1 + pin.len() as int) =~= enc_str(pin));
            lemma_prefix_str_more(e, p, 1, pin);
        },
        RequestView::GpioToggle { pin } => {
            assert(e.subrange(1, 1 + 1 + pin.len() as int) =~= enc_str(pin));
            lemma_prefix_str_more(e, p, 1, pin);
        },
        RequestView::I2CInit { scl_pin, sda_pin, speed } => {
            let o2 = 1 + 1 + scl_pin.len() as int;
            let o3 = o2 + 1 + sda_pin.len() as int;
            assert(e.subrange(1, o2) =~= enc_str(scl_pin));
            assert(e.subrange(o2, o3) =~= enc_str(sda_pin));
            if k < o2 {
                lemma_prefix_str_more(e, p, 1, scl_pin);
            } else {
                assert(p.subrange(1, o2) =~= e.subrange(1, o2));
                assert(e.subrange(1, o2) =~= enc_str(scl_pin));
                lemma_parse_str_done(p, 1, scl_pin);
                if k < o3 {
                    lemma_prefix_str_more(e, p, o2, sda_pin);
                } else {
                    assert(p.subrange(o2, o3) =~= e.subrange(o2, o3));
                    assert(e.subrange(o2, o3) =~= enc_str(sda_pin));
                    lemma_parse_str_done(p, o2, sda_pin);
                }
            }
        },
        RequestView::I2CWrite { ident, address, data } => {
            let o2 = 1 + 1 + ident.len() as int;
            let o3 = o2 + 1;
            assert(e.subrange(1, o2) =~= enc_str(ident));
            if k < o2 {
                lemma_prefix_str_more(e, p, 1, ident);
            } else {
                assert(p.subrange(1, o2) =~= e.subrange(1, o2));
                assert(e.subrange(1, o2) =~= enc_str(ident));
                lemma_parse_str_done(p, 1, ident);
                if k > o3 {
                    assert(p.subrange(o3, p.len() as int) =~= e.subrange(o3, k).subrange(
                        0,
                        k - o3,
                    ));
                    assert(e.subrange(o3, o3 + 1 + data.len() as int) =~= enc_data(data));
                    assert(p.subrange(o3, p.len() as int) =~= enc_data(data).subrange(0, k - o3));
                    lemma_parse_data_more(p, o3, data);
                }
            }
        },
        RequestView::SPIInit { sck_pin, miso_pin, mosi_pin, speed } => {
            let o2 = 1 + 1 + sck_pin.len() as int;
            let o3 = o2 + 1 + miso_pin.len() as int;
            let o4 = o3 + 1 + mosi_pin.len() as int;
            assert(e.subrange(1, o2) =~= enc_str(sck_pin));
            assert(e.subrange(o2, o3) =~= enc_str(miso_pin));
            assert(e.subrange(o3, o4) =~= enc_str(mosi_pin));
            if k < o2 {
                lemma_prefix_str_more(e, p, 1, sck_pin);
            } else {
                assert(p.subrange(1, o2) =~= e.subrange(1, o2));
                assert(e.subrange(1, o2) =~= enc_str(sck_pin));
                lemma_parse_str_done(p, 1, sck_pin);
                if k < o3 {
                    lemma_prefix_str_more(e, p, o2, miso_pin);
                } else {
                    assert(p.subrange(o2, o3) =~= e.subrange(o2, o3));
                    assert(e.subrange(o2, o3) =~= enc_str(miso_pin));
                    lemma_parse_str_done(p, o2, miso_pin);
                    if k < o4 {
                        lemma_prefix_str_more(e, p, o3, mosi_pin);
                    } else {
                        assert(p.subrange(o3, o4) =~= e.subrange(o3, o4));
                        assert(e.subrange(o3, o4) =~= enc_str(mosi_pin));
                        lemma_parse_str_done(p, o3, mosi_pin);
                    }
                }
            }
        },
        RequestView::SPIWrite { ident, data } => {
            let o2 = 1 + 1 + ident.len() as int;
            assert(e.subrange(1, o2) =~= enc_str(ident));
            if k < o2 {
                lemma_prefix_str_more(e, p, 1, ident);
            } else {
                assert(p.subrange(1, o2) =~= e.subrange(1, o2));
                assert(e.subrange(1, o2) =~= enc_str(ident));
                lemma_parse_str_done(p, 1, ident);
                assert(p.subrange(o2, p.len() as int) =~= e.subrange(o2, k).subrange(0, k - o2));
                assert(e.subrange(o2, o2 + 1 + data.len() as int) =~= enc_data(data));
                assert(p.subrange(o2, p.len() as int) =~= enc_data(data).subrange(0, k - o2));
                lemma_parse_data_more(p, o2, data);
            }
        },
    }
}

/// Incomplete-prefix: every proper prefix of a well-formed reply's encoding
/// decodes as "more bytes needed", never as malformed.
pub proof fn lemma_reply_prefix_incomplete(r: ReplyView, k: int)
    requires
        reply_wf(r),
        0 <= k < spec_encode_reply(r).len(),
    ensures
        spec_decode_reply(spec_encode_reply(r).subrange(0, k)) is More,
{
    let e = spec_encode_reply(r);
    let p = e.subrange(0, k);
    if k == 0 {
        return ;
    }
    assert(p[0] == e[0]);
    match r {
        ReplyView::VerboseErr { err } => {
            assert(e.subrange(1, 1 + 1 + err.len() as int) =~= enc_str(err));
            lemma_prefix_str_more(e, p, 1, err);
        },
        _ => {},
    }
}

/// Bridge: a string field read from a proper prefix of the full buffer,
/// where the field starts at `pos` but the prefix ends inside it, asks for
/// more bytes.
proof fn lemma_prefix_str_more(e: Seq<u8>, p: Seq<u8>, pos: int, s: Seq<char>)
    requires
        ident_wf(s),
        0 <= pos <= p.len(),
        p.len() < pos + 1 + s.len(),
        pos + 1 + s.len() <= e.len(),
        p == e.subrange(0, p.len() as int),
        e.subrange(pos, pos + 1 + s.len() as int) == enc_str(s),
    ensures
        parse_str(p, pos) is More,
{
    assert(p.subrange(pos, p.len() as int) =~= enc_str(s).subrange(0, p.len() - pos));
    lemma_parse_str_more(p, pos, s);
}

} // verus!
