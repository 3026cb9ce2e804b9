//! Laws of the frame accumulator over whole byte streams: an oversize frame
//! is reported exactly once and leaves an empty buffer, and a frame streamed
//! byte by byte stays silent until its last byte completes the request.

use vstd::prelude::*;

use crate::codec::{request_wf, spec_decode_request, spec_encode_request};
use crate::codec_laws::{lemma_request_prefix_incomplete, lemma_request_round_trip};
use crate::encoding::RequestView;
use crate::frame::{spec_push_byte, FrameStepView, FRAME_CAPACITY};

verus! {

/// Feed bytes one at a time into a buffer holding `buf`: the buffer once all
/// are consumed, and the step each byte produced, in order.
pub open spec fn spec_feed(buf: Seq<u8>, bytes: Seq<u8>) -> (Seq<u8>, Seq<FrameStepView>)
    decreases bytes.len(),
{
    if bytes.len() == 0 {
        (buf, Seq::<FrameStepView>::empty())
    } else {
        let first = spec_push_byte(buf, bytes[0]);
        let rest = spec_feed(first.0, bytes.drop_first());
        (rest.0, seq![first.1] + rest.1)
    }
}

/// Filling stage of the overflow law: with `j` of the stream's bytes already
/// buffered and none of its prefixes decodable, the remaining bytes produce
/// silence until the buffer is full, then one overflow report, and leave the
/// buffer empty.
proof fn lemma_feed_filling(all: Seq<u8>, j: int)
    requires
        all.len() == FRAME_CAPACITY + 1,
        0 <= j <= FRAME_CAPACITY,
        forall|k: int|
            1 <= k <= FRAME_CAPACITY ==> spec_decode_request(#[trigger] all.subrange(0, k)) is More,
    ensures
        spec_feed(all.subrange(0, j), all.subrange(j, all.len() as int)).0 == Seq::<u8>::empty(),
        spec_feed(all.subrange(0, j), all.subrange(j, all.len() as int)).1.len() == all.len() - j,
        forall|i: int|
            0 <= i < FRAME_CAPACITY - j ==> spec_feed(
                all.subrange(0, j),
                all.subrange(j, all.len() as int),
            ).1[i] is Pending,
        spec_feed(all.subrange(0, j), all.subrange(j, all.len() as int)).1[FRAME_CAPACITY - j]
            == (FrameStepView::Overflow { bytes: FRAME_CAPACITY as u8 }),
    decreases FRAME_CAPACITY - j,
{
    reveal_with_fuel(spec_feed, 3);
    let buf = all.subrange(0, j);
    let bytes = all.subrange(j, all.len() as int);
    assert(bytes[0] == all[j]);
    if j == FRAME_CAPACITY {
        assert(spec_push_byte(buf, bytes[0]).1 == (FrameStepView::Overflow {
            bytes: FRAME_CAPACITY as u8,
        }));
        assert(bytes.drop_first() =~= Seq::<u8>::empty());
    } else {
        let grown = buf.push(all[j]);
        assert(grown =~= all.subrange(0, j + 1));
        assert(spec_decode_request(all.subrange(0, j + 1)) is More);
        assert(spec_push_byte(buf, bytes[0]) == (grown, FrameStepView::Pending));
        assert(bytes.drop_first() =~= all.subrange(j + 1, all.len() as int));
        lemma_feed_filling(all, j + 1);
        let rest = spec_feed(all.subrange(0, j + 1), all.subrange(j + 1, all.len() as int));
        let steps = spec_feed(buf, bytes).1;
        assert(steps == seq![FrameStepView::Pending] + rest.1);
        assert forall|i: int| 0 <= i < FRAME_CAPACITY - j implies steps[i] is Pending by {
            if i > 0 {
                assert(steps[i] == rest.1[i - 1]);
            }
        }
        assert(steps[FRAME_CAPACITY - j] == rest.1[FRAME_CAPACITY - (j + 1)]);
    }
}

/// Overflow law: feeding one byte more than the frame capacity into an empty
/// accumulator, where no prefix ever completes a message, yields exactly one
/// report, an overflow carrying the capacity as the count of bytes seen, at
/// the final byte, and leaves the buffer empty again.
pub proof fn lemma_overflow_reports_once(bytes: Seq<u8>)
    requires
        bytes.len() == FRAME_CAPACITY + 1,
        forall|k: int|
            1 <= k <= FRAME_CAPACITY ==> spec_decode_request(
                #[trigger] bytes.subrange(0, k),
            ) is More,
    ensures
        spec_feed(Seq::<u8>::empty(), bytes).0 == Seq::<u8>::empty(),
        spec_feed(Seq::<u8>::empty(), bytes).1.len() == FRAME_CAPACITY + 1,
        forall|i: int|
            0 <= i < FRAME_CAPACITY ==> spec_feed(Seq::<u8>::empty(), bytes).1[i] is Pending,
        spec_feed(Seq::<u8>::empty(), bytes).1[FRAME_CAPACITY as int] == (FrameStepView::Overflow {
            bytes: FRAME_CAPACITY as u8,
        }),
{
    assert(bytes.subrange(0, 0) =~= Seq::<u8>::empty());
    assert(bytes.subrange(0, bytes.len() as int) =~= bytes);
    lemma_feed_filling(bytes, 0);
}

/// Filling stage of the streaming law: with `j` bytes of the encoding already
/// buffered, the remaining bytes stay silent until the last one, which
/// completes exactly the encoded request and leaves the buffer empty.
proof fn lemma_stream_filling(r: RequestView, j: int)
    requires
        request_wf(r),
        spec_encode_request(r).len() <= FRAME_CAPACITY,
        0 <= j < spec_encode_request(r).len(),
    ensures
        spec_feed(
            spec_encode_request(r).subrange(0, j),
            spec_encode_request(r).subrange(j, spec_encode_request(r).len() as int),
        ).0 == Seq::<u8>::empty(),
        spec_feed(
            spec_encode_request(r).subrange(0, j),
            spec_encode_request(r).subrange(j, spec_encode_request(r).len() as int),
        ).1.len() == spec_encode_request(r).len() - j,
        forall|i: int|
            0 <= i < spec_encode_request(r).len() - j - 1 ==> spec_feed(
                spec_encode_request(r).subrange(0, j),
                spec_encode_request(r).subrange(j, spec_encode_request(r).len() as int),
            ).1[i] is Pending,
        spec_feed(
            spec_encode_request(r).subrange(0, j),
            spec_encode_request(r).subrange(j, spec_encode_request(r).len() as int),
        ).1[spec_encode_request(r).len() - j - 1] == (FrameStepView::Complete { req: r }),
    decreases spec_encode_request(r).len() - j,
{
    reveal_with_fuel(spec_feed, 3);
    let e = spec_encode_request(r);
    let buf = e.subrange(0, j);
    let bytes = e.subrange(j, e.len() as int);
    assert(bytes[0] == e[j]);
    let grown = buf.push(e[j]);
    assert(grown =~= e.subrange(0, j + 1));
    if j == e.len() - 1 {
        assert(grown =~= e);
        lemma_request_round_trip(r);
        assert(spec_push_byte(buf, bytes[0]).1 == (FrameStepView::Complete { req: r }));
        assert(spec_push_byte(buf, bytes[0]).0 == Seq::<u8>::empty());
        assert(bytes.drop_first() =~= Seq::<u8>::empty());
    } else {
        lemma_request_prefix_incomplete(r, j + 1);
        assert(spec_push_byte(buf, bytes[0]) == (grown, FrameStepView::Pending));
        assert(bytes.drop_first() =~= e.subrange(j + 1, e.len() as int));
        lemma_stream_filling(r, j + 1);
        let rest = spec_feed(e.subrange(0, j + 1), e.subrange(j + 1, e.len() as int));
        let steps = spec_feed(buf, bytes).1;
        assert(steps == seq![FrameStepView::Pending] + rest.1);
        assert forall|i: int| 0 <= i < e.len() - j - 1 implies steps[i] is Pending by {
            if i > 0 {
                assert(steps[i] == rest.1[i - 1]);
            }
        }
        assert(steps[e.len() - j - 1] == rest.1[e.len() - (j + 1) - 1]);
    }
}

/// Streaming law: feeding a well-formed request's whole encoding, byte by
/// byte, into an empty accumulator produces no report until the final byte,
/// which completes exactly that request; the buffer is empty afterwards.
pub proof fn lemma_stream_yields_one_request(r: RequestView)
    requires
        request_wf(r),
        spec_encode_request(r).len() <= FRAME_CAPACITY,
    ensures
        spec_feed(Seq::<u8>::empty(), spec_encode_request(r)).0 == Seq::<u8>::empty(),
        spec_feed(Seq::<u8>::empty(), spec_encode_request(r)).1.len() == spec_encode_request(
            r,
        ).len(),
        forall|i: int|
            0 <= i < spec_encode_request(r).len() - 1 ==> spec_feed(
                Seq::<u8>::empty(),
                spec_encode_request(r),
            ).1[i] is Pending,
        spec_feed(Seq::<u8>::empty(), spec_encode_request(r)).1[spec_encode_request(r).len() - 1]
            == (FrameStepView::Complete { req: r }),
{
    let e = spec_encode_request(r);
    assert(e.len() >= 1);
    assert(e.subrange(0, 0) =~= Seq::<u8>::empty());
    assert(e.subrange(0, e.len() as int) =~= e);
    lemma_stream_filling(r, 0);
}

} // verus!
