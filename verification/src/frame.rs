//! The device-side frame accumulator: consumes the serial stream one byte at
//! a time into a fixed-capacity buffer, recognises complete, truncated and
//! oversize frames, and recovers the line after an overflow without a device
//! restart.

use vstd::prelude::*;

use crate::codec::{decode_request, spec_decode_request, Decoded, Parsed};
use crate::encoding::{Request, RequestView};

verus! {

/// Capacity of the device's frame buffer, in bytes: a protocol constant. A
/// message longer than this can never be completed; once the buffer is full
/// the next byte is answered with a receive error and the frame is dropped.
pub const FRAME_CAPACITY: usize = 64;

#[verifier::external_type_specification]
#[verifier::external_body]
#[verifier::reject_recursive_types(T)]
pub struct ExHeaplessVec<T, const N: usize>(heapless::Vec<T, N>);

/// The bytes a frame buffer holds, oldest first.
pub uninterp spec fn frame_bytes(v: heapless::Vec<u8, 64>) -> Seq<u8>;

/// Relies on `heapless::Vec::new`: the new vector is empty.
#[verifier::external_body]
fn hvec_new() -> (v: heapless::Vec<u8, 64>)
    ensures
        frame_bytes(v) == Seq::<u8>::empty(),
{
    heapless::Vec::new()
}

/// Relies on `heapless::Vec::push`: it appends the item while the vector is
/// below its capacity, and hands the item back, changing nothing, once the
/// vector is full.
#[verifier::external_body]
fn hvec_push(v: &mut heapless::Vec<u8, 64>, b: u8) -> (r: Result<(), u8>)
    ensures
        frame_bytes(*old(v)).len() < 64 ==> r is Ok && frame_bytes(*final(v)) == frame_bytes(
            *old(v),
        ).push(b),
        frame_bytes(*old(v)).len() >= 64 ==> r is Err && frame_bytes(*final(v)) == frame_bytes(
            *old(v),
        ),
{
    v.push(b)
}

/// Relies on `heapless::Vec::clear`: it removes all contents.
#[verifier::external_body]
fn hvec_clear(v: &mut heapless::Vec<u8, 64>)
    ensures
        frame_bytes(*final(v)) == Seq::<u8>::empty(),
{
    v.clear()
}

/// Relies on `heapless::Vec::len`: the number of items held.
#[verifier::external_body]
fn hvec_len(v: &heapless::Vec<u8, 64>) -> (n: usize)
    ensures
        n == frame_bytes(*v).len(),
{
    v.len()
}

/// Relies on `heapless::Vec::as_slice`: a slice of all items held.
#[verifier::external_body]
fn hvec_contents(v: &heapless::Vec<u8, 64>) -> (s: &[u8])
    ensures
        s@ == frame_bytes(*v),
{
    v.as_slice()
}

/// What one received byte did to the frame buffer.
#[derive(Debug, Clone, PartialEq, Eq)]
pub enum FrameStep {
    /// The byte was buffered; the frame is still incomplete; no reply is due.
    Pending,
    /// The buffer was already full: the frame was dropped and the line
    /// recovered. Report a receive error carrying the count of bytes seen.
    Overflow { bytes: u8 },
    /// A whole request arrived and the buffer was cleared.
    Complete { req: Request },
    /// The buffered bytes can begin no request; the buffer was cleared.
    Malformed,
}

/// The mathematical value of a [`FrameStep`].
#[verifier::ext_equal]
pub enum FrameStepView {
    Pending,
    Overflow { bytes: u8 },
    Complete { req: RequestView },
    Malformed,
}

impl View for FrameStep {
    type V = FrameStepView;

    open spec fn view(&self) -> FrameStepView {
        match self {
            FrameStep::Pending => FrameStepView::Pending,
            FrameStep::Overflow { bytes } => FrameStepView::Overflow { bytes: *bytes },
            FrameStep::Complete { req } => FrameStepView::Complete { req: req@ },
            FrameStep::Malformed => FrameStepView::Malformed,
        }
    }
}

/// What receiving one byte does to a buffer holding `buf`: the buffer
/// afterwards, and the step to act on. An already-full buffer overflows and
/// is dropped; otherwise the byte is appended and a decode is attempted,
/// clearing the buffer whenever it settles the frame either way.
pub open spec fn spec_push_byte(buf: Seq<u8>, b: u8) -> (Seq<u8>, FrameStepView) {
    if buf.len() >= FRAME_CAPACITY {
        (Seq::<u8>::empty(), FrameStepView::Overflow { bytes: buf.len() as u8 })
    } else {
        let grown = buf.push(b);
        match spec_decode_request(grown) {
            Parsed::Done { v, next } => (
                Seq::<u8>::empty(),
                FrameStepView::Complete { req: v },
            ),
            Parsed::More => (grown, FrameStepView::Pending),
            Parsed::Bad => (Seq::<u8>::empty(), FrameStepView::Malformed),
        }
    }
}

/// The device's accumulator for one in-flight frame: a single fixed-capacity
/// byte buffer, append-only until cleared.
pub struct FrameAccumulator {
    buf: heapless::Vec<u8, 64>,
}

impl View for FrameAccumulator {
    type V = Seq<u8>;

    /// The buffered bytes of the partial frame.
    closed spec fn view(&self) -> Seq<u8> {
        frame_bytes(self.buf)
    }
}

impl FrameAccumulator {
    /// An accumulator never holds more than the frame capacity.
    pub open spec fn inv(&self) -> bool {
        self@.len() <= FRAME_CAPACITY
    }

    /// A fresh, empty accumulator.
    pub fn new() -> (a: FrameAccumulator)
        ensures
            a@ == Seq::<u8>::empty(),
            a.inv(),
    {
        FrameAccumulator { buf: hvec_new() }
    }

    /// Drop any buffered partial frame.
    pub fn clear(&mut self)
        ensures
            final(self)@ == Seq::<u8>::empty(),
            final(self).inv(),
    {
        hvec_clear(&mut self.buf);
    }

    /// Receive one byte from the transport, exactly as [`spec_push_byte`]
    /// describes.
    pub fn push_byte(&mut self, b: u8) -> (step: FrameStep)
        requires
            old(self).inv(),
        ensures
            final(self).inv(),
            final(self)@ == spec_push_byte(old(self)@, b).0,
            step@ == spec_push_byte(old(self)@, b).1,
    {
        let pushed = hvec_push(&mut self.buf, b);
        if pushed.is_err() {
            let n = hvec_len(&self.buf);
            hvec_clear(&mut self.buf);
            return FrameStep::Overflow { bytes: n as u8 };
        }
        let outcome = decode_request(hvec_contents(&self.buf));
        match outcome {
            Decoded::Incomplete => FrameStep::Pending,
            Decoded::Complete { value, used: _ } => {
                hvec_clear(&mut self.buf);
                FrameStep::Complete { req: value }
            },
            Decoded::Malformed => {
                hvec_clear(&mut self.buf);
                FrameStep::Malformed
            },
        }
    }
}

} // verus!
