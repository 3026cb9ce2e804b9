//! The device's protocol engine in one piece: bytes in, reply bytes or a
//! gated bus transfer out. The caller owns the serial line and the bus
//! hardware; everything between — framing, decoding, dispatch, reply
//! encoding — happens here.

use vstd::prelude::*;

use crate::codec::{encode_reply, ident_wf, reply_wf, spec_encode_reply};
use crate::dispatch::{
    bus_write_reply, spec_dispatch, CapabilityTable, DispatchOutcome, DispatchOutcomeView,
    TableView,
};
use crate::encoding::{Reply, ReplyView, RequestView};
use crate::frame::{spec_push_byte, FrameAccumulator, FrameStep, FrameStepView, FRAME_CAPACITY};

verus! {

/// The diagnostic text a malformed frame is answered with.
pub open spec fn decode_error_text() -> Seq<char> {
    "decode error"@
}

/// What the device does after receiving one byte.
#[derive(Debug, Clone, PartialEq, Eq)]
pub enum DeviceStep {
    /// Keep reading: the frame is still incomplete and no reply is due.
    Quiet,
    /// Transmit these reply bytes over the serial line.
    Send { bytes: Vec<u8> },
    /// Perform this I2C transfer on the bus hardware, then transmit the
    /// bytes [`transfer_reply`] gives for its outcome.
    I2cTransfer { address: u8, data: Vec<u8> },
    /// Perform this SPI transfer, then answer via [`transfer_reply`].
    SpiTransfer { data: Vec<u8> },
}

/// The mathematical value of a [`DeviceStep`].
#[verifier::ext_equal]
pub enum DeviceStepView {
    Quiet,
    Send { bytes: Seq<u8> },
    I2cTransfer { address: u8, data: Seq<u8> },
    SpiTransfer { data: Seq<u8> },
}

impl View for DeviceStep {
    type V = DeviceStepView;

    open spec fn view(&self) -> DeviceStepView {
        match self {
            DeviceStep::Quiet => DeviceStepView::Quiet,
            DeviceStep::Send { bytes } => DeviceStepView::Send { bytes: bytes@ },
            DeviceStep::I2cTransfer { address, data } => DeviceStepView::I2cTransfer {
                address: *address,
                data: data@,
            },
            DeviceStep::SpiTransfer { data } => DeviceStepView::SpiTransfer { data: data@ },
        }
    }
}

/// The mathematical value of a [`Device`]: its buffered partial frame and
/// its capability table.
#[verifier::ext_equal]
pub struct DeviceView {
    pub buf: Seq<u8>,
    pub table: TableView,
}

/// What one received byte does to the whole device: the accumulator takes
/// the byte; a completed request goes through the dispatch rules; whatever
/// reply is settled is already encoded for the wire.
pub open spec fn spec_device_step(d: DeviceView, b: u8) -> (DeviceView, DeviceStepView) {
    let fs = spec_push_byte(d.buf, b);
    match fs.1 {
        FrameStepView::Pending => (DeviceView { buf: fs.0, ..d }, DeviceStepView::Quiet),
        FrameStepView::Overflow { bytes } => (
            DeviceView { buf: fs.0, ..d },
            DeviceStepView::Send { bytes: spec_encode_reply(ReplyView::ReceiveErr { bytes }) },
        ),
        FrameStepView::Malformed => (
            DeviceView { buf: fs.0, ..d },
            DeviceStepView::Send {
                bytes: spec_encode_reply(ReplyView::VerboseErr { err: decode_error_text() }),
            },
        ),
        FrameStepView::Complete { req } => {
            let stepped = spec_dispatch(d.table, req);
            match stepped.1 {
                DispatchOutcomeView::Replied { reply } => (
                    DeviceView { buf: fs.0, table: stepped.0 },
                    DeviceStepView::Send { bytes: spec_encode_reply(reply) },
                ),
                DispatchOutcomeView::I2cWrite { address, data } => (
                    DeviceView { buf: fs.0, table: stepped.0 },
                    DeviceStepView::I2cTransfer { address, data },
                ),
                DispatchOutcomeView::SpiWrite { data } => (
                    DeviceView { buf: fs.0, table: stepped.0 },
                    DeviceStepView::SpiTransfer { data },
                ),
            }
        },
    }
}

/// Every reply the dispatch rules answer with can be put on the wire.
proof fn lemma_dispatch_reply_wf(t: TableView, r: RequestView)
    ensures
        spec_dispatch(t, r).1 matches DispatchOutcomeView::Replied { reply } ==> reply_wf(reply),
{
}

/// The device-side protocol engine: one frame accumulator and one
/// capability table.
pub struct Device {
    acc: FrameAccumulator,
    table: CapabilityTable,
}

impl View for Device {
    type V = DeviceView;

    closed spec fn view(&self) -> DeviceView {
        DeviceView { buf: self.acc@, table: self.table@ }
    }
}

impl Device {
    /// The buffered frame never exceeds the frame capacity.
    pub open spec fn inv(&self) -> bool {
        self@.buf.len() <= FRAME_CAPACITY
    }

    /// A device fresh at startup: empty frame buffer, the given capability
    /// table.
    pub fn new(table: CapabilityTable) -> (d: Device)
        ensures
            d@.buf == Seq::<u8>::empty(),
            d@.table == table@,
            d.inv(),
    {
        Device { acc: FrameAccumulator::new(), table }
    }

    /// Receive one byte from the transport, exactly as [`spec_device_step`]
    /// describes.
    pub fn on_byte(&mut self, b: u8) -> (step: DeviceStep)
        requires
            old(self).inv(),
        ensures
            final(self).inv(),
            final(self)@ == spec_device_step(old(self)@, b).0,
            step@ == spec_device_step(old(self)@, b).1,
    {
        let fs = self.acc.push_byte(b);
        match fs {
            FrameStep::Pending => DeviceStep::Quiet,
            FrameStep::Overflow { bytes } => DeviceStep::Send {
                bytes: encode_reply(&Reply::ReceiveErr { bytes }),
            },
            FrameStep::Malformed => {
                let err: String = "decode error".to_owned();
                proof {
                    reveal_strlit("decode error");
                    assert(ident_wf(err@));
                }
                DeviceStep::Send { bytes: encode_reply(&Reply::VerboseErr { err }) }
            },
            FrameStep::Complete { req } => {
                proof {
                    lemma_dispatch_reply_wf(self@.table, req@);
                }
                match self.table.dispatch(&req) {
                    DispatchOutcome::Replied { reply } => DeviceStep::Send {
                        bytes: encode_reply(&reply),
                    },
                    DispatchOutcome::I2cWrite { address, data } => DeviceStep::I2cTransfer {
                        address,
                        data,
                    },
                    DispatchOutcome::SpiWrite { data } => DeviceStep::SpiTransfer { data },
                }
            },
        }
    }
}

/// The encoded reply the device transmits once a gated bus transfer has been
/// attempted: success, or a generic failure carrying how many bytes the
/// transfer attempted.
pub fn transfer_reply(ok: bool, bytes_attempted: u8) -> (out: Vec<u8>)
    ensures
        ok ==> out@ == spec_encode_reply(ReplyView::Success),
        !ok ==> out@ == spec_encode_reply(ReplyView::Failure { bytes: bytes_attempted }),
{
    let reply = bus_write_reply(ok, bytes_attempted);
    encode_reply(&reply)
}

} // verus!
