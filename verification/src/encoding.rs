//! Protocol values: the request and reply variant sets, their mathematical
//! views, and the constructor functions for each request.

use vstd::prelude::*;
use vstd::slice::slice_to_vec;

verus! {

/// Protocol version shared by host and device; compared once per session.
pub const VERSION: u8 = 5;

/// A command sent from the host to the device.
#[derive(Debug, Clone, PartialEq, Eq)]
pub enum Request {
    Version,
    /// Discard any buffered partial frame on the device.
    Clear,
    /// Best-effort device reset; a target may not support it.
    Reset,
    GpioInitPP { pin: String },
    GpioSetHigh { pin: String },
    GpioSetLow { pin: String },
    GpioToggle { pin: String },
    I2CInit { scl_pin: String, sda_pin: String, speed: u32 },
    I2CWrite { ident: String, address: u8, data: Vec<u8> },
    SPIInit { sck_pin: String, miso_pin: String, mosi_pin: String, speed: u32 },
    SPIWrite { ident: String, data: Vec<u8> },
}

/// The mathematical value of a [`Request`]: identifiers as character
/// sequences, payloads as byte sequences.
#[verifier::ext_equal]
pub enum RequestView {
    Version,
    Clear,
    Reset,
    GpioInitPP { pin: Seq<char> },
    GpioSetHigh { pin: Seq<char> },
    GpioSetLow { pin: Seq<char> },
    GpioToggle { pin: Seq<char> },
    I2CInit { scl_pin: Seq<char>, sda_pin: Seq<char>, speed: u32 },
    I2CWrite { ident: Seq<char>, address: u8, data: Seq<u8> },
    SPIInit { sck_pin: Seq<char>, miso_pin: Seq<char>, mosi_pin: Seq<char>, speed: u32 },
    SPIWrite { ident: Seq<char>, data: Seq<u8> },
}

impl View for Request {
    type V = RequestView;

    open spec fn view(&self) -> RequestView {
        match self {
            Request::Version => RequestView::Version,
            Request::Clear => RequestView::Clear,
            Request::Reset => RequestView::Reset,
            Request::GpioInitPP { pin } => RequestView::GpioInitPP { pin: pin@ },
            Request::GpioSetHigh { pin } => RequestView::GpioSetHigh { pin: pin@ },
            Request::GpioSetLow { pin } => RequestView::GpioSetLow { pin: pin@ },
            Request::GpioToggle { pin } => RequestView::GpioToggle { pin: pin@ },
            Request::I2CInit { scl_pin, sda_pin, speed } => RequestView::I2CInit {
                scl_pin: scl_pin@,
                sda_pin: sda_pin@,
                speed: *speed,
            },
            Request::I2CWrite { ident, address, data } => RequestView::I2CWrite {
                ident: ident@,
                address: *address,
                data: data@,
            },
            Request::SPIInit { sck_pin, miso_pin, mosi_pin, speed } => RequestView::SPIInit {
                sck_pin: sck_pin@,
                miso_pin: miso_pin@,
                mosi_pin: mosi_pin@,
                speed: *speed,
            },
            Request::SPIWrite { ident, data } => RequestView::SPIWrite {
                ident: ident@,
                data: data@,
            },
        }
    }
}

/// An answer sent from the device to the host.
#[derive(Debug, Clone, PartialEq, Eq)]
pub enum Reply {
    /// The command succeeded.
    Success,
    /// A frame is not yet fully received; never a final answer on the wire.
    Incomplete,
    /// The command is well formed but its target or feature is unsupported.
    NotImplemented,
    /// The protocol version the device was built with.
    Version { version: u8 },
    /// A decode or internal error, with diagnostic text.
    VerboseErr { err: String },
    /// The input frame exceeded the device's buffer capacity.
    ReceiveErr { bytes: u8 },
    /// A generic failure, with a byte count for context.
    Failure { bytes: u8 },
}

/// The mathematical value of a [`Reply`].
#[verifier::ext_equal]
pub enum ReplyView {
    Success,
    Incomplete,
    NotImplemented,
    Version { version: u8 },
    VerboseErr { err: Seq<char> },
    ReceiveErr { bytes: u8 },
    Failure { bytes: u8 },
}

impl View for Reply {
    type V = ReplyView;

    open spec fn view(&self) -> ReplyView {
        match self {
            Reply::Success => ReplyView::Success,
            Reply::Incomplete => ReplyView::Incomplete,
            Reply::NotImplemented => ReplyView::NotImplemented,
            Reply::Version { version } => ReplyView::Version { version: *version },
            Reply::VerboseErr { err } => ReplyView::VerboseErr { err: err@ },
            Reply::ReceiveErr { bytes } => ReplyView::ReceiveErr { bytes: *bytes },
            Reply::Failure { bytes } => ReplyView::Failure { bytes: *bytes },
        }
    }
}

pub fn version() -> (r: Request)
    ensures
        r@ == RequestView::Version,
{
    Request::Version
}

/// The version reply this build of the protocol reports for itself.
pub fn current_version() -> (r: Reply)
    ensures
        r@ == (ReplyView::Version { version: VERSION }),
{
    Reply::Version { version: VERSION }
}

pub fn clear() -> (r: Request)
    ensures
        r@ == RequestView::Clear,
{
    Request::Clear
}

pub fn reset() -> (r: Request)
    ensures
        r@ == RequestView::Reset,
{
    Request::Reset
}

pub fn gpio_init_pp(pin: &str) -> (r: Request)
    ensures
        r@ == (RequestView::GpioInitPP { pin: pin@ }),
{
    Request::GpioInitPP { pin: pin.to_owned() }
}

pub fn gpio_setlow(pin: &str) -> (r: Request)
    ensures
        r@ == (RequestView::GpioSetLow { pin: pin@ }),
{
    Request::GpioSetLow { pin: pin.to_owned() }
}

pub fn gpio_sethigh(pin: &str) -> (r: Request)
    ensures
        r@ == (RequestView::GpioSetHigh { pin: pin@ }),
{
    Request::GpioSetHigh { pin: pin.to_owned() }
}

pub fn gpio_toggle(pin: &str) -> (r: Request)
    ensures
        r@ == (RequestView::GpioToggle { pin: pin@ }),
{
    Request::GpioToggle { pin: pin.to_owned() }
}

pub fn i2c_init(scl_pin: &str, sda_pin: &str, speed: u32) -> (r: Request)
    ensures
        r@ == (RequestView::I2CInit { scl_pin: scl_pin@, sda_pin: sda_pin@, speed }),
{
    Request::I2CInit { scl_pin: scl_pin.to_owned(), sda_pin: sda_pin.to_owned(), speed }
}

pub fn i2c_write(ident: &str, address: u8, data: &[u8]) -> (r: Request)
    ensures
        r@ == (RequestView::I2CWrite { ident: ident@, address, data: data@ }),
{
    Request::I2CWrite { ident: ident.to_owned(), address, data: slice_to_vec(data) }
}

pub fn spi_init(sck_pin: &str, miso_pin: &str, mosi_pin: &str, speed: u32) -> (r: Request)
    ensures
        r@ == (RequestView::SPIInit {
            sck_pin: sck_pin@,
            miso_pin: miso_pin@,
            mosi_pin: mosi_pin@,
            speed,
        }),
{
    Request::SPIInit {
        sck_pin: sck_pin.to_owned(),
        miso_pin: miso_pin.to_owned(),
        mosi_pin: mosi_pin.to_owned(),
        speed,
    }
}

pub fn spi_write(ident: &str, data: &[u8]) -> (r: Request)
    ensures
        r@ == (RequestView::SPIWrite { ident: ident@, data: data@ }),
{
    Request::SPIWrite { ident: ident.to_owned(), data: slice_to_vec(data) }
}

} // verus!
