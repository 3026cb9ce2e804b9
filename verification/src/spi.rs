//! The host's wrapper for the remote SPI bus: it owns the bus identifier and
//! its wiring parameters and plans the exact requests each operation sends.

use vstd::prelude::*;
use vstd::slice::slice_to_vec;

use crate::encoding::{Request, RequestView};

verus! {

/// One remote SPI bus instance.
pub struct SPI {
    ident: String,
    sck: String,
    miso: String,
    mosi: String,
    speed: u32,
}

impl SPI {
    /// The bus identifier writes are issued against.
    pub closed spec fn spec_ident(&self) -> Seq<char> {
        self.ident@
    }

    /// The initialisation request this wrapper was built for.
    pub closed spec fn init_view(&self) -> RequestView {
        RequestView::SPIInit {
            sck_pin: self.sck@,
            miso_pin: self.miso@,
            mosi_pin: self.mosi@,
            speed: self.speed,
        }
    }

    /// A wrapper for the bus named `ident`, wired on `sck`/`miso`/`mosi` at
    /// `speed` kHz. Construction is complete once the device has answered
    /// [`Self::init_requests`].
    pub fn new(ident: String, sck: String, miso: String, mosi: String, speed: u32) -> (b: SPI)
        ensures
            b.spec_ident() == ident@,
            b.init_view() == (RequestView::SPIInit {
                sck_pin: sck@,
                miso_pin: miso@,
                mosi_pin: mosi@,
                speed,
            }),
    {
        SPI { ident, sck, miso, mosi, speed }
    }

    /// The construction sequence: clear the device's partial frame, then
    /// initialise the bus.
    pub fn init_requests(&self) -> (r: (Request, Request))
        ensures
            r.0@ == RequestView::Clear,
            r.1@ == self.init_view(),
    {
        (
            Request::Clear,
            Request::SPIInit {
                sck_pin: self.sck.clone(),
                miso_pin: self.miso.clone(),
                mosi_pin: self.mosi.clone(),
                speed: self.speed,
            },
        )
    }

    /// The request that writes `data` over this bus.
    pub fn write_request(&self, data: &[u8]) -> (r: Request)
        ensures
            r@ == (RequestView::SPIWrite { ident: self.spec_ident(), data: data@ }),
    {
        Request::SPIWrite { ident: self.ident.clone(), data: slice_to_vec(data) }
    }
}

} // verus!
