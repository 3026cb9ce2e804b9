//! The host's wrapper for the remote I2C bus: it owns the bus identifier and
//! its wiring parameters and plans the exact requests each operation sends.

use vstd::prelude::*;
use vstd::slice::slice_to_vec;

use crate::encoding::{Request, RequestView};

verus! {

/// One remote I2C bus instance.
pub struct I2C {
    ident: String,
    scl: String,
    sda: String,
    speed: u32,
}

impl I2C {
    /// The bus identifier writes are issued against.
    pub closed spec fn spec_ident(&self) -> Seq<char> {
        self.ident@
    }

    /// A wrapper for the bus named `ident`, wired on `scl`/`sda` at `speed`
    /// kHz. Construction is complete once the device has answered
    /// [`Self::init_requests`].
    pub fn new(ident: String, scl: String, sda: String, speed: u32) -> (b: I2C)
        ensures
            b.spec_ident() == ident@,
            b.init_view() == (RequestView::I2CInit { scl_pin: scl@, sda_pin: sda@, speed }),
    {
        I2C { ident, scl, sda, speed }
    }

    /// The initialisation request this wrapper was built for.
    pub closed spec fn init_view(&self) -> RequestView {
        RequestView::I2CInit { scl_pin: self.scl@, sda_pin: self.sda@, speed: self.speed }
    }

    /// The construction sequence: clear the device's partial frame, then
    /// initialise the bus.
    pub fn init_requests(&self) -> (r: (Request, Request))
        ensures
            r.0@ == RequestView::Clear,
            r.1@ == self.init_view(),
    {
        (
            Request::Clear,
            Request::I2CInit {
                scl_pin: self.scl.clone(),
                sda_pin: self.sda.clone(),
                speed: self.speed,
            },
        )
    }

    /// The request that writes `data` to the device at `address` over this
    /// bus.
    pub fn write_request(&self, address: u8, data: &[u8]) -> (r: Request)
        ensures
            r@ == (RequestView::I2CWrite { ident: self.spec_ident(), address, data: data@ }),
    {
        Request::I2CWrite { ident: self.ident.clone(), address, data: slice_to_vec(data) }
    }
}

} // verus!
