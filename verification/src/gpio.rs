//! The host's wrapper for one remote push-pull output pin: it owns the pin's
//! identifier and plans the exact requests each operation sends. The caller
//! performs the transport exchange and accepts an operation only when
//! [`crate::host::reply_is_success`] holds of the reply.

use vstd::prelude::*;

use crate::encoding::{Request, RequestView};

verus! {

/// One remote GPIO pin driven in push-pull output mode.
pub struct PushPullPin {
    pinname: String,
}

impl View for PushPullPin {
    type V = Seq<char>;

    /// The pin's identifier.
    closed spec fn view(&self) -> Seq<char> {
        self.pinname@
    }
}

impl PushPullPin {
    /// A wrapper for the pin named `pinname`. Construction is complete only
    /// once the device has answered success to [`Self::init_requests`].
    pub fn new(pinname: String) -> (p: PushPullPin)
        ensures
            p@ == pinname@,
    {
        PushPullPin { pinname }
    }

    /// The construction sequence: clear the device's partial frame, then
    /// configure the pin as a push-pull output.
    pub fn init_requests(&self) -> (r: (Request, Request))
        ensures
            r.0@ == RequestView::Clear,
            r.1@ == (RequestView::GpioInitPP { pin: self@ }),
    {
        (Request::Clear, Request::GpioInitPP { pin: self.pinname.clone() })
    }

    /// The request that drives the pin high.
    pub fn set_high_request(&self) -> (r: Request)
        ensures
            r@ == (RequestView::GpioSetHigh { pin: self@ }),
    {
        Request::GpioSetHigh { pin: self.pinname.clone() }
    }

    /// The request that drives the pin low.
    pub fn set_low_request(&self) -> (r: Request)
        ensures
            r@ == (RequestView::GpioSetLow { pin: self@ }),
    {
        Request::GpioSetLow { pin: self.pinname.clone() }
    }

    /// The request that toggles the pin.
    pub fn toggle_request(&self) -> (r: Request)
        ensures
            r@ == (RequestView::GpioToggle { pin: self@ }),
    {
        Request::GpioToggle { pin: self.pinname.clone() }
    }
}

} // verus!
