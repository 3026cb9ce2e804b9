//! The host-side transaction layer's logic: the session bring-up state
//! machine with its version gate, and the classification of device replies
//! into typed outcomes. The caller owns the transport; it encodes requests
//! with [`crate::codec::encode_request`], writes them, reads reply bytes,
//! decodes them with [`crate::codec::decode_reply`], and lets this module
//! decide what they mean.

use vstd::prelude::*;

use crate::encoding::{Reply, ReplyView, Request, RequestView, VERSION};

verus! {

/// Where the session bring-up stands.
#[derive(Debug, Clone, Copy, PartialEq, Eq, Structural)]
pub enum SessionPhase {
    /// Nothing sent yet.
    Start,
    /// `Clear` was sent; its reply is owed.
    AwaitClearReply,
    /// `Version` was sent; its reply is owed.
    AwaitVersionReply,
    /// The device's version matches: peripheral commands may flow.
    Established,
    /// The device's version differs: no further request may be issued.
    Aborted,
}

/// One step of the bring-up machine: the phase after consuming a reply, and
/// the next handshake request to send, if one is due. The reply to `Clear`
/// is consumed without inspection; the reply to `Version` settles whether
/// the session may carry peripheral traffic.
pub open spec fn spec_session_step(phase: SessionPhase, reply: ReplyView) -> (
    SessionPhase,
    Option<RequestView>,
) {
    match phase {
        SessionPhase::AwaitClearReply => (
            SessionPhase::AwaitVersionReply,
            Some(RequestView::Version),
        ),
        SessionPhase::AwaitVersionReply => {
            match reply {
                ReplyView::Version { version } => {
                    if version == VERSION {
                        (SessionPhase::Established, None)
                    } else {
                        (SessionPhase::Aborted, None)
                    }
                },
                _ => (SessionPhase::Aborted, None),
            }
        },
        _ => (phase, None),
    }
}

/// The host's handle on one session's bring-up.
pub struct Session {
    phase: SessionPhase,
}

impl View for Session {
    type V = SessionPhase;

    closed spec fn view(&self) -> SessionPhase {
        self.phase
    }
}

impl Session {
    /// A session that has sent nothing yet.
    pub fn new() -> (s: Session)
        ensures
            s@ == SessionPhase::Start,
    {
        Session { phase: SessionPhase::Start }
    }

    /// Open the session: the host first clears any partial frame left on the
    /// device, so the handshake starts from a clean line.
    pub fn begin(&mut self) -> (r: Request)
        requires
            old(self)@ == SessionPhase::Start,
        ensures
            final(self)@ == SessionPhase::AwaitClearReply,
            r@ == RequestView::Clear,
    {
        self.phase = SessionPhase::AwaitClearReply;
        Request::Clear
    }

    /// Consume the device's reply; hand back the next handshake request if
    /// one is due, exactly as [`spec_session_step`] rules.
    pub fn on_reply(&mut self, reply: &Reply) -> (r: Option<Request>)
        ensures
            final(self)@ == spec_session_step(old(self)@, reply@).0,
            match r {
                Some(rq) => spec_session_step(old(self)@, reply@).1 == Some(rq@),
                None => spec_session_step(old(self)@, reply@).1 is None,
            },
    {
        match self.phase {
            SessionPhase::AwaitClearReply => {
                self.phase = SessionPhase::AwaitVersionReply;
                Some(Request::Version)
            },
            SessionPhase::AwaitVersionReply => {
                match reply {
                    Reply::Version { version } => {
                        if *version == VERSION {
                            self.phase = SessionPhase::Established;
                        } else {
                            self.phase = SessionPhase::Aborted;
                        }
                    },
                    _ => {
                        self.phase = SessionPhase::Aborted;
                    },
                }
                None
            },
            _ => None,
        }
    }

    /// Whether peripheral commands may now be issued.
    pub fn ready(&self) -> (b: bool)
        ensures
            b == (self@ is Established),
    {
        match self.phase {
            SessionPhase::Established => true,
            _ => false,
        }
    }

    /// Whether the session was aborted over a version mismatch.
    pub fn aborted(&self) -> (b: bool)
        ensures
            b == (self@ is Aborted),
    {
        match self.phase {
            SessionPhase::Aborted => true,
            _ => false,
        }
    }
}

/// Version gate law: whatever the device answers to `Version`, unless it is
/// a version report equal to this build's constant, the session aborts, owes
/// no further request, and stays aborted with no request ever after. With
/// [`Session::begin`] giving `Clear` and the step function giving at most
/// `Version`, nothing beyond `Clear` and `Version` reaches the transport
/// before the version comparison settles the session.
pub proof fn lemma_version_gate(reply: ReplyView)
    requires
        !(reply matches ReplyView::Version { version } && version == VERSION),
    ensures
        spec_session_step(SessionPhase::AwaitVersionReply, reply).0 is Aborted,
        spec_session_step(SessionPhase::AwaitVersionReply, reply).1 is None,
        forall|later: ReplyView|
            (#[trigger] spec_session_step(SessionPhase::Aborted, later)).0 is Aborted
                && spec_session_step(SessionPhase::Aborted, later).1 is None,
{
}

/// The handshake machine itself only ever asks to send `Version`; together
/// with [`Session::begin`], the requests it issues are `Clear` and `Version`
/// and nothing else.
pub proof fn lemma_handshake_requests(phase: SessionPhase, reply: ReplyView)
    ensures
        spec_session_step(phase, reply).1 matches Some(r) ==> r == RequestView::Version,
{
}

/// Whether the device's reported protocol version can interoperate with this
/// build. A mismatch is fatal to the session: the protocol is not
/// self-describing enough to bridge versions.
pub fn assert_version(device_version: u8) -> (ok: bool)
    ensures
        ok == (device_version == VERSION),
{
    device_version == VERSION
}

/// Whether a reply reports plain success; the capability wrappers accept
/// their operations only on this.
pub fn reply_is_success(r: &Reply) -> (b: bool)
    ensures
        b == (r@ is Success),
{
    match r {
        Reply::Success => true,
        _ => false,
    }
}

/// The version a version reply carries; anything else carries none and the
/// caller reports malformed data.
pub fn version_of_reply(r: &Reply) -> (v: Option<u8>)
    ensures
        match r@ {
            ReplyView::Version { version } => v == Some(version),
            _ => v is None,
        },
{
    match r {
        Reply::Version { version } => Some(*version),
        _ => None,
    }
}

} // verus!
