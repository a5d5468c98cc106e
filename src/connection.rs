//! The request/reply discipline of one client connection: a request is read
//! only when no earlier one is waiting for its reply, and each dispatched
//! request gets exactly one reply.
use vstd::prelude::*;
use crate::envelope::{version_violation_text, Envelope};
use crate::frontend::{http_admit, ipc_admit, ipc_reply_bytes, process_http_request, Admission};
use crate::router::DispatchReply;

verus! {

/// How replies are framed on a connection.
#[derive(Clone, Copy, Debug, PartialEq, Eq, Structural)]
pub enum Transport {
    Ipc,
    Http,
}

/// One client connection.
#[derive(Debug)]
pub struct Connection {
    pub transport: Transport,
    /// Whether a dispatched request is waiting for its reply.
    pub awaiting_reply: bool,
}

/// The bytes with which a connection rejects a request with an unsupported
/// version: framed as an HTTP 400 response on HTTP, bare on IPC.
pub open spec fn rejection_bytes(transport: Transport) -> Seq<u8> {
    match transport {
        Transport::Ipc => crate::frontend::ipc_rejection_bytes(version_violation_text()),
        Transport::Http => crate::frontend::http_rejection_bytes(version_violation_text()),
    }
}

impl Connection {
    /// A fresh connection, ready to read a request.
    pub fn new(transport: Transport) -> (r: Connection)
        ensures
            r.transport == transport,
            !r.awaiting_reply,
    {
        Connection { transport, awaiting_reply: false }
    }

    /// Whether the next request may be read.
    pub fn ready(&self) -> (r: bool)
        ensures
            r == !self.awaiting_reply,
    {
        !self.awaiting_reply
    }

    /// Takes a request read from the connection. Refused (`None`) while an
    /// earlier request waits for its reply; otherwise the request is validated,
    /// and a valid one is handed out for dispatch and awaited.
    pub fn on_request(&mut self, env: Envelope) -> (r: Option<Admission>)
        ensures
            final(self).transport == old(self).transport,
            (r is Some) == request_taken(old(self).awaiting_reply),
            final(self).awaiting_reply == awaiting_after_request(old(self).awaiting_reply, env.is_valid()),
            r matches Some(a) ==> (a is Dispatch <==> env.is_valid()),
            request_taken(old(self).awaiting_reply) && !env.is_valid() ==> (r matches Some(
                Admission::Respond(b),
            ) && b@ == rejection_bytes(old(self).transport)),
            request_taken(old(self).awaiting_reply) && env.is_valid() ==> r == Some(Admission::Dispatch(env)),
    {
        if self.awaiting_reply {
            return None;
        }
        let a = match self.transport {
            Transport::Ipc => ipc_admit(env),
            Transport::Http => http_admit(env),
        };
        if let Admission::Dispatch(_) = &a {
            self.awaiting_reply = true;
        }
        Some(a)
    }

    /// Takes the dispatcher's reply to the awaited request and returns the bytes
    /// to write; `None` when no request is awaited.
    pub fn on_reply(&mut self, reply: DispatchReply) -> (r: Option<Vec<u8>>)
        ensures
            final(self).transport == old(self).transport,
            !final(self).awaiting_reply,
            (r is Some) == reply_written(old(self).awaiting_reply),
            old(self).awaiting_reply && old(self).transport == Transport::Ipc ==> (r matches Some(
                b,
            ) && b@ == crate::frontend::ipc_response(reply)),
            old(self).awaiting_reply && old(self).transport == Transport::Http ==> (r matches Some(
                b,
            ) && b@ == crate::frontend::http_response(reply)),
    {
        if !self.awaiting_reply {
            return None;
        }
        self.awaiting_reply = false;
        match self.transport {
            Transport::Ipc => Some(ipc_reply_bytes(reply)),
            Transport::Http => Some(process_http_request(reply)),
        }
    }
}

/// Whether a request is taken by a connection in this state.
pub open spec fn request_taken(awaiting_reply: bool) -> bool {
    !awaiting_reply
}

/// Whether a connection awaits a reply after a request, valid or not, arrives.
pub open spec fn awaiting_after_request(awaiting_reply: bool, valid: bool) -> bool {
    awaiting_reply || valid
}

/// Whether a reply is written by a connection in this state.
pub open spec fn reply_written(awaiting_reply: bool) -> bool {
    awaiting_reply
}

/// Whether a connection awaits a reply after the requests `valid` (each marked
/// valid or not) arrive in order, with no reply taken in between.
pub open spec fn awaiting_after_requests(awaiting_reply: bool, valid: Seq<bool>) -> bool
    decreases valid.len(),
{
    if valid.len() == 0 {
        awaiting_reply
    } else {
        awaiting_after_request(awaiting_after_requests(awaiting_reply, valid.drop_last()), valid.last())
    }
}

/// After a valid request is taken, every further request is refused until a
/// reply is written for it: whatever arrives next, the connection still awaits
/// the reply, and refuses the request after that. Taking the reply then clears
/// the wait, so a second reply is refused and the next request is taken.
pub proof fn one_reply_before_next_request(later: Seq<bool>)
    ensures
        request_taken(false),
        awaiting_after_requests(awaiting_after_request(false, true), later),
        !request_taken(awaiting_after_requests(awaiting_after_request(false, true), later)),
        reply_written(awaiting_after_requests(awaiting_after_request(false, true), later)),
        !reply_written(false),
    decreases later.len(),
{
    if later.len() > 0 {
        one_reply_before_next_request(later.drop_last());
    }
}

} // verus!
