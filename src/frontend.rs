//! What the IPC and HTTP frontends write back for each request they parse.
use vstd::prelude::*;
use vstd::utf8::encode_utf8;
use crate::envelope::{version_violation_text, violations_text, Envelope, ValidationErrors};
use crate::router::DispatchReply;
use crate::text::{decimal, into_bytes, push_decimal};

verus! {

/// What a frontend does with one parsed request.
#[derive(Debug)]
pub enum Admission {
    /// Write these bytes back at once; the dispatcher is not involved.
    Respond(Vec<u8>),
    /// Hand the request to the dispatcher and wait for its reply.
    Dispatch(Envelope),
}

/// The text with which the IPC frontend rejects an invalid request.
pub open spec fn ipc_rejection_text(message: Seq<char>) -> Seq<char> {
    "Unsupported trin request: "@ + message
}

/// The bytes with which the IPC frontend rejects an invalid request.
pub open spec fn ipc_rejection_bytes(message: Seq<char>) -> Seq<u8> {
    encode_utf8(ipc_rejection_text(message))
}

pub open spec fn bad_request_status_line() -> Seq<char> {
    "HTTP/1.1 400 BAD REQUEST"@
}

/// The response with which the HTTP frontend rejects an invalid request:
/// status 400, with the violations as the body.
pub open spec fn http_rejection_bytes(message: Seq<char>) -> Seq<u8> {
    encode_utf8(http_head(bad_request_status_line(), encode_utf8(message).len())) + encode_utf8(
        message,
    )
}

/// The header of an HTTP response with the given status line and body length.
pub open spec fn http_head(status_line: Seq<char>, len: nat) -> Seq<char> {
    status_line + "\r\nContent-Length: "@ + decimal(len) + "\r\n\r\n"@
}

pub open spec fn ok_status_line() -> Seq<char> {
    "HTTP/1.1 200 OK"@
}

pub open spec fn bad_gateway_status_line() -> Seq<char> {
    "HTTP/1.1 502 BAD GATEWAY"@
}

/// The HTTP response that carries a dispatcher reply: 200 for a success,
/// 502 for an error, with the reply bytes as the body.
pub open spec fn http_response(reply: DispatchReply) -> Seq<u8> {
    match reply {
        Ok(b) => encode_utf8(http_head(ok_status_line(), b@.len())) + b@,
        Err(b) => encode_utf8(http_head(bad_gateway_status_line(), b@.len())) + b@,
    }
}

/// The bytes written on an IPC connection for a dispatcher reply: the payload
/// itself, success or error, with no framing.
pub open spec fn ipc_response(reply: DispatchReply) -> Seq<u8> {
    match reply {
        Ok(b) => b@,
        Err(b) => b@,
    }
}

/// The rejection written on an IPC connection for an invalid request.
pub fn ipc_rejection(errors: &ValidationErrors) -> (r: Vec<u8>)
    ensures
        r@ == ipc_rejection_bytes(violations_text(errors.violations@)),
{
    let mut s = String::from_str("Unsupported trin request: ");
    let m = errors.message();
    s.append(m.as_str());
    into_bytes(&s)
}

/// The rejection sent over HTTP for an invalid request.
pub fn http_rejection(errors: &ValidationErrors) -> (r: Vec<u8>)
    ensures
        r@ == http_rejection_bytes(violations_text(errors.violations@)),
{
    let m = errors.message();
    let mut body = into_bytes(&m);
    let mut head = String::from_str("HTTP/1.1 400 BAD REQUEST");
    head.append("\r\nContent-Length: ");
    push_decimal(&mut head, body.len() as u64);
    head.append("\r\n\r\n");
    let mut out = into_bytes(&head);
    let ghost h = out@;
    let ghost b = body@;
    out.append(&mut body);
    proof {
        assert(out@ =~= h + b);
    }
    out
}

/// Validates a request on an IPC connection: an invalid one is answered at once.
pub fn ipc_admit(env: Envelope) -> (r: Admission)
    ensures
        env.is_valid() ==> r == Admission::Dispatch(env),
        !env.is_valid() ==> (r matches Admission::Respond(b) && b@ == ipc_rejection_bytes(
            version_violation_text(),
        )),
{
    match env.validate() {
        Ok(()) => Admission::Dispatch(env),
        Err(e) => Admission::Respond(ipc_rejection(&e)),
    }
}

/// Validates a request on an HTTP connection: an invalid one is answered at
/// once with status 400.
pub fn http_admit(env: Envelope) -> (r: Admission)
    ensures
        env.is_valid() ==> r == Admission::Dispatch(env),
        !env.is_valid() ==> (r matches Admission::Respond(b) && b@ == http_rejection_bytes(
            version_violation_text(),
        )),
{
    match env.validate() {
        Ok(()) => Admission::Dispatch(env),
        Err(e) => Admission::Respond(http_rejection(&e)),
    }
}

/// The bytes written on an IPC connection for a dispatcher reply.
pub fn ipc_reply_bytes(reply: DispatchReply) -> (r: Vec<u8>)
    ensures
        r@ == ipc_response(reply),
{
    match reply {
        Ok(b) => b,
        Err(b) => b,
    }
}

/// The HTTP response for a dispatcher reply.
pub fn process_http_request(reply: DispatchReply) -> (r: Vec<u8>)
    ensures
        r@ == http_response(reply),
{
    let ghost g = reply;
    let (mut head, mut body) = match reply {
        Ok(b) => (String::from_str("HTTP/1.1 200 OK"), b),
        Err(b) => (String::from_str("HTTP/1.1 502 BAD GATEWAY"), b),
    };
    head.append("\r\nContent-Length: ");
    push_decimal(&mut head, body.len() as u64);
    head.append("\r\n\r\n");
    let mut out = into_bytes(&head);
    let ghost h = out@;
    out.append(&mut body);
    proof {
        assert(out@ =~= h + (match g { Ok(b) => b@, Err(b) => b@ }));
    }
    out
}

pub open spec fn http_address(port: u16) -> Seq<char> {
    "127.0.0.1:"@ + decimal(port as nat)
}

/// The loopback address on which the HTTP frontend listens.
pub fn http_bind_address(port: u16) -> (r: String)
    ensures
        r@ == http_address(port),
{
    let mut s = String::from_str("127.0.0.1:");
    push_decimal(&mut s, port as u64);
    s
}

} // verus!
