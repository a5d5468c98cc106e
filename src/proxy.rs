//! The upstream provider's address and the reply built from what it answered.
use vstd::prelude::*;
use vstd::utf8::encode_utf8;
use crate::router::{error_reply, error_text, DispatchReply};
use crate::text::{decimal, push_decimal};

verus! {

/// What came back from one request to the upstream provider.
#[derive(Debug)]
pub enum ProxyOutcome {
    /// The provider answered with this status; `body` is `None` where the
    /// response body could not be read.
    Response { status: u16, body: Option<Vec<u8>> },
    /// The request did not complete; the text describes why.
    Transport(String),
}

pub open spec fn infura_url(project_id: Seq<char>) -> Seq<char> {
    "https://mainnet.infura.io:443/v3/"@ + project_id
}

/// The provider's endpoint for a project id.
pub fn get_infura_url(infura_project_id: &str) -> (r: String)
    ensures
        r@ == infura_url(infura_project_id@),
{
    let mut s = String::from_str("https://mainnet.infura.io:443/v3/");
    s.append(infura_project_id);
    s
}

pub open spec fn is_success_status(status: u16) -> bool {
    200 <= status <= 299
}

/// Why a request to the provider failed, as told to the client.
pub open spec fn failure_detail(outcome: ProxyOutcome) -> Seq<char> {
    match outcome {
        ProxyOutcome::Response { status, body } => if !is_success_status(status) {
            "Responded with status code: "@ + decimal(status as nat)
        } else {
            "Unexpected error when accessing the response body"@
        },
        ProxyOutcome::Transport(detail) => "Request failure: "@ + detail@,
    }
}

/// Whether `r` is the reply for request `id` given `outcome`: the body as it came
/// on a success status, else an error naming the provider's failure.
pub open spec fn is_proxy_reply(id: nat, outcome: ProxyOutcome, r: DispatchReply) -> bool {
    match outcome {
        ProxyOutcome::Response { status, body: Some(b) } if is_success_status(status) =>
            r matches Ok(x) && x@ == b@,
        _ => r matches Err(x) && x@ == encode_utf8(
            error_text(id, "Infura failure: "@ + failure_detail(outcome)),
        ),
    }
}

/// The reply for request `id` from what the upstream provider answered.
pub fn proxy_reply(id: u32, outcome: ProxyOutcome) -> (r: DispatchReply)
    ensures
        is_proxy_reply(id as nat, outcome, r),
{
    let ghost o = outcome;
    let mut message = String::from_str("Infura failure: ");
    match outcome {
        ProxyOutcome::Response { status, body } => {
            if 200 <= status && status <= 299 {
                match body {
                    Some(b) => {
                        return Ok(b);
                    },
                    None => {
                        message.append("Unexpected error when accessing the response body");
                    },
                }
            } else {
                message.append("Responded with status code: ");
                push_decimal(&mut message, status as u64);
            }
        },
        ProxyOutcome::Transport(detail) => {
            message.append("Request failure: ");
            message.append(detail.as_str());
        },
    }
    proof {
        assert(message@ =~= "Infura failure: "@ + failure_detail(o));
    }
    Err(error_reply(id, message.as_str()))
}

} // verus!
