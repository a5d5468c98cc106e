//! The dispatch decision for one validated request: answer locally, forward to
//! an active sub-network, or fall back to the upstream provider.
use vstd::prelude::*;
use vstd::utf8::encode_utf8;
use crate::envelope::Envelope;
use crate::text::{decimal, into_bytes, push_decimal, starts_with, str_eq};

verus! {

/// A sub-network service that can answer requests of its own namespace.
#[derive(Clone, Copy, Debug, PartialEq, Eq, Structural)]
pub enum SubNetwork {
    State,
    History,
}

/// Which sub-networks are running, fixed at startup.
#[derive(Clone, Copy, Debug, PartialEq, Eq, Structural)]
pub struct RouteTable {
    pub state: bool,
    pub history: bool,
}

/// A reply to one request: success bytes or error bytes.
pub type DispatchReply = Result<Vec<u8>, Vec<u8>>;

/// What the dispatcher does with one request.
#[derive(Debug)]
pub enum Action {
    /// Answer at once with this reply.
    Reply(DispatchReply),
    /// Hand the request to a running sub-network and relay its reply.
    Forward(SubNetwork, Envelope),
    /// Send the request to the upstream provider.
    Proxy(Envelope),
}

/// Where a method is served.
pub enum Destination {
    Local,
    Network(SubNetwork),
    Fallback,
}

pub open spec fn client_version_method() -> Seq<char> {
    "web3_clientVersion"@
}

/// The method prefix of each sub-network's namespace.
pub open spec fn namespace_prefix(n: SubNetwork) -> Seq<char> {
    match n {
        SubNetwork::State => "state_"@,
        SubNetwork::History => "history_"@,
    }
}

/// The name under which a sub-network is selected at startup.
pub open spec fn network_name(n: SubNetwork) -> Seq<char> {
    match n {
        SubNetwork::State => "state"@,
        SubNetwork::History => "history"@,
    }
}

pub open spec fn in_namespace(method: Seq<char>, n: SubNetwork) -> bool {
    let p = namespace_prefix(n);
    p.len() <= method.len() && method.subrange(0, p.len() as int) == p
}

impl RouteTable {
    pub open spec fn is_active(self, n: SubNetwork) -> bool {
        match n {
            SubNetwork::State => self.state,
            SubNetwork::History => self.history,
        }
    }

    /// The route table for the sub-networks named in `networks`.
    pub fn from_networks(networks: &Vec<String>) -> (r: RouteTable)
        ensures
            r.state == exists|i: int|
                0 <= i < networks@.len() && #[trigger] networks@[i]@ == network_name(SubNetwork::State),
            r.history == exists|i: int|
                0 <= i < networks@.len() && #[trigger] networks@[i]@ == network_name(SubNetwork::History),
    {
        RouteTable { state: names_network(networks, "state"), history: names_network(networks, "history") }
    }
}

fn names_network(networks: &Vec<String>, name: &str) -> (r: bool)
    ensures
        r == exists|i: int| 0 <= i < networks@.len() && #[trigger] networks@[i]@ == name@,
{
    let mut i: usize = 0;
    while i < networks.len()
        invariant
            i <= networks@.len(),
            forall|j: int| 0 <= j < i ==> #[trigger] networks@[j]@ != name@,
        decreases networks@.len() - i,
    {
        if str_eq(networks[i].as_str(), name) {
            assert(networks@[i as int]@ == name@);
            return true;
        }
        i = i + 1;
    }
    false
}

/// Where `method` is served under `table`: the client version locally, an active
/// sub-network's namespace there, anything else upstream.
pub open spec fn destination(table: RouteTable, method: Seq<char>) -> Destination {
    if method == client_version_method() {
        Destination::Local
    } else if table.state && in_namespace(method, SubNetwork::State) {
        Destination::Network(SubNetwork::State)
    } else if table.history && in_namespace(method, SubNetwork::History) {
        Destination::Network(SubNetwork::History)
    } else {
        Destination::Fallback
    }
}

/// The text of the local answer to a client-version request.
pub open spec fn client_version_text(id: nat) -> Seq<char> {
    "{\"jsonrpc\":\"2.0\",\"id\":"@ + decimal(id) + ",\"result\":\"trin 0.0.1-alpha\"}"@
}

/// The text of an error reply; the id is written as a number, as in a success reply.
pub open spec fn error_text(id: nat, message: Seq<char>) -> Seq<char> {
    "{\"jsonrpc\":\"2.0\",\"id\":"@ + decimal(id) + ",\"error\":\""@ + message + "\"}"@
}

/// Whether `r` is the action for `env` under `table`: the local answer, or the
/// request itself handed on unchanged to where it is served.
pub open spec fn is_action_for(table: RouteTable, env: Envelope, r: Action) -> bool {
    match destination(table, env.method@) {
        Destination::Local => r matches Action::Reply(Ok(b)) && b@ == encode_utf8(
            client_version_text(env.id as nat),
        ),
        Destination::Network(n) => r == Action::Forward(n, env),
        Destination::Fallback => r == Action::Proxy(env),
    }
}

/// The local answer to a client-version request.
pub fn client_version_reply(id: u32) -> (r: Vec<u8>)
    ensures
        r@ == encode_utf8(client_version_text(id as nat)),
{
    let mut s = String::from_str("{\"jsonrpc\":\"2.0\",\"id\":");
    push_decimal(&mut s, id as u64);
    s.append(",\"result\":\"trin 0.0.1-alpha\"}");
    into_bytes(&s)
}

/// An error reply carrying `message` for the request `id`.
pub fn error_reply(id: u32, message: &str) -> (r: Vec<u8>)
    ensures
        r@ == encode_utf8(error_text(id as nat, message@)),
{
    let mut s = String::from_str("{\"jsonrpc\":\"2.0\",\"id\":");
    push_decimal(&mut s, id as u64);
    s.append(",\"error\":\"");
    s.append(message);
    s.append("\"}");
    proof {
        assert(s@ =~= error_text(id as nat, message@));
    }
    into_bytes(&s)
}

/// Why a forwarded request got no reply from its sub-network.
#[derive(Clone, Copy, Debug, PartialEq, Eq, Structural)]
pub enum NetworkFailure {
    /// The sub-network is not running, or no longer takes requests.
    Unavailable,
    /// The sub-network took the request and dropped it unanswered.
    Dropped,
}

/// The error message for a request that `n` failed to answer.
pub open spec fn network_failure_text(n: SubNetwork, f: NetworkFailure) -> Seq<char> {
    network_name(n) + " network "@ + match f {
        NetworkFailure::Unavailable => "unavailable"@,
        NetworkFailure::Dropped => "dropped the request"@,
    }
}

/// The error reply for request `id` that sub-network `network` failed to answer.
pub fn network_failure_reply(id: u32, network: SubNetwork, failure: NetworkFailure) -> (r: Vec<u8>)
    ensures
        r@ == encode_utf8(error_text(id as nat, network_failure_text(network, failure))),
{
    let mut message = match network {
        SubNetwork::State => String::from_str("state"),
        SubNetwork::History => String::from_str("history"),
    };
    message.append(" network ");
    match failure {
        NetworkFailure::Unavailable => message.append("unavailable"),
        NetworkFailure::Dropped => message.append("dropped the request"),
    }
    proof {
        assert(message@ =~= network_failure_text(network, failure));
    }
    error_reply(id, message.as_str())
}

/// Decides what to do with one validated request.
pub fn dispatch(table: RouteTable, env: Envelope) -> (r: Action)
    ensures
        is_action_for(table, env, r),
{
    if str_eq(env.method.as_str(), "web3_clientVersion") {
        let id = env.id;
        Action::Reply(Ok(client_version_reply(id)))
    } else if table.state && starts_with(env.method.as_str(), "state_") {
        Action::Forward(SubNetwork::State, env)
    } else if table.history && starts_with(env.method.as_str(), "history_") {
        Action::Forward(SubNetwork::History, env)
    } else {
        Action::Proxy(env)
    }
}

} // verus!

verus! {

/// A client-version request is answered locally, with a success reply that
/// carries the request's id, and is never forwarded or sent upstream.
pub proof fn client_version_answered_locally(table: RouteTable, env: Envelope, r: Action)
    requires
        env.method@ == client_version_method(),
        is_action_for(table, env, r),
    ensures
        r matches Action::Reply(Ok(b)) && b@ == encode_utf8(client_version_text(env.id as nat)),
        !(r is Forward),
        !(r is Proxy),
{
}

/// A request for any other method outside every active sub-network's namespace
/// is sent upstream unchanged.
pub proof fn unrouted_method_goes_upstream(table: RouteTable, env: Envelope, r: Action)
    requires
        env.method@ != client_version_method(),
        !(table.state && in_namespace(env.method@, SubNetwork::State)),
        !(table.history && in_namespace(env.method@, SubNetwork::History)),
        is_action_for(table, env, r),
    ensures
        r == Action::Proxy(env),
{
}

} // verus!
