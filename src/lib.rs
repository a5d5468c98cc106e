//! JSON-RPC ingress and dispatch for a peer-to-peer node: envelope validation,
//! method routing, reply framing for the IPC and HTTP frontends, socket cleanup
//! bookkeeping, and random node ids for bucket refresh.
pub mod connection;
pub mod envelope;
pub mod frontend;
pub mod node_id;
pub mod proxy;
pub mod router;
pub mod shutdown;
pub mod text;
