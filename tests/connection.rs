use trin::connection::{Connection, Transport};
use trin::envelope::Envelope;
use trin::frontend::Admission;

fn envelope(jsonrpc: &str, method: &str, id: u32) -> Envelope {
    Envelope { jsonrpc: jsonrpc.to_string(), method: method.to_string(), id, payload: Vec::new() }
}

#[test]
fn next_request_waits_for_reply() {
    let mut c = Connection::new(Transport::Ipc);
    assert!(c.ready());
    let a = c.on_request(envelope("2.0", "eth_blockNumber", 1));
    assert!(matches!(a, Some(Admission::Dispatch(_))));
    assert!(!c.ready());
    assert!(c.on_request(envelope("2.0", "eth_chainId", 2)).is_none());
    assert_eq!(c.on_reply(Ok(b"r1".to_vec())), Some(b"r1".to_vec()));
    assert!(c.ready());
    assert_eq!(c.on_reply(Ok(b"again".to_vec())), None);
    assert!(matches!(c.on_request(envelope("2.0", "eth_chainId", 2)), Some(Admission::Dispatch(_))));
}

#[test]
fn rejected_request_does_not_block_connection() {
    let mut c = Connection::new(Transport::Http);
    match c.on_request(envelope("1.0", "foo", 2)) {
        Some(Admission::Respond(b)) => {
            assert_eq!(
                String::from_utf8(b).unwrap(),
                "HTTP/1.1 400 BAD REQUEST\r\nContent-Length: 36\r\n\r\njsonrpc: Unsupported jsonrpc version"
            );
        }
        _ => panic!("an invalid request was not answered at once"),
    }
    assert!(c.ready());
    assert_eq!(c.on_reply(Ok(Vec::new())), None);
}

#[test]
fn http_connection_frames_replies() {
    let mut c = Connection::new(Transport::Http);
    assert!(c.on_request(envelope("2.0", "eth_blockNumber", 1)).is_some());
    let out = c.on_reply(Err(b"bad".to_vec())).unwrap();
    assert_eq!(String::from_utf8(out).unwrap(), "HTTP/1.1 502 BAD GATEWAY\r\nContent-Length: 3\r\n\r\nbad");
}

#[test]
fn ipc_connection_rejects_with_text() {
    let mut c = Connection::new(Transport::Ipc);
    match c.on_request(envelope("1.1", "foo", 2)) {
        Some(Admission::Respond(b)) => assert_eq!(
            String::from_utf8(b).unwrap(),
            "Unsupported trin request: jsonrpc: Unsupported jsonrpc version"
        ),
        _ => panic!("an invalid request was not answered at once"),
    }
}
