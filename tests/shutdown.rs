use trin::frontend::http_bind_address;
use trin::shutdown::ShutdownState;

#[test]
fn socket_path_is_handed_out_once() {
    let mut s = ShutdownState::new();
    assert!(!s.is_registered());
    assert_eq!(s.take_cleanup(), None);
    assert!(s.register("/tmp/trin-jsonrpc.ipc".to_string()));
    assert!(s.is_registered());
    assert_eq!(s.take_cleanup(), Some("/tmp/trin-jsonrpc.ipc".to_string()));
    assert_eq!(s.take_cleanup(), None);
    assert_eq!(s.take_cleanup(), None);
}

#[test]
fn second_registration_is_refused() {
    let mut s = ShutdownState::new();
    assert!(s.register("/a".to_string()));
    assert!(!s.register("/b".to_string()));
    assert_eq!(s.take_cleanup(), Some("/a".to_string()));
    assert!(!s.register("/c".to_string()));
    assert_eq!(s.take_cleanup(), None);
}

#[test]
fn http_address_is_loopback() {
    assert_eq!(http_bind_address(8545), "127.0.0.1:8545");
    assert_eq!(http_bind_address(0), "127.0.0.1:0");
    assert_eq!(http_bind_address(65535), "127.0.0.1:65535");
}
