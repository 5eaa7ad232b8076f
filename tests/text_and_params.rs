use electrumd::password::{rand_string, PASSWORD_LEN};
use electrumd::text::{config_json, decimal_text, join, load_wallet_params};
use electrumd::{ConnectParams, SocketAddrV4};
use std::path::PathBuf;

#[test]
fn decimal_of_edge_values() {
    assert_eq!(decimal_text(0), "0");
    assert_eq!(decimal_text(7), "7");
    assert_eq!(decimal_text(10), "10");
    assert_eq!(decimal_text(44842), "44842");
    assert_eq!(decimal_text(65535), "65535");
}

#[test]
fn join_adds_separator() {
    assert_eq!(join("/tmp/abc", "regtest"), "/tmp/abc/regtest");
}

#[test]
fn join_keeps_existing_separator() {
    assert_eq!(join("/tmp/abc/", "regtest"), "/tmp/abc/regtest");
    assert_eq!(join("", "regtest"), "regtest");
}

#[test]
fn join_absolute_part_replaces() {
    assert_eq!(join("/tmp/abc", "/etc"), "/etc");
}

#[test]
fn join_matches_path_join() {
    for (base, part) in [("/tmp/x", "wallets"), ("/tmp/x/", "config"), ("rel", "a/b"), ("/a", "/b")] {
        let expected = PathBuf::from(base).join(part);
        assert_eq!(join(base, part), expected.to_str().unwrap());
    }
}

#[test]
fn config_json_exact_text() {
    let text = config_json(18443, "\"electrumd\"", "\"abc\"");
    assert_eq!(
        text,
        "{\"log_to_file\":true,\"rpcpassword\":\"abc\",\"rpcport\":18443,\"rpcuser\":\"electrumd\"}"
    );
}

#[test]
fn load_wallet_params_exact_text() {
    assert_eq!(load_wallet_params("\"/w\""), "{\"wallet_path\":\"/w\"}");
}

#[test]
fn rand_string_is_alphanumeric() {
    let a = rand_string();
    let b = rand_string();
    assert_eq!(a.chars().count(), PASSWORD_LEN);
    assert_eq!(PASSWORD_LEN, 15);
    assert!(a.chars().all(|c| c.is_ascii_alphanumeric()));
    assert!(b.chars().all(|c| c.is_ascii_alphanumeric()));
    assert_ne!(a, b);
}

#[test]
fn loopback_socket_text() {
    let s = SocketAddrV4::loopback(8080);
    assert_eq!(s.ip(), [127, 0, 0, 1]);
    assert_eq!(s.port(), 8080);
    assert_eq!(s.to_text(), "127.0.0.1:8080");
}

#[test]
fn socket_text_of_other_address() {
    let s = SocketAddrV4::new([192, 168, 10, 255], 1);
    assert_eq!(s.to_text(), "192.168.10.255:1");
}

#[test]
fn rpc_url_of_params() {
    let params = ConnectParams::new(PathBuf::from("/tmp/d"), 44842);
    assert_eq!(params.rpc_url(), "http://127.0.0.1:44842");
    assert_eq!(params.rpc_socket.port(), 44842);
    assert_eq!(params.datadir, PathBuf::from("/tmp/d"));
    let copy = params.clone();
    assert_eq!(copy.rpc_url(), "http://127.0.0.1:44842");
}
