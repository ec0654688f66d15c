use client::backend::{
    health_check_reply, health_check_response, in_decoding_context, list_clients_reply, in_message_list_context, list_clients_response,
    resource_path, Backend, Method, DEFAULT_DS_URL, URL_BYTE_LIMIT, consume_key_package_reply, recv_msgs_reply,
};
use client::framing::has_reserved_prefix;

fn backend() -> Backend {
    Backend::new(DEFAULT_DS_URL).expect("the default URL parses")
}

#[test]
fn no_backend_without_a_url() {
    assert!(Backend::new("not a url").is_none());
    assert!(Backend::new("").is_none());
    assert!(Backend::new("https://mls.example.org").is_some());
}

#[test]
fn fixed_endpoints() {
    let b = backend();
    let r = b.health_check();
    assert_eq!(r.method, Method::Get);
    assert_eq!(r.url, "http://localhost:8080/health");
    let r = b.register_client();
    assert_eq!((r.method, r.url.as_str()), (Method::Post, "http://localhost:8080/clients/register"));
    let r = b.list_clients();
    assert_eq!((r.method, r.url.as_str()), (Method::Get, "http://localhost:8080/clients/list"));
    let r = b.send_welcome();
    assert_eq!((r.method, r.url.as_str()), (Method::Post, "http://localhost:8080/send/welcome"));
    let r = b.send_msg();
    assert_eq!((r.method, r.url.as_str()), (Method::Post, "http://localhost:8080/send/message"));
}

#[test]
fn reset_path_gets_its_slash() {
    let r = backend().reset_server();
    assert_eq!((r.method, r.url.as_str()), (Method::Get, "http://localhost:8080/reset"));
}

#[test]
fn path_replaces_the_base_path() {
    let b = Backend::new("https://example.com/api/v1?x=1").unwrap();
    assert_eq!(b.health_check().url, "https://example.com/health?x=1");
}

#[test]
fn client_endpoints_encode_the_identity() {
    let b = backend();
    let r = b.consume_key_package(b"ab");
    assert_eq!((r.method, r.url.as_str()), (Method::Get, "http://localhost:8080/clients/key_package/YWI="));
    // URL-safe alphabet: 0xfb 0xff encodes as "-_8=" rather than "+/8=".
    let r = b.consume_key_package(&[0xfb, 0xff]);
    assert_eq!(r.url, "http://localhost:8080/clients/key_package/-_8=");
    let r = b.publish_key_packages(true, b"alice").unwrap();
    assert_eq!(
        (r.method, r.url.as_str()),
        (Method::Post, "http://localhost:8080/clients/key_packages/YWxpY2U=")
    );
    let r = b.recv_msgs(true, b"alice").unwrap();
    assert_eq!((r.method, r.url.as_str()), (Method::GetWithBody, "http://localhost:8080/recv/YWxpY2U="));
    let r = b.consume_key_package(b"");
    assert_eq!(r.url, "http://localhost:8080/clients/key_package/");
}

#[test]
fn unregistered_clients_are_refused() {
    let b = backend();
    assert_eq!(
        b.publish_key_packages(false, b"alice"),
        Err("Please register user before publishing key packages".to_string())
    );
    assert_eq!(
        b.recv_msgs(false, b"alice"),
        Err("Please register user before publishing key packages".to_string())
    );
}

#[test]
fn health_reply() {
    assert_eq!(health_check_response(b"alive!"), Ok(()));
    assert_eq!(health_check_response(b"alive"), Err("Health check failed".to_string()));
    assert_eq!(health_check_response(b"alive!!"), Err("Health check failed".to_string()));
    assert_eq!(health_check_response(b""), Err("Health check failed".to_string()));
}

#[test]
fn client_list_reply() {
    // A 32-bit length of 7, then two byte strings with one-byte lengths.
    let reply = [0, 0, 0, 7, 2, b'a', b'b', 3, b'c', b'd', b'e'];
    assert_eq!(list_clients_response(&reply), Ok(vec![b"ab".to_vec(), b"cde".to_vec()]));
    assert_eq!(list_clients_response(&[0, 0, 0, 0]), Ok(vec![]));
}

#[test]
fn client_list_decoding_errors() {
    assert_eq!(
        list_clients_response(&[0, 0]),
        Err("Error decoding server response: EndOfStream".to_string())
    );
}

#[test]
fn error_contexts() {
    assert_eq!(in_decoding_context::<u8>(Ok(3)), Ok(3));
    assert_eq!(
        in_decoding_context::<u8>(Err("InvalidInput".to_string())),
        Err("Error decoding server response: InvalidInput".to_string())
    );
    assert_eq!(
        in_message_list_context::<u8>(Err("TrailingData".to_string())),
        Err("Invalid message list: TrailingData".to_string())
    );
}

#[test]
fn resource_paths() {
    assert_eq!(resource_path("/recv/", "YWI="), "/recv/YWI=");
    assert_eq!(resource_path("/clients/key_package/", ""), "/clients/key_package/");
}

#[test]
fn reserved_length_prefix_is_refused() {
    assert_eq!(
        list_clients_response(&[0, 0, 0, 1, 0xC0]),
        Err("Error decoding server response: InvalidVectorLength".to_string())
    );
    // A reserved prefix after a well-formed byte string.
    assert_eq!(
        list_clients_response(&[0, 0, 0, 9, 2, b'a', b'b', 0xC0, 1, 2, 3, 4, 5]),
        Err("Error decoding server response: InvalidVectorLength".to_string())
    );
}

#[test]
fn reserved_prefix_positions() {
    assert!(has_reserved_prefix(&[0, 0, 0, 1, 0xC0]));
    assert!(!has_reserved_prefix(&[0, 0, 0, 2, 1, 0xC0, 0xFF, 0xFF, 0xFF]));
    assert!(has_reserved_prefix(&[0, 0, 0, 5, 1, 0xC0, 0xFF, 0xFF, 0xFF]));
    assert!(has_reserved_prefix(&[0, 0, 0, 5, 1, 0xC0, 0xC0]));
    // Past the vector's end, or after a non-minimal prefix, nothing is read.
    assert!(!has_reserved_prefix(&[0, 0, 0, 0, 0xC0]));
    assert!(!has_reserved_prefix(&[0, 0, 0, 9, 0x40, 0x01, 0, 0xC0]));
    assert!(!has_reserved_prefix(&[0xC0, 0xC0, 0xC0]));
    // Payload bytes with both top bits set are fine.
    assert_eq!(list_clients_response(&[0, 0, 0, 2, 1, 0xFF]), Ok(vec![vec![0xFF]]));
}

#[test]
fn identity_bounds() {
    let b = backend();
    assert!(b.fits_identity(0));
    assert!(b.fits_identity(1 << 20));
    assert!(b.fits_identity(0x1000_0000));
    assert!(b.fits_identity(0xB000_0000 / 4 * 3 - 0x100));
    assert!(!b.fits_identity(URL_BYTE_LIMIT));
    assert!(!b.fits_identity(usize::MAX));
}

#[test]
fn unregistered_refusal_whatever_the_identity() {
    let b = backend();
    let big = vec![7u8; 1 << 16];
    assert_eq!(
        b.recv_msgs(false, &big),
        Err("Please register user before publishing key packages".to_string())
    );
}

#[test]
fn message_list_context_keeps_values() {
    assert_eq!(in_message_list_context::<Vec<u8>>(Ok(vec![1, 2])), Ok(vec![1, 2]));
}

#[test]
fn exchange_outcomes() {
    assert_eq!(health_check_reply(Err("refused".to_string())), Err("refused".to_string()));
    assert_eq!(health_check_reply(Ok(b"alive!".to_vec())), Ok(()));
    assert_eq!(health_check_reply(Ok(b"dead".to_vec())), Err("Health check failed".to_string()));
    assert_eq!(list_clients_reply(Err("timeout".to_string())), Err("timeout".to_string()));
    assert_eq!(list_clients_reply(Ok(vec![0, 0, 0, 2, 1, 9])), Ok(vec![vec![9]]));
    assert_eq!(
        list_clients_reply(Ok(vec![0, 0, 0])),
        Err("Error decoding server response: EndOfStream".to_string())
    );
}

#[test]
fn decoded_reply_outcomes() {
    assert_eq!(consume_key_package_reply::<u8>(Err("timeout".to_string())), Err("timeout".to_string()));
    assert_eq!(consume_key_package_reply::<u8>(Ok(Ok(7))), Ok(7));
    assert_eq!(
        consume_key_package_reply::<u8>(Ok(Err("EndOfStream".to_string()))),
        Err("Error decoding server response: EndOfStream".to_string())
    );
    assert_eq!(recv_msgs_reply::<u8>(Err("refused".to_string())), Err("refused".to_string()));
    assert_eq!(recv_msgs_reply::<u8>(Ok(Ok(1))), Ok(1));
    assert_eq!(
        recv_msgs_reply::<u8>(Ok(Err("InvalidVectorLength".to_string()))),
        Err("Invalid message list: InvalidVectorLength".to_string())
    );
}

#[test]
fn client_list_reading_corners() {
    let e = |s: &str| Err(format!("Error decoding server response: {s}"));
    assert_eq!(list_clients_response(&[0, 0, 0, 1]), e("InvalidVectorLength"));
    assert_eq!(list_clients_response(&[0, 0, 0, 1, 0x40]), e("EndOfStream"));
    assert_eq!(list_clients_response(&[0, 0, 0, 2, 0x40, 0x01]), e("InvalidVectorLength"));
    assert_eq!(list_clients_response(&[0, 0, 0, 2, 5, 1]), e("EndOfStream"));
    // A string is read whole even past the declared end; trailing bytes stay unread.
    assert_eq!(list_clients_response(&[0, 0, 0, 1, 3, 1, 2, 3]), Ok(vec![vec![1, 2, 3]]));
    assert_eq!(list_clients_response(&[0, 0, 0, 2, 1, 9, 77, 88]), Ok(vec![vec![9]]));
    // Two-byte prefixes.
    let mut reply = vec![0, 0, 0, 66, 0x40, 64];
    reply.extend(std::iter::repeat(7u8).take(64));
    assert_eq!(list_clients_response(&reply), Ok(vec![vec![7u8; 64]]));
    assert_eq!(list_clients_response(&[0, 0, 0, 1, 0]), Ok(vec![vec![]]));
}
