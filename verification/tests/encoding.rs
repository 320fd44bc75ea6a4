use rabbitmqadmin_sdk::encoding::encode_segment;
use rabbitmqadmin_sdk::DEFAULT_VHOST;

#[test]
fn encode_segment_encodes_slash() {
    assert_eq!(encode_segment("/"), "%2F");
}

#[test]
fn encode_segment_encodes_space_as_percent20_not_plus() {
    assert_eq!(encode_segment("my queue"), "my%20queue");
}

#[test]
fn encode_segment_at_sign() {
    // '@' is percent-encoded as "%40", so node names like "rabbit@host"
    // are encoded.
    assert_eq!(encode_segment("rabbit@host"), "rabbit%40host");
}

#[test]
fn encode_segment_default_vhost() {
    assert_eq!(encode_segment(DEFAULT_VHOST), "%2F");
}

#[test]
fn encode_segment_keeps_unreserved_characters() {
    assert_eq!(encode_segment("aZ09*-._"), "aZ09*-._");
    assert_eq!(encode_segment(""), "");
}

#[test]
fn encode_segment_escapes_plus_and_tilde() {
    assert_eq!(encode_segment("a+b"), "a%2Bb");
    assert_eq!(encode_segment("rk~abc123"), "rk%7Eabc123");
}

#[test]
fn encode_segment_connection_name() {
    assert_eq!(
        encode_segment("127.0.0.1:52341 -> 127.0.0.1:5672"),
        "127.0.0.1%3A52341%20-%3E%20127.0.0.1%3A5672"
    );
    assert_eq!(
        encode_segment("127.0.0.1:52341 -> 127.0.0.1:5672 (1)"),
        "127.0.0.1%3A52341%20-%3E%20127.0.0.1%3A5672%20%281%29"
    );
}

#[test]
fn encode_segment_utf8_bytes() {
    // 'é' is U+00E9, encoded in UTF-8 as C3 A9.
    assert_eq!(encode_segment("café"), "caf%C3%A9");
    assert_eq!(encode_segment("?#%"), "%3F%23%25");
}
