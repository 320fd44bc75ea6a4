use rabbitmqadmin_sdk::{Client, Error};

#[test]
fn url_joins_relative_path_onto_api_base() {
    let c = Client::new("http://localhost:15672", "guest", "guest").unwrap();
    let u = c.url("nodes").unwrap();
    assert_eq!(u.as_str(), "http://localhost:15672/api/nodes");
}

#[test]
fn base_url_normalization_all_suffixes() {
    for suffix in ["", "/", "/api", "/api/", "///"] {
        let c = Client::new(&format!("http://127.0.0.1:15672{suffix}"), "guest", "guest").unwrap();
        assert_eq!(c.base_url(), "http://127.0.0.1:15672/api/", "suffix {suffix:?}");
        assert_eq!(
            c.url("whoami").unwrap(),
            "http://127.0.0.1:15672/api/whoami",
            "suffix {suffix:?}"
        );
    }
}

#[test]
fn base_url_with_path_prefix_keeps_it() {
    let c = Client::new("https://broker.example/rabbit/", "guest", "guest").unwrap();
    assert_eq!(c.base_url(), "https://broker.example/rabbit/api/");
    assert_eq!(
        c.url("queues/%2F/q1").unwrap(),
        "https://broker.example/rabbit/api/queues/%2F/q1"
    );
}

#[test]
fn authorization_header_is_basic_base64_of_credentials() {
    let c = Client::new("http://localhost:15672", "guest", "guest").unwrap();
    assert_eq!(c.authorization(), "Basic Z3Vlc3Q6Z3Vlc3Q=");
    let b = Client::builder("http://localhost:15672", "admin", "s3cret")
        .build()
        .unwrap();
    assert_eq!(b.authorization(), "Basic YWRtaW46czNjcmV0");
}

#[test]
fn missing_scheme_is_rejected() {
    match Client::new("localhost:15672", "guest", "guest") {
        Err(Error::InvalidUrl(msg)) => {
            assert_eq!(
                msg,
                "invalid base URL 'localhost:15672': scheme must be http or https"
            );
        }
        Err(other) => panic!("expected Error::InvalidUrl, got {other:?}"),
        Ok(_) => panic!("expected an error"),
    }
}

#[test]
fn other_scheme_is_rejected() {
    match Client::new("ftp://broker:21", "guest", "guest") {
        Err(Error::InvalidUrl(msg)) => assert!(msg.contains("scheme must be http or https")),
        Err(other) => panic!("expected Error::InvalidUrl, got {other:?}"),
        Ok(_) => panic!("expected an error"),
    }
}

#[test]
fn unparsable_base_url_is_rejected_with_the_input() {
    match Client::new("http://[::1", "guest", "guest") {
        Err(Error::InvalidUrl(msg)) => assert!(msg.starts_with("http://[::1: "), "got: {msg}"),
        Err(other) => panic!("expected Error::InvalidUrl, got {other:?}"),
        Ok(_) => panic!("expected an error"),
    }
}

#[test]
fn base_url_with_query_or_fragment_is_rejected() {
    for (base, expected) in [
        ("http://h/?x", "invalid base URL 'http://h/?x': must not have a query or fragment"),
        ("http://h/#f", "invalid base URL 'http://h/#f': must not have a query or fragment"),
    ] {
        match Client::new(base, "guest", "guest") {
            Err(Error::InvalidUrl(msg)) => assert_eq!(msg, expected),
            Err(other) => panic!("expected Error::InvalidUrl, got {other:?}"),
            Ok(c) => panic!("expected an error, got a client for {}", c.base_url()),
        }
    }
}

#[test]
fn base_url_whose_path_loses_api_is_rejected() {
    match Client::new("http://", "guest", "guest") {
        Err(Error::InvalidUrl(msg)) => {
            assert_eq!(msg, "invalid base URL 'http://': path must end in /api/")
        }
        Err(other) => panic!("expected Error::InvalidUrl, got {other:?}"),
        Ok(c) => panic!("expected an error, got a client for {}", c.base_url()),
    }
}

#[test]
fn cloned_client_keeps_its_settings() {
    let c = Client::new("http://localhost:15672/", "guest", "guest").unwrap();
    let d = c.clone();
    assert_eq!(d.base_url(), c.base_url());
    assert_eq!(d.authorization(), c.authorization());
}
