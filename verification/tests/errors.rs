use rabbitmqadmin_sdk::error::{handle_response, nf};
use rabbitmqadmin_sdk::Error;

#[test]
fn api_error_displays_status_and_reason() {
    let e = Error::Api {
        status: 401,
        reason: "not authorised".into(),
    };
    assert_eq!(e.message(), "RabbitMQ API error 401: not authorised");
}

#[test]
fn not_found_displays_identifier() {
    let e = Error::NotFound("queue 'q1'".into());
    assert_eq!(e.message(), "resource not found: queue 'q1'");
}

#[test]
fn invalid_url_displays_url() {
    let e = Error::InvalidUrl("ht!tp://nope".into());
    assert_eq!(e.message(), "invalid URL: ht!tp://nope");
}

#[test]
fn deserialize_displays_source_not_body() {
    let source = serde_json::from_str::<String>("42").unwrap_err();
    let e = Error::Deserialize {
        source,
        body: "42".into(),
    };
    let msg = e.message();
    assert!(
        msg.starts_with("failed to deserialize response body: "),
        "got: {msg}"
    );
}

#[test]
fn handle_response_success_returns_body() {
    assert_eq!(
        handle_response(200, "{\"status\":\"ok\"}".into()).unwrap(),
        "{\"status\":\"ok\"}"
    );
    assert_eq!(handle_response(204, String::new()).unwrap(), "");
    assert_eq!(handle_response(299, "x".into()).unwrap(), "x");
}

#[test]
fn handle_response_404_is_not_found_with_body() {
    match handle_response(404, "Object Not Found".into()) {
        Err(Error::NotFound(body)) => assert_eq!(body, "Object Not Found"),
        other => panic!("expected Error::NotFound, got {other:?}"),
    }
}

#[test]
fn handle_response_other_status_is_api_error() {
    match handle_response(401, "not authorised".into()) {
        Err(Error::Api { status, reason }) => {
            assert_eq!(status, 401);
            assert_eq!(reason, "not authorised");
        }
        other => panic!("expected Error::Api, got {other:?}"),
    }
    match handle_response(300, "moved".into()) {
        Err(Error::Api { status, .. }) => assert_eq!(status, 300),
        other => panic!("expected Error::Api, got {other:?}"),
    }
}

#[test]
fn failing_health_check_is_api_503_with_failure_json() {
    let body = r#"{"status":"failed","reason":"memory alarm on node rabbit@host"}"#;
    match handle_response(503, body.into()) {
        Err(Error::Api { status, reason }) => {
            assert_eq!(status, 503);
            assert!(reason.contains("memory alarm"), "got: {reason}");
        }
        other => panic!("expected Error::Api(503), got {other:?}"),
    }
}

#[test]
fn nf_prefixes_not_found_with_context_and_keeps_body() {
    let e = nf(Error::NotFound("Object Not Found".into()), "node 'missing'");
    match e {
        Error::NotFound(msg) => {
            assert_eq!(msg, "node 'missing': Object Not Found");
        }
        other => panic!("expected Error::NotFound, got {other:?}"),
    }
}

#[test]
fn nf_leaves_other_errors_alone() {
    let e = nf(
        Error::Api {
            status: 500,
            reason: "boom".into(),
        },
        "node 'x'",
    );
    match e {
        Error::Api { status, reason } => {
            assert_eq!(status, 500);
            assert_eq!(reason, "boom");
        }
        other => panic!("expected Error::Api, got {other:?}"),
    }
}
