use rabbitmqadmin_sdk::api::{
    bindings, channels, connections, consumers, definitions, exchanges, health, nodes, overview,
    parameters, permissions, policies, queues, users, vhosts, whoami, Method, Request,
};
use rabbitmqadmin_sdk::PaginationQuery;

const CONN_NAME: &str = "127.0.0.1:52341 -> 127.0.0.1:5672";
const CONN_NAME_ENC: &str = "127.0.0.1%3A52341%20-%3E%20127.0.0.1%3A5672";

fn check(r: &Request, method: Method, path: &str, context: Option<&str>) {
    assert_eq!(r.method, method, "method of {path}");
    assert_eq!(r.path, path);
    assert_eq!(r.context.as_deref(), context, "context of {path}");
    assert!(r.reason.is_none());
}

fn check_plain(r: &Request, method: Method, path: &str) {
    check(r, method, path, None);
    assert!(r.query.is_empty());
}

#[test]
fn whoami_and_overview_requests() {
    check(&whoami(), Method::Get, "whoami", Some("whoami"));
    check_plain(&overview::overview(), Method::Get, "overview");
    check_plain(&overview::cluster_name(), Method::Get, "cluster-name");
}

#[test]
fn node_requests_encode_the_name() {
    check(&nodes::list_nodes(), Method::Get, "nodes", Some("nodes"));
    check(
        &nodes::get_node("rabbit@host"),
        Method::Get,
        "nodes/rabbit%40host",
        Some("node 'rabbit@host'"),
    );
    check(&nodes::get_node("missing"), Method::Get, "nodes/missing", Some("node 'missing'"));
}

#[test]
fn queue_requests() {
    check_plain(&queues::list_queues(), Method::Get, "queues");
    check_plain(&queues::list_queues_in_vhost("/"), Method::Get, "queues/%2F");
    let ctx = Some("queue 'q1' in vhost '/'");
    check(&queues::get_queue("/", "q1"), Method::Get, "queues/%2F/q1", ctx);
    check_plain(&queues::declare_queue("/", "q1"), Method::Put, "queues/%2F/q1");
    check(&queues::delete_queue("/", "q1"), Method::Delete, "queues/%2F/q1", ctx);
    check(&queues::purge_queue("/", "q1"), Method::Delete, "queues/%2F/q1/contents", ctx);
    check_plain(&queues::queue_action("/", "q1"), Method::Post, "queues/%2F/q1/actions");
    check_plain(&queues::get_messages("/", "q1"), Method::Post, "queues/%2F/q1/get");
    assert_eq!(queues::queue_path("my vhost", "a/b"), "queues/my%20vhost/a%2Fb");
}

#[test]
fn paged_requests_carry_the_query() {
    let q = PaginationQuery {
        page: Some(2),
        page_size: Some(50),
        ..Default::default()
    };
    let expected: Vec<(String, String)> = vec![
        ("page".into(), "2".into()),
        ("page_size".into(), "50".into()),
        ("pagination".into(), "true".into()),
    ];
    for (r, path) in [
        (queues::list_queues_paged(&q), "queues"),
        (exchanges::list_exchanges_paged(&q), "exchanges"),
        (bindings::list_bindings_paged(&q), "bindings"),
        (connections::list_connections_paged(&q), "connections"),
    ] {
        check(&r, Method::Get, path, None);
        assert_eq!(r.query, expected);
    }
}

#[test]
fn exchange_requests() {
    check_plain(&exchanges::list_exchanges(), Method::Get, "exchanges");
    check_plain(&exchanges::list_exchanges_in_vhost("/"), Method::Get, "exchanges/%2F");
    check(
        &exchanges::get_exchange("/", "missing"),
        Method::Get,
        "exchanges/%2F/missing",
        Some("exchange 'missing' in vhost '/'"),
    );
    check_plain(&exchanges::declare_exchange("/", "events"), Method::Put, "exchanges/%2F/events");
    check(
        &exchanges::delete_exchange("/", "my ex"),
        Method::Delete,
        "exchanges/%2F/my%20ex",
        Some("exchange 'my ex' in vhost '/'"),
    );
    check_plain(
        &exchanges::publish_to_exchange("/", "amq.direct"),
        Method::Post,
        "exchanges/%2F/amq.direct/publish",
    );
    check_plain(
        &exchanges::list_exchange_bindings_source("/", "amq.direct"),
        Method::Get,
        "exchanges/%2F/amq.direct/bindings/source",
    );
}

#[test]
fn binding_requests() {
    check_plain(&bindings::list_bindings(), Method::Get, "bindings");
    check_plain(&bindings::list_bindings_in_vhost("/"), Method::Get, "bindings/%2F");
    check_plain(&bindings::list_queue_bindings("/", "q1"), Method::Get, "queues/%2F/q1/bindings");
    check_plain(
        &bindings::list_bindings_between("/", "amq.direct", "q1"),
        Method::Get,
        "bindings/%2F/e/amq.direct/q/q1",
    );
    check_plain(&bindings::bind("/", "amq.direct", "q1"), Method::Post, "bindings/%2F/e/amq.direct/q/q1");
    let r = bindings::unbind("/", "amq.direct", "q1", "rk~abc123");
    check(
        &r,
        Method::Delete,
        "bindings/%2F/e/amq.direct/q/q1/rk%7Eabc123",
        Some("binding 'rk~abc123' from exchange 'amq.direct' to queue 'q1' in vhost '/'"),
    );
}

#[test]
fn vhost_and_user_requests() {
    check_plain(&vhosts::list_vhosts(), Method::Get, "vhosts");
    check(&vhosts::get_vhost("nope"), Method::Get, "vhosts/nope", Some("vhost 'nope'"));
    check_plain(&vhosts::create_vhost("prod"), Method::Put, "vhosts/prod");
    check(&vhosts::delete_vhost("/"), Method::Delete, "vhosts/%2F", Some("vhost '/'"));
    check_plain(&vhosts::list_vhost_permissions("/"), Method::Get, "vhosts/%2F/permissions");
    check_plain(&users::list_users(), Method::Get, "users");
    check(&users::get_user("app"), Method::Get, "users/app", Some("user 'app'"));
    check_plain(&users::create_user("app"), Method::Put, "users/app");
    check(&users::delete_user("app svc"), Method::Delete, "users/app%20svc", Some("user 'app svc'"));
    check_plain(&users::list_user_permissions("guest"), Method::Get, "users/guest/permissions");
}

#[test]
fn permission_requests() {
    check_plain(&permissions::set_permission("/", "guest"), Method::Put, "permissions/%2F/guest");
    check(
        &permissions::delete_permission("/", "guest"),
        Method::Delete,
        "permissions/%2F/guest",
        Some("permission for user 'guest' in vhost '/'"),
    );
}

#[test]
fn policy_requests() {
    check_plain(&policies::list_policies(), Method::Get, "policies");
    check_plain(&policies::list_policies_in_vhost("/"), Method::Get, "policies/%2F");
    let ctx = Some("policy 'ha-all' in vhost '/'");
    check(&policies::get_policy("/", "ha-all"), Method::Get, "policies/%2F/ha-all", ctx);
    check_plain(&policies::set_policy("/", "ha-all"), Method::Put, "policies/%2F/ha-all");
    check(&policies::delete_policy("/", "ha-all"), Method::Delete, "policies/%2F/ha-all", ctx);
    check_plain(&policies::list_operator_policies(), Method::Get, "operator-policies");
    check_plain(
        &policies::list_operator_policies_in_vhost("/"),
        Method::Get,
        "operator-policies/%2F",
    );
    let octx = Some("operator policy 'qlimit' in vhost '/'");
    check(
        &policies::get_operator_policy("/", "qlimit"),
        Method::Get,
        "operator-policies/%2F/qlimit",
        octx,
    );
    check_plain(
        &policies::set_operator_policy("/", "qlimit"),
        Method::Put,
        "operator-policies/%2F/qlimit",
    );
    check(
        &policies::delete_operator_policy("/", "qlimit"),
        Method::Delete,
        "operator-policies/%2F/qlimit",
        octx,
    );
}

#[test]
fn parameter_requests() {
    check_plain(&parameters::list_parameters(None), Method::Get, "parameters");
    check_plain(
        &parameters::list_parameters(Some("federation-upstream")),
        Method::Get,
        "parameters/federation-upstream",
    );
    check_plain(
        &parameters::list_parameters_in_vhost("federation-upstream", "/"),
        Method::Get,
        "parameters/federation-upstream/%2F",
    );
    let ctx = Some("parameter 'up1' of component 'federation-upstream' in vhost '/'");
    check(
        &parameters::get_parameter("federation-upstream", "/", "up1"),
        Method::Get,
        "parameters/federation-upstream/%2F/up1",
        ctx,
    );
    check_plain(
        &parameters::set_parameter("federation-upstream", "/", "up1"),
        Method::Put,
        "parameters/federation-upstream/%2F/up1",
    );
    check(
        &parameters::delete_parameter("federation-upstream", "/", "up1"),
        Method::Delete,
        "parameters/federation-upstream/%2F/up1",
        ctx,
    );
}

#[test]
fn connection_channel_consumer_requests() {
    check_plain(&connections::list_connections(), Method::Get, "connections");
    let path = format!("connections/{CONN_NAME_ENC}");
    let ctx = format!("connection '{CONN_NAME}'");
    check(&connections::get_connection(CONN_NAME), Method::Get, &path, Some(&ctx));
    check(&connections::close_connection(CONN_NAME, None), Method::Delete, &path, Some(&ctx));
    let r = connections::close_connection(CONN_NAME, Some("going away"));
    assert_eq!(r.method, Method::Delete);
    assert_eq!(r.path, path);
    assert_eq!(r.reason.as_deref(), Some("going away"));
    check_plain(
        &connections::list_connection_channels(CONN_NAME),
        Method::Get,
        &format!("{path}/channels"),
    );
    check_plain(&channels::list_channels(), Method::Get, "channels");
    let ch = "127.0.0.1:52341 -> 127.0.0.1:5672 (1)";
    check(
        &channels::get_channel(ch),
        Method::Get,
        "channels/127.0.0.1%3A52341%20-%3E%20127.0.0.1%3A5672%20%281%29",
        Some("channel '127.0.0.1:52341 -> 127.0.0.1:5672 (1)'"),
    );
    check_plain(&consumers::list_consumers(), Method::Get, "consumers");
    check_plain(&consumers::list_consumers_in_vhost("/"), Method::Get, "consumers/%2F");
}

#[test]
fn definitions_and_health_requests() {
    check_plain(&definitions::export_definitions(), Method::Get, "definitions");
    check_plain(&definitions::export_definitions_in_vhost("/"), Method::Get, "definitions/%2F");
    check_plain(&definitions::import_definitions(), Method::Post, "definitions");
    check_plain(&health::health_check_alarms(), Method::Get, "health/checks/alarms");
    check_plain(&health::health_check_local_alarms(), Method::Get, "health/checks/local-alarms");
    check_plain(
        &health::health_check_port_listener(5672),
        Method::Get,
        "health/checks/port-listener/5672",
    );
    check_plain(&health::health_check_port_listener(0), Method::Get, "health/checks/port-listener/0");
    check_plain(
        &health::health_check_protocol_listener("amqp"),
        Method::Get,
        "health/checks/protocol-listener/amqp",
    );
    check_plain(
        &health::health_check_node_is_quorum_critical(),
        Method::Get,
        "health/checks/node-is-quorum-critical",
    );
    check_plain(&health::health_check_virtual_hosts(), Method::Get, "health/checks/virtual-hosts");
    check_plain(&health::list_alarms(), Method::Get, "alarms");
    check_plain(&health::rebalance_queues(), Method::Post, "rebalance/queues");
}

#[test]
fn distinct_names_give_distinct_paths() {
    assert_ne!(queues::queue_path("a/b", "c"), queues::queue_path("a", "b/c"));
    assert_ne!(exchanges::exchange_path("a b", "c"), exchanges::exchange_path("a+b", "c"));
    assert_ne!(
        bindings::binding_path("v", "e/q/x", "y"),
        bindings::binding_path("v", "e", "x/y")
    );
    assert_ne!(permissions::permission_path("%2F", "u"), permissions::permission_path("/", "u"));
}

#[test]
fn names_with_leading_slashes_still_give_relative_paths() {
    for r in [
        queues::get_queue("/", "/q"),
        exchanges::get_exchange("/", "/x"),
        vhosts::get_vhost("/"),
        users::get_user("/u"),
    ] {
        assert!(!r.path.starts_with('/'), "{}", r.path);
    }
}

#[test]
fn request_paths_join_onto_the_base_unchanged() {
    let c = rabbitmqadmin_sdk::Client::new("http://localhost:15672", "guest", "guest").unwrap();
    for r in [
        queues::get_queue("/", "my.queue"),
        exchanges::get_exchange("my vhost", "amq.direct"),
        users::get_user("a/b"),
    ] {
        assert_eq!(c.url(&r.path).unwrap(), format!("{}{}", c.base_url(), r.path));
        assert!(c.url(&r.path).unwrap().starts_with("http://localhost:15672/api/"));
    }
}
