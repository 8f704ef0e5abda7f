use revolt_core::server::{delivery_for, AuthEvent, CorsOrigins, Delivery, ServerSettings};

#[test]
fn new_accounts_and_sessions_go_to_everyone() {
    assert!(matches!(delivery_for(&AuthEvent::CreateAccount), Delivery::Global));
    assert!(matches!(delivery_for(&AuthEvent::CreateSession), Delivery::Global));
}

#[test]
fn ended_sessions_go_to_their_user() {
    match delivery_for(&AuthEvent::DeleteSession { user_id: "01HUSER".to_string() }) {
        Delivery::Private(id) => assert_eq!(id, "01HUSER"),
        _ => panic!("expected a private delivery"),
    }
    match delivery_for(&AuthEvent::DeleteAllSessions { user_id: "01HOTHER".to_string() }) {
        Delivery::Private(id) => assert_eq!(id, "01HOTHER"),
        _ => panic!("expected a private delivery"),
    }
}

#[test]
fn standard_settings() {
    let s = ServerSettings::standard();
    assert_eq!(s.address, [0, 0, 0, 0]);
    assert_eq!(s.port, 14702);
    assert_eq!(s.string_limit_bytes, 5_000_000);
    assert!(matches!(s.cors_allowed_origins, CorsOrigins::Any));
    assert_eq!(
        s.cors_allowed_methods,
        vec!["Get", "Put", "Post", "Delete", "Options", "Head", "Trace", "Connect", "Patch"]
    );
    assert_eq!(
        s.cors_exposed_headers,
        vec![
            "X-Ratelimit-Limit",
            "X-Ratelimit-Bucket",
            "X-Ratelimit-Remaining",
            "X-Ratelimit-Reset-After"
        ]
    );
    assert_eq!(s.swagger_spec_url, "/openapi.json");
    assert_eq!(s.legacy_swagger_spec_url, "/0.8/openapi.json");
    assert_eq!(s.pushd_exchange_kind, "direct");
    assert!(s.pushd_exchange_durable);
}
