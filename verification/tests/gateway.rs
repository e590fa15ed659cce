use pim::api_gateway::config::default_user_service_url;
use pim::api_gateway::middlewares::{AuthenticatedUser, HttpMetrics, LogLevel, RequestId, RequestLogging};
use pim::api_gateway::{AppConfig, AppError, AuthError, Settings, UserError, ValidationError};
use pim::common::telemetry::{classify_grpc_error_kind, grpc_error_kind, trailer_status, GrpcMetricsLayer};
use pim::gateway::handlers::{greeting, validate_login, validate_registration};
use pim::gateway::time::{unix_timestamp, unix_timestamp_millis};
use pim::gateway::user_service::UserService;
use pim::api_gateway::handlers::{current_user_profile, list_user_profiles, user_profile};
use pim::infra_telemetry::options::metrics_bind_address;
use pim::infra_telemetry::{metrics_response, PrometheusOptions};

#[test]
fn test_unix_timestamp() {
    let ts = unix_timestamp();
    assert!(ts > 0);
    assert!(unix_timestamp_millis() >= ts * 1000);
}

#[test]
fn default_settings_and_bind_address() {
    let cfg = AppConfig::new(Settings::default());
    assert_eq!(cfg.bind_address(), "127.0.0.1:8080");
    assert_eq!(cfg.app_name(), "api-gateway");
    assert_eq!(cfg.user_service_url(), "http://127.0.0.1:50051");
    assert_eq!(cfg.zitadel_authority(), "https://localhost.zitadel.cloud");
    assert_eq!(cfg.zitadel_key_file(), "zitadel-key.json");
    assert_eq!(default_user_service_url(), "http://127.0.0.1:50051");
    let mut s = Settings::default();
    s.app.host = "0.0.0.0".into();
    s.app.port = 65535;
    assert_eq!(AppConfig::new(s).bind_address(), "0.0.0.0:65535");
}

#[test]
fn app_error_kinds_and_statuses() {
    let e = AppError::User(UserError::NotFound { user_id: "0".into() });
    assert_eq!((e.kind(), e.status_code()), ("user", 404));
    let e = AppError::Internal(anyhow::Error::msg("boom"));
    assert_eq!((e.kind(), e.status_code()), ("internal", 500));
}

#[test]
fn error_messages() {
    assert_eq!(AuthError::InvalidToken.to_string(), "Invalid or expired token");
    assert_eq!(ValidationError::WeakPassword { min_len: 8 }.to_string(), "Password must be at least 8 characters");
    assert_eq!(ValidationError::MissingCredentials.to_string(), "Email and password are required");
}

#[test]
fn middleware_decisions() {
    assert_eq!(HttpMetrics::method_label("GET", Some("/api/v1/users/{id}")), "GET /api/v1/users/{id}");
    assert_eq!(HttpMetrics::method_label("GET", None), "unknown");
    assert_eq!(HttpMetrics::error_kind(404), Some("logic"));
    assert_eq!(HttpMetrics::error_kind(503), Some("system"));
    assert_eq!(HttpMetrics::error_kind(399), None);
    assert_eq!(RequestLogging::finished_level(500), LogLevel::Error);
    assert_eq!(RequestLogging::finished_level(404), LogLevel::Warn);
    assert_eq!(RequestLogging::finished_level(200), LogLevel::Info);
    assert_eq!(RequestId::resolve(Some("abc".into())), "abc");
    assert_eq!(RequestId::resolve(None).len(), 36);
    let m = HttpMetrics.new_transform(5u8);
    assert_eq!(**m.service(), 5);
}

#[test]
fn authenticated_user_roles() {
    let u = AuthenticatedUser::from_introspection("u".into(), None, Some("N".into()), None);
    assert!(u.roles.is_empty());
    let u = AuthenticatedUser::from_introspection("u".into(), None, None, Some(vec!["admin".into()]));
    assert_eq!(u.roles, vec!["admin"]);
}

#[test]
fn grpc_classification() {
    for c in ["3", "5", "6", "7", "16", "9", "11"] {
        assert_eq!(classify_grpc_error_kind(c), "logic");
    }
    for c in ["4", "8", "10", "13", "14", "15", "2", "unknown", "transport_error"] {
        assert_eq!(classify_grpc_error_kind(c), "system");
    }
    assert_eq!(grpc_error_kind("0"), None);
    assert_eq!(grpc_error_kind("5").as_deref(), Some("logic"));
    let layer = GrpcMetricsLayer;
    assert_eq!(*layer.layer(7u8).inner(), 7);
}

#[test]
fn metrics_endpoint_answers() {
    let r = metrics_response(true, "/metrics", "x 1\n".into());
    assert_eq!((r.status, r.content_type.as_deref(), r.body.as_str()), (200, Some("text/plain; version=0.0.4"), "x 1\n"));
    let r = metrics_response(false, "/metrics", "x".into());
    assert_eq!((r.status, r.body.as_str()), (404, "not found"));
    let r = metrics_response(true, "/other", "x".into());
    assert_eq!(r.status, 404);
}

#[test]
fn prometheus_options_builder() {
    let o = PrometheusOptions::new("svc").env("prod").label("region", "eu").label("k", "v");
    assert_eq!(o.service_name, "svc");
    assert_eq!(o.env.as_deref(), Some("prod"));
    assert_eq!(o.global_labels, vec![("region".to_string(), "eu".to_string()), ("k".to_string(), "v".to_string())]);
}

#[test]
fn gateway_validation() {
    assert_eq!(validate_login("", "p"), Err(ValidationError::MissingCredentials));
    assert!(validate_login("e", "p").is_ok());
    assert_eq!(validate_registration("e", "p", ""), Err(ValidationError::MissingRegistrationFields));
    assert_eq!(validate_registration("e", "password", "n"), Err(ValidationError::InvalidEmail));
    assert_eq!(validate_registration("e@x", "pass", "n"), Err(ValidationError::WeakPassword { min_len: 8 }));
    assert!(validate_registration("e@x", "password", "n").is_ok());
    assert_eq!(greeting("Bob"), "Hi Bob!");
}

#[test]
fn placeholder_user_service() {
    let s = UserService::new();
    assert!(s.find_by_id("0").unwrap().is_none());
    let u = s.find_by_id("9").unwrap().unwrap();
    assert_eq!((u.id.as_str(), u.email.as_str()), ("9", "user@example.com"));
    assert_eq!(s.find_by_email("a@b").unwrap().unwrap().id, "1");
    let c = s.create("a@b", "A", "pw").unwrap();
    assert_eq!(c.id.len(), 36);
    assert_eq!(c.password_hash, "pw");
    let l = s.list().unwrap();
    assert_eq!(l.len(), 2);
    assert_eq!(l[1].name, "User Two");
}

#[test]
fn api_gateway_user_answers() {
    let l = list_user_profiles();
    assert_eq!(l.len(), 1);
    assert_eq!((l[0].id.as_str(), l[0].email.as_str(), l[0].name.as_str()), ("placeholder", "placeholder@example.com", "Placeholder User"));
    match user_profile("0".into()) {
        Err(UserError::NotFound { user_id }) => assert_eq!(user_id, "0"),
        Ok(_) => panic!("user 0 must not be found"),
    }
    let u = user_profile("42".into()).unwrap();
    assert_eq!((u.id.as_str(), u.email.as_str(), u.name.as_str()), ("42", "user@example.com", "Example User"));
    let me = current_user_profile("7".into(), Some("a@b".into()), None);
    assert_eq!((me.id.as_str(), me.email.as_str(), me.name.as_str()), ("7", "a@b", ""));
}

#[test]
fn prometheus_global_labels_in_order() {
    let l = PrometheusOptions::new("svc").env("prod").label("region", "eu").global_label_list();
    let pairs: Vec<(&str, &str)> = l.iter().map(|(k, v)| (k.as_str(), v.as_str())).collect();
    assert_eq!(pairs, vec![("service", "svc"), ("env", "prod"), ("region", "eu")]);
    let l = PrometheusOptions::new("svc").global_label_list();
    assert_eq!(l.len(), 1);
}

#[test]
fn metrics_address_joins_host_and_port() {
    assert_eq!(metrics_bind_address("0.0.0.0", 60080), "0.0.0.0:60080");
    assert_eq!(metrics_bind_address("h", 0), "h:0");
}

#[test]
fn trailer_status_defaults_to_unknown() {
    assert_eq!(trailer_status(Some("5")), "5");
    assert_eq!(trailer_status(None), "unknown");
}
