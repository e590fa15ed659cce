use pim::zitadel::app::{create_api_app_endpoint, get_app_endpoint, list_apps_endpoint, update_app_endpoint};
use pim::zitadel::client::JWT_PROFILE_UNSUPPORTED;
use pim::zitadel::project::{create_project_endpoint, get_project_endpoint, list_projects_endpoint, update_project_endpoint};
use pim::zitadel::project_role::{add_project_role_endpoint, bulk_add_project_roles_endpoint, list_project_roles_endpoint};
use pim::zitadel::user::{create_machine_user_endpoint, list_users_endpoint};
use pim::zitadel::user_grant::{create_user_grant_endpoint, list_user_grants_endpoint, remove_user_grant_endpoint, update_user_grant_endpoint};
use pim::zitadel::user_key::{add_machine_user_key_endpoint, list_machine_user_keys_endpoint, remove_machine_user_key_endpoint};
use pim::zitadel::{AdminCredential, HttpMethod, ZitadelClient, ZitadelError};

#[test]
fn debug_redacts_pat() {
    let c = AdminCredential::Pat("super-secret".into());
    let s = c.debug_repr();
    assert!(!s.contains("super-secret"), "PAT leaked in Debug: {s}");
}

#[test]
fn debug_redacts_jwt_key() {
    let c = AdminCredential::JwtProfile { key_json: b"secret-key".to_vec(), audience: "http://x".into() };
    assert_eq!(c.debug_repr(), "AdminCredential::JwtProfile { audience: \"http://x\", key_json: \"<redacted>\" }");
}

#[test]
fn from_env_pat_reads_value() {
    let c = AdminCredential::from_pat_value("ZITADEL_TEST_PAT_ENV_abc123", Some("tok-xyz".into())).unwrap();
    match c {
        AdminCredential::Pat(v) => assert_eq!(v, "tok-xyz"),
        _ => panic!("expected Pat"),
    }
}

#[test]
fn from_env_pat_rejects_missing() {
    let err = AdminCredential::from_pat_value("ZITADEL_TEST_PAT_ENV_missing_xxx", None).err().unwrap();
    assert!(matches!(err, ZitadelError::Unauthenticated(ref m)
        if m == "environment variable `ZITADEL_TEST_PAT_ENV_missing_xxx` is not set"));
}

#[test]
fn from_env_pat_rejects_empty() {
    let err = AdminCredential::from_pat_value("ZITADEL_TEST_PAT_ENV_empty_xxx", Some("   ".into())).err().unwrap();
    assert!(matches!(err, ZitadelError::Unauthenticated(ref m)
        if m == "environment variable `ZITADEL_TEST_PAT_ENV_empty_xxx` is empty"));
}

#[test]
fn jwt_key_read_failure_is_unauthenticated() {
    let err = AdminCredential::from_jwt_key_read("/k.json", Err("gone".into()), "aud".into()).err().unwrap();
    assert!(matches!(err, ZitadelError::Unauthenticated(ref m) if m == "failed to read JWT key `/k.json`: gone"));
    let ok = AdminCredential::from_jwt_key_read("/k.json", Ok(b"{}".to_vec()), "aud".into()).unwrap();
    assert!(matches!(ok, AdminCredential::JwtProfile { ref key_json, ref audience } if key_json == b"{}" && audience == "aud"));
}

#[test]
fn sends_bearer_header() {
    let client = ZitadelClient::new("http://127.0.0.1:9/", AdminCredential::Pat("dev-pat-abc".into())).unwrap();
    let (url, token) = client.prepare("/management/v1/ping").unwrap();
    assert_eq!(url, "http://127.0.0.1:9/management/v1/ping");
    assert_eq!(token, "dev-pat-abc");
}

#[test]
fn authority_is_normalized() {
    let client = ZitadelClient::new("http://example.com", AdminCredential::Pat("p".into())).unwrap();
    assert_eq!(client.authority(), "http://example.com/");
}

#[test]
fn invalid_authority_is_invalid_argument() {
    let err = ZitadelClient::new("not a url", AdminCredential::Pat("p".into())).err().unwrap();
    assert!(matches!(err, ZitadelError::InvalidArgument(ref m) if m.starts_with("invalid authority URL: ")));
}

#[test]
fn jwt_profile_refused_in_phase_a() {
    let cred = AdminCredential::JwtProfile { key_json: b"{}".to_vec(), audience: "http://x".into() };
    let client = ZitadelClient::new("http://x.invalid/", cred).unwrap();
    let err = client.prepare("/management/v1/ping").err().unwrap();
    assert!(matches!(err, ZitadelError::InvalidArgument(ref m) if m == JWT_PROFILE_UNSUPPORTED));
}

#[test]
fn endpoints_have_expected_paths() {
    let e = get_app_endpoint("proj-1", "gone");
    assert_eq!((e.method, e.path.as_str()), (HttpMethod::Get, "/management/v1/projects/proj-1/apps/gone"));
    let e = create_api_app_endpoint("proj-1");
    assert_eq!((e.method, e.path.as_str()), (HttpMethod::Post, "/management/v1/projects/proj-1/apps/api"));
    let e = list_apps_endpoint("p");
    assert_eq!((e.method, e.path.as_str()), (HttpMethod::Post, "/management/v1/projects/p/apps/_search"));
    let e = update_app_endpoint("p", "a");
    assert_eq!((e.method, e.path.as_str()), (HttpMethod::Put, "/management/v1/projects/p/apps/a"));
    let e = get_project_endpoint("p-123");
    assert_eq!((e.method, e.path.as_str()), (HttpMethod::Get, "/management/v1/projects/p-123"));
    let e = list_projects_endpoint();
    assert_eq!((e.method, e.path.as_str()), (HttpMethod::Post, "/management/v1/projects/_search"));
    let e = create_project_endpoint();
    assert_eq!((e.method, e.path.as_str()), (HttpMethod::Post, "/management/v1/projects"));
    let e = update_project_endpoint("p");
    assert_eq!((e.method, e.path.as_str()), (HttpMethod::Put, "/management/v1/projects/p"));
    let e = list_project_roles_endpoint("proj-1");
    assert_eq!((e.method, e.path.as_str()), (HttpMethod::Post, "/management/v1/projects/proj-1/roles/_search"));
    let e = add_project_role_endpoint("proj-1");
    assert_eq!((e.method, e.path.as_str()), (HttpMethod::Post, "/management/v1/projects/proj-1/roles"));
    let e = bulk_add_project_roles_endpoint("proj-1");
    assert_eq!((e.method, e.path.as_str()), (HttpMethod::Post, "/management/v1/projects/proj-1/roles/_bulk"));
    let e = list_users_endpoint();
    assert_eq!((e.method, e.path.as_str()), (HttpMethod::Post, "/management/v1/users/_search"));
    let e = create_machine_user_endpoint();
    assert_eq!((e.method, e.path.as_str()), (HttpMethod::Post, "/management/v1/users/machine"));
    let e = list_user_grants_endpoint();
    assert_eq!((e.method, e.path.as_str()), (HttpMethod::Post, "/management/v1/user-grants/_search"));
    let e = create_user_grant_endpoint();
    assert_eq!((e.method, e.path.as_str()), (HttpMethod::Post, "/management/v1/user-grants"));
    let e = update_user_grant_endpoint("g");
    assert_eq!((e.method, e.path.as_str()), (HttpMethod::Put, "/management/v1/user-grants/g"));
    let e = remove_user_grant_endpoint("gone");
    assert_eq!((e.method, e.path.as_str()), (HttpMethod::Delete, "/management/v1/user-grants/gone"));
    let e = list_machine_user_keys_endpoint("u-1");
    assert_eq!((e.method, e.path.as_str()), (HttpMethod::Post, "/management/v1/users/u-1/keys/_search"));
    let e = add_machine_user_key_endpoint("u-1");
    assert_eq!((e.method, e.path.as_str()), (HttpMethod::Post, "/management/v1/users/u-1/keys"));
    let e = remove_machine_user_key_endpoint("u-1", "gone");
    assert_eq!((e.method, e.path.as_str()), (HttpMethod::Delete, "/management/v1/users/u-1/keys/gone"));
}

#[test]
fn bad_path_is_invalid_argument() {
    let client = ZitadelClient::new("http://example.com/", AdminCredential::Pat("p".into())).unwrap();
    assert_eq!(client.url("a/b").unwrap(), "http://example.com/a/b");
    let err = client.url("http://[::1").err().unwrap();
    assert!(matches!(err, ZitadelError::InvalidArgument(ref m) if m.starts_with("bad path `http://[::1`: ") && m.len() > 22));
}
