use pim::auth_service::service::{LoginRequest, RegisterRequest};
use pim::auth_service::AuthServiceImpl;
use pim::infra_auth::{Claims, JwtError, JwtManager};
use pim::rpc::Code;
use pim::user_service::service::{
    start_get_user, start_update_user, UpdateUserAction,
    check_user_status, list_users_query, parse_rfc3339, split_name, user_update, validate_user_id,
    zitadel_user_to_proto, ZitadelHuman, ZitadelProfile, ZitadelResourceDetails, ZitadelUser, ZitadelEmail,
};

fn is_uuid(s: &str) -> bool {
    s.len() == 36
        && s.chars().enumerate().all(|(i, c)| {
            if [8, 13, 18, 23].contains(&i) { c == '-' } else { c.is_ascii_hexdigit() && !c.is_ascii_uppercase() }
        })
        && s.as_bytes()[14] == b'4'
        && matches!(s.as_bytes()[19], b'8' | b'9' | b'a' | b'b')
}

#[test]
fn jwt_claims_expire_after_lifetime() {
    let mgr = JwtManager::new("test-secret-key-that-is-long-enough", 24);
    let c = mgr.claims_at("user-123", vec!["admin".to_string()], 1_700_000_000);
    assert_eq!(c.sub, "user-123");
    assert_eq!(c.iat, 1_700_000_000);
    assert_eq!(c.exp, 1_700_000_000 + 24 * 3600);
    assert_eq!(c.roles, vec!["admin"]);
    assert_eq!(mgr.expiration_hours(), 24);
}

#[test]
fn jwt_token_is_deterministic_for_a_time() {
    let mgr = JwtManager::new("secret", 1);
    let a = mgr.generate_token_at("u", vec![], 100).unwrap();
    let b = mgr.generate_token_at("u", vec![], 100).unwrap();
    assert_eq!(a, b);
    assert_eq!(a.split('.').count(), 3);
    let other = JwtManager::new("other", 1).generate_token_at("u", vec![], 100).unwrap();
    assert_ne!(a, other);
}

#[test]
fn login_requires_both_credentials() {
    let svc = AuthServiceImpl::new("s", 24);
    let err = svc.login(LoginRequest { email: "".into(), password: "p".into() }).unwrap_err();
    assert_eq!(err.code, Code::InvalidArgument);
    assert_eq!(err.message, "Email and password are required");
}

#[test]
fn login_issues_user_token() {
    let svc = AuthServiceImpl::new("s", 24);
    let resp = svc.login(LoginRequest { email: "a@b".into(), password: "p".into() }).unwrap();
    assert!(resp.user_id.starts_with("user_"));
    assert!(is_uuid(&resp.user_id[5..]));
    assert_eq!(resp.token_type, "Bearer");
    assert_eq!(resp.expires_in, 24 * 3600);
}

#[test]
fn register_checks_fields_in_order() {
    let svc = AuthServiceImpl::new("s", 24);
    let r = |e: &str, p: &str, n: &str| {
        svc.register(RegisterRequest { email: e.into(), password: p.into(), name: n.into() })
    };
    assert_eq!(r("", "x", "n").unwrap_err().message, "All fields are required");
    assert_eq!(r("nobody", "", "n").unwrap_err().message, "All fields are required");
    assert_eq!(r("nobody", "short", "n").unwrap_err().message, "Invalid email format");
    assert_eq!(r("a@b", "short", "n").unwrap_err().message, "Password must be at least 8 characters");
    assert_eq!(r("a@b", "ééé", "n").unwrap_err().message, "Password must be at least 8 characters");
    let ok = r("a@b", "éééé", "n").unwrap();
    assert!(is_uuid(&ok.id));
    assert_eq!((ok.email.as_str(), ok.name.as_str()), ("a@b", "n"));
    assert!(is_utc_rfc3339(&ok.created_at), "{}", ok.created_at);
}

fn is_utc_rfc3339(s: &str) -> bool {
    let b = s.as_bytes();
    let n = b.len();
    if n < 25 || !s.ends_with("+00:00") {
        return false;
    }
    let digits = |r: std::ops::Range<usize>| b[r].iter().all(|c| c.is_ascii_digit());
    let f = match s.find('.') {
        Some(p) => n - 6 - p,
        None => 0,
    };
    match Some(f).filter(|f| [0usize, 4, 7, 10].contains(f) && n >= 21 + f + 4) {
        Some(f) => {
            let y = n - 21 - f;
            y == 4
                && digits(0..4)
                && b[4] == b'-'
                && digits(5..7)
                && b[7] == b'-'
                && digits(8..10)
                && b[10] == b'T'
                && digits(11..13)
                && b[13] == b':'
                && digits(14..16)
                && b[16] == b':'
                && digits(17..19)
                && (f == 0 || digits(20..19 + f))
        }
        None => false,
    }
}

#[test]
fn validate_and_refresh_follow_decoding() {
    let svc = AuthServiceImpl::new("s", 2);
    let claims = Claims { sub: "u1".into(), exp: 10, iat: 0, roles: vec!["r".into()] };
    let ok = svc.validate_token(Some(claims.clone()));
    assert!(ok.valid);
    assert_eq!(ok.user_id, "u1");
    assert_eq!(ok.roles, vec!["r"]);
    let bad = svc.validate_token(None);
    assert!(!bad.valid && bad.user_id.is_empty() && bad.roles.is_empty());
    let err = svc.refresh_token(None).unwrap_err();
    assert_eq!((err.code, err.message.as_str()), (Code::Unauthenticated, "Invalid token"));
    let fresh = svc.refresh_token(Some(claims)).unwrap();
    assert_eq!((fresh.token_type.as_str(), fresh.expires_in), ("Bearer", 7200));
}

#[test]
fn user_id_must_be_alphanumeric() {
    assert!(validate_user_id("123456789012345678").is_ok());
    assert_eq!(validate_user_id("").unwrap_err().message, "User ID is required");
    assert_eq!(validate_user_id("../admin").unwrap_err().message, "Invalid user ID format");
    assert_eq!(validate_user_id("12 3").unwrap_err().code, Code::InvalidArgument);
}

#[test]
fn rfc3339_parsing() {
    assert!(parse_rfc3339("").is_none());
    assert!(parse_rfc3339("yesterday").is_none());
    let t = parse_rfc3339("2024-01-02T03:04:05.5Z").unwrap();
    assert_eq!((t.seconds, t.nanos), (1704164645, 500_000_000));
}

#[test]
fn zitadel_user_maps_to_service_user() {
    let zu = ZitadelUser {
        user_id: "42".into(),
        human: Some(ZitadelHuman {
            profile: Some(ZitadelProfile { given_name: "Ada".into(), family_name: "".into() }),
            email: Some(ZitadelEmail { email: "ada@x".into() }),
        }),
        details: Some(ZitadelResourceDetails { creation_date: "1970-01-01T00:00:10Z".into(), change_date: "".into() }),
    };
    let u = zitadel_user_to_proto(&zu);
    assert_eq!((u.id.as_str(), u.name.as_str(), u.email.as_str()), ("42", "Ada", "ada@x"));
    assert_eq!(u.created_at.unwrap().seconds, 10);
    assert!(u.updated_at.is_none());
    let bare = zitadel_user_to_proto(&ZitadelUser { user_id: "7".into(), human: None, details: None });
    assert_eq!((bare.name.as_str(), bare.email.as_str()), ("", ""));
}

#[test]
fn paging_is_normalized() {
    let (p, s, q) = list_users_query(0, 0);
    assert_eq!((p, s, q.offset, q.limit, q.asc), (1, 20, 0, 20, true));
    let (p, s, q) = list_users_query(3, 50);
    assert_eq!((p, s, q.offset, q.limit), (3, 50, 100, 50));
    let (_, s, _) = list_users_query(1, 101);
    assert_eq!(s, 20);
}

#[test]
fn names_split_at_first_space() {
    assert_eq!(split_name("Ada King Lovelace"), ("Ada".to_string(), "King Lovelace".to_string()));
    assert_eq!(split_name("Ada"), ("Ada".to_string(), String::new()));
    assert_eq!(split_name(" Ada"), (String::new(), "Ada".to_string()));
    let u = user_update(Some("A B"), None);
    assert_eq!(u.profile, Some(("A".to_string(), "B".to_string())));
    assert!(u.email.is_none() && !u.is_empty());
    assert!(user_update(None, None).is_empty());
}

#[test]
fn upstream_statuses() {
    assert!(check_user_status(200).is_ok());
    assert_eq!(check_user_status(404).unwrap_err().code, Code::NotFound);
    assert_eq!(check_user_status(500).unwrap_err().message, "upstream service error");
}

#[test]
fn user_settings_debug_masks_token() {
    let mut s = pim::user_service::Settings::default();
    s.zitadel_service_account_token = "pat-secret-value".into();
    let text = s.debug_repr();
    assert_eq!(
        text,
        "Settings { common: CommonConfig { app_env: \"dev\", log_level: \"info\", database_url: None }, \
         host: \"127.0.0.1\", port: 50052, metrics_port: 60052, \
         zitadel_authority: \"https://localhost.zitadel.cloud\", zitadel_service_account_token: \"[REDACTED]\" }"
    );
    assert!(!text.contains("pat-secret-value"));
    s.common.database_url = Some("postgres://db".into());
    assert!(s.debug_repr().contains("database_url: Some(\"postgres://db\")"));
}

fn decode_claims(token: &str, secret: &str) -> Result<serde_json::Value, jsonwebtoken::errors::Error> {
    jsonwebtoken::decode::<serde_json::Value>(
        token,
        &jsonwebtoken::DecodingKey::from_secret(secret.as_bytes()),
        &jsonwebtoken::Validation::default(),
    )
    .map(|d| d.claims)
}

#[test]
fn roundtrip_token() {
    let mgr = JwtManager::new("test-secret-key-that-is-long-enough", 24);
    let token = mgr.generate_token("user-123", vec!["admin".to_string()]).expect("generate");
    let claims = decode_claims(&token, "test-secret-key-that-is-long-enough").expect("validate");
    assert_eq!(claims["sub"], "user-123");
    let roles: Vec<&str> = claims["roles"].as_array().unwrap().iter().map(|r| r.as_str().unwrap()).collect();
    assert_eq!(roles, vec!["admin"]);
    assert_eq!(claims["exp"].as_i64().unwrap() - claims["iat"].as_i64().unwrap(), 24 * 3600);
}

#[test]
fn wrong_secret_fails() {
    let mgr = JwtManager::new("test-secret-key-that-is-long-enough", 24);
    let token = mgr.generate_token("user-1", vec![]).expect("generate");
    assert!(decode_claims(&token, "different-secret-key-also-long").is_err());
}

#[test]
fn jwt_error_messages_carry_the_cause() {
    let kind = jsonwebtoken::errors::ErrorKind::InvalidToken;
    let m = JwtError::Decode(jsonwebtoken::errors::Error::from(kind)).to_string();
    assert_eq!(m, "failed to decode token: InvalidToken");
    let kind = jsonwebtoken::errors::ErrorKind::InvalidToken;
    let m = JwtError::Encode(jsonwebtoken::errors::Error::from(kind)).to_string();
    assert_eq!(m, "failed to encode token: InvalidToken");
}

#[test]
fn login_succeeds_for_any_credentials() {
    let svc = AuthServiceImpl::new("secret", 1);
    for (e, p) in [("a", "b"), ("x@y", "longer-password"), (" ", " ")] {
        let r = svc.login(LoginRequest { email: e.into(), password: p.into() }).unwrap();
        assert_eq!(r.token_type, "Bearer");
        assert_eq!(r.expires_in, 3600);
    }
}

#[test]
fn refresh_succeeds_for_decoded_claims() {
    let svc = AuthServiceImpl::new("secret", 1);
    let claims = Claims { sub: "u1".into(), exp: 10, iat: 0, roles: vec![] };
    let r = svc.refresh_token(Some(claims)).unwrap();
    let decoded = decode_claims(&r.access_token, "secret").unwrap();
    assert_eq!(decoded["sub"], "u1");
}

#[test]
fn update_start_checks_id_then_plans() {
    assert_eq!(start_update_user("https://z", "", Some("A B"), None).unwrap_err().message, "User ID is required");
    assert_eq!(start_update_user("https://z", "a/b", None, None).unwrap_err().message, "Invalid user ID format");
    match start_update_user("https://z", "u1", None, None).unwrap() {
        UpdateUserAction::Fetch { url } => assert_eq!(url, start_get_user("https://z", "u1").unwrap()),
        UpdateUserAction::Put { .. } => panic!("nothing to write"),
    }
    assert_eq!(start_get_user("https://z", "u1").unwrap(), "https://z/v2/users/u1");
    assert_eq!(start_get_user("https://z", "").unwrap_err().message, "User ID is required");
    match start_update_user("https://z", "u1", Some("Ada Lovelace King"), Some("a@b")).unwrap() {
        UpdateUserAction::Put { url, update } => {
            assert_eq!(url, "https://z/v2/users/u1");
            assert_eq!(update.profile, Some(("Ada".to_string(), "Lovelace King".to_string())));
            assert_eq!(update.email.as_deref(), Some("a@b"));
        }
        UpdateUserAction::Fetch { .. } => panic!("expected a PUT"),
    }
}
