use pim::zitadel::client::check_status;
use pim::zitadel::ZitadelError;

#[test]
fn maps_400_to_bad_request() {
    let e = ZitadelError::from_status(400, "bad".into());
    assert!(matches!(e, ZitadelError::BadRequest(ref s) if s == "bad"));
}

#[test]
fn maps_401_to_unauthenticated() {
    let e = ZitadelError::from_status(401, "no".into());
    assert!(matches!(e, ZitadelError::Unauthenticated(_)));
}

#[test]
fn maps_403_to_permission_denied() {
    assert!(matches!(ZitadelError::from_status(403, "x".into()), ZitadelError::PermissionDenied(_)));
}

#[test]
fn maps_404_to_not_found() {
    assert!(matches!(ZitadelError::from_status(404, "x".into()), ZitadelError::NotFound(_)));
}

#[test]
fn maps_409_to_already_exists() {
    assert!(matches!(ZitadelError::from_status(409, "x".into()), ZitadelError::AlreadyExists(_)));
}

#[test]
fn maps_412_to_failed_precondition() {
    assert!(matches!(ZitadelError::from_status(412, "x".into()), ZitadelError::FailedPrecondition(_)));
}

#[test]
fn maps_429_to_resource_exhausted() {
    assert!(matches!(ZitadelError::from_status(429, "x".into()), ZitadelError::ResourceExhausted(_)));
}

#[test]
fn maps_500_range_to_internal() {
    for s in [500u16, 502, 503, 504, 599] {
        let e = ZitadelError::from_status(s, "x".into());
        assert!(matches!(e, ZitadelError::Internal { status, .. } if status == s));
    }
}

#[test]
fn maps_other_to_unknown() {
    let e = ZitadelError::from_status(418, "teapot".into());
    assert!(matches!(e, ZitadelError::Unknown { status: 418, .. }));
}

#[test]
fn edges_of_server_error_range_are_unknown() {
    assert!(matches!(ZitadelError::from_status(499, "x".into()), ZitadelError::Unknown { status: 499, .. }));
    assert!(matches!(ZitadelError::from_status(600, "x".into()), ZitadelError::Unknown { status: 600, .. }));
}

#[test]
fn messages_name_status_and_body() {
    assert_eq!(ZitadelError::from_status(503, "down".into()).to_string(), "internal server error (503): down");
    assert_eq!(ZitadelError::from_status(418, "teapot".into()).to_string(), "unknown status 418: teapot");
    assert_eq!(ZitadelError::from_status(409, "dup".into()).to_string(), "already exists (409): dup");
    assert_eq!(ZitadelError::Deserialize("eof".into()).to_string(), "response deserialization failed: eof");
}

#[test]
fn success_statuses_pass() {
    assert!(check_status(200, String::new()).is_ok());
    assert!(check_status(204, String::new()).is_ok());
    assert!(check_status(299, String::new()).is_ok());
}

#[test]
fn maps_409_from_wire() {
    let err = check_status(409, "dup".into()).unwrap_err();
    assert!(matches!(err, ZitadelError::AlreadyExists(ref b) if b == "dup"));
}

#[test]
fn redirect_status_is_not_success() {
    assert!(matches!(check_status(302, "moved".into()).unwrap_err(), ZitadelError::Unknown { status: 302, .. }));
}

#[test]
fn transport_error_message_names_the_failure() {
    let e = reqwest::Client::new().get("not a url").build().err().expect("request must not build");
    let m = ZitadelError::from(e).to_string();
    assert!(m.starts_with("transport error: "));
    assert!(m.len() > "transport error: ".len());
}
