use vstd::prelude::*;

use crate::gateway::time::{is_utc_rfc3339_text, now_rfc3339, MAX_TIMESTAMP};
use crate::ids::{is_uuid_v4_text, new_uuid_v4};
use crate::infra_auth::claims::Claims;
use crate::infra_auth::jwt_manager::{spec_hours_in_range, spec_jwt_encode, JwtManager};
use crate::rpc::{Code, Status};
use crate::text::{concat2, contains_char, has_char, utf8_len};

verus! {

/// Login request: email and password.
#[derive(Debug, Clone)]
pub struct LoginRequest {
    pub email: String,
    pub password: String,
}

/// Login answer: the access token and how long it lives, in seconds.
#[derive(Debug, Clone)]
pub struct LoginResponse {
    pub access_token: String,
    pub token_type: String,
    pub expires_in: i64,
    pub user_id: String,
}

/// Registration request.
#[derive(Debug, Clone)]
pub struct RegisterRequest {
    pub email: String,
    pub password: String,
    pub name: String,
}

/// Registration answer: the new user's id and creation time (RFC 3339).
#[derive(Debug, Clone)]
pub struct RegisterResponse {
    pub id: String,
    pub email: String,
    pub name: String,
    pub created_at: String,
}

/// Answer to a token check.
#[derive(Debug, Clone)]
pub struct ValidateTokenResponse {
    pub valid: bool,
    pub user_id: String,
    pub roles: Vec<String>,
}

/// Answer to a token refresh.
#[derive(Debug, Clone)]
pub struct RefreshTokenResponse {
    pub access_token: String,
    pub token_type: String,
    pub expires_in: i64,
}

/// Minimum password length, in bytes.
pub const MIN_PASSWORD_LEN: usize = 8;

/// The roles granted to every logged-in user.
pub open spec fn spec_login_roles() -> Seq<Seq<char>> {
    seq!["user"@]
}

/// The token issued for `user_id` with `roles` by `mgr` at some valid time.
pub open spec fn spec_issued_token(
    mgr: JwtManager,
    user_id: Seq<char>,
    roles: Seq<Seq<char>>,
    token: Seq<char>,
) -> bool {
    exists|now: i64|
        0 <= now <= MAX_TIMESTAMP && token == #[trigger] spec_jwt_encode(
            user_id,
            now + mgr.spec_hours() * 3600,
            now as int,
            roles,
            mgr.spec_secret(),
        )
}

/// The registration fields that the service refuses, with the message it
/// answers, checked in this order: a missing field, an email without `@`, a
/// password shorter than eight bytes.
pub open spec fn spec_register_refusal(email: Seq<char>, password: Seq<char>, name: Seq<char>) -> Option<
    Seq<char>,
> {
    if email.len() == 0 || password.len() == 0 || name.len() == 0 {
        Some("All fields are required"@)
    } else if !has_char(email, '@') {
        Some("Invalid email format"@)
    } else if utf8_len(password) < 8 {
        Some("Password must be at least 8 characters"@)
    } else {
        None
    }
}

/// Every logged-in user gets exactly one role, `user`.
pub proof fn lemma_login_roles()
    ensures
        spec_login_roles() == seq!["user"@],
        spec_login_roles().len() == 1,
        spec_login_roles()[0] == "user"@,
{
}

/// A registration with an empty email, password or name is refused with
/// `All fields are required`, whatever the other fields hold; a complete
/// one without `@` in the email with `Invalid email format`; a complete one
/// with a password shorter than 8 bytes with the password message; every
/// other registration is accepted.
pub proof fn lemma_register_refusals(email: Seq<char>, password: Seq<char>, name: Seq<char>)
    ensures
        email.len() == 0 || password.len() == 0 || name.len() == 0 ==> spec_register_refusal(
            email,
            password,
            name,
        ) == Some("All fields are required"@),
        email.len() != 0 && password.len() != 0 && name.len() != 0 && !has_char(email, '@')
            ==> spec_register_refusal(email, password, name) == Some("Invalid email format"@),
        email.len() != 0 && password.len() != 0 && name.len() != 0 && has_char(email, '@') && utf8_len(
            password,
        ) < 8 ==> spec_register_refusal(email, password, name) == Some(
            "Password must be at least 8 characters"@,
        ),
        spec_register_refusal(email, password, name) is None <==> (email.len() != 0 && password.len()
            != 0 && name.len() != 0 && has_char(email, '@') && utf8_len(password) >= 8),
{
}

/// Authentication service: issues tokens signed by its JWT manager.
pub struct AuthServiceImpl {
    jwt_manager: JwtManager,
}

impl AuthServiceImpl {
    /// The manager that signs this service's tokens.
    pub closed spec fn spec_manager(&self) -> JwtManager {
        self.jwt_manager
    }

    /// A service signing with `jwt_secret`, issuing tokens that live
    /// `expiration_hours` hours.
    pub fn new(jwt_secret: &str, expiration_hours: i64) -> (s: Self)
        ensures
            s.spec_manager().spec_secret() == jwt_secret@,
            s.spec_manager().spec_hours() == expiration_hours,
    {
        AuthServiceImpl { jwt_manager: JwtManager::new(jwt_secret, expiration_hours) }
    }

    /// Logs a user in: both credentials must be present. Any such pair is
    /// accepted; the user id is `user_` followed by a fresh UUID and the
    /// token carries the role `user`.
    pub fn login(&self, req: LoginRequest) -> (r: Result<LoginResponse, Status>)
        requires
            spec_hours_in_range(self.spec_manager().spec_hours()),
        ensures
            (req.email@.len() == 0 || req.password@.len() == 0) ==> (r matches Err(s) && s.code
                == Code::InvalidArgument && s.message@ == "Email and password are required"@),
            (req.email@.len() != 0 && req.password@.len() != 0) ==> r is Ok,
            r matches Ok(resp) ==> {
                &&& resp.user_id@.len() == 41
                &&& resp.user_id@.subrange(0, 5) == "user_"@
                &&& is_uuid_v4_text(resp.user_id@.subrange(5, 41))
                &&& resp.token_type@ == "Bearer"@
                &&& resp.expires_in == self.spec_manager().spec_hours() * 3600
                &&& spec_issued_token(
                    self.spec_manager(),
                    resp.user_id@,
                    spec_login_roles(),
                    resp.access_token@,
                )
                &&& spec_issued_token(
                    self.spec_manager(),
                    resp.user_id@,
                    seq!["user"@],
                    resp.access_token@,
                )
            },
    {
        if req.email.as_str().is_empty() || req.password.as_str().is_empty() {
            return Err(Status::new(Code::InvalidArgument, "Email and password are required".to_owned()));
        }
        let uuid = new_uuid_v4();
        let user_id = concat2("user_", uuid.as_str());
        proof {
            reveal_strlit("user_");
            assert(user_id@.subrange(0, 5) =~= "user_"@);
            assert(user_id@.subrange(5, 41) =~= uuid@);
        }
        let mut roles: Vec<String> = Vec::new();
        roles.push("user".to_owned());
        proof {
            assert(roles.deep_view() =~= spec_login_roles());
        }
        let token = match self.jwt_manager.generate_token(user_id.as_str(), roles) {
            Ok(t) => t,
            Err(e) => return Err(Status::new(Code::Internal, token_failure(&e))),
        };
        let expires_in = self.jwt_manager.expiration_hours() * 3600;
        Ok(LoginResponse { access_token: token, token_type: "Bearer".to_owned(), expires_in, user_id })
    }

    /// Registers a user after checking the fields (see
    /// `spec_register_refusal`); the new id is a fresh UUID and the creation
    /// time the current time as an RFC 3339 text.
    pub fn register(&self, req: RegisterRequest) -> (r: Result<RegisterResponse, Status>)
        ensures
            spec_register_refusal(req.email@, req.password@, req.name@) matches Some(m) ==> (r matches Err(
                s,
            ) && s.code == Code::InvalidArgument && s.message@ == m),
            spec_register_refusal(req.email@, req.password@, req.name@) is None ==> (r matches Ok(resp)
                && is_uuid_v4_text(resp.id@) && resp.email == req.email && resp.name == req.name
                && is_utc_rfc3339_text(resp.created_at@)),
            req.email@.len() == 0 || req.password@.len() == 0 || req.name@.len() == 0 ==> (r matches Err(
                s,
            ) && s.code == Code::InvalidArgument && s.message@ == "All fields are required"@),
            req.email@.len() != 0 && req.password@.len() != 0 && req.name@.len() != 0 && !has_char(
                req.email@,
                '@',
            ) ==> (r matches Err(s) && s.code == Code::InvalidArgument && s.message@
                == "Invalid email format"@),
            req.email@.len() != 0 && req.password@.len() != 0 && req.name@.len() != 0 && has_char(
                req.email@,
                '@',
            ) && utf8_len(req.password@) < 8 ==> (r matches Err(s) && s.code == Code::InvalidArgument
                && s.message@ == "Password must be at least 8 characters"@),
            r is Ok <==> (req.email@.len() != 0 && req.password@.len() != 0 && req.name@.len() != 0
                && has_char(req.email@, '@') && utf8_len(req.password@) >= 8),
    {
        if req.email.as_str().is_empty() || req.password.as_str().is_empty() || req.name.as_str().is_empty() {
            return Err(Status::new(Code::InvalidArgument, "All fields are required".to_owned()));
        }
        if !contains_char(req.email.as_str(), '@') {
            return Err(Status::new(Code::InvalidArgument, "Invalid email format".to_owned()));
        }
        if req.password.as_str().as_bytes().len() < MIN_PASSWORD_LEN {
            return Err(
                Status::new(Code::InvalidArgument, "Password must be at least 8 characters".to_owned()),
            );
        }
        let id = new_uuid_v4();
        let created_at = now_rfc3339();
        Ok(RegisterResponse { id, email: req.email, name: req.name, created_at })
    }

    /// Answer to a token check, given the claims the token decoded to with
    /// this service's secret (`None` when it did not decode or validate).
    pub fn validate_token(&self, decoded: Option<Claims>) -> (r: ValidateTokenResponse)
        ensures
            r.valid == decoded is Some,
            decoded matches Some(c) ==> r.user_id == c.sub && r.roles == c.roles,
            decoded is None ==> r.user_id@.len() == 0 && r.roles@.len() == 0,
    {
        match decoded {
            Some(claims) => ValidateTokenResponse { valid: true, user_id: claims.sub, roles: claims.roles },
            None => ValidateTokenResponse { valid: false, user_id: String::new(), roles: Vec::new() },
        }
    }

    /// Refreshes a token, given the claims it decoded to with this service's
    /// secret: a token that did not decode is refused as `Unauthenticated`;
    /// otherwise a new token for the same subject and roles is issued.
    pub fn refresh_token(&self, decoded: Option<Claims>) -> (r: Result<RefreshTokenResponse, Status>)
        requires
            spec_hours_in_range(self.spec_manager().spec_hours()),
        ensures
            decoded is None ==> (r matches Err(s) && s.code == Code::Unauthenticated && s.message@
                == "Invalid token"@),
            decoded matches Some(c) ==> (r matches Ok(resp) && resp.token_type@ == "Bearer"@
                && resp.expires_in == self.spec_manager().spec_hours() * 3600 && spec_issued_token(
                self.spec_manager(),
                c.sub@,
                c.roles.deep_view(),
                resp.access_token@,
            )),
    {
        let claims = match decoded {
            Some(c) => c,
            None => return Err(Status::new(Code::Unauthenticated, "Invalid token".to_owned())),
        };
        let new_token = match self.jwt_manager.generate_token(claims.sub.as_str(), claims.roles) {
            Ok(t) => t,
            Err(e) => return Err(Status::new(Code::Internal, token_failure(&e))),
        };
        let expires_in = self.jwt_manager.expiration_hours() * 3600;
        Ok(RefreshTokenResponse { access_token: new_token, token_type: "Bearer".to_owned(), expires_in })
    }
}

/// Message of a failed token signature.
fn token_failure(e: &crate::infra_auth::error::JwtError) -> (m: String)
    ensures
        "Failed to generate token: "@.is_prefix_of(m@),
{
    let t = e.to_string();
    let m = concat2("Failed to generate token: ", t.as_str());
    assert(m@.subrange(0, 26) =~= "Failed to generate token: "@) by {
        reveal_strlit("Failed to generate token: ");
    }
    m
}

} // verus!
