use vstd::prelude::*;

use crate::gateway::time::{unix_timestamp, MAX_TIMESTAMP};
use crate::infra_auth::claims::Claims;
use crate::infra_auth::error::JwtError;

verus! {

/// The HS256 token that `jsonwebtoken::encode` makes, with the default
/// header, of the claims `{"sub", "exp", "iat", "roles"}` (in that order)
/// signed with the UTF-8 bytes of `secret`.
pub uninterp spec fn spec_jwt_encode(
    sub: Seq<char>,
    exp: int,
    iat: int,
    roles: Seq<Seq<char>>,
    secret: Seq<char>,
) -> Seq<char>;

/// `jsonwebtoken::encode` with the default (HS256) header and an HMAC key
/// made of `secret`, on the claims given as plain values. The token is
/// named. Encoding always succeeds here: the key's family matches HS256, a
/// map of strings, integers and string lists always serializes, and HMAC
/// signing cannot fail.
#[verifier::external_body]
fn jwt_encode(sub: &str, exp: i64, iat: i64, roles: &Vec<String>, secret: &str) -> (r: Result<
    String,
    jsonwebtoken::errors::Error,
>)
    ensures
        r is Ok,
        r matches Ok(t) ==> t@ == spec_jwt_encode(sub@, exp as int, iat as int, roles.deep_view(), secret@),
{
    let mut claims = serde_json::Map::new();
    claims.insert("sub".to_string(), serde_json::Value::from(sub));
    claims.insert("exp".to_string(), serde_json::Value::from(exp));
    claims.insert("iat".to_string(), serde_json::Value::from(iat));
    claims.insert("roles".to_string(), serde_json::Value::from(roles.clone()));
    let key = jsonwebtoken::EncodingKey::from_secret(secret.as_bytes());
    jsonwebtoken::encode(&jsonwebtoken::Header::default(), &claims, &key)
}

/// Token lifetimes, in hours, for which expiry times of every representable
/// issue time fit in an `i64`.
pub open spec fn spec_hours_in_range(hours: i64) -> bool {
    i64::MIN <= hours * 3600 && hours * 3600 + MAX_TIMESTAMP <= i64::MAX
}

/// Manages JWT token generation: holds the signing secret and the token
/// lifetime.
pub struct JwtManager {
    secret: String,
    expiration_hours: i64,
}

impl JwtManager {
    /// The signing secret.
    pub closed spec fn spec_secret(&self) -> Seq<char> {
        self.secret@
    }

    /// The token lifetime in hours.
    pub closed spec fn spec_hours(&self) -> i64 {
        self.expiration_hours
    }

    /// Create a new manager with the given secret and token lifetime.
    pub fn new(secret: &str, expiration_hours: i64) -> (m: Self)
        ensures
            m.spec_secret() == secret@,
            m.spec_hours() == expiration_hours,
    {
        JwtManager { secret: secret.to_owned(), expiration_hours }
    }

    /// The signing secret (needed to check the tokens this manager issues).
    pub fn secret(&self) -> (r: &str)
        ensures
            r@ == self.spec_secret(),
    {
        self.secret.as_str()
    }

    /// Token lifetime in hours.
    pub fn expiration_hours(&self) -> (h: i64)
        ensures
            h == self.spec_hours(),
    {
        self.expiration_hours
    }

    /// The claims of a token for `user_id` and `roles` issued at `now`: it
    /// expires `expiration_hours` hours later.
    pub fn claims_at(&self, user_id: &str, roles: Vec<String>, now: i64) -> (c: Claims)
        requires
            0 <= now <= MAX_TIMESTAMP,
            spec_hours_in_range(self.spec_hours()),
        ensures
            c.sub@ == user_id@,
            c.iat == now,
            c.exp == now + self.spec_hours() * 3600,
            c.roles == roles,
    {
        let exp = now + self.expiration_hours * 3600;
        Claims { sub: user_id.to_owned(), exp, iat: now, roles }
    }

    /// The signed token for `user_id` and `roles` issued at `now`.
    pub fn generate_token_at(&self, user_id: &str, roles: Vec<String>, now: i64) -> (r: Result<
        String,
        JwtError,
    >)
        requires
            0 <= now <= MAX_TIMESTAMP,
            spec_hours_in_range(self.spec_hours()),
        ensures
            r matches Ok(t) && t@ == spec_jwt_encode(
                user_id@,
                now + self.spec_hours() * 3600,
                now as int,
                roles.deep_view(),
                self.spec_secret(),
            ),
    {
        let claims = self.claims_at(user_id, roles, now);
        match jwt_encode(claims.sub.as_str(), claims.exp, claims.iat, &claims.roles, self.secret.as_str()) {
            Ok(t) => Ok(t),
            Err(e) => Err(JwtError::Encode(e)),
        }
    }

    /// Generate a signed JWT for the given user and roles, issued now.
    pub fn generate_token(&self, user_id: &str, roles: Vec<String>) -> (r: Result<String, JwtError>)
        requires
            spec_hours_in_range(self.spec_hours()),
        ensures
            r matches Ok(t) && exists|now: i64|
                0 <= now <= MAX_TIMESTAMP && t@ == #[trigger] spec_jwt_encode(
                    user_id@,
                    now + self.spec_hours() * 3600,
                    now as int,
                    roles.deep_view(),
                    self.spec_secret(),
                ),
    {
        let now = unix_timestamp();
        self.generate_token_at(user_id, roles, now)
    }
}

/// Every issued token lives exactly `expiration_hours` hours.
pub proof fn lemma_token_lifetime(m: JwtManager, c: Claims, now: i64)
    requires
        c.iat == now,
        c.exp == now + m.spec_hours() * 3600,
    ensures
        c.exp - c.iat == m.spec_hours() * 3600,
{
}

} // verus!
