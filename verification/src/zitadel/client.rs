use vstd::prelude::*;

use crate::text::{concat2, concat3};
use crate::zitadel::auth::AdminCredential;
use crate::zitadel::error::{spec_from_status, ZitadelError};

verus! {

#[verifier::external_type_specification]
#[verifier::external_body]
pub struct ExReqwestClient(reqwest::Client);

#[verifier::external_type_specification]
#[verifier::external_body]
pub struct ExUrlParseError(url::ParseError);

/// `Clone` of `reqwest::Client`, which shares the underlying connection
/// pool; nothing is claimed of the copy.
pub assume_specification[ <reqwest::Client as Clone>::clone ](c: &reqwest::Client) -> reqwest::Client;

/// Request timeout of the HTTP client, in seconds.
pub const DEFAULT_TIMEOUT_SECS: u64 = 30;

/// `User-Agent` header sent with every request.
pub const USER_AGENT: &'static str = "pim-bootstrap/0.1.0";

/// Message of the error returned for a JWT Profile credential, which cannot
/// sign requests yet.
pub const JWT_PROFILE_UNSUPPORTED: &'static str = "JWT Profile minting is not wired in Phase A; use PAT in dev (see ADR-0016 §4 and plans/001-pim-bootstrap-phase3.md Phase A.2)";

/// Serialization of the absolute URL that `url::Url::parse` makes of a text,
/// or `None` where it refuses the text.
pub uninterp spec fn spec_url_parse(input: Seq<char>) -> Option<Seq<char>>;

/// Serialization of the URL that `url::Url::join` makes of `path` against
/// the URL serialized as `base`, or `None` where either step refuses.
pub uninterp spec fn spec_url_join(base: Seq<char>, path: Seq<char>) -> Option<Seq<char>>;

/// `url::Url::parse`, returning the serialization of the parsed URL. The
/// outcome is named, not described.
#[verifier::external_body]
fn url_parse(input: &str) -> (r: Result<String, url::ParseError>)
    ensures
        r is Ok <==> spec_url_parse(input@) is Some,
        r matches Ok(u) ==> spec_url_parse(input@) == Some(u@),
{
    url::Url::parse(input).map(String::from)
}

/// `url::Url::join` of `path` onto the URL whose serialization is `base`
/// (converted back by `url::Url::parse`), returning the serialization of the
/// joined URL. The outcome is named, not described.
#[verifier::external_body]
fn url_join(base: &str, path: &str) -> (r: Result<String, url::ParseError>)
    ensures
        r is Ok <==> spec_url_join(base@, path@) is Some,
        r matches Ok(u) ==> spec_url_join(base@, path@) == Some(u@),
{
    url::Url::parse(base)?.join(path).map(String::from)
}

/// Text of a URL parse error (`Display` of `url::ParseError`); nothing is
/// claimed of its content.
#[verifier::external_body]
fn url_error_text(e: &url::ParseError) -> String {
    e.to_string()
}

/// `reqwest::ClientBuilder::build` for a client with the given user agent
/// and timeout. Nothing is claimed of the outcome.
#[verifier::external_body]
fn build_http_client(user_agent: &str, timeout_secs: u64) -> Result<reqwest::Client, reqwest::Error> {
    reqwest::Client::builder().user_agent(user_agent).timeout(
        std::time::Duration::from_secs(timeout_secs),
    ).build()
}

/// Client for the Zitadel Management API: the normalized authority URL, the
/// HTTP client and the admin credential. Sending happens outside the
/// verified library; this type decides where a request goes and how it is
/// authorized, and how a response status is judged.
#[derive(Clone)]
pub struct ZitadelClient {
    authority: String,
    http: reqwest::Client,
    credential: AdminCredential,
}

/// Outcome judged from an HTTP status: any 2xx status is a success, every
/// other status maps through `ZitadelError::from_status`.
pub open spec fn spec_check_status(status: u16, body: String) -> Result<(), ZitadelError> {
    if 200 <= status <= 299 {
        Ok(())
    } else {
        Err(spec_from_status(status, body))
    }
}

/// Judges a response: a 2xx status is a success, any other status becomes
/// the matching error carrying the response body.
pub fn check_status(status: u16, body: String) -> (r: Result<(), ZitadelError>)
    ensures
        r == spec_check_status(status, body),
{
    if 200 <= status && status <= 299 {
        Ok(())
    } else {
        Err(ZitadelError::from_status(status, body))
    }
}

impl ZitadelClient {
    /// The normalized authority URL.
    pub closed spec fn spec_authority(&self) -> Seq<char> {
        self.authority@
    }

    /// The admin credential.
    pub closed spec fn spec_credential(&self) -> AdminCredential {
        self.credential
    }

    /// The HTTP client.
    pub closed spec fn spec_http(&self) -> reqwest::Client {
        self.http
    }

    /// Parses the authority URL and builds the HTTP client. An authority
    /// that does not parse is refused as `InvalidArgument`; a client that
    /// cannot be built as `Transport`.
    pub fn new(authority: &str, credential: AdminCredential) -> (r: Result<Self, ZitadelError>)
        ensures
            spec_url_parse(authority@) is None ==> (r matches Err(ZitadelError::InvalidArgument(m))
                && "invalid authority URL: "@.is_prefix_of(m@)),
            spec_url_parse(authority@) is Some ==> (r is Ok || r matches Err(
                ZitadelError::Transport(_),
            )),
            r matches Ok(c) ==> spec_url_parse(authority@) == Some(c.spec_authority())
                && c.spec_credential() == credential,
    {
        let authority = match url_parse(authority) {
            Ok(u) => u,
            Err(e) => {
                let t = url_error_text(&e);
                return Err(ZitadelError::InvalidArgument(concat2("invalid authority URL: ", t.as_str())));
            },
        };
        let http = match build_http_client(USER_AGENT, DEFAULT_TIMEOUT_SECS) {
            Ok(h) => h,
            Err(e) => return Err(ZitadelError::from(e)),
        };
        Ok(ZitadelClient { authority, http, credential })
    }

    /// The normalized authority URL.
    pub fn authority(&self) -> (r: &str)
        ensures
            r@ == self.spec_authority(),
    {
        self.authority.as_str()
    }

    /// The admin credential.
    pub fn credential(&self) -> (r: &AdminCredential)
        ensures
            *r == self.spec_credential(),
    {
        &self.credential
    }

    /// The HTTP client used to send requests.
    pub fn http(&self) -> (r: &reqwest::Client)
        ensures
            *r == self.spec_http(),
    {
        &self.http
    }

    /// The URL of `path` joined onto the authority; a path that does not join
    /// is refused as `InvalidArgument`.
    pub fn url(&self, path: &str) -> (r: Result<String, ZitadelError>)
        ensures
            r is Ok <==> spec_url_join(self.spec_authority(), path@) is Some,
            r matches Ok(u) ==> spec_url_join(self.spec_authority(), path@) == Some(u@),
            r matches Err(e) ==> (e matches ZitadelError::InvalidArgument(m) && ("bad path `"@
                + path@ + "`: "@).is_prefix_of(m@)),
    {
        match url_join(self.authority.as_str(), path) {
            Ok(u) => Ok(u),
            Err(e) => {
                let t = url_error_text(&e);
                let head = concat3("bad path `", path, "`: ");
                let m = concat2(head.as_str(), t.as_str());
                proof {
                    assert(m@ == ("bad path `"@ + path@ + "`: "@) + t@);
                    assert(m@.subrange(0, head@.len() as int) =~= head@);
                }
                Err(ZitadelError::InvalidArgument(m))
            },
        }
    }

    /// The bearer token that authorizes a request: the PAT itself. A JWT
    /// Profile credential is refused as `InvalidArgument`.
    pub fn bearer_token(&self) -> (r: Result<String, ZitadelError>)
        ensures
            self.spec_credential() matches AdminCredential::Pat(t) ==> (r matches Ok(b) && b@ == t@),
            self.spec_credential() is JwtProfile ==> (r matches Err(ZitadelError::InvalidArgument(m))
                && m@ == JWT_PROFILE_UNSUPPORTED@),
    {
        match &self.credential {
            AdminCredential::Pat(token) => Ok(token.clone()),
            AdminCredential::JwtProfile { .. } => Err(
                ZitadelError::InvalidArgument(JWT_PROFILE_UNSUPPORTED.to_owned()),
            ),
        }
    }

    /// Where a request for `path` goes and which bearer token it carries:
    /// the URL is resolved first, so a bad path is reported before a
    /// credential that cannot sign.
    pub fn prepare(&self, path: &str) -> (r: Result<(String, String), ZitadelError>)
        ensures
            spec_url_join(self.spec_authority(), path@) is None ==> (r matches Err(
                ZitadelError::InvalidArgument(m),
            ) && ("bad path `"@ + path@ + "`: "@).is_prefix_of(m@)),
            spec_url_join(self.spec_authority(), path@) matches Some(u) ==> match self.spec_credential() {
                AdminCredential::Pat(t) => r matches Ok((a, b)) && a@ == u && b@ == t@,
                AdminCredential::JwtProfile { .. } => r matches Err(
                    ZitadelError::InvalidArgument(m),
                ) && m@ == JWT_PROFILE_UNSUPPORTED@,
            },
    {
        let url = self.url(path)?;
        let token = self.bearer_token()?;
        Ok((url, token))
    }
}

} // verus!
