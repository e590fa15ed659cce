use vstd::prelude::*;

use crate::gateway::time::{rfc3339_instant, spec_rfc3339_instant};
use crate::rpc::{Code, Status};
use crate::text::{
    all_ascii_alphanumeric, chars_of, concat2, concat3, is_ascii_alphanumeric, is_white_space,
    lemma_leading_ws_at, lemma_trailing_ws_at, string_from_chars, trim, trim_str,
};

verus! {

/// A point in time: Unix seconds and nanoseconds.
#[derive(Debug, Clone, Copy, PartialEq, Eq, Structural)]
pub struct Timestamp {
    pub seconds: i64,
    pub nanos: i32,
}

/// A user as the service answers it.
#[derive(Debug, Clone)]
pub struct User {
    pub id: String,
    pub email: String,
    pub name: String,
    pub created_at: Option<Timestamp>,
    pub updated_at: Option<Timestamp>,
}

/// A user as the Zitadel v2 API describes it.
#[derive(Debug, Clone)]
pub struct ZitadelUser {
    pub user_id: String,
    pub human: Option<ZitadelHuman>,
    pub details: Option<ZitadelResourceDetails>,
}

/// The human part of a Zitadel user.
#[derive(Debug, Clone)]
pub struct ZitadelHuman {
    pub profile: Option<ZitadelProfile>,
    pub email: Option<ZitadelEmail>,
}

/// Names of a human user.
#[derive(Debug, Clone)]
pub struct ZitadelProfile {
    pub given_name: String,
    pub family_name: String,
}

/// Email of a human user.
#[derive(Debug, Clone)]
pub struct ZitadelEmail {
    pub email: String,
}

/// Creation and change dates (RFC 3339) of a Zitadel resource.
#[derive(Debug, Clone)]
pub struct ZitadelResourceDetails {
    pub creation_date: String,
    pub change_date: String,
}

/// A page of users as the service answers it.
#[derive(Debug, Clone)]
pub struct ListUsersResponse {
    pub users: Vec<User>,
    pub total: i32,
    pub page: i32,
    pub page_size: i32,
}

/// The query of a Zitadel user search: how many users to skip and how many
/// to return, in ascending order.
#[derive(Debug, Clone, Copy)]
pub struct UserSearchQuery {
    pub offset: u64,
    pub limit: u64,
    pub asc: bool,
}

/// The profile and email changes of a user update.
#[derive(Debug, Clone)]
pub struct UserUpdate {
    /// Given name and family name.
    pub profile: Option<(String, String)>,
    pub email: Option<String>,
}

/// The instant written by an RFC 3339 text; an empty text has none.
pub open spec fn spec_parse_rfc3339(s: Seq<char>) -> Option<Timestamp> {
    if s.len() == 0 {
        None
    } else {
        match spec_rfc3339_instant(s) {
            Some((secs, nanos)) => Some(Timestamp { seconds: secs, nanos: nanos as i32 }),
            None => None,
        }
    }
}

/// Parse an RFC 3339 datetime text into a timestamp; `None` if the text is
/// empty or unparseable.
pub fn parse_rfc3339(s: &str) -> (r: Option<Timestamp>)
    ensures
        r == spec_parse_rfc3339(s@),
        r matches Some(t) ==> 0 <= t.nanos < 2_000_000_000,
{
    if s.is_empty() {
        return None;
    }
    match rfc3339_instant(s) {
        Some((secs, nanos)) => Some(Timestamp { seconds: secs, nanos: nanos as i32 }),
        None => None,
    }
}

/// A user id that may be placed in a URL: non-empty ASCII letters and digits.
pub open spec fn spec_valid_user_id(id: Seq<char>) -> bool {
    id.len() != 0 && forall|i: int| 0 <= i < id.len() ==> is_ascii_alphanumeric(#[trigger] id[i])
}

/// Check a user id before it is placed in a URL: it must be non-empty and
/// made of ASCII letters and digits only, so it cannot add path segments,
/// queries or white space.
pub fn validate_user_id(id: &str) -> (r: Result<(), Status>)
    ensures
        id@.len() == 0 ==> (r matches Err(s) && s.code == Code::InvalidArgument && s.message@
            == "User ID is required"@),
        id@.len() != 0 && !(forall|i: int| 0 <= i < id@.len() ==> is_ascii_alphanumeric(#[trigger] id@[i]))
            ==> (r matches Err(s) && s.code == Code::InvalidArgument && s.message@
            == "Invalid user ID format"@),
        r is Ok <==> spec_valid_user_id(id@),
{
    if id.is_empty() {
        return Err(Status::new(Code::InvalidArgument, "User ID is required".to_owned()));
    }
    if !all_ascii_alphanumeric(id) {
        return Err(Status::new(Code::InvalidArgument, "Invalid user ID format".to_owned()));
    }
    Ok(())
}

/// An accepted user id holds no `/`, `?`, `#`, `%`, `.` or white space.
pub proof fn lemma_valid_id_is_path_safe(id: Seq<char>, i: int)
    requires
        forall|j: int| 0 <= j < id.len() ==> is_ascii_alphanumeric(#[trigger] id[j]),
        0 <= i < id.len(),
    ensures
        id[i] != '/' && id[i] != '?' && id[i] != '#' && id[i] != '%' && id[i] != '.' && id[i] != ' ',
{
    assert(is_ascii_alphanumeric(id[i]));
}

/// The display name of a Zitadel user: given and family name joined by a
/// space, with surrounding white space removed.
pub open spec fn spec_display_name(zu: ZitadelUser) -> Seq<char> {
    match zu.human {
        Some(h) => match h.profile {
            Some(p) => trim(p.given_name@ + " "@ + p.family_name@),
            None => trim(" "@),
        },
        None => trim(" "@),
    }
}

/// A user without a profile has an empty display name.
pub proof fn lemma_display_name_without_profile(zu: ZitadelUser)
    requires
        !(zu.human matches Some(h) && h.profile is Some),
    ensures
        spec_display_name(zu).len() == 0,
{
    reveal_strlit(" ");
    let s = " "@;
    assert(is_white_space(s[0]));
    lemma_leading_ws_at(s, 1);
    assert(trim(s).len() == 0);
}

/// The display name of a user with a profile is the given name, a space and
/// the family name: when the given name starts and the family name ends with
/// a character that is not white space, the name is exactly
/// `given + " " + family`, so it starts with the given name followed by a
/// space and ends with the family name.
pub proof fn lemma_display_name_joins(zu: ZitadelUser, given: Seq<char>, family: Seq<char>)
    requires
        zu.human matches Some(h) && h.profile matches Some(p) && p.given_name@ == given
            && p.family_name@ == family,
        given.len() > 0,
        !is_white_space(given[0]),
        family.len() > 0,
        !is_white_space(family[family.len() - 1]),
    ensures
        spec_display_name(zu) == given + " "@ + family,
        spec_display_name(zu).subrange(0, given.len() as int) == given,
        spec_display_name(zu)[given.len() as int] == ' ',
        spec_display_name(zu).subrange(given.len() + 1int, spec_display_name(zu).len() as int) == family,
{
    reveal_strlit(" ");
    let s = given + " "@ + family;
    assert(s[0] == given[0]);
    lemma_leading_ws_at(s, 0);
    let t = s.subrange(0, s.len() as int);
    assert(t =~= s);
    assert(t[t.len() - 1] == family[family.len() - 1]);
    lemma_trailing_ws_at(t, 0);
    assert(trim(s) =~= s);
    assert(s.subrange(0, given.len() as int) =~= given);
    assert(s.subrange(given.len() + 1int, s.len() as int) =~= family);
}

/// The email of a Zitadel user; empty when it has none.
pub open spec fn spec_email(zu: ZitadelUser) -> Seq<char> {
    match zu.human {
        Some(h) => match h.email {
            Some(e) => e.email@,
            None => Seq::<char>::empty(),
        },
        None => Seq::<char>::empty(),
    }
}

/// `u` is the service user made of the Zitadel user `zu`: the same id, the
/// email (empty when absent), the display name, and the creation and change
/// times when they parse.
pub open spec fn spec_user_from(u: User, zu: ZitadelUser) -> bool {
    &&& u.id == zu.user_id
    &&& u.name@ == spec_display_name(zu)
    &&& u.email@ == spec_email(zu)
    &&& u.created_at == match zu.details {
        Some(d) => spec_parse_rfc3339(d.creation_date@),
        None => None,
    }
    &&& u.updated_at == match zu.details {
        Some(d) => spec_parse_rfc3339(d.change_date@),
        None => None,
    }
}

/// Convert a Zitadel user into a service user.
pub fn zitadel_user_to_proto(zu: &ZitadelUser) -> (u: User)
    ensures
        spec_user_from(u, *zu),
        match zu.human {
            Some(h) => match h.profile {
                Some(p) => u.name@ == trim(p.given_name@ + " "@ + p.family_name@),
                None => u.name@.len() == 0,
            },
            None => u.name@.len() == 0,
        },
{
    proof {
        let ghost z = *zu;
        if !(z.human matches Some(h) && h.profile is Some) {
            lemma_display_name_without_profile(z);
        }
    }
    let joined = match &zu.human {
        Some(h) => match &h.profile {
            Some(p) => concat3(p.given_name.as_str(), " ", p.family_name.as_str()),
            None => " ".to_owned(),
        },
        None => " ".to_owned(),
    };
    let name = trim_str(joined.as_str());
    let email = match &zu.human {
        Some(h) => match &h.email {
            Some(e) => e.email.clone(),
            None => String::new(),
        },
        None => String::new(),
    };
    let (created_at, updated_at) = match &zu.details {
        Some(d) => (parse_rfc3339(d.creation_date.as_str()), parse_rfc3339(d.change_date.as_str())),
        None => (None, None),
    };
    User { id: zu.user_id.clone(), email, name, created_at, updated_at }
}

/// The page number actually served: non-positive pages become page 1.
pub open spec fn spec_page(page: i32) -> i32 {
    if page <= 0 {
        1
    } else {
        page
    }
}

/// The page size actually served: sizes outside `1..=100` become 20.
pub open spec fn spec_page_size(page_size: i32) -> i32 {
    if page_size <= 0 || page_size > 100 {
        20
    } else {
        page_size
    }
}

/// The page and page size to serve and the search query that fetches them.
/// The offset is computed in `i32`, so pages far enough out that it would
/// overflow are outside the accepted inputs.
pub fn list_users_query(page: i32, page_size: i32) -> (r: (i32, i32, UserSearchQuery))
    requires
        (spec_page(page) - 1) * spec_page_size(page_size) <= i32::MAX,
    ensures
        r.0 == spec_page(page),
        r.1 == spec_page_size(page_size),
        r.2.offset == (spec_page(page) - 1) * spec_page_size(page_size),
        r.2.limit == spec_page_size(page_size),
        r.2.asc,
        1 <= r.0,
        1 <= r.1 <= 100,
{
    let page: i32 = if page <= 0 {
        1
    } else {
        page
    };
    let page_size: i32 = if page_size <= 0 || page_size > 100 {
        20
    } else {
        page_size
    };
    assert(0 <= (page - 1) * page_size) by (nonlinear_arith)
        requires
            page >= 1,
            page_size >= 1,
    ;
    let offset: i32 = (page - 1) * page_size;
    (page, page_size, UserSearchQuery { offset: offset as u64, limit: page_size as u64, asc: true })
}

/// The answer to a user listing: every Zitadel user converted, in order, with
/// the total truncated to `i32`.
pub fn list_users_response(result: &Vec<ZitadelUser>, total_result: i64, page: i32, page_size: i32) -> (r:
    ListUsersResponse)
    ensures
        r.users@.len() == result@.len(),
        forall|i: int| 0 <= i < result@.len() ==> spec_user_from(#[trigger] r.users@[i], result@[i]),
        r.total == #[verifier::truncate] (total_result as i32),
        r.page == page,
        r.page_size == page_size,
{
    let mut users: Vec<User> = Vec::new();
    let mut i: usize = 0;
    while i < result.len()
        invariant
            i <= result@.len(),
            users@.len() == i,
            forall|j: int| 0 <= j < i ==> spec_user_from(#[trigger] users@[j], result@[j]),
        decreases result.len() - i,
    {
        let u = zitadel_user_to_proto(&result[i]);
        users.push(u);
        i += 1;
    }
    let total: i32 = #[verifier::truncate] (total_result as i32);
    ListUsersResponse { users, total, page, page_size }
}

/// `given` and `family` are `name` split at its first space: the text
/// before it and the text after it; a name without a space is all given name.
pub open spec fn spec_name_split(name: Seq<char>, given: Seq<char>, family: Seq<char>) -> bool {
    &&& (forall|j: int| 0 <= j < name.len() ==> name[j] != ' ') ==> given == name && family.len() == 0
    &&& forall|k: int|
        0 <= k < name.len() && name[k] == ' ' && (forall|j: int| 0 <= j < k ==> name[j] != ' ')
            ==> given == name.subrange(0, k) && family == name.subrange(k + 1, name.len() as int)
}

/// Splits a full name at its first space into given and family name; a name
/// without a space is all given name.
pub fn split_name(name: &str) -> (r: (String, String))
    ensures
        spec_name_split(name@, r.0@, r.1@),
{
    let v = chars_of(name);
    let n = v.len();
    let mut i: usize = 0;
    while i < n && v[i] != ' '
        invariant
            v@ == name@,
            n == v@.len(),
            i <= n,
            forall|j: int| 0 <= j < i ==> name@[j] != ' ',
        decreases n - i,
    {
        i += 1;
    }
    if i == n {
        let given = string_from_chars(&v, 0, n);
        assert(name@.subrange(0, n as int) =~= name@);
        (given, String::new())
    } else {
        let given = string_from_chars(&v, 0, i);
        let family = string_from_chars(&v, i + 1, n);
        (given, family)
    }
}

/// A name split at its first space joins back to the name.
pub proof fn lemma_split_name_rejoins(name: Seq<char>, k: int)
    requires
        0 <= k < name.len(),
        name[k] == ' ',
    ensures
        name.subrange(0, k) + " "@ + name.subrange(k + 1, name.len() as int) == name,
{
    reveal_strlit(" ");
    assert(name.subrange(0, k) + " "@ + name.subrange(k + 1, name.len() as int) =~= name);
}

/// The changes a user update sends: the profile when a name is given (split
/// at its first space), the email when one is given.
pub fn user_update(name: Option<&str>, email: Option<&str>) -> (u: UserUpdate)
    ensures
        name is None <==> u.profile is None,
        u.email is Some <==> email is Some,
        email matches Some(e) ==> u.email.unwrap()@ == e@,
        name matches Some(n) ==> spec_name_split(n@, u.profile.unwrap().0@, u.profile.unwrap().1@),
{
    let profile = match name {
        Some(n) => Some(split_name(n)),
        None => None,
    };
    let email = match email {
        Some(e) => Some(e.to_owned()),
        None => None,
    };
    UserUpdate { profile, email }
}

impl UserUpdate {
    /// Whether the update changes nothing (no request is sent then).
    pub fn is_empty(&self) -> (r: bool)
        ensures
            r == (self.profile is None && self.email is None),
    {
        self.profile.is_none() && self.email.is_none()
    }
}

/// How the service answers an upstream response to a user lookup or
/// deletion: 404 is `NotFound`, any other non-2xx status is `Internal`.
pub fn check_user_status(status: u16) -> (r: Result<(), Status>)
    ensures
        status == 404 ==> (r matches Err(s) && s.code == Code::NotFound && s.message@
            == "User not found"@),
        status != 404 && !(200 <= status <= 299) ==> (r matches Err(s) && s.code == Code::Internal
            && s.message@ == "upstream service error"@),
        200 <= status <= 299 ==> r is Ok,
{
    if status == 404 {
        return Err(Status::new(Code::NotFound, "User not found".to_owned()));
    }
    check_upstream_status(status)
}

/// How the service answers an upstream response to a listing or an update:
/// any non-2xx status is `Internal`.
pub fn check_upstream_status(status: u16) -> (r: Result<(), Status>)
    ensures
        !(200 <= status <= 299) ==> (r matches Err(s) && s.code == Code::Internal && s.message@
            == "upstream service error"@),
        200 <= status <= 299 ==> r is Ok,
{
    if 200 <= status && status <= 299 {
        Ok(())
    } else {
        Err(Status::new(Code::Internal, "upstream service error".to_owned()))
    }
}

/// Status answered when the upstream request could not be sent; the
/// transport error itself is not shown to callers.
pub fn map_reqwest_err(_e: reqwest::Error) -> (s: Status)
    ensures
        s.code == Code::Internal,
        s.message@ == "upstream service request failed"@,
{
    Status::new(Code::Internal, "upstream service request failed".to_owned())
}

/// Status answered when the upstream response body did not decode.
pub fn map_json_err(_e: reqwest::Error) -> (s: Status)
    ensures
        s.code == Code::Internal,
        s.message@ == "upstream service returned an invalid response"@,
{
    Status::new(Code::Internal, "upstream service returned an invalid response".to_owned())
}

/// Refuses a current-user lookup without a user id.
pub fn require_current_user_id(user_id: &str) -> (r: Result<(), Status>)
    ensures
        r is Ok <==> user_id@.len() != 0,
        r matches Err(s) ==> s.code == Code::InvalidArgument && s.message@
            == "user_id must be provided (set by gateway from token)"@,
{
    if user_id.is_empty() {
        Err(Status::new(Code::InvalidArgument, "user_id must be provided (set by gateway from token)".to_owned()))
    } else {
        Ok(())
    }
}

/// URL of one user: the authority followed by `/v2/users/` and the id.
pub open spec fn spec_user_url(authority: Seq<char>, user_id: Seq<char>) -> Seq<char> {
    authority + "/v2/users/"@ + user_id
}

/// URL of one user: the authority followed by `/v2/users/` and the id.
pub fn user_url(authority: &str, user_id: &str) -> (u: String)
    ensures
        u@ == spec_user_url(authority@, user_id@),
{
    concat3(authority, "/v2/users/", user_id)
}

/// URL of the user search: the authority followed by `/v2/users`.
pub fn users_url(authority: &str) -> (u: String)
    ensures
        u@ == authority@ + "/v2/users"@,
{
    concat2(authority, "/v2/users")
}

/// The first outside step of a user update.
#[derive(Debug, Clone)]
pub enum UpdateUserAction {
    /// Send the changes with `PUT url`; on a 2xx answer fetch the user.
    Put { url: String, update: UserUpdate },
    /// Nothing to change: only read the user back, at `url`.
    Fetch { url: String },
}

/// Starts a user update: the id is checked first, then the changes are
/// built from the name (split at its first space) and the email. With no
/// change nothing is written: the update only reads the user back, at the
/// URL that a lookup of the same id reads (see `start_get_user`).
pub fn start_update_user(authority: &str, id: &str, name: Option<&str>, email: Option<&str>) -> (r: Result<
    UpdateUserAction,
    Status,
>)
    ensures
        !spec_valid_user_id(id@) ==> (r matches Err(s) && s.code == Code::InvalidArgument && s.message@
            == (if id@.len() == 0 {
            "User ID is required"@
        } else {
            "Invalid user ID format"@
        })),
        spec_valid_user_id(id@) && name is None && email is None ==> (r matches Ok(
            UpdateUserAction::Fetch { url },
        ) && url@ == spec_user_url(authority@, id@)),
        spec_valid_user_id(id@) && (name is Some || email is Some) ==> (r matches Ok(
            UpdateUserAction::Put { url, update },
        ) && url@ == spec_user_url(authority@, id@) && (name is None <==> update.profile is None)
            && (email is None <==> update.email is None) && (email matches Some(e) ==> update.email.unwrap()@
            == e@) && (name matches Some(n) ==> spec_name_split(
            n@,
            update.profile.unwrap().0@,
            update.profile.unwrap().1@,
        ))),
{
    validate_user_id(id)?;
    let update = user_update(name, email);
    if update.is_empty() {
        Ok(UpdateUserAction::Fetch { url: user_url(authority, id) })
    } else {
        Ok(UpdateUserAction::Put { url: user_url(authority, id), update })
    }
}

/// Starts a user lookup (also the read that ends an update or a current-user
/// lookup): the id is checked, then the user is read at its URL.
pub fn start_get_user(authority: &str, id: &str) -> (r: Result<String, Status>)
    ensures
        !spec_valid_user_id(id@) ==> (r matches Err(s) && s.code == Code::InvalidArgument && s.message@
            == (if id@.len() == 0 {
            "User ID is required"@
        } else {
            "Invalid user ID format"@
        })),
        spec_valid_user_id(id@) ==> (r matches Ok(url) && url@ == spec_user_url(authority@, id@)),
{
    validate_user_id(id)?;
    Ok(user_url(authority, id))
}

} // verus!
