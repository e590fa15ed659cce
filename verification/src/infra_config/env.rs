use std::str::FromStr;

use vstd::prelude::*;

use crate::text::{ascii_lower, concat2, str_eq, to_ascii_lowercase};

verus! {

/// Application environment: decides runtime behaviour, log format and default
/// log levels.
#[derive(Debug, Clone, Copy, PartialEq, Eq, Structural)]
pub enum AppEnv {
    Development,
    Staging,
    Production,
}

/// The environment named by `s`, compared without regard to ASCII case:
/// `development`/`dev`, `staging`/`stage`, `production`/`prod`.
pub open spec fn spec_parse_env(s: Seq<char>) -> Option<AppEnv> {
    let l = ascii_lower(s);
    if l == "development"@ || l == "dev"@ {
        Some(AppEnv::Development)
    } else if l == "staging"@ || l == "stage"@ {
        Some(AppEnv::Staging)
    } else if l == "production"@ || l == "prod"@ {
        Some(AppEnv::Production)
    } else {
        None
    }
}

impl AppEnv {
    /// The canonical lower-case name of the environment.
    pub open spec fn spec_name(self) -> Seq<char> {
        match self {
            AppEnv::Development => "development"@,
            AppEnv::Staging => "staging"@,
            AppEnv::Production => "production"@,
        }
    }

    /// Check if running in production.
    pub fn is_production(&self) -> (r: bool)
        ensures
            r == (*self == AppEnv::Production),
    {
        matches!(self, AppEnv::Production)
    }

    /// Check if running in development.
    pub fn is_development(&self) -> (r: bool)
        ensures
            r == (*self == AppEnv::Development),
    {
        matches!(self, AppEnv::Development)
    }

    /// Check if running in staging.
    pub fn is_staging(&self) -> (r: bool)
        ensures
            r == (*self == AppEnv::Staging),
    {
        matches!(self, AppEnv::Staging)
    }

    /// The canonical name: `development`, `staging` or `production`.
    pub fn to_string(&self) -> (s: String)
        ensures
            s@ == self.spec_name(),
    {
        match self {
            AppEnv::Development => "development".to_owned(),
            AppEnv::Staging => "staging".to_owned(),
            AppEnv::Production => "production".to_owned(),
        }
    }

    /// Parses a full name or an abbreviation, ignoring ASCII case.
    /// Any other text is refused with `Invalid environment: <text>`.
    pub fn parse(s: &str) -> (r: Result<AppEnv, String>)
        ensures
            r is Ok <==> spec_parse_env(s@) is Some,
            r matches Ok(e) ==> spec_parse_env(s@) == Some(e),
            r matches Err(m) ==> m@ == "Invalid environment: "@ + s@,
    {
        let lower = to_ascii_lowercase(s);
        let l = lower.as_str();
        if str_eq(l, "development") || str_eq(l, "dev") {
            Ok(AppEnv::Development)
        } else if str_eq(l, "staging") || str_eq(l, "stage") {
            Ok(AppEnv::Staging)
        } else if str_eq(l, "production") || str_eq(l, "prod") {
            Ok(AppEnv::Production)
        } else {
            Err(concat2("Invalid environment: ", s))
        }
    }
}

impl AppEnv {
    /// The environment named by the `APP_ENV` variable's value (`None` when
    /// unset); a missing or unrecognised value means development.
    pub fn from_env_value(value: Option<&str>) -> (e: AppEnv)
        ensures
            value matches Some(v) && spec_parse_env(v@) is Some ==> Some(e) == spec_parse_env(value.unwrap()@),
            value is None || spec_parse_env(value.unwrap()@) is None ==> e == AppEnv::Development,
    {
        match value {
            Some(v) => match AppEnv::parse(v) {
                Ok(e) => e,
                Err(_) => AppEnv::Development,
            },
            None => AppEnv::Development,
        }
    }
}

impl Default for AppEnv {
    fn default() -> (r: Self)
        ensures
            r == AppEnv::Development,
    {
        AppEnv::Development
    }
}

impl FromStr for AppEnv {
    type Err = String;

    fn from_str(s: &str) -> (r: Result<Self, String>)
        ensures
            r is Ok <==> spec_parse_env(s@) is Some,
            r matches Ok(e) ==> spec_parse_env(s@) == Some(e),
            r matches Err(m) ==> m@ == "Invalid environment: "@ + s@,
    {
        AppEnv::parse(s)
    }
}

/// The canonical name of every environment parses back to that environment.
pub proof fn lemma_name_parses_back(e: AppEnv)
    ensures
        spec_parse_env(e.spec_name()) == Some(e),
{
    reveal_strlit("development");
    reveal_strlit("dev");
    reveal_strlit("staging");
    reveal_strlit("stage");
    reveal_strlit("production");
    reveal_strlit("prod");
    let n = e.spec_name();
    assert(ascii_lower(n) =~= n);
}

/// Parsing ignores ASCII case: a name and its lower-cased form name the same
/// environment.
pub proof fn lemma_parse_ignores_case(s: Seq<char>)
    ensures
        spec_parse_env(ascii_lower(s)) == spec_parse_env(s),
{
    assert(ascii_lower(ascii_lower(s)) =~= ascii_lower(s));
}

} // verus!
