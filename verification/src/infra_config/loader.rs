use vstd::prelude::*;

use crate::text::{debug_str, spec_debug_str};

verus! {

/// Configuration fields shared by every service; service settings embed it.
#[derive(Debug, Clone)]
pub struct CommonConfig {
    /// Application environment: dev, staging, prod, test.
    pub app_env: String,
    /// Log level: trace, debug, info, warn, error.
    pub log_level: String,
    /// Optional database URL.
    pub database_url: Option<String>,
}

/// Default application environment: `dev`.
pub fn default_app_env() -> (r: String)
    ensures
        r@ == "dev"@,
{
    "dev".to_owned()
}

/// Default log level: `info`.
pub fn default_log_level() -> (r: String)
    ensures
        r@ == "info"@,
{
    "info".to_owned()
}

impl Default for CommonConfig {
    fn default() -> (r: Self)
        ensures
            r.app_env@ == "dev"@,
            r.log_level@ == "info"@,
            r.database_url is None,
    {
        CommonConfig { app_env: default_app_env(), log_level: default_log_level(), database_url: None }
    }
}

/// `Debug` text of an optional string: `None`, or the string's text in
/// `Some(..)`.
pub open spec fn spec_debug_opt_str(o: Option<String>) -> Seq<char> {
    match o {
        None => "None"@,
        Some(s) => "Some("@ + spec_debug_str(s@) + ")"@,
    }
}

impl CommonConfig {
    /// `Debug` text of the configuration, field by field.
    pub open spec fn spec_debug(self) -> Seq<char> {
        "CommonConfig { app_env: "@ + spec_debug_str(self.app_env@) + ", log_level: "@ + spec_debug_str(
            self.log_level@,
        ) + ", database_url: "@ + spec_debug_opt_str(self.database_url) + " }"@
    }

    /// `Debug` text of the configuration, as `derive(Debug)` writes it.
    pub fn debug_repr(&self) -> (s: String)
        ensures
            s@ == self.spec_debug(),
    {
        let mut s = String::from_str("CommonConfig { app_env: ");
        let app_env = debug_str(self.app_env.as_str());
        s.append(app_env.as_str());
        s.append(", log_level: ");
        let log_level = debug_str(self.log_level.as_str());
        s.append(log_level.as_str());
        s.append(", database_url: ");
        match &self.database_url {
            None => s.append("None"),
            Some(u) => {
                s.append("Some(");
                let url = debug_str(u.as_str());
                s.append(url.as_str());
                s.append(")");
            },
        }
        s.append(" }");
        s
    }
}

} // verus!
