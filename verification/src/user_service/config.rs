use vstd::prelude::*;

use crate::infra_config::loader::CommonConfig;
use crate::text::{debug_str, decimal, spec_debug_str, to_decimal};

verus! {

/// Settings of the user service. The service account token is a credential.
pub struct Settings {
    pub common: CommonConfig,
    pub host: String,
    pub port: u16,
    pub metrics_port: u16,
    /// Zitadel instance URL, e.g. "https://my-instance.zitadel.cloud".
    pub zitadel_authority: String,
    /// Zitadel service account personal access token.
    pub zitadel_service_account_token: String,
}

impl Default for Settings {
    fn default() -> (s: Self)
        ensures
            s.common.app_env@ == "dev"@,
            s.common.log_level@ == "info"@,
            s.common.database_url is None,
            s.host@ == "127.0.0.1"@,
            s.port == 50052,
            s.metrics_port == 60052,
            s.zitadel_authority@ == "https://localhost.zitadel.cloud"@,
            s.zitadel_service_account_token@ == "change-me"@,
    {
        Settings {
            common: CommonConfig::default(),
            host: "127.0.0.1".to_owned(),
            port: 50052,
            metrics_port: 60052,
            zitadel_authority: "https://localhost.zitadel.cloud".to_owned(),
            zitadel_service_account_token: "change-me".to_owned(),
        }
    }
}

impl Settings {
    /// `Debug` text of the settings with the service account token masked
    /// as `[REDACTED]`.
    pub open spec fn spec_debug(self) -> Seq<char> {
        "Settings { common: "@ + self.common.spec_debug() + ", host: "@ + spec_debug_str(self.host@)
            + ", port: "@ + decimal(self.port as nat) + ", metrics_port: "@ + decimal(
            self.metrics_port as nat,
        ) + ", zitadel_authority: "@ + spec_debug_str(self.zitadel_authority@)
            + ", zitadel_service_account_token: \"[REDACTED]\" }"@
    }

    /// Diagnostic rendering that never shows the service account token.
    pub fn debug_repr(&self) -> (s: String)
        ensures
            s@ == self.spec_debug(),
    {
        let mut s = String::from_str("Settings { common: ");
        let common = self.common.debug_repr();
        s.append(common.as_str());
        s.append(", host: ");
        let host = debug_str(self.host.as_str());
        s.append(host.as_str());
        s.append(", port: ");
        let port = to_decimal(self.port as u64);
        s.append(port.as_str());
        s.append(", metrics_port: ");
        let metrics_port = to_decimal(self.metrics_port as u64);
        s.append(metrics_port.as_str());
        s.append(", zitadel_authority: ");
        let authority = debug_str(self.zitadel_authority.as_str());
        s.append(authority.as_str());
        s.append(", zitadel_service_account_token: \"[REDACTED]\" }");
        s
    }
}

/// The diagnostic rendering does not depend on the service account token:
/// settings that differ only in their token render alike.
pub proof fn lemma_debug_hides_token(a: Settings, b: Settings)
    requires
        a.common == b.common,
        a.host == b.host,
        a.port == b.port,
        a.metrics_port == b.metrics_port,
        a.zitadel_authority == b.zitadel_authority,
    ensures
        a.spec_debug() == b.spec_debug(),
{
}

} // verus!
