use vstd::prelude::*;

use crate::infra_config::loader::CommonConfig;

verus! {

/// Settings of the authentication service.
#[derive(Debug)]
pub struct Settings {
    pub common: CommonConfig,
    pub host: String,
    pub port: u16,
    pub metrics_port: u16,
    pub jwt_secret: String,
    pub jwt_expiration_hours: i64,
}

impl Default for Settings {
    fn default() -> (s: Self)
        ensures
            s.common.app_env@ == "dev"@,
            s.common.log_level@ == "info"@,
            s.common.database_url is None,
            s.host@ == "127.0.0.1"@,
            s.port == 50051,
            s.metrics_port == 60051,
            s.jwt_secret@ == "your-secret-key-change-in-production"@,
            s.jwt_expiration_hours == 24,
    {
        Settings {
            common: CommonConfig::default(),
            host: "127.0.0.1".to_owned(),
            port: 50051,
            metrics_port: 60051,
            jwt_secret: "your-secret-key-change-in-production".to_owned(),
            jwt_expiration_hours: 24,
        }
    }
}

} // verus!
