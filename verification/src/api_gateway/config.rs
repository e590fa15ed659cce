use vstd::prelude::*;

use crate::infra_config::loader::CommonConfig;
use crate::text::{concat3, decimal, to_decimal};

verus! {

/// Settings of the API gateway.
#[derive(Debug, Clone)]
pub struct Settings {
    pub common: CommonConfig,
    pub app: AppSettings,
    pub zitadel: ZitadelSettings,
}

/// Where the gateway listens and whom it calls.
#[derive(Debug, Clone)]
pub struct AppSettings {
    pub host: String,
    pub port: u16,
    pub metrics_port: u16,
    pub name: String,
    /// gRPC endpoint of the user service, e.g. "http://127.0.0.1:50051".
    pub user_service_url: String,
}

/// The Zitadel instance and the key file of the gateway's API application.
#[derive(Debug, Clone)]
pub struct ZitadelSettings {
    /// Zitadel instance URL.
    pub authority: String,
    /// Path to the API application's JSON key file.
    pub key_file: String,
}

/// Default user service endpoint.
pub fn default_user_service_url() -> (s: String)
    ensures
        s@ == "http://127.0.0.1:50051"@,
{
    "http://127.0.0.1:50051".to_owned()
}

impl Default for AppSettings {
    fn default() -> (s: Self)
        ensures
            s.host@ == "127.0.0.1"@,
            s.port == 8080,
            s.metrics_port == 60080,
            s.name@ == "api-gateway"@,
            s.user_service_url@ == "http://127.0.0.1:50051"@,
    {
        AppSettings {
            host: "127.0.0.1".to_owned(),
            port: 8080,
            metrics_port: 60080,
            name: "api-gateway".to_owned(),
            user_service_url: default_user_service_url(),
        }
    }
}

impl Default for ZitadelSettings {
    fn default() -> (s: Self)
        ensures
            s.authority@ == "https://localhost.zitadel.cloud"@,
            s.key_file@ == "zitadel-key.json"@,
    {
        ZitadelSettings {
            authority: "https://localhost.zitadel.cloud".to_owned(),
            key_file: "zitadel-key.json".to_owned(),
        }
    }
}

impl Default for Settings {
    fn default() -> (s: Self)
        ensures
            s.common.app_env@ == "dev"@,
            s.common.log_level@ == "info"@,
            s.common.database_url is None,
            s.app.host@ == "127.0.0.1"@,
            s.app.port == 8080,
            s.app.metrics_port == 60080,
            s.app.name@ == "api-gateway"@,
            s.app.user_service_url@ == "http://127.0.0.1:50051"@,
            s.zitadel.authority@ == "https://localhost.zitadel.cloud"@,
            s.zitadel.key_file@ == "zitadel-key.json"@,
    {
        Settings {
            common: CommonConfig::default(),
            app: AppSettings::default(),
            zitadel: ZitadelSettings::default(),
        }
    }
}

/// Application configuration wrapper.
#[derive(Clone)]
pub struct AppConfig {
    pub settings: Settings,
}

impl AppConfig {
    pub fn new(settings: Settings) -> (c: Self)
        ensures
            c.settings == settings,
    {
        AppConfig { settings }
    }

    /// `host:port` on which the gateway listens.
    pub fn bind_address(&self) -> (a: String)
        ensures
            a@ == self.settings.app.host@ + ":"@ + decimal(self.settings.app.port as nat),
    {
        let port = to_decimal(self.settings.app.port as u64);
        concat3(self.settings.app.host.as_str(), ":", port.as_str())
    }

    pub fn app_name(&self) -> (r: &str)
        ensures
            r@ == self.settings.app.name@,
    {
        self.settings.app.name.as_str()
    }

    pub fn user_service_url(&self) -> (r: &str)
        ensures
            r@ == self.settings.app.user_service_url@,
    {
        self.settings.app.user_service_url.as_str()
    }

    pub fn zitadel_authority(&self) -> (r: &str)
        ensures
            r@ == self.settings.zitadel.authority@,
    {
        self.settings.zitadel.authority.as_str()
    }

    pub fn zitadel_key_file(&self) -> (r: &str)
        ensures
            r@ == self.settings.zitadel.key_file@,
    {
        self.settings.zitadel.key_file.as_str()
    }
}

} // verus!
