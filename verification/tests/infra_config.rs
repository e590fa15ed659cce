use pim::infra_config::features::{env_var_for, is_enabled_value, is_truthy};
use pim::infra_config::{AppEnv, CommonConfig};

#[test]
fn test_from_str() {
    assert_eq!("development".parse::<AppEnv>().unwrap(), AppEnv::Development);
    assert_eq!("dev".parse::<AppEnv>().unwrap(), AppEnv::Development);
    assert_eq!("staging".parse::<AppEnv>().unwrap(), AppEnv::Staging);
    assert_eq!("stage".parse::<AppEnv>().unwrap(), AppEnv::Staging);
    assert_eq!("production".parse::<AppEnv>().unwrap(), AppEnv::Production);
    assert_eq!("prod".parse::<AppEnv>().unwrap(), AppEnv::Production);
    assert!("invalid".parse::<AppEnv>().is_err());
    assert!("whatever".parse::<AppEnv>().is_err());
}

#[test]
fn test_default() {
    assert_eq!(AppEnv::default(), AppEnv::Development);
}

#[test]
fn test_is_methods() {
    assert!(AppEnv::Development.is_development());
    assert!(!AppEnv::Development.is_production());
    assert!(!AppEnv::Development.is_staging());

    assert!(AppEnv::Production.is_production());
    assert!(!AppEnv::Production.is_development());
}

#[test]
fn test_display() {
    assert_eq!(AppEnv::Development.to_string(), "development");
    assert_eq!(AppEnv::Staging.to_string(), "staging");
    assert_eq!(AppEnv::Production.to_string(), "production");
}

#[test]
fn parse_ignores_ascii_case() {
    assert_eq!(AppEnv::parse("PROD").unwrap(), AppEnv::Production);
    assert_eq!(AppEnv::parse("Stage").unwrap(), AppEnv::Staging);
    assert_eq!(AppEnv::parse("DeV").unwrap(), AppEnv::Development);
}

#[test]
fn parse_error_names_the_input() {
    assert_eq!(AppEnv::parse("qa").unwrap_err(), "Invalid environment: qa");
    assert_eq!(AppEnv::parse(" dev").unwrap_err(), "Invalid environment:  dev");
}

#[test]
fn display_parses_back() {
    for e in [AppEnv::Development, AppEnv::Staging, AppEnv::Production] {
        assert_eq!(AppEnv::parse(&e.to_string()).unwrap(), e);
    }
}

#[test]
fn env_var_name_is_uppercased_and_prefixed() {
    assert_eq!(env_var_for("new_user_search"), "APP_FEATURE_NEW_USER_SEARCH");
}

#[test]
fn env_var_name_keeps_non_letters() {
    assert_eq!(env_var_for("ff_2x"), "APP_FEATURE_FF_2X");
    assert_eq!(env_var_for(""), "APP_FEATURE_");
}

#[test]
fn truthy_values_enable_flag() {
    for raw in ["true", "TRUE", " True ", "1", "yes", "YES"] {
        assert!(is_truthy(raw), "expected {raw:?} to be truthy");
    }
}

#[test]
fn other_values_disable_flag() {
    for raw in ["false", "0", "no", "", "on", "enabled", "2"] {
        assert!(!is_truthy(raw), "expected {raw:?} to be falsy");
    }
}

#[test]
fn truthy_ignores_unicode_surrounding_space() {
    assert!(is_truthy("\u{3000}yes\t\n"));
    assert!(!is_truthy("y es"));
}

#[test]
fn common_config_defaults() {
    let c = CommonConfig::default();
    assert_eq!(c.app_env, "dev");
    assert_eq!(c.log_level, "info");
    assert!(c.database_url.is_none());
}

#[test]
fn env_value_defaults_to_development() {
    assert_eq!(AppEnv::from_env_value(None), AppEnv::Development);
    assert_eq!(AppEnv::from_env_value(Some("bogus")), AppEnv::Development);
    assert_eq!(AppEnv::from_env_value(Some("PROD")), AppEnv::Production);
    assert_eq!(AppEnv::from_env_value(Some("staging")), AppEnv::Staging);
}

#[test]
fn unset_flag_is_disabled() {
    assert!(!is_enabled_value(None));
    assert!(is_enabled_value(Some(" Yes ")));
    assert!(!is_enabled_value(Some("no")));
}
