use rosemary_api::config::{Config, ConfigError, ConfigField, ConfigValue, ConfigVars, ValueKind};

fn vars(pages: Option<&str>) -> ConfigVars {
    ConfigVars {
        database_url: Some("postgres://db".to_string()),
        database_cert_path: Some("/etc/ca.pem".to_string()),
        static_files_dir: Some("/srv/static".to_string()),
        cache_client_pages: pages.map(|s| s.to_string()),
        cache_client_static: Some("24".to_string()),
        cache_memory_pages: Some("+5".to_string()),
        cache_memory_general: Some("255".to_string()),
    }
}

#[test]
fn field_names() {
    assert_eq!(ConfigField::TestVariable.to_str(), "test_variable");
    assert_eq!(ConfigField::DatabaseUrl.to_str(), "database_url");
    assert_eq!(ConfigField::DatabaseCertPath.to_str(), "database_cert_path");
    assert_eq!(ConfigField::StaticFilesDir.to_str(), "static_files_dir");
    assert_eq!(ConfigField::CacheClientPages.to_str(), "cache_client_pages");
    assert_eq!(ConfigField::CacheClientStatic.to_str(), "cache_client_static");
    assert_eq!(ConfigField::CacheMemoryPages.to_str(), "cache_memory_pages");
    assert_eq!(ConfigField::CacheMemoryGeneral.to_str(), "cache_memory_general");
}

#[test]
fn loads_all_fields() {
    let c = Config::from_vars(vars(Some("10"))).unwrap();
    assert_eq!(c.test_variable, "test");
    assert_eq!(c.database_url, "postgres://db");
    assert_eq!(c.database_cert_path, "/etc/ca.pem");
    assert_eq!(c.static_files_dir, "/srv/static");
    assert_eq!(c.cache_client_pages, 10);
    assert_eq!(c.cache_client_static, 24);
    assert_eq!(c.cache_memory_pages, 5);
    assert_eq!(c.cache_memory_general, 255);
}

#[test]
fn missing_variable_is_reported() {
    let e = Config::from_vars(vars(None)).unwrap_err();
    assert_eq!(e, ConfigError::Missing(ConfigField::CacheClientPages));
    assert_eq!(e.message(), "cache_client_pages is required config property");
    let mut v = vars(Some("1"));
    v.database_cert_path = None;
    v.cache_memory_general = None;
    assert_eq!(Config::from_vars(v).unwrap_err(), ConfigError::Missing(ConfigField::DatabaseCertPath));
}

#[test]
fn non_u8_variable_is_reported() {
    for bad in ["256", "", "-1", "+", "1 ", "abc"] {
        let e = Config::from_vars(vars(Some(bad))).unwrap_err();
        assert_eq!(e, ConfigError::NotU8(ConfigField::CacheClientPages));
        assert_eq!(e.message(), "cache_client_pages should be type of u8");
    }
}

#[test]
fn get_field_by_kind() {
    let c = Config::from_vars(vars(Some("7"))).unwrap();
    match c.get_field(ConfigField::TestVariable, ValueKind::Text) {
        Ok(ConfigValue::Text(s)) => assert_eq!(s, "test"),
        _ => panic!("expected text"),
    }
    match c.get_field(ConfigField::CacheClientPages, ValueKind::Number) {
        Ok(ConfigValue::Number(n)) => assert_eq!(n, 7),
        _ => panic!("expected a number"),
    }
    let e = c.get_field(ConfigField::DatabaseUrl, ValueKind::Number).unwrap_err();
    assert_eq!(e, ConfigError::WrongType(ConfigField::DatabaseUrl));
    assert_eq!(e.message(), "Failed to get config property database_url");
    let e = c.get_field(ConfigField::CacheMemoryGeneral, ValueKind::Text).unwrap_err();
    assert_eq!(e, ConfigError::WrongType(ConfigField::CacheMemoryGeneral));
}
