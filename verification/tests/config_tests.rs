use cache_lite::{Cache, CacheConfig};

#[test]
fn test_cache_config_default() {
    let config = CacheConfig::default();

    // Check default Windows path
    assert!(config.path.windows.contains("%temp%"));
    assert!(config.path.windows.contains("Rust/Cache"));

    // Check default Linux path
    assert_eq!(config.path.linux, "/tmp/Rust/Cache");

    // Check default filename format
    assert!(config.format.filename.contains("{name}"));
    assert!(config.format.filename.contains("{time}"));

    // Check default time format
    assert_eq!(config.format.time, "%Y+%m+%d-%H+%M+%S");
}

#[test]
fn test_cache_config_from_json() {
    let json_config = r#"
    {
        "path": {
            "windows": "C:/Temp/Cache",
            "linux": "/var/cache"
        },
        "format": {
            "filename": "cache_{name}.dat",
            "time": "%Y%m%d"
        }
    }
    "#;

    let config = CacheConfig::new(json_config).expect("Failed to parse config");

    assert_eq!(config.path.windows, "C:/Temp/Cache");
    assert_eq!(config.path.linux, "/var/cache");
    assert_eq!(config.format.filename, "cache_{name}.dat");
    assert_eq!(config.format.time, "%Y%m%d");
}

#[test]
fn test_cache_config_new_or_default() {
    // Test valid JSON
    let valid_json = r#"
    {
        "path": {
            "windows": "C:/Custom/Cache",
            "linux": "/custom/cache"
        },
        "format": {
            "filename": "custom_{name}.dat",
            "time": "%Y%m"
        }
    }
    "#;

    let config = CacheConfig::new_or_default(valid_json);
    assert_eq!(config.path.windows, "C:/Custom/Cache");
    assert_eq!(config.path.linux, "/custom/cache");
    assert_eq!(config.format.filename, "custom_{name}.dat");
    assert_eq!(config.format.time, "%Y%m");

    // Test invalid JSON - should fall back to default
    let invalid_json = "{invalid json";
    let config = CacheConfig::new_or_default(invalid_json);
    assert!(config.path.windows.contains("%temp%"));
    assert_eq!(config.path.linux, "/tmp/Rust/Cache");
}

#[test]
fn test_cache_config_invalid_json() {
    let invalid_json = "{invalid json";
    let result = CacheConfig::new(invalid_json);

    // Should return error
    assert!(result.is_err());

    // Check error type
    let error = result.err().unwrap();
    assert_eq!(error.kind(), "config_parse");
    assert!(error.message().contains("Failed to parse config"));
}

#[test]
fn test_cache_configuration_get_set() {
    let mut config = CacheConfig::default();

    // Modify configuration
    config.path.windows = "C:/Custom/Path".to_string();
    config.path.linux = "/custom/path".to_string();
    config.format.filename = "custom_{name}.dat".to_string();
    config.format.time = "%Y".to_string();

    let mut cache = Cache::new(config.clone());

    // Verify initial configuration
    let retrieved_config = cache.get_config();
    assert_eq!(retrieved_config.path.windows, "C:/Custom/Path");
    assert_eq!(retrieved_config.path.linux, "/custom/path");
    assert_eq!(retrieved_config.format.filename, "custom_{name}.dat");
    assert_eq!(retrieved_config.format.time, "%Y");

    // Update configuration
    let new_config = CacheConfig::default();
    cache.set_config(new_config.clone());

    // Verify updated configuration
    let updated_config = cache.get_config();
    assert_eq!(updated_config.path.windows, new_config.path.windows);
    assert_eq!(updated_config.path.linux, new_config.path.linux);
    assert_eq!(updated_config.format.filename, new_config.format.filename);
    assert_eq!(updated_config.format.time, new_config.format.time);
}

#[test]
fn test_config_missing_field_rejected() {
    // A document that parses as JSON but lacks one of the four fields
    let missing_time = r#"
    {
        "path": {
            "windows": "C:/Temp",
            "linux": "/tmp"
        },
        "format": {
            "filename": "{name}.cache"
        }
    }
    "#;
    let result = CacheConfig::new(missing_time);
    assert!(result.is_err());
    assert_eq!(result.err().unwrap().kind(), "config_parse");

    // A field of the wrong type is also rejected
    let wrong_type = r#"
    {
        "path": { "windows": "C:/Temp", "linux": 7 },
        "format": { "filename": "{name}.cache", "time": "%Y" }
    }
    "#;
    assert!(CacheConfig::new(wrong_type).is_err());
}
