use cache_lite::utils::{resolve_path, validate_name, validate_name_for_platform, EnvVars};
use cache_lite::{Cache, CacheConfig};

const BASE_DIR: &str = "/tmp/cache_lite_tests";

fn test_config(filename: &str, time: &str) -> CacheConfig {
    let json = format!(
        r#"{{
            "path": {{ "windows": "{}", "linux": "{}" }},
            "format": {{ "filename": "{}", "time": "{}" }}
        }}"#,
        BASE_DIR, BASE_DIR, filename, time
    );
    CacheConfig::new(&json).expect("Failed to parse config")
}

#[test]
fn test_cache_invalid_names() {
    let config = CacheConfig::default();
    let mut cache = Cache::new(config);

    // Test with empty name
    let result = cache.create("", None);
    assert!(result.is_err(), "Should reject empty names");

    // Test with path traversal attempt
    let result = cache.create("../evil", None);
    assert!(result.is_err(), "Should reject path traversal names");

    // Test with slash in name
    let result = cache.create("path/to/cache", None);
    assert!(result.is_err(), "Should reject names with slashes");

    // Test with backslash in name (Windows)
    let result = cache.create("path\\to\\cache", None);
    assert!(result.is_err(), "Should reject names with backslashes");

    // Test with valid name
    let result = cache.create("valid_cache_name", None);
    assert!(result.is_ok(), "Should accept valid cache names");
}

#[test]
fn test_cache_concurrent_ids() {
    let config = CacheConfig::default();
    let mut cache = Cache::new(config);

    // Create multiple cache objects and verify they get sequential IDs
    let obj1 = cache.create("obj1", None).expect("Failed to create obj1");
    assert_eq!(obj1.id(), 1);

    let obj2 = cache.create("obj2", None).expect("Failed to create obj2");
    assert_eq!(obj2.id(), 2);

    let obj3 = cache.create("obj3", None).expect("Failed to create obj3");
    assert_eq!(obj3.id(), 3);

    // Remove one and create another
    cache.remove("obj2").expect("Failed to remove obj2");
    let obj4 = cache.create("obj4", None).expect("Failed to create obj4");
    assert_eq!(obj4.id(), 4); // IDs should continue incrementing

    // Create more objects
    let obj5 = cache.create("obj5", None).expect("Failed to create obj5");
    assert_eq!(obj5.id(), 5);
}

#[test]
fn test_cache_large_name_rejection() {
    let config = CacheConfig::default();
    let mut cache = Cache::new(config);

    // Create a name that's too long
    let long_name = "a".repeat(300);
    let result = cache.create(&long_name, None);

    // Should reject names longer than 255 characters
    assert!(result.is_err());
    assert_eq!(result.err().unwrap().kind(), "invalid_name");

    // Create a name at the limit
    let limit_name = "a".repeat(255);
    let result = cache.create(&limit_name, None);

    // Should accept names at exactly 255 characters
    assert!(result.is_ok());
}

#[test]
fn test_cache_duplicate_names() {
    let config = CacheConfig::default();
    let mut cache = Cache::new(config);

    // Create first cache object
    let result1 = cache.create("duplicate", None);
    assert!(result1.is_ok());

    // Try to create another with same name - should overwrite (not error)
    let result2 = cache.create("duplicate", None);
    assert!(result2.is_ok());

    // Should have only one object with that name
    assert_eq!(cache.len(), 1);
}

#[test]
fn test_cache_custom_configuration() {
    let base_config = test_config("default_{name}.cache", "%Y%m%d");
    let mut cache = Cache::new(base_config);

    // Custom configuration to override filename format
    let custom_config = r#"
    {
        "path": {
            "windows": "",
            "linux": ""
        },
        "format": {
            "filename": "custom_{name}_{id}.dat",
            "time": "%H%M%S"
        }
    }
    "#;

    let cache_obj = cache
        .create("custom_cache", Some(custom_config))
        .expect("Failed to create cache with custom config");

    let path_str = cache_obj.path();

    // Should use custom filename format
    assert!(
        path_str.contains("custom_custom_cache_"),
        "Path should contain custom pattern: {}",
        path_str
    );
    assert!(path_str.ends_with(".dat"), "Path should end with .dat: {}", path_str);
}

#[test]
fn test_cache_empty_config_override() {
    let base_config = test_config("base_{name}.cache", "%Y%m%d");
    let mut cache = Cache::new(base_config);

    // Custom config with empty strings (should not override base config)
    let custom_config = r#"
    {
        "path": {
            "windows": "",
            "linux": ""
        },
        "format": {
            "filename": "",
            "time": ""
        }
    }
    "#;

    let cache_obj = cache
        .create("test", Some(custom_config))
        .expect("Failed to create cache object");

    let path_str = cache_obj.path();

    // Should use base config since custom config has empty strings
    assert!(
        path_str.contains("base_test"),
        "Path should contain base pattern: {}",
        path_str
    );
    assert!(path_str.ends_with(".cache"), "Path should end with .cache: {}", path_str);
}

#[test]
fn test_cache_iterator() {
    let config = test_config("{name}.cache", "%Y%m%d");
    let mut cache = Cache::new(config);

    // Create multiple cache objects
    let _ = cache.create("cache_a", None).expect("Failed to create cache_a");
    let _ = cache.create("cache_b", None).expect("Failed to create cache_b");
    let _ = cache.create("cache_c", None).expect("Failed to create cache_c");

    // Test iterator collects all names
    let objects = cache.iter();
    let names: Vec<String> = objects.iter().map(|obj| obj.name().to_string()).collect();

    assert_eq!(names.len(), 3, "Should have 3 cache objects");
    assert!(names.contains(&"cache_a".to_string()));
    assert!(names.contains(&"cache_b".to_string()));
    assert!(names.contains(&"cache_c".to_string()));

    // Test iterator order (should not be relied upon)
    let ids: Vec<u32> = objects.iter().map(|obj| obj.id()).collect();

    assert_eq!(ids.len(), 3);
    assert!(ids.contains(&1));
    assert!(ids.contains(&2));
    assert!(ids.contains(&3));
}

#[test]
fn test_cache_deprecated_functions() {
    let config = test_config("{name}.cache", "%Y%m%d");
    let mut cache = Cache::new(config);

    // Create a cache object to test the retired expiration surface
    let cache_obj = cache
        .create("deprecated_test", None)
        .expect("Failed to create cache object");

    // The retired is_expired method always returns false
    let expired = cache_obj.is_expired();
    assert!(!expired, "is_expired should always return false");

    // The retired cleanup method clears the registry
    let cleanup_result = cache.cleanup();
    assert!(cleanup_result.is_ok());
    assert_eq!(cleanup_result.unwrap(), 1);

    // After cleanup, cache should be empty
    assert_eq!(cache.len(), 0);
}

#[test]
fn test_cache_path_expansion() {
    let config = test_config("test.cache", "%Y%m%d");
    let cache = Cache::new(config);

    // Test path expansion - should not modify already absolute paths
    let expanded = cache.expand_path(BASE_DIR);
    assert_eq!(expanded, BASE_DIR);

    // Test tilde expansion (if home directory is available)
    if dirs::home_dir().is_some() {
        let expanded = cache.expand_path("~/test/cache");
        assert!(!expanded.contains('~'), "Tilde should be expanded");
    }
}

#[test]
fn test_create_then_get_and_missing() {
    let config = test_config("{name}.cache", "%Y%m%d");
    let mut cache = Cache::new(config);

    let created = cache.create("x", None).expect("Failed to create cache object");
    assert_eq!(created.name(), "x");

    let fetched = cache.get("x").expect("Failed to get cache object");
    assert_eq!(fetched.name(), "x");
    assert_eq!(fetched.id(), created.id());
    assert_eq!(fetched.path(), created.path());

    let missing = cache.get("missing");
    assert!(missing.is_err());
    let err = missing.err().unwrap();
    assert_eq!(err.kind(), "not_found");
    assert!(err.is_not_found());
}

#[test]
fn test_clear_empties_registry() {
    let config = test_config("{name}.cache", "%Y%m%d");
    let mut cache = Cache::new(config);

    cache.create("one", None).expect("Failed to create one");
    cache.create("two", None).expect("Failed to create two");
    assert_eq!(cache.len(), 2);
    assert!(!cache.is_empty());

    // clear never fails and always leaves the registry empty, whatever has
    // become of the backing files
    let result = cache.clear();
    assert!(result.is_ok());
    assert_eq!(cache.len(), 0);
    assert!(cache.is_empty());

    // clearing an already empty registry also succeeds
    assert!(cache.clear().is_ok());
    assert_eq!(cache.len(), 0);
}

#[test]
fn test_duplicate_name_policy_scenario() {
    // Base linux path at a temp directory, filename template "{name}.cache":
    // re-creating a registered name silently overwrites the registry entry
    // (the looser duplicate-name policy; no AlreadyExists error is raised).
    let config = test_config("{name}.cache", "%Y%m%d");
    let mut cache = Cache::new(config);

    let first = cache.create("a", None).expect("first create should succeed");
    assert_eq!(first.id(), 1);

    let second = cache.create("a", None).expect("second create should also succeed");
    assert_eq!(second.id(), 2, "the overwriting entry gets a fresh id");
    assert_eq!(cache.len(), 1, "only one entry per name remains");

    let fetched = cache.get("a").expect("name still registered");
    assert_eq!(fetched.id(), 2, "the registry holds the newer entry");
    assert!(fetched.path().ends_with("a.cache"));
}

#[test]
fn test_exact_path_rendering() {
    let config = test_config("{name}-{id}", "%Y");
    let mut cache = Cache::new(config);

    let obj = cache.create("n", None).expect("Failed to create cache object");
    // No {time} placeholder: the path is fully determined
    assert_eq!(obj.path(), format!("{}/n-1", BASE_DIR));
}

#[test]
fn test_unknown_placeholder_left_verbatim() {
    let config = test_config("x{foo}_{name}.cache", "%Y");
    let mut cache = Cache::new(config);

    let obj = cache.create("n", None).expect("Failed to create cache object");
    assert!(
        obj.path().contains("x{foo}_n"),
        "Unknown placeholders must stay verbatim: {}",
        obj.path()
    );
}

#[test]
fn test_invalid_time_format_rejected() {
    // %Q is not a recognized strftime specifier
    let config = test_config("{name}.cache", "%Q");
    let mut cache = Cache::new(config);

    let result = cache.create("n", None);
    assert!(result.is_err());
    assert_eq!(result.err().unwrap().kind(), "invalid_config");

    // The failure changes nothing: a later create under a valid override works
    assert_eq!(cache.len(), 0);
    let override_config = r#"
    {
        "path": { "windows": "", "linux": "" },
        "format": { "filename": "", "time": "%Y" }
    }
    "#;
    let obj = cache.create("n", Some(override_config)).expect("valid override");
    assert_eq!(obj.id(), 1, "a failed create consumes no id");
}

#[test]
fn test_malformed_override_rejected() {
    let config = test_config("{name}.cache", "%Y");
    let mut cache = Cache::new(config);

    let result = cache.create("n", Some("{not json"));
    assert!(result.is_err());
    assert_eq!(result.err().unwrap().kind(), "config_parse");
    assert_eq!(cache.len(), 0);
}

#[test]
fn test_validate_name_rules() {
    assert!(validate_name("ok_name").is_ok());
    assert!(validate_name(&"a".repeat(255)).is_ok());
    assert!(validate_name("name.with.dots").is_ok());

    for bad in [
        "",
        "a..b",
        "..",
        "a/b",
        "a\\b",
        "a\0b",
        "a\tb",
        "line\nbreak",
    ] {
        let r = validate_name(bad);
        assert!(r.is_err(), "{:?} should be rejected", bad);
        assert_eq!(r.err().unwrap().kind(), "invalid_name");
    }
    assert!(validate_name(&"a".repeat(256)).is_err());
}

#[test]
fn test_validate_name_windows_rules() {
    // Reserved device names are rejected on Windows only, in any case and
    // with a trailing extension
    for reserved in ["con", "CON", "Con.txt", "prn", "AUX", "nul.dat", "COM1", "com9.log", "LPT5"] {
        assert!(
            validate_name_for_platform(reserved, true).is_err(),
            "{:?} should be rejected on Windows",
            reserved
        );
        assert!(
            validate_name_for_platform(reserved, false).is_ok(),
            "{:?} is acceptable elsewhere",
            reserved
        );
    }
    // COM0 is not reserved; CONX is not CON
    assert!(validate_name_for_platform("COM0", true).is_ok());
    assert!(validate_name_for_platform("CONX", true).is_ok());

    // Characters Windows forbids in file names
    for bad in ["a<b", "a>b", "a:b", "a\"b", "a|b", "a?b", "a*b"] {
        assert!(validate_name_for_platform(bad, true).is_err());
        assert!(validate_name_for_platform(bad, false).is_ok());
    }
}

#[test]
fn test_resolve_path_env_and_separators() {
    let env = EnvVars {
        temp: Some("C:/Temp".to_string()),
        tmp: None,
        appdata: Some("C:/Users/u/AppData/Roaming".to_string()),
        localappdata: None,
        userprofile: None,
    };

    // Windows: set tokens are substituted, then separators normalized
    let r = resolve_path("%temp%/My/Cache", true, &env, None);
    assert_eq!(r, "C:\\Temp\\My\\Cache");

    // An unset token is left in place
    let r = resolve_path("%tmp%/x", true, &env, None);
    assert_eq!(r, "%tmp%\\x");

    let r = resolve_path("%appdata%/App", true, &env, None);
    assert_eq!(r, "C:\\Users\\u\\AppData\\Roaming\\App");

    // Off Windows: no token substitution, no separator rewriting
    let r = resolve_path("%temp%/My/Cache", false, &env, None);
    assert_eq!(r, "%temp%/My/Cache");

    // A leading tilde becomes the given home directory on any platform
    let r = resolve_path("~/cache", false, &env, Some("/home/u"));
    assert_eq!(r, "/home/u/cache");

    // Without a home directory the tilde stays
    let r = resolve_path("~/cache", false, &env, None);
    assert_eq!(r, "~/cache");

    // A tilde not in leading position is untouched
    let r = resolve_path("/a/~b", false, &env, Some("/home/u"));
    assert_eq!(r, "/a/~b");
}

#[test]
fn test_resolved_cache_path_formula() {
    let config = test_config("{name}-{id}-{time}", "%Y");
    // The path computation is a pure function of its inputs
    let path = cache_lite::cache::resolved_cache_path(&config, "n", 1234, None, "T");
    assert_eq!(path, format!("{}/n-1234-T", BASE_DIR));

    // A base path ending in a separator gains no second separator
    let mut config2 = CacheConfig::default();
    config2.path.linux = "/base/".to_string();
    config2.format.filename = "{name}".to_string();
    let path = cache_lite::cache::resolved_cache_path(&config2, "n", 1, None, "T");
    assert_eq!(path, "/base/n");

    // A home directory is substituted for a leading tilde in the base path
    let mut config3 = CacheConfig::default();
    config3.path.linux = "~/c".to_string();
    config3.format.filename = "{name}".to_string();
    let path = cache_lite::cache::resolved_cache_path(&config3, "n", 1, Some("/home/u"), "T");
    assert_eq!(path, "/home/u/c/n");
}

#[test]
fn test_create_uses_time_format() {
    // With a constant time pattern the rendered time is predictable
    let config = test_config("{name}.{time}.cache", "at");
    let mut cache = Cache::new(config);
    let obj = cache.create("n", None).expect("Failed to create cache object");
    assert_eq!(obj.path(), format!("{}/n.at.cache", BASE_DIR));
}

#[test]
fn test_create_renders_time_pattern() {
    // %Y must be rendered as a four-digit year, not left as the pattern text
    let config = test_config("{name}.{time}", "%Y");
    let mut cache = Cache::new(config);
    let obj = cache.create("n", None).expect("Failed to create cache object");
    let path = obj.path();
    assert!(!path.contains("%Y"), "time pattern must be rendered: {}", path);
    let rendered = path
        .strip_prefix(&format!("{}/n.", BASE_DIR))
        .expect("path should start with base and name");
    assert_eq!(rendered.len(), 4, "a year has four digits: {}", rendered);
    assert!(rendered.chars().all(|c| c.is_ascii_digit()), "year is numeric: {}", rendered);
}
