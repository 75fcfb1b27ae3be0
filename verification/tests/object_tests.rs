use cache_lite::CacheObject;

#[test]
fn test_cache_object_creation_and_properties() {
    let test_path = "/tmp/cache_lite_tests/test_cache.cache".to_string();

    let cache_object = CacheObject::new("test_object".to_string(), test_path.clone(), 1);

    assert_eq!(cache_object.name(), "test_object");
    assert_eq!(cache_object.id(), 1);
    assert_eq!(cache_object.path(), test_path);
    assert!(cache_object.created_at().elapsed().is_ok());
}

#[test]
fn test_cache_object_clone() {
    let test_path = "/tmp/cache_lite_tests/test_clone.cache".to_string();

    let original = CacheObject::new("original".to_string(), test_path.clone(), 3);

    let cloned = original.clone();

    assert_eq!(original.name(), cloned.name());
    assert_eq!(original.id(), cloned.id());
    assert_eq!(original.path(), cloned.path());

    // Cloned object should have same properties but be a separate instance
    assert_eq!(original.name(), "original");
    assert_eq!(cloned.name(), "original");
}

#[test]
fn test_cache_object_never_expired() {
    let obj = CacheObject::new("stub".to_string(), "/tmp/stub.cache".to_string(), 9);
    assert!(!obj.is_expired());
}
