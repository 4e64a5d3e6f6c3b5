use toyjs::modules::{FsModuleLoader, ImportDecision};

#[test]
fn stored_modules_are_found_by_path_and_identity() {
    let mut cache: FsModuleLoader<u32> = FsModuleLoader::new();
    assert_eq!(cache.get_module("/app/math.js"), None);
    cache.store_module("/app/math.js".to_string(), 7, 1234);
    assert_eq!(cache.get_module("/app/math.js"), Some(&7));
    assert_eq!(cache.get_path_by_hash(1234), Some(&"/app/math.js".to_string()));
    assert_eq!(cache.get_path_by_hash(99), None);
    assert_eq!(cache.get_module("/app/other.js"), None);
}

#[test]
fn same_path_yields_same_module() {
    let mut cache: FsModuleLoader<u32> = FsModuleLoader::new();
    cache.store_module("/app/math.js".to_string(), 1, 10);
    cache.store_module("/app/util.js".to_string(), 2, 20);
    cache.store_module("/app/main".to_string(), 3, 30);
    let first = cache.get_module("/app/math.js").copied();
    let second = cache.get_module("/app/math.js").copied();
    assert_eq!(first, Some(1));
    assert_eq!(first, second);
    assert_eq!(cache.get_path_by_hash(20), Some(&"/app/util.js".to_string()));
}

#[test]
fn storing_a_path_again_replaces_its_module() {
    let mut cache: FsModuleLoader<u32> = FsModuleLoader::new();
    cache.store_module("/app/a.js".to_string(), 1, 10);
    cache.store_module("/app/a.js".to_string(), 2, 11);
    assert_eq!(cache.get_module("/app/a.js"), Some(&2));
    assert_eq!(cache.get_path_by_hash(10), Some(&"/app/a.js".to_string()));
    assert_eq!(cache.get_path_by_hash(11), Some(&"/app/a.js".to_string()));
}

#[test]
fn import_of_a_cached_path_reuses_its_module() {
    let mut cache: FsModuleLoader<u32> = FsModuleLoader::new();
    cache.store_module("/app/math.js".to_string(), 5, 50);
    match cache.decide_import("./math.js", Some("/app/math.js".to_string()), None) {
        ImportDecision::Cached(m) => assert_eq!(*m, 5),
        _ => panic!("expected the cached module"),
    }
    match cache.decide_import("./math", None, Some("/app/math.js".to_string())) {
        ImportDecision::Cached(m) => assert_eq!(*m, 5),
        _ => panic!("expected the cached module"),
    }
}

#[test]
fn import_of_a_new_path_is_loaded() {
    let cache: FsModuleLoader<u32> = FsModuleLoader::new();
    match cache.decide_import("./util", None, Some("/app/util.js".to_string())) {
        ImportDecision::Load(path) => assert_eq!(path, "/app/util.js"),
        _ => panic!("expected a load"),
    }
    match cache.decide_import("./util.js", Some("/app/util.js".to_string()), Some("/app/util.js.js".to_string())) {
        ImportDecision::Load(path) => assert_eq!(path, "/app/util.js"),
        _ => panic!("expected a load"),
    }
}

#[test]
fn import_of_a_missing_file_fails_naming_the_specifier() {
    let cache: FsModuleLoader<u32> = FsModuleLoader::new();
    match cache.decide_import("./nonexistent.js", None, None) {
        ImportDecision::Fail(message) => assert_eq!(message, "Cannot find module './nonexistent.js'"),
        _ => panic!("expected a failure"),
    }
}
