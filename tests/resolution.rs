use toyjs::resolve::{import_candidate, main_module_path, with_js_fallback};

#[test]
fn absolute_specifiers_are_used_verbatim() {
    assert_eq!(import_candidate("/home/user/app/main", "/lib/math.js", false), "/lib/math.js");
}

#[test]
fn relative_specifiers_join_the_referrer_directory() {
    assert_eq!(import_candidate("/home/user/app/main", "./math.js", false), "/home/user/app/./math.js");
    assert_eq!(import_candidate("/home/user/app/util/str.js", "../math.js", false), "/home/user/app/util/../math.js");
}

#[test]
fn a_directory_referrer_is_its_own_base() {
    assert_eq!(import_candidate("/home/user/app", "math.js", true), "/home/user/app/math.js");
}

#[test]
fn a_referrer_without_parent_resolves_from_root() {
    assert_eq!(import_candidate("", "math.js", false), "/math.js");
}

#[test]
fn missing_files_are_retried_with_js() {
    assert_eq!(with_js_fallback("/app/math", false), "/app/math.js");
    assert_eq!(with_js_fallback("/app/math.js", true), "/app/math.js");
}

#[test]
fn entry_module_lives_under_the_working_directory() {
    assert_eq!(main_module_path("/home/user/app"), "/home/user/app/main");
}
