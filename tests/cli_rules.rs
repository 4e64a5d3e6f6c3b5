use toyjs::cli::{script_path_arg, should_print_result, usage_message};

#[test]
fn prints_ordinary_results() {
    assert!(should_print_result("42"));
    assert!(should_print_result("the answer is 42"));
    assert!(should_print_result("undefined "));
    assert!(should_print_result("Undefined"));
}

#[test]
fn hides_empty_and_undefined_results() {
    assert!(!should_print_result(""));
    assert!(!should_print_result("undefined"));
}

#[test]
fn script_path_is_first_argument() {
    let args = vec!["exec".to_string(), "main.js".to_string(), "extra".to_string()];
    assert_eq!(script_path_arg(&args), Some(&"main.js".to_string()));
}

#[test]
fn missing_script_path_gives_usage() {
    let args = vec!["exec".to_string()];
    assert_eq!(script_path_arg(&args), None);
    assert_eq!(script_path_arg(&Vec::new()), None);
    assert_eq!(usage_message(), "Usage: exec <path_to_js>");
}
