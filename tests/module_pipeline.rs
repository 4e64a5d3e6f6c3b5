use toyjs::pipeline::{module_result_text, script_result_text, ModuleError, ScriptError, Stage};
use toyjs::resolve::unresolved_import_message;

#[test]
fn module_errors_name_their_stage() {
    let compile = ModuleError { stage: Stage::Compile, exception: Some("SyntaxError: Unexpected token".to_string()) };
    assert_eq!(compile.message(), "Error: Module compilation failed: SyntaxError: Unexpected token");
    let instantiate = ModuleError { stage: Stage::Instantiate, exception: Some("boom".to_string()) };
    assert_eq!(instantiate.message(), "Error: Module instantiation failed - Exception: boom");
    let evaluate = ModuleError { stage: Stage::Evaluate, exception: Some("ReferenceError: x is not defined".to_string()) };
    assert_eq!(evaluate.message(), "Error: Module execution failed - Exception: ReferenceError: x is not defined");
}

#[test]
fn missing_exception_is_reported_as_unknown() {
    let instantiate = ModuleError { stage: Stage::Instantiate, exception: None };
    assert_eq!(instantiate.message(), "Error: Module instantiation failed - Unknown error (no exception caught)");
    let evaluate = ModuleError { stage: Stage::Evaluate, exception: None };
    assert_eq!(evaluate.message(), "Error: Module execution failed - Unknown error (no exception caught)");
    let compile = ModuleError { stage: Stage::Compile, exception: None };
    assert_eq!(compile.message(), "Error: Module compilation failed: Unknown error (no exception caught)");
}

#[test]
fn successful_runs_return_their_value() {
    assert_eq!(module_result_text(Ok("42".to_string())), "42");
    assert_eq!(script_result_text(Ok("the answer is 42".to_string())), "the answer is 42");
}

#[test]
fn script_errors_have_fixed_texts() {
    assert_eq!(script_result_text(Err(ScriptError::Compile)), "Error: Compilation failed");
    assert_eq!(script_result_text(Err(ScriptError::Run)), "Error: Execution failed");
}

#[test]
fn unresolved_import_result_names_the_specifier() {
    let exception = unresolved_import_message("./nonexistent.js");
    assert_eq!(exception, "Cannot find module './nonexistent.js'");
    let text = module_result_text(Err(ModuleError { stage: Stage::Instantiate, exception: Some(exception) }));
    assert!(text.starts_with("Error: Module instantiation failed"));
    assert!(text.contains("./nonexistent.js"));
}
