use vstd::prelude::*;

verus! {

/// The step of the module pipeline at which a run failed.
#[derive(PartialEq, Eq, Structural, Clone, Copy, Debug)]
pub enum Stage {
    Compile,
    Instantiate,
    Evaluate,
}

/// A failed module run: the stage, and the engine's exception text when the
/// engine gave one.
#[derive(Debug, Clone, PartialEq, Eq)]
pub struct ModuleError {
    pub stage: Stage,
    pub exception: Option<String>,
}

pub open spec fn unknown_error() -> Seq<char> {
    "Unknown error (no exception caught)"@
}

/// What is said of the exception: its text, or that there was none.
pub open spec fn exception_detail(exception: Option<Seq<char>>) -> Seq<char> {
    match exception {
        Some(e) => "Exception: "@ + e,
        None => unknown_error(),
    }
}

/// The result text of a module run that failed at `stage`.
pub open spec fn module_error_text(stage: Stage, exception: Option<Seq<char>>) -> Seq<char> {
    match stage {
        Stage::Compile => "Error: Module compilation failed: "@ + match exception {
            Some(e) => e,
            None => unknown_error(),
        },
        Stage::Instantiate => "Error: Module instantiation failed - "@ + exception_detail(exception),
        Stage::Evaluate => "Error: Module execution failed - "@ + exception_detail(exception),
    }
}

pub open spec fn exception_view(e: Option<String>) -> Option<Seq<char>> {
    match e {
        Some(s) => Some(s@),
        None => None,
    }
}

fn detail(exception: &Option<String>) -> (r: String)
    ensures
        r@ == exception_detail(exception_view(*exception)),
{
    match exception {
        Some(e) => {
            proof { reveal_strlit("Exception: "); }
            String::from_str("Exception: ").concat(e.as_str())
        },
        None => {
            proof { reveal_strlit("Unknown error (no exception caught)"); }
            String::from_str("Unknown error (no exception caught)")
        },
    }
}

impl ModuleError {
    /// The result string that reports this failure.
    pub fn message(&self) -> (r: String)
        ensures
            r@ == module_error_text(self.stage, exception_view(self.exception)),
    {
        match self.stage {
            Stage::Compile => {
                proof {
                    reveal_strlit("Error: Module compilation failed: ");
                    reveal_strlit("Unknown error (no exception caught)");
                }
                let head = String::from_str("Error: Module compilation failed: ");
                match &self.exception {
                    Some(e) => head.concat(e.as_str()),
                    None => head.concat("Unknown error (no exception caught)"),
                }
            },
            Stage::Instantiate => {
                proof { reveal_strlit("Error: Module instantiation failed - "); }
                let d = detail(&self.exception);
                String::from_str("Error: Module instantiation failed - ").concat(d.as_str())
            },
            Stage::Evaluate => {
                proof { reveal_strlit("Error: Module execution failed - "); }
                let d = detail(&self.exception);
                String::from_str("Error: Module execution failed - ").concat(d.as_str())
            },
        }
    }
}

/// The string a module run returns: the completion value's text, or the
/// failure's message.
pub fn module_result_text(result: Result<String, ModuleError>) -> (r: String)
    ensures
        r@ == match result {
            Ok(value) => value@,
            Err(e) => module_error_text(e.stage, exception_view(e.exception)),
        },
{
    match result {
        Ok(value) => value,
        Err(e) => e.message(),
    }
}

/// A failed plain script run.
#[derive(PartialEq, Eq, Structural, Clone, Copy, Debug)]
pub enum ScriptError {
    Compile,
    Run,
}

pub open spec fn script_error_text(e: ScriptError) -> Seq<char> {
    match e {
        ScriptError::Compile => "Error: Compilation failed"@,
        ScriptError::Run => "Error: Execution failed"@,
    }
}

/// The string a plain script run returns: the completion value's text, or
/// the failure's message.
pub fn script_result_text(result: Result<String, ScriptError>) -> (r: String)
    ensures
        r@ == match result {
            Ok(value) => value@,
            Err(e) => script_error_text(e),
        },
{
    match result {
        Ok(value) => value,
        Err(ScriptError::Compile) => {
            proof { reveal_strlit("Error: Compilation failed"); }
            String::from_str("Error: Compilation failed")
        },
        Err(ScriptError::Run) => {
            proof { reveal_strlit("Error: Execution failed"); }
            String::from_str("Error: Execution failed")
        },
    }
}

} // verus!
