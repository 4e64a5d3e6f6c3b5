use vstd::prelude::*;

verus! {

/// Whether the value produced by a program is worth printing: it is printed
/// unless it is empty or the text of "no value".
pub open spec fn shows_result(result: Seq<char>) -> bool {
    result.len() != 0 && result != "undefined"@
}

/// Decides whether the completion value of an entry module is printed.
pub fn should_print_result(result: &str) -> (r: bool)
    ensures
        r == shows_result(result@),
{
    let text = result.to_owned();
    let undefined = String::from_str("undefined");
    proof { reveal_strlit("undefined"); }
    result.unicode_len() != 0 && !(text == undefined)
}

pub open spec fn usage_text() -> Seq<char> {
    "Usage: exec <path_to_js>"@
}

/// The script path given on the command line: the first argument after the
/// program name, or none when it is missing.
pub fn script_path_arg(args: &Vec<String>) -> (r: Option<&String>)
    ensures
        match r {
            Some(p) => args@.len() >= 2 && *p == args@[1],
            None => args@.len() < 2,
        },
{
    if args.len() < 2 {
        None
    } else {
        Some(&args[1])
    }
}

/// The message printed when the script path is missing.
pub fn usage_message() -> (r: String)
    ensures
        r@ == usage_text(),
{
    proof { reveal_strlit("Usage: exec <path_to_js>"); }
    String::from_str("Usage: exec <path_to_js>")
}

} // verus!
