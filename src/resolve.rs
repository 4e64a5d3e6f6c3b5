use vstd::prelude::*;

verus! {

/// What `std::path::Path::parent` gives for a path, as text.
pub uninterp spec fn parent_of(path: Seq<char>) -> Option<Seq<char>>;

/// What `std::path::Path::join` gives for a directory and a relative path, as text.
pub uninterp spec fn joined(dir: Seq<char>, rest: Seq<char>) -> Seq<char>;

/// Relies on `std::path::Path::parent`: the path without its last component,
/// or none for a root or an empty path.
#[verifier::external_body]
fn parent_dir(path: &str) -> (r: Option<String>)
    ensures
        match r {
            Some(p) => parent_of(path@) == Some(p@),
            None => parent_of(path@) is None,
        },
{
    std::path::Path::new(path).parent().map(|p| p.to_string_lossy().into_owned())
}

/// Relies on `std::path::Path::join`: `rest` appended to `dir` as a further component.
#[verifier::external_body]
fn join_path(dir: &str, rest: &str) -> (r: String)
    ensures
        r@ == joined(dir@, rest@),
{
    std::path::Path::new(dir).join(rest).to_string_lossy().into_owned()
}

/// The directory an import is resolved against: the referrer's path itself
/// when it names a directory, else its parent, else the root.
pub open spec fn base_dir(base: Seq<char>, base_is_dir: bool) -> Seq<char> {
    if base_is_dir {
        base
    } else {
        match parent_of(base) {
            Some(p) => p,
            None => "/"@,
        }
    }
}

/// The path an import specifier names before canonicalization: an absolute
/// specifier verbatim, a relative one joined to the referrer's directory.
pub open spec fn candidate_path(base: Seq<char>, specifier: Seq<char>, base_is_dir: bool) -> Seq<char> {
    if specifier.len() > 0 && specifier[0] == '/' {
        specifier
    } else {
        joined(base_dir(base, base_is_dir), specifier)
    }
}

/// The uncanonicalized path that `specifier`, imported from `base`, names.
/// Whether `base` is a directory is read from the file system by the caller.
pub fn import_candidate(base: &str, specifier: &str, base_is_dir: bool) -> (r: String)
    ensures
        r@ == candidate_path(base@, specifier@, base_is_dir),
{
    if specifier.unicode_len() > 0 && specifier.get_char(0) == '/' {
        return specifier.to_owned();
    }
    if base_is_dir {
        join_path(base, specifier)
    } else {
        match parent_dir(base) {
            Some(dir) => join_path(dir.as_str(), specifier),
            None => {
                proof { reveal_strlit("/"); }
                join_path("/", specifier)
            },
        }
    }
}

/// The file an import loads: the resolved path if it exists, else the same
/// path with `.js` appended.
pub open spec fn module_file(resolved: Seq<char>, exists: bool) -> Seq<char> {
    if exists {
        resolved
    } else {
        resolved + ".js"@
    }
}

pub fn with_js_fallback(resolved: &str, exists: bool) -> (r: String)
    ensures
        r@ == module_file(resolved@, exists),
{
    let path = resolved.to_owned();
    if exists {
        path
    } else {
        proof { reveal_strlit(".js"); }
        path.concat(".js")
    }
}

/// The synthetic path of the program's entry module, under the current
/// working directory.
pub open spec fn entry_path(cwd: Seq<char>) -> Seq<char> {
    cwd + "/main"@
}

pub fn main_module_path(cwd: &str) -> (r: String)
    ensures
        r@ == entry_path(cwd@),
{
    proof { reveal_strlit("/main"); }
    cwd.to_owned().concat("/main")
}

/// The text of the exception thrown when an import cannot be resolved.
pub open spec fn unresolved_message(specifier: Seq<char>) -> Seq<char> {
    "Cannot find module '"@ + specifier + "'"@
}

pub fn unresolved_import_message(specifier: &str) -> (r: String)
    ensures
        r@ == unresolved_message(specifier@),
{
    proof {
        reveal_strlit("Cannot find module '");
        reveal_strlit("'");
    }
    String::from_str("Cannot find module '").concat(specifier).concat("'")
}

} // verus!
