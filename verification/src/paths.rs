//! Path helpers around the loader: extracting the file name used in
//! diagnostics, with the existence check the loader performs first.

use vstd::prelude::*;

verus! {

/// The final component of a path string, converted back to UTF-8: what
/// std's `Path::file_name` yields, a function of the path string alone.
pub uninterp spec fn file_name_of(path: Seq<char>) -> Option<Seq<char>>;

/// Relies on std's `Path::file_name` (the final path component, a pure
/// function of the path string) and `OsStr::to_str` (lossless here, since
/// the `OsStr` comes from a valid `&str`).
#[verifier::external_body]
fn path_file_name(path: &str) -> (r: Option<String>)
    ensures
        match r {
            Some(name) => file_name_of(path@) == Some(name@),
            None => file_name_of(path@) is None,
        },
{
    std::path::Path::new(path).file_name().and_then(|n| n.to_str()).map(String::from)
}

/// Relies on std's `Path::exists`. The answer depends on the file system at
/// the moment of the call, so nothing is promised of it.
#[verifier::external_body]
fn path_exists(path: &str) -> bool {
    std::path::Path::new(path).exists()
}

/// Get a file name from the path provided: an error when the path does not
/// exist on disk or has no final component.
pub fn file_name_from_path(path: &str) -> (r: Result<String, &'static str>)
    ensures
        match r {
            Ok(name) => file_name_of(path@) == Some(name@),
            Err(e) => e@ == "File name from file path. Path does not exist."@ || (e@
                == "File name from file path. Failed to parse OS Path str."@ && file_name_of(
                path@,
            ) is None),
        },
{
    if !path_exists(path) {
        return Err("File name from file path. Path does not exist.");
    }
    match path_file_name(path) {
        Some(name) => Ok(name),
        None => Err("File name from file path. Failed to parse OS Path str."),
    }
}

} // verus!
