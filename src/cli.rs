//! Command-line vocabulary: the format tokens, the option records, and the
//! decisions that validate an argument.

pub mod base64;
pub mod csv;
pub mod jwt;
pub mod text;

use vstd::prelude::*;

verus! {

/// Compares two strings character by character.
pub fn str_eq(a: &str, b: &str) -> (r: bool)
    ensures
        r == (a@ == b@),
{
    let n = a.unicode_len();
    if n != b.unicode_len() {
        return false;
    }
    let mut i: usize = 0;
    while i < n
        invariant
            n == a@.len(),
            n == b@.len(),
            i <= n,
            forall|j: int| 0 <= j < i ==> a@[j] == b@[j],
        decreases n - i,
    {
        if a.get_char(i) != b.get_char(i) {
            return false;
        }
        i += 1;
    }
    assert(a@ =~= b@);
    true
}


/// The message for an input reference that names no file.
pub open spec fn missing_file_msg() -> Seq<char> {
    "Input file does not exist"@
}

/// The message for an output path that is no directory.
pub open spec fn missing_dir_msg() -> Seq<char> {
    "Path does not exist or is not a directory"@
}

/// Relies on `std::path::Path::exists`: what it reports depends on the
/// file system at the time of the call, so nothing is stated of it.
#[verifier::external_body]
pub(crate) fn path_exists(path: &str) -> (r: bool) {
    std::path::Path::new(path).exists()
}

/// Relies on `std::path::Path::is_dir`: what it reports depends on the file
/// system at the time of the call, so nothing is stated of it.
#[verifier::external_body]
pub(crate) fn path_is_dir(path: &str) -> (r: bool) {
    std::path::Path::new(path).is_dir()
}

/// Accepts an input reference: `-` (standard input) always, any other name
/// where `exists` says that the file is there.
pub fn accept_input(filename: &str, exists: bool) -> (r: Result<String, &'static str>)
    ensures
        match r {
            Ok(name) => name@ == filename@ && (filename@ == "-"@ || exists),
            Err(msg) => msg@ == missing_file_msg() && filename@ != "-"@ && !exists,
        },
{
    if str_eq(filename, "-") || exists {
        Ok(filename.to_owned())
    } else {
        Err("Input file does not exist")
    }
}

/// Checks an input reference against the file system: `-` is accepted
/// without a look at it, any other name where a file of that name exists.
pub fn verify_file(filename: &str) -> (r: Result<String, &'static str>)
    ensures
        filename@ == "-"@ ==> (r matches Ok(name) && name@ == filename@),
        r matches Ok(name) ==> name@ == filename@,
        r matches Err(msg) ==> msg@ == missing_file_msg() && filename@ != "-"@,
{
    if str_eq(filename, "-") {
        accept_input(filename, true)
    } else {
        accept_input(filename, path_exists(filename))
    }
}

/// Accepts an output directory where `exists` and `is_dir` both hold.
pub fn accept_dir(path: &str, exists: bool, is_dir: bool) -> (r: Result<String, &'static str>)
    ensures
        match r {
            Ok(p) => p@ == path@ && exists && is_dir,
            Err(msg) => msg@ == missing_dir_msg() && !(exists && is_dir),
        },
{
    if exists && is_dir {
        Ok(path.to_owned())
    } else {
        Err("Path does not exist or is not a directory")
    }
}

/// Checks that an output path names an existing directory.
pub fn verify_path(path: &str) -> (r: Result<String, &'static str>)
    ensures
        r matches Ok(p) ==> p@ == path@,
        r matches Err(msg) ==> msg@ == missing_dir_msg(),
{
    let exists = path_exists(path);
    let is_dir = path_is_dir(path);
    accept_dir(path, exists, is_dir)
}

} // verus!
