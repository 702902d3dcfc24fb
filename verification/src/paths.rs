//! Path arithmetic on path texts. The library holds every path as a `String`;
//! the platform's path rules are consulted through the standard library.

use vstd::prelude::*;

verus! {

#[verifier::external_type_specification]
#[verifier::external_body]
pub struct ExStripPrefixError(std::path::StripPrefixError);

/// The remainder of `path` behind the prefix `base`, component by component,
/// or `None` where `base` is no prefix of `path`.
pub uninterp spec fn path_strip_prefix(base: Seq<char>, path: Seq<char>) -> Option<Seq<char>>;

/// The path `name` below the directory `dir`.
pub uninterp spec fn path_join(dir: Seq<char>, name: Seq<char>) -> Seq<char>;

/// The path without its last component, or `None` at a root or an empty path.
pub uninterp spec fn path_parent(path: Seq<char>) -> Option<Seq<char>>;

/// Calls `std::path::Path::strip_prefix`. The contract names the remainder
/// and says that an error comes exactly where there is none.
#[verifier::external_body]
pub(crate) fn strip_prefix(base: &str, path: &str) -> (res: Result<String, std::path::StripPrefixError>)
    ensures
        res is Ok <==> path_strip_prefix(base@, path@) is Some,
        res is Ok ==> path_strip_prefix(base@, path@) == Some(res->Ok_0@),
{
    match std::path::Path::new(path).strip_prefix(base) {
        Ok(rest) => Ok(rest.to_string_lossy().into_owned()),
        Err(error) => Err(error),
    }
}

/// Calls `std::path::Path::join`. The contract names the joined path.
#[verifier::external_body]
pub(crate) fn join(dir: &str, name: &str) -> (res: String)
    ensures
        res@ == path_join(dir@, name@),
{
    std::path::Path::new(dir).join(name).to_string_lossy().into_owned()
}

/// Calls `std::path::Path::parent`. The contract names the parent.
#[verifier::external_body]
pub(crate) fn parent(path: &str) -> (res: Option<String>)
    ensures
        res is Some <==> path_parent(path@) is Some,
        res is Some ==> path_parent(path@) == Some(res->Some_0@),
{
    match std::path::Path::new(path).parent() {
        Some(dir) => Some(dir.to_string_lossy().into_owned()),
        None => None,
    }
}

} // verus!
