use vstd::prelude::*;

verus! {

/// The path that results from joining `rest` onto `base`.
pub uninterp spec fn joined(base: Seq<char>, rest: Seq<char>) -> Seq<char>;

/// The final component of a path, if it has one.
pub uninterp spec fn final_component(path: Seq<char>) -> Option<Seq<char>>;

/// Relies on `std::path::Path::join`: the result depends on the two paths
/// alone. Both inputs are UTF-8, so the joined path converts without loss.
#[verifier::external_body]
pub(crate) fn join_path(base: &str, rest: &str) -> (r: String)
    ensures
        r@ == joined(base@, rest@),
{
    std::path::Path::new(base).join(rest).to_string_lossy().into_owned()
}

/// Relies on `std::path::Path::file_name`: the final component of the path,
/// or none where the path ends in `..` or is a root.
#[verifier::external_body]
pub(crate) fn file_name_to_string(path: &str) -> (r: Option<String>)
    ensures
        match r {
            Some(s) => final_component(path@) == Some(s@),
            None => final_component(path@) is None,
        },
{
    match std::path::Path::new(path).file_name() {
        Some(n) => Some(n.to_string_lossy().into_owned()),
        None => None,
    }
}

/// Whether two paths are equal as paths, component by component.
pub uninterp spec fn same_path(a: Seq<char>, b: Seq<char>) -> bool;

/// Relies on `PartialEq` for `std::path::Path`, which compares paths by
/// their components; like any equality it holds of a path and itself.
#[verifier::external_body]
pub(crate) fn paths_equal(a: &str, b: &str) -> (r: bool)
    ensures
        r == same_path(a@, b@),
        a@ == b@ ==> r,
{
    std::path::Path::new(a) == std::path::Path::new(b)
}

} // verus!
