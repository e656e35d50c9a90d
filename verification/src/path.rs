//! Locations on the file system, as text.
//!
//! Joining a name to a root and exchanging a file name's extension are the
//! standard library's business: what a separator is, which part of a file
//! name counts as its extension and what becomes of trailing separators all
//! follow the platform the library is built for. The functions here make
//! those calls; nothing in them is proved. Their results are named by
//! uninterpreted functions so that contracts elsewhere can speak of them.

use vstd::prelude::*;

verus! {

/// Whether `std::path::is_separator` accepts the character.
pub uninterp spec fn is_path_separator(c: char) -> bool;

/// The text of the path that `std::path::Path::join` builds from a root and a name.
pub uninterp spec fn joined_path(root: Seq<char>, name: Seq<char>) -> Seq<char>;

/// The text of a path after `std::path::PathBuf::set_extension` has put the
/// given extension on it.
pub uninterp spec fn path_with_extension(path: Seq<char>, extension: Seq<char>) -> Seq<char>;

/// An extension that `set_extension` takes: one without a path separator in it.
pub open spec fn plain_extension(extension: Seq<char>) -> bool {
    forall|i: int| 0 <= i < extension.len() ==> !is_path_separator(#[trigger] extension[i])
}

/// Calls `std::path::is_separator`. Trusted: the answer is the platform's, and
/// the contract only gives it its name.
#[verifier::external_body]
pub(crate) fn is_separator(c: char) -> (b: bool)
    ensures
        b == is_path_separator(c),
{
    std::path::is_separator(c)
}

/// Calls `std::path::Path::join` on two pieces of text. Trusted: the contract
/// names the joined path and says nothing more of it.
#[verifier::external_body]
pub(crate) fn join(root: &str, name: &str) -> (path: String)
    ensures
        path@ == joined_path(root@, name@),
{
    std::path::Path::new(root).join(name).to_string_lossy().into_owned()
}

/// Calls `std::path::PathBuf::set_extension`. Trusted: the contract names the
/// resulting path and says nothing more of it. The standard library panics on
/// an extension that holds a path separator, so such an extension is not
/// admitted.
#[verifier::external_body]
pub(crate) fn set_extension(path: String, extension: &str) -> (out: String)
    requires
        plain_extension(extension@),
    ensures
        out@ == path_with_extension(path@, extension@),
{
    let mut buffer = std::path::PathBuf::from(path);
    buffer.set_extension(extension);
    buffer.to_string_lossy().into_owned()
}

/// Whether an extension is free of path separators.
pub fn is_plain_extension(extension: &str) -> (plain: bool)
    ensures
        plain == plain_extension(extension@),
{
    broadcast use vstd::string::axiom_spec_iter;

    let chars = extension.chars();
    for c in it: chars
        invariant
            it.seq() == extension@,
            plain_extension(extension@.take(it.index())),
    {
        if is_separator(c) {
            assert(extension@[it.index()] == c);
            return false;
        }
        assert(extension@.take(it.index() + 1).drop_last() == extension@.take(it.index()));
    }
    assert(extension@.take(extension@.len() as int) == extension@);
    true
}

} // verus!
