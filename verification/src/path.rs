//! Filesystem paths as the verifier sees them.
//!
//! A `PathBuf` is carried through the library as an opaque value: it is made
//! from text, copied, and handed on, and nothing here looks inside one.
//! The items of this file are believed, not proved.

use std::path::PathBuf;
use vstd::prelude::*;

verus! {

/// `std::path::PathBuf`, declared so that it can stand in fields and
/// signatures. Nothing is said of what a value holds.
#[verifier::external_type_specification]
#[verifier::external_body]
pub struct ExPathBuf(PathBuf);

/// The path that `PathBuf::from` makes of a piece of text. The conversion
/// copies the text as it stands and depends on nothing else, so equal text
/// gives equal paths.
pub uninterp spec fn path_of(text: Seq<char>) -> PathBuf;

/// `<PathBuf as Clone>::clone`: the copy is the same path as the one copied.
pub assume_specification[ <PathBuf as Clone>::clone ](path: &PathBuf) -> (copy: PathBuf)
    ensures
        copy == *path,
;

/// `PathBuf::from` on a string slice: the result is the path of that text.
#[verifier::external_body]
pub(crate) fn path_from_str(text: &str) -> (path: PathBuf)
    ensures
        path == path_of(text@),
{
    PathBuf::from(text)
}

} // verus!
