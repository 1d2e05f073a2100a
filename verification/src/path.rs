//! What the verifier is told about `std::path::PathBuf`.
//!
//! A path is carried through the library untouched: nothing here looks
//! inside one. The two items below are believed, not proved.
use std::path::PathBuf;
use vstd::prelude::*;

verus! {

/// Makes `std::path::PathBuf` known to the verifier as an opaque type.
#[verifier::external_type_specification]
#[verifier::external_body]
pub struct ExPathBuf(std::path::PathBuf);

/// `PathBuf::clone` returns a path with the same content as the one it was
/// given. In contracts a path stands for its content, so the copy equals
/// the path that it was made from.
pub assume_specification[ <PathBuf as Clone>::clone ](path: &PathBuf) -> (copy: PathBuf)
    ensures
        copy == *path,
;

} // verus!
