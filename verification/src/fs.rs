use vstd::prelude::*;

use crate::stage::compare_files::{basename, basename_of};

verus! {

/// The filename at the end of a path: what follows its last slash.
pub fn filename(path: &str) -> (r: String)
    ensures
        r@ == basename(path@),
{
    basename_of(path)
}

/// Why a resource could not be located: the name is not there, or the
/// test identifier is not known to the locator.
#[derive(Debug, Clone, Copy, PartialEq, Eq, Structural)]
pub enum Error {
    NotFound,
    UnknownTestId,
}

impl Error {
    /// The error as a reader sees it.
    pub fn message(&self) -> (r: String)
        ensures
            *self is NotFound ==> r@ == "File not found"@,
            *self is UnknownTestId ==> r@ == "TestId not recognized"@,
    {
        match self {
            Error::NotFound => String::from_str("File not found"),
            Error::UnknownTestId => String::from_str("TestId not recognized"),
        }
    }
}

} // verus!
