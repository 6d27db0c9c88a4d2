//! The one failure this crate can raise: a typed extraction met a document
//! of the wrong shape.

use vstd::prelude::*;

use crate::json::JsonKind;

verus! {

/// The model of a typed-extraction failure: which field failed, the shape
/// that was expected there, and the shape that was found.
pub struct ErrorModel {
    pub path: Seq<char>,
    pub expected: JsonKind,
    pub found: JsonKind,
}

/// Raised only by typed extraction, when the stored document's shape does not
/// satisfy the target type's structural requirements. It is this crate's only
/// error kind, so callers can tell "cached data is semantically incompatible"
/// apart from any transport or storage failure, which belong elsewhere.
#[derive(Debug)]
pub struct DeserializationError {
    path: String,
    expected: JsonKind,
    found: JsonKind,
}

impl View for DeserializationError {
    type V = ErrorModel;

    closed spec fn view(&self) -> ErrorModel {
        ErrorModel { path: self.path@, expected: self.expected, found: self.found }
    }
}

impl DeserializationError {
    /// Records that the field at `path` was expected to hold `expected` but
    /// held `found`.
    pub fn new(path: String, expected: JsonKind, found: JsonKind) -> (e: Self)
        ensures
            e@ == (ErrorModel { path: path@, expected: expected, found: found }),
    {
        DeserializationError { path, expected, found }
    }

    /// The field that failed to decode; empty when the document root itself
    /// had the wrong shape.
    pub fn path(&self) -> (p: &str)
        ensures
            p@ == self@.path,
    {
        self.path.as_str()
    }

    /// The shape the failing field was required to have.
    pub fn expected(&self) -> (k: JsonKind)
        ensures
            k == self@.expected,
    {
        self.expected
    }

    /// The shape the failing field actually had.
    pub fn found(&self) -> (k: JsonKind)
        ensures
            k == self@.found,
    {
        self.found
    }
}

impl PartialEq for DeserializationError {
    fn eq(&self, other: &Self) -> (r: bool) {
        self.path.eq(&other.path) && self.expected == other.expected && self.found
            == other.found
    }
}

impl Eq for DeserializationError {

}

impl vstd::std_specs::cmp::PartialEqSpecImpl for DeserializationError {
    open spec fn obeys_eq_spec() -> bool {
        true
    }

    open spec fn eq_spec(&self, other: &Self) -> bool {
        self@ == other@
    }
}

} // verus!
