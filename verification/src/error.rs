//! Error type for failures during model construction and marginalization.

use vstd::prelude::*;
use vstd::string::StringExecFns;

verus! {

/// The characters of an error class's short name.
pub open spec fn spec_kind_name(k: ErrorKind) -> Seq<char> {
    match k {
        ErrorKind::ShapeError => "ShapeError"@,
        ErrorKind::IndexError => "IndexError"@,
        ErrorKind::SingularityError => "SingularityError"@,
    }
}

/// The specific class of failure.
#[non_exhaustive]
#[derive(Clone, Copy, Debug, PartialEq, Eq, Structural)]
pub enum ErrorKind {
    /// Unexpected shape of an input (weight count does not match the data).
    ShapeError,
    /// A dimension index is out of bounds.
    IndexError,
    /// Singular (or non-positive-definite) covariance matrix.
    SingularityError,
}

/// General error type for any kind of error appearing during KDE calculation.
///
/// `message` carries a human-readable message as to why the error occurred,
/// `kind` contains an [`ErrorKind`] with the specific error class.
#[derive(Debug)]
pub struct KDEError {
    pub message: String,
    pub kind: ErrorKind,
}

impl KDEError {
    /// Build an error of the given kind carrying the given message.
    pub fn new(kind: ErrorKind, message: String) -> (r: Self)
        ensures
            r.kind == kind,
            r.message == message,
    {
        Self { message, kind }
    }

    /// The error rendered as `kind: message`, in place of a `Display`
    /// impl.
    pub fn describe(&self) -> (r: String)
        ensures
            r@ == spec_kind_name(self.kind) + ": "@ + self.message@,
    {
        let mut s = self.kind.describe();
        s.append(": ");
        s.append(self.message.as_str());
        s
    }
}

impl ErrorKind {
    /// A short name for the error class, in place of a `Display` impl.
    pub fn describe(&self) -> (r: String)
        ensures
            r@ == spec_kind_name(*self),
    {
        match self {
            ErrorKind::ShapeError => "ShapeError".to_owned(),
            ErrorKind::IndexError => "IndexError".to_owned(),
            ErrorKind::SingularityError => "SingularityError".to_owned(),
        }
    }
}

} // verus!
