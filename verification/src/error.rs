//! Error taxonomy of the driver: a calibration buffer of the wrong length,
//! or a failure of the underlying bus transport.

use vstd::prelude::*;

verus! {

/// The kinds of failure the driver can report. No other error kind exists:
/// a measurement either fully succeeds or fails with the first error
/// encountered.
#[derive(Clone, Copy, Debug, PartialEq, Eq, Hash, PartialOrd, Ord, Structural)]
pub enum ErrorKind {
    /// The calibration buffer handed to the decoder was not exactly 42 bytes.
    InvalidCalibrationLength,
    /// A bus-level failure, propagated verbatim and never retried.
    Transport,
}

/// A driver error. Carries only its kind; transport details stay with the
/// bus collaborator that produced them.
#[derive(Clone, Copy, Debug, PartialEq, Eq, Structural)]
pub struct Error {
    pub kind: ErrorKind,
}

impl Error {
    /// Build an error of the given kind.
    pub fn new(kind: ErrorKind) -> (r: Error)
        ensures
            r.kind == kind,
    {
        Error { kind }
    }

    /// Build a transport error, the kind that wraps any bus-level failure.
    pub fn other() -> (r: Error)
        ensures
            r.kind == ErrorKind::Transport,
    {
        Error { kind: ErrorKind::Transport }
    }

    /// The kind of this error.
    pub fn kind(&self) -> (r: ErrorKind)
        ensures
            r == self.kind,
    {
        self.kind
    }
}

impl From<ErrorKind> for Error {
    /// An error carrying just its kind.
    fn from(value: ErrorKind) -> (r: Error)
        ensures
            r.kind == value,
    {
        Error { kind: value }
    }
}

impl vstd::std_specs::convert::FromSpecImpl<ErrorKind> for Error {
    open spec fn obeys_from_spec() -> bool {
        true
    }

    open spec fn from_spec(value: ErrorKind) -> Error {
        Error { kind: value }
    }
}

impl ErrorKind {
    /// A short human-readable description of the error kind.
    pub fn as_str(&self) -> (r: &'static str)
        ensures
            *self == ErrorKind::InvalidCalibrationLength ==> r@ == "provided vector is not 42 bytes long"@,
            *self == ErrorKind::Transport ==> r@ == "bus transport error"@,
    {
        match *self {
            ErrorKind::InvalidCalibrationLength => "provided vector is not 42 bytes long",
            ErrorKind::Transport => "bus transport error",
        }
    }
}

} // verus!
