//! The error taxonomy: configuration-time parsing errors and the one
//! fatal run-time error raised when the injection capability fails.

use vstd::prelude::*;

verus! {

/// Result alias used throughout the crate.
pub type JigglerResult<T> = Result<T, JigglerError>;

/// Everything that can go wrong, either while parsing a duration string
/// or while a run is in progress.
#[derive(Debug, PartialEq, Eq)]
pub enum JigglerError {
    /// A duration string did not have the shape `magnitude:unit` (or `max`).
    MalformedInput,
    /// The unit field of a duration string is not a known unit token;
    /// carries the offending token, as bytes, exactly as it was given.
    UnknownUnit { token: Vec<u8> },
    /// The magnitude field is not a non-negative integer that fits in 64 bits.
    InvalidMagnitude,
    /// The injection capability failed during a run; always fatal.
    InjectionFailure,
}

/// The mathematical model of a [`JigglerError`], with the token as a
/// sequence of bytes.
pub ghost enum ErrorModel {
    MalformedInput,
    UnknownUnit { token: Seq<u8> },
    InvalidMagnitude,
    InjectionFailure,
}

impl View for JigglerError {
    type V = ErrorModel;

    open spec fn view(&self) -> ErrorModel {
        match self {
            JigglerError::MalformedInput => ErrorModel::MalformedInput,
            JigglerError::UnknownUnit { token } => ErrorModel::UnknownUnit { token: token@ },
            JigglerError::InvalidMagnitude => ErrorModel::InvalidMagnitude,
            JigglerError::InjectionFailure => ErrorModel::InjectionFailure,
        }
    }
}

impl JigglerError {
    /// A fixed diagnostic message for each variant, naming the phase
    /// (parsing or running) in which the failure arose.
    pub fn message(&self) -> (r: String)
        ensures
            r@ == match self {
                JigglerError::MalformedInput => "error parsing duration string: expected a value & unit for duration"@,
                JigglerError::UnknownUnit { .. } => "error parsing duration string: unrecognized duration unit"@,
                JigglerError::InvalidMagnitude => "error parsing duration string: the magnitude is not a non-negative integer"@,
                JigglerError::InjectionFailure => "error while running: the injection capability failed"@,
            },
    {
        match self {
            JigglerError::MalformedInput => "error parsing duration string: expected a value & unit for duration".to_owned(),
            JigglerError::UnknownUnit { .. } => "error parsing duration string: unrecognized duration unit".to_owned(),
            JigglerError::InvalidMagnitude => "error parsing duration string: the magnitude is not a non-negative integer".to_owned(),
            JigglerError::InjectionFailure => "error while running: the injection capability failed".to_owned(),
        }
    }
}

} // verus!
