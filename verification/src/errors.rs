//! The error model that flows through building and validating.

use vstd::prelude::*;

verus! {

/// One structured rejection: where in the input it happened, and why.
#[derive(Debug, Clone, PartialEq, Eq)]
pub struct ValLineError {
    pub location: Vec<String>,
    pub reason: String,
}

/// What a failed validation carries.
#[derive(Debug)]
pub enum ValError {
    /// An expected rejection of the input, as an ordered list of records.
    LineErrors(Vec<ValLineError>),
    /// An unexpected fault raised by user-supplied code.
    InternalErr(pyo3::PyErr),
}

pub type ValResult<T> = Result<T, ValError>;

/// A failure to construct a validator from its configuration.
#[derive(Debug, Clone)]
pub struct BuildError {
    pub message: String,
}

} // verus!
