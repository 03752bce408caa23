//! The outcomes other than success that the core and its shell report.
use vstd::prelude::*;
use vstd::string::*;

verus! {

/// Why an operation did not complete.
#[derive(Debug, PartialEq, Eq)]
pub enum CoreError {
    /// The user dismissed a path picker: a normal outcome, not a failure.
    UserCancelled,
    /// The record's id normalises to an empty type name.
    InvalidIdentifier,
    /// A file or directory operation failed, with its cause.
    Filesystem(String),
    /// A document could not be serialised or parsed, with its cause.
    Serialization(String),
    /// A plugin with the same id is already registered.
    DuplicatePlugin,
    /// The system clock gave no usable reading.
    ClockUnavailable,
}

impl CoreError {
    /// A short human-readable description of the outcome.
    pub fn message(&self) -> (r: String)
        ensures
            self is UserCancelled ==> r@ == "User cancelled"@,
            self is InvalidIdentifier ==> r@ == "Invalid identifier"@,
            self is DuplicatePlugin ==> r@ == "Plugin already imported"@,
            self is ClockUnavailable ==> r@ == "System clock unavailable"@,
            self matches CoreError::Filesystem(cause) ==> r@ == cause@,
            self matches CoreError::Serialization(cause) ==> r@ == cause@,
    {
        match self {
            CoreError::UserCancelled => String::from_str("User cancelled"),
            CoreError::InvalidIdentifier => String::from_str("Invalid identifier"),
            CoreError::Filesystem(cause) => cause.clone(),
            CoreError::Serialization(cause) => cause.clone(),
            CoreError::DuplicatePlugin => String::from_str("Plugin already imported"),
            CoreError::ClockUnavailable => String::from_str("System clock unavailable"),
        }
    }
}

} // verus!
