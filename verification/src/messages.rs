//! IPC message parts that the library decides on: error information
//! and the two mixes.

use vstd::prelude::*;

verus! {

/// Which of the two mixes a setting addresses.
#[derive(Debug, Clone, Copy, PartialEq, Eq, Structural)]
pub enum MixType {
    Stream,
    Monitor,
}

/// Error information in a response.
#[derive(Debug)]
pub struct ErrorInfo {
    /// Error code
    pub code: i32,
    /// Human-readable error message
    pub message: String,
}

impl ErrorInfo {
    /// Create a new error.
    pub fn new(code: i32, message: &str) -> (r: Self)
        ensures
            r.code == code,
            r.message@ == message@,
    {
        ErrorInfo { code, message: String::from_str(message) }
    }
}

} // verus!
