//! The closed set of failure kinds for the library. Every operation
//! either produces its value or returns exactly one of these; nothing is
//! swallowed or retried.

use vstd::prelude::*;
use vstd::string::StringExecFns;

verus! {

/// The error taxonomy. `InvalidScript` is reserved for future
/// script-level validation and is raised by no operation here; it stays
/// in the taxonomy for interface compatibility.
#[derive(Debug)]
pub enum BitcoinError {
    /// A byte slice handed to the decoder is shorter than required.
    InvalidTransaction,
    /// Reserved; never raised.
    InvalidScript,
    /// An amount token was not a valid decimal unsigned 64-bit integer.
    InvalidAmount,
    /// Any other command-line misuse, with a descriptive message.
    ParseError(String),
}

impl BitcoinError {
    /// A user-readable one-line description of the error.
    pub fn message(&self) -> (r: String)
        ensures
            self is InvalidTransaction ==> r@ == "Invalid transaction format"@,
            self is InvalidScript ==> r@ == "Invalid script format"@,
            self is InvalidAmount ==> r@ == "Invalid amount"@,
            self matches BitcoinError::ParseError(m) ==> r@ == "Parse error: "@ + m@,
    {
        match self {
            BitcoinError::InvalidTransaction => "Invalid transaction format".to_owned(),
            BitcoinError::InvalidScript => "Invalid script format".to_owned(),
            BitcoinError::InvalidAmount => "Invalid amount".to_owned(),
            BitcoinError::ParseError(m) => "Parse error: ".to_owned().concat(m.as_str()),
        }
    }
}

} // verus!
