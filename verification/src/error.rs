//! The errors that the boundary of the library reports.
//!
//! No operation of the container fails. The type is the vocabulary for
//! callers that add validation or limits of their own around it.

use vstd::prelude::*;
use vstd::string::StringExecFns;

verus! {

/// A failure, with a message for a human reader.
#[derive(Debug)]
pub enum ModuleError {
    /// An argument was malformed or not allowed.
    InvalidInput(String),
    /// An underlying primitive did not complete.
    OperationFailed(String),
}

impl ModuleError {
    /// The text that describes the error: a prefix that names the kind,
    /// followed by the message it carries.
    pub open spec fn rendered(&self) -> Seq<char> {
        match self {
            ModuleError::InvalidInput(msg) => "Invalid input: "@ + msg@,
            ModuleError::OperationFailed(msg) => "Operation failed: "@ + msg@,
        }
    }

    /// Renders the error as text.
    pub fn to_string(&self) -> (text: String)
        ensures
            text@ == self.rendered(),
    {
        match self {
            ModuleError::InvalidInput(msg) => {
                let mut text = "Invalid input: ".to_string();
                text.append(msg.as_str());
                text
            },
            ModuleError::OperationFailed(msg) => {
                let mut text = "Operation failed: ".to_string();
                text.append(msg.as_str());
                text
            },
        }
    }
}

} // verus!
