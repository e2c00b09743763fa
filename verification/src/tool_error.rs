//! Errors of tool invocations.

use vstd::prelude::*;
use vstd::string::*;

verus! {

/// Error returned while executing a model-visible tool invocation.
#[derive(Debug, PartialEq, Eq)]
pub enum FunctionCallError {
    /// The model is told what went wrong.
    RespondToModel(String),
    /// The arguments could not be read.
    MalformedArguments(String),
    /// The turn cannot go on.
    Fatal(String),
}

impl FunctionCallError {
    /// The text of the error.
    pub open spec fn text(self) -> Seq<char> {
        match self {
            FunctionCallError::RespondToModel(message) => message@,
            FunctionCallError::MalformedArguments(message) => message@,
            FunctionCallError::Fatal(message) => "Fatal error: "@ + message@,
        }
    }

    /// The error as it is shown: fatal errors are marked as such, the others stand as they are.
    pub fn message(&self) -> (text: String)
        ensures
            text@ == self.text(),
    {
        match self {
            FunctionCallError::RespondToModel(message) => message.clone(),
            FunctionCallError::MalformedArguments(message) => message.clone(),
            FunctionCallError::Fatal(message) => "Fatal error: ".to_owned().concat(
                message.as_str(),
            ),
        }
    }
}

} // verus!
