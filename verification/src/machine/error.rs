//! The error that assembling a state machine can report.

use vstd::prelude::*;
use vstd::string::StringExecFns;

verus! {

/// Why a builder could not assemble a state machine.
#[derive(Debug)]
pub enum StateMachineError {
    /// A mandatory field was never set; the payload is the field's name.
    MissingField(String),
}

impl StateMachineError {
    /// The name of the field whose absence this error reports.
    pub open spec fn missing_field(&self) -> Seq<char> {
        match self {
            StateMachineError::MissingField(field_name) => field_name@,
        }
    }

    /// The text shown to a person for an error about the field `field_name`.
    pub open spec fn spec_message(field_name: Seq<char>) -> Seq<char> {
        "Failed to build the builder because "@ + field_name + " field is uninitialized."@
    }

    /// Renders the error for display.
    pub fn message(&self) -> (text: String)
        ensures
            text@ == Self::spec_message(self.missing_field()),
    {
        match self {
            StateMachineError::MissingField(field_name) => {
                let text = String::from_str("Failed to build the builder because ");
                let text = text.concat(field_name.as_str());
                text.concat(" field is uninitialized.")
            },
        }
    }
}

} // verus!
