use vstd::prelude::*;

verus! {

/// The ways an exchange with the interpreter can fail.
#[derive(Debug, Clone, Copy, PartialEq, Eq, Structural)]
pub enum InterpreterError {
    /// An operation was attempted after the interpreter was torn down.
    DeadInterpreter,
    /// The interpreter reported an error for the submitted command.
    MalformedCommand,
    /// The command could not be handed to the writer (its input is closed).
    FailedCommand,
    /// Reading one of the interpreter's output streams failed.
    FailedCommandResult,
}

/// The human-readable description of each error.
pub open spec fn error_message(e: InterpreterError) -> Seq<char> {
    match e {
        InterpreterError::DeadInterpreter => "Tried to interact with a dead interpreter."@,
        InterpreterError::MalformedCommand => "Malformed command."@,
        InterpreterError::FailedCommand => "Command failed to execute."@,
        InterpreterError::FailedCommandResult => "Failed to fetch result of command."@,
    }
}

impl InterpreterError {
    /// The description of this error, as its `Display` would print it.
    pub fn message(&self) -> (r: String)
        ensures
            r@ == error_message(*self),
    {
        match self {
            InterpreterError::DeadInterpreter => String::from_str(
                "Tried to interact with a dead interpreter.",
            ),
            InterpreterError::MalformedCommand => String::from_str("Malformed command."),
            InterpreterError::FailedCommand => String::from_str("Command failed to execute."),
            InterpreterError::FailedCommandResult => String::from_str(
                "Failed to fetch result of command.",
            ),
        }
    }
}

} // verus!
