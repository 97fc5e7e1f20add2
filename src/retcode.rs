//! Outcomes of a command and the severities of the engine's log lines.
use vstd::prelude::*;

verus! {

/// Outcome of a command: the engine's own codes and those that the gateway adds.
#[derive(Debug)]
pub enum CommandRetCode {
    /// The engine ran the command.
    CommandSucceeded,
    /// The engine knows no such command.
    NoSuchCommand,
    /// The command's parameters were refused.
    InvalidParameters,
    /// The engine could not be initialised.
    InitFailed,
    /// The engine failed while processing the command.
    ProcessingFailed,
    /// A code that the engine returned and that this table does not know.
    Unknown(i32),
    /// The command line holds a null character; carries its first position.
    InvalidCommandLine(usize),
    /// A fault while the session was held has left it in an untrusted state.
    GlobalStatePoisoned,
    /// The channel that carries captured output is in an untrusted state.
    DataChannelPoisoned,
    /// The captured output is not a document; carries the parser's error and
    /// the text as it was captured.
    JsonDeserializationFailed((serde_json::Error, String)),
}

/// The engine's native code for a command that succeeded.
pub const CODE_SUCCEEDED: i32 = 1;

/// The table from the engine's native numeric codes to outcomes.
pub open spec fn code_meaning(v: i32) -> CommandRetCode {
    if v == 1 {
        CommandRetCode::CommandSucceeded
    } else if v == 2 {
        CommandRetCode::NoSuchCommand
    } else if v == 3 {
        CommandRetCode::InvalidParameters
    } else if v == 4 {
        CommandRetCode::InitFailed
    } else if v == 5 {
        CommandRetCode::ProcessingFailed
    } else {
        CommandRetCode::Unknown(v)
    }
}

impl CommandRetCode {
    /// Maps the engine's native numeric code to an outcome.
    pub fn from_code(v: i32) -> (r: CommandRetCode)
        ensures
            r == code_meaning(v),
    {
        match v {
            1 => CommandRetCode::CommandSucceeded,
            2 => CommandRetCode::NoSuchCommand,
            3 => CommandRetCode::InvalidParameters,
            4 => CommandRetCode::InitFailed,
            5 => CommandRetCode::ProcessingFailed,
            v => CommandRetCode::Unknown(v),
        }
    }
}

impl From<i32> for CommandRetCode {
    fn from(v: i32) -> (r: CommandRetCode)
        ensures
            r == code_meaning(v),
    {
        CommandRetCode::from_code(v)
    }
}

impl vstd::std_specs::convert::FromSpecImpl<i32> for CommandRetCode {
    open spec fn obeys_from_spec() -> bool {
        true
    }

    open spec fn from_spec(v: i32) -> CommandRetCode {
        code_meaning(v)
    }
}

} // verus!
