//! The decisions of one command through the gateway: whether it may run,
//! the command line handed to the engine, and what the engine's answer means.
use vstd::prelude::*;
use crate::retcode::{code_meaning, CommandRetCode, CODE_SUCCEEDED};
use crate::session::Phase;

verus! {

/// The flags appended to every command, asking the engine for JSON output.
pub const DEFAULT_LVM_FLAGS: &'static str = "--reportformat json";

/// Whether the text holds no null character.
pub open spec fn has_no_null(s: Seq<char>) -> bool {
    forall|i: int| 0 <= i < s.len() ==> s[i] != '\0'
}

/// Whether `i` is the position of the first null character of the text.
pub open spec fn is_first_null(s: Seq<char>, i: int) -> bool {
    &&& 0 <= i < s.len()
    &&& s[i] == '\0'
    &&& forall|j: int| 0 <= j < i ==> s[j] != '\0'
}

/// The command line that the engine receives for the caller's command.
pub open spec fn composed(command: Seq<char>) -> Seq<char> {
    command + " "@ + DEFAULT_LVM_FLAGS@
}

/// Whether an outcome is one of the engine's own failures.
pub open spec fn is_engine_failure(e: CommandRetCode) -> bool {
    match e {
        CommandRetCode::NoSuchCommand => true,
        CommandRetCode::InvalidParameters => true,
        CommandRetCode::InitFailed => true,
        CommandRetCode::ProcessingFailed => true,
        CommandRetCode::Unknown(_) => true,
        _ => false,
    }
}

/// What the engine's native return code means for the command.
pub open spec fn outcome_of(code: i32) -> Result<(), CommandRetCode> {
    if code == CODE_SUCCEEDED {
        Ok(())
    } else {
        Err(code_meaning(code))
    }
}

/// Every native code means either success or one of the engine's own named
/// failures, and success exactly on the success code.
pub proof fn lemma_success_or_engine_failure(code: i32)
    ensures
        outcome_of(code) is Ok <==> code == CODE_SUCCEEDED,
        outcome_of(code) matches Err(e) ==> is_engine_failure(e),
{
}

/// Finds the first null character of the text, if any.
pub fn find_null(s: &str) -> (r: Option<usize>)
    ensures
        r is None <==> has_no_null(s@),
        r matches Some(i) ==> is_first_null(s@, i as int),
{
    let n = s.unicode_len();
    let mut i: usize = 0;
    while i < n
        invariant
            n == s@.len(),
            i <= n,
            forall|j: int| 0 <= j < i ==> s@[j] != '\0',
        decreases n - i,
    {
        if s.get_char(i) == '\0' {
            return Some(i);
        }
        i = i + 1;
    }
    None
}

/// The command line handed to the engine: the caller's command, a space and
/// the default flags. A command that holds a null character cannot be handed
/// over and is refused, with the position of its first null character.
pub fn compose_command(command: &str) -> (r: Result<String, CommandRetCode>)
    ensures
        r is Ok <==> has_no_null(command@),
        r matches Ok(line) ==> line@ == composed(command@),
        r matches Err(e) ==> (e matches CommandRetCode::InvalidCommandLine(i) && is_first_null(
            command@,
            i as int,
        )),
{
    match find_null(command) {
        Some(i) => Err(CommandRetCode::InvalidCommandLine(i)),
        None => {
            let mut line = command.to_owned();
            line.append(" ");
            line.append(DEFAULT_LVM_FLAGS);
            Ok(line)
        },
    }
}

/// What the engine's native return code means: success on the success code,
/// else the failure that the table names.
pub fn engine_outcome(code: i32) -> (r: Result<(), CommandRetCode>)
    ensures
        r == outcome_of(code),
{
    if code == CODE_SUCCEEDED {
        Ok(())
    } else {
        Err(CommandRetCode::from_code(code))
    }
}

/// The next thing to do for a command, given the session's phase.
#[derive(Debug)]
pub enum Step {
    /// Fail with this outcome; the engine is not touched.
    Refuse(CommandRetCode),
    /// Initialise the engine first, then decide again.
    Initialize,
    /// Hand this command line to the engine.
    Invoke(String),
}

/// Decides the next step for a command in the given phase.
pub fn next_step(p: Phase, command: &str) -> (r: Step)
    ensures
        p == Phase::Poisoned ==> r == Step::Refuse(CommandRetCode::GlobalStatePoisoned),
        p != Phase::Poisoned && !has_no_null(command@) ==> (r matches Step::Refuse(
            CommandRetCode::InvalidCommandLine(i),
        ) && is_first_null(command@, i as int)),
        p == Phase::Uninitialized && has_no_null(command@) ==> r is Initialize,
        p == Phase::InitFailed && has_no_null(command@) ==> r == Step::Refuse(
            CommandRetCode::InitFailed,
        ),
        p == Phase::Ready && has_no_null(command@) ==> (r matches Step::Invoke(line) && line@
            == composed(command@)),
{
    if p == Phase::Poisoned {
        return Step::Refuse(CommandRetCode::GlobalStatePoisoned);
    }
    match compose_command(command) {
        Err(e) => Step::Refuse(e),
        Ok(line) => match p {
            Phase::Uninitialized => Step::Initialize,
            Phase::InitFailed => Step::Refuse(CommandRetCode::InitFailed),
            _ => Step::Invoke(line),
        },
    }
}

} // verus!
