//! The multiplexer's commands, and what their finished processes mean.
use vstd::prelude::*;
use vstd::utf8::{decode_utf8, valid_utf8};

use crate::input::{Action, State, TsmErrors};
use crate::lines::texts;

verus! {

/// A request to the multiplexer.
#[derive(Debug, Clone, PartialEq, Eq)]
pub enum TmuxCommand {
    /// List the sessions, one name per line.
    ListSessions,
    /// Move the current client to the named session.
    SwitchClient(String),
    /// Create the named session, detached, in the home directory.
    NewSession(String),
}

/// What a finished multiplexer process reported.
#[derive(Debug, Clone, PartialEq, Eq)]
pub struct CommandOutput {
    /// Whether it exited with status zero.
    pub success: bool,
    pub stdout: Vec<u8>,
    pub stderr: Vec<u8>,
}

/// The arguments that carry `cmd` to the multiplexer, one per entry; no
/// shell sees them, so a name travels whole whatever it holds.
pub open spec fn command_args(cmd: TmuxCommand) -> Seq<Seq<char>> {
    match cmd {
        TmuxCommand::ListSessions => seq!["list-sessions"@, "-F"@, "#S"@],
        TmuxCommand::SwitchClient(name) => seq!["switch-client"@, "-t"@, name@],
        TmuxCommand::NewSession(name) => seq!["new-session"@, "-ds"@, name@, "-c"@, "~"@],
    }
}

/// How a failed command is reported: its error stream as text, or the
/// encoding error where that stream is not UTF-8.
pub open spec fn command_failure(stderr: Seq<u8>, e: TsmErrors) -> bool {
    if valid_utf8(stderr) {
        e matches TsmErrors::CommandExecutionFailed(m) && m@ == decode_utf8(stderr)
    } else {
        e == TsmErrors::NonUtf8Path
    }
}

/// What the listing command's output gives: on success its standard output
/// as text, on failure the reported error.
pub open spec fn listing_outcome(out: CommandOutput, r: Result<String, TsmErrors>) -> bool {
    if out.success {
        if valid_utf8(out.stdout@) {
            r matches Ok(s) && s@ == decode_utf8(out.stdout@)
        } else {
            r == Err::<String, TsmErrors>(TsmErrors::NonUtf8Path)
        }
    } else {
        r matches Err(e) && command_failure(out.stderr@, e)
    }
}

/// The step that enters `Attaching` for `name`: the switch command is issued.
pub open spec fn attaching(name: Seq<char>, t: (State, Action)) -> bool {
    &&& t.0 matches State::Attaching { name: n } && n@ == name
    &&& t.1 matches Action::Execute(TmuxCommand::SwitchClient(m)) && m@ == name
}

/// The step that enters `Creating` for `name`: the create command is issued.
pub open spec fn creating(name: Seq<char>, t: (State, Action)) -> bool {
    &&& t.0 matches State::Creating { name: n } && n@ == name
    &&& t.1 matches Action::Execute(TmuxCommand::NewSession(m)) && m@ == name
}

/// Relies on `String::from_utf8`: it accepts exactly the valid UTF-8 byte
/// strings, and the text it returns holds the characters they encode.
#[verifier::external_body]
fn decode_text(bytes: Vec<u8>) -> (r: Option<String>)
    ensures
        r is Some <==> valid_utf8(bytes@),
        r matches Some(s) ==> s@ == decode_utf8(bytes@),
{
    String::from_utf8(bytes).ok()
}

impl TmuxCommand {
    /// The arguments to hand the multiplexer for this command.
    pub fn args(&self) -> (r: Vec<String>)
        ensures
            texts(r@) == command_args(*self),
    {
        let r = match self {
            TmuxCommand::ListSessions => vec![
                "list-sessions".to_owned(),
                "-F".to_owned(),
                "#S".to_owned(),
            ],
            TmuxCommand::SwitchClient(name) => vec![
                "switch-client".to_owned(),
                "-t".to_owned(),
                name.clone(),
            ],
            TmuxCommand::NewSession(name) => vec![
                "new-session".to_owned(),
                "-ds".to_owned(),
                name.clone(),
                "-c".to_owned(),
                "~".to_owned(),
            ],
        };
        assert(texts(r@) =~= command_args(*self));
        r
    }
}

/// The error that a failed command reports.
fn command_error(stderr: Vec<u8>) -> (e: TsmErrors)
    ensures
        command_failure(stderr@, e),
{
    match decode_text(stderr) {
        Some(message) => TsmErrors::CommandExecutionFailed(message),
        None => TsmErrors::NonUtf8Path,
    }
}

/// Whether a command succeeded, and if not, why.
pub fn command_status(output: CommandOutput) -> (r: Result<(), TsmErrors>)
    ensures
        r is Ok <==> output.success,
        r matches Err(e) ==> command_failure(output.stderr@, e),
{
    if output.success {
        Ok(())
    } else {
        Err(command_error(output.stderr))
    }
}

/// The session listing from the output of the listing command.
pub fn fetch_all_sessions(output: CommandOutput) -> (r: Result<String, TsmErrors>)
    ensures
        listing_outcome(output, r),
{
    if output.success {
        match decode_text(output.stdout) {
            Some(text) => Ok(text),
            None => Err(TsmErrors::NonUtf8Path),
        }
    } else {
        Err(command_error(output.stderr))
    }
}

/// Switch to the existing session `session_name`.
pub fn switch_session(session_name: String) -> (r: (State, Action))
    ensures
        attaching(session_name@, r),
{
    let name = session_name.clone();
    (State::Attaching { name: session_name }, Action::Execute(TmuxCommand::SwitchClient(name)))
}

/// Create the session `session_name`; once that succeeds it is switched to.
pub fn create_session(session_name: String) -> (r: (State, Action))
    ensures
        creating(session_name@, r),
{
    let name = session_name.clone();
    (State::Creating { name: session_name }, Action::Execute(TmuxCommand::NewSession(name)))
}

} // verus!
