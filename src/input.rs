//! The switcher's decisions: what the fuzzy finder's answer means, and the
//! run from listing the sessions to attaching to one.
use vstd::prelude::*;
use vstd::utf8::{decode_utf8, valid_utf8};

use crate::lines::{has_session, lines_of};
use crate::tmux::{
    attaching, command_failure, command_status, create_session, creating, fetch_all_sessions,
    listing_outcome, switch_session, CommandOutput, TmuxCommand,
};

verus! {

/// Why a run of the switcher ended without attaching.
#[derive(Debug, Clone, PartialEq, Eq)]
pub enum TsmErrors {
    /// A command printed text that is not UTF-8.
    NonUtf8Path,
    /// The fuzzy finder could not run.
    FuzzyFindError(String),
    /// A multiplexer command could not run or failed.
    CommandExecutionFailed(String),
    /// The user left the fuzzy finder without choosing.
    OperationCancelled,
}

/// What the fuzzy finder reported when it closed.
#[derive(Debug, Clone, PartialEq, Eq)]
pub struct SelectorOutput {
    /// Whether the user aborted.
    pub is_abort: bool,
    /// The text typed into the finder.
    pub query: String,
    /// The texts of the items chosen, the highlighted one first.
    pub selected_items: Vec<String>,
}

/// A stage of a run.
#[derive(Debug, Clone, PartialEq, Eq)]
pub enum State {
    Idle,
    /// The listing command was issued.
    Listing,
    /// The fuzzy finder runs over this listing.
    Selecting { all_sessions: String },
    /// The command that creates `name` was issued.
    Creating { name: String },
    /// The command that switches to `name` was issued.
    Attaching { name: String },
    Done,
    Failed(TsmErrors),
}

/// What the caller reports back to the run.
#[derive(Debug, Clone, PartialEq, Eq)]
pub enum Event {
    /// Begin the run.
    Start,
    /// The last command issued finished with this output.
    CommandRan(CommandOutput),
    /// The last command issued could not be started, for this reason.
    CommandNotRun(String),
    /// The fuzzy finder closed, with its output, or `None` where it failed.
    Selected(Option<SelectorOutput>),
}

/// What the run asks the caller to do next.
#[derive(Debug, Clone, PartialEq, Eq)]
pub enum Action {
    /// Run this multiplexer command, then report `CommandRan` or `CommandNotRun`.
    Execute(TmuxCommand),
    /// Open the fuzzy finder over these lines, then report `Selected`.
    Select(String),
    /// Nothing more: the run is over, or the event did not fit its stage.
    Stop,
}

/// The name that a closed finder gives: the highlighted item, or the typed
/// query where no item matched.
pub open spec fn chosen_name(o: SelectorOutput) -> Seq<char> {
    if o.selected_items@.len() > 0 {
        o.selected_items@[0]@
    } else {
        o.query@
    }
}

/// What the finder's output gives: the chosen name, or why there is none.
pub open spec fn selection_outcome(output: Option<SelectorOutput>, r: Result<String, TsmErrors>) -> bool {
    match output {
        None => r matches Err(TsmErrors::FuzzyFindError(m)) && m@
            == "Error: Cannot select the option"@,
        Some(o) => if o.is_abort {
            r == Err::<String, TsmErrors>(TsmErrors::OperationCancelled)
        } else {
            r matches Ok(name) && name@ == chosen_name(o)
        },
    }
}

/// The step for the name `name` against the listing `all`: switch to it
/// where it is one of the listing's lines, else create it.
pub open spec fn dispatched(all: Seq<char>, name: Seq<char>, t: (State, Action)) -> bool {
    if lines_of(all).contains(name) {
        attaching(name, t)
    } else {
        creating(name, t)
    }
}

/// A step that ends the run with an error that `ok` accepts.
pub open spec fn fails_with(t: (State, Action), ok: spec_fn(TsmErrors) -> bool) -> bool {
    &&& t.1 is Stop
    &&& t.0 matches State::Failed(e) && ok(e)
}

/// The step that a run in stage `s` takes on event `e`.
pub open spec fn transition(s: State, e: Event, t: (State, Action)) -> bool {
    match (s, e) {
        (State::Idle, Event::Start) => t == (State::Listing, Action::Execute(TmuxCommand::ListSessions)),
        (State::Listing, Event::CommandRan(out)) => if out.success && valid_utf8(out.stdout@) {
            let text = decode_utf8(out.stdout@);
            &&& t.0 matches State::Selecting { all_sessions } && all_sessions@ == text
            &&& t.1 matches Action::Select(lines) && lines@ == text
        } else {
            fails_with(t, |err: TsmErrors| listing_outcome(out, Err(err)))
        },
        (State::Selecting { all_sessions }, Event::Selected(output)) => match output {
            Some(o) if !o.is_abort => dispatched(all_sessions@, chosen_name(o), t),
            _ => fails_with(t, |err: TsmErrors| selection_outcome(output, Err(err))),
        },
        (State::Creating { name }, Event::CommandRan(out)) => if out.success {
            attaching(name@, t)
        } else {
            fails_with(t, |err: TsmErrors| command_failure(out.stderr@, err))
        },
        (State::Attaching { name }, Event::CommandRan(out)) => if out.success {
            t == (State::Done, Action::Stop)
        } else {
            fails_with(t, |err: TsmErrors| command_failure(out.stderr@, err))
        },
        (State::Listing, Event::CommandNotRun(msg)) => t == (
            State::Failed(TsmErrors::CommandExecutionFailed(msg)),
            Action::Stop,
        ),
        (State::Creating { .. }, Event::CommandNotRun(msg)) => t == (
            State::Failed(TsmErrors::CommandExecutionFailed(msg)),
            Action::Stop,
        ),
        (State::Attaching { .. }, Event::CommandNotRun(msg)) => t == (
            State::Failed(TsmErrors::CommandExecutionFailed(msg)),
            Action::Stop,
        ),
        _ => t == (s, Action::Stop),
    }
}

/// The name that the fuzzy finder's output gives.
pub fn get_session_name(output: Option<SelectorOutput>) -> (r: Result<String, TsmErrors>)
    ensures
        selection_outcome(output, r),
{
    match output {
        None => Err(TsmErrors::FuzzyFindError("Error: Cannot select the option".to_owned())),
        Some(o) => {
            if o.is_abort {
                Err(TsmErrors::OperationCancelled)
            } else if o.selected_items.len() > 0 {
                Ok(o.selected_items[0].clone())
            } else {
                Ok(o.query)
            }
        },
    }
}

/// Switch to the session `session_name` if the listing holds it, else
/// create it.
pub fn session_action(all_sessions: String, session_name: String) -> (r: (State, Action))
    ensures
        dispatched(all_sessions@, session_name@, r),
{
    if has_session(all_sessions.as_str(), &session_name) {
        switch_session(session_name)
    } else {
        create_session(session_name)
    }
}

/// Takes one step of a run: from stage `state`, on `event`, the next stage
/// and what to do.
pub fn run(state: State, event: Event) -> (r: (State, Action))
    ensures
        transition(state, event, r),
{
    match (state, event) {
        (State::Idle, Event::Start) => (State::Listing, Action::Execute(TmuxCommand::ListSessions)),
        (State::Listing, Event::CommandRan(out)) => match fetch_all_sessions(out) {
            Ok(all_sessions) => {
                let lines = all_sessions.clone();
                (State::Selecting { all_sessions }, Action::Select(lines))
            },
            Err(e) => (State::Failed(e), Action::Stop),
        },
        (State::Selecting { all_sessions }, Event::Selected(output)) => match get_session_name(
            output,
        ) {
            Ok(name) => session_action(all_sessions, name),
            Err(e) => (State::Failed(e), Action::Stop),
        },
        (State::Creating { name }, Event::CommandRan(out)) => match command_status(out) {
            Ok(()) => switch_session(name),
            Err(e) => (State::Failed(e), Action::Stop),
        },
        (State::Attaching { name }, Event::CommandRan(out)) => match command_status(out) {
            Ok(()) => (State::Done, Action::Stop),
            Err(e) => (State::Failed(e), Action::Stop),
        },
        (State::Listing, Event::CommandNotRun(msg)) => (
            State::Failed(TsmErrors::CommandExecutionFailed(msg)),
            Action::Stop,
        ),
        (State::Creating { .. }, Event::CommandNotRun(msg)) => (
            State::Failed(TsmErrors::CommandExecutionFailed(msg)),
            Action::Stop,
        ),
        (State::Attaching { .. }, Event::CommandNotRun(msg)) => (
            State::Failed(TsmErrors::CommandExecutionFailed(msg)),
            Action::Stop,
        ),
        (state, _) => (state, Action::Stop),
    }
}

} // verus!
