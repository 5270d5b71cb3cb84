use tsm::input::{get_session_name, run, session_action, Action, Event, SelectorOutput, State, TsmErrors};
use tsm::lines::{has_session, session_list};
use tsm::tmux::{
    command_status, create_session, fetch_all_sessions, switch_session, CommandOutput, TmuxCommand,
};

fn ok_output(stdout: &str) -> CommandOutput {
    CommandOutput { success: true, stdout: stdout.as_bytes().to_vec(), stderr: Vec::new() }
}

fn failed_output(stderr: &str) -> CommandOutput {
    CommandOutput { success: false, stdout: Vec::new(), stderr: stderr.as_bytes().to_vec() }
}

fn picked(item: &str) -> Option<SelectorOutput> {
    Some(SelectorOutput {
        is_abort: false,
        query: String::new(),
        selected_items: vec![item.to_string()],
    })
}

fn typed(query: &str) -> Option<SelectorOutput> {
    Some(SelectorOutput { is_abort: false, query: query.to_string(), selected_items: Vec::new() })
}

/// Drives a whole run on the given answers, returning the commands issued,
/// how often the finder was opened, and the final stage.
fn drive(listing: Event, selection: Option<SelectorOutput>, later: Vec<Event>) -> (Vec<TmuxCommand>, usize, State) {
    let mut commands = Vec::new();
    let mut selections = 0;
    let mut state = State::Idle;
    let mut events = vec![Event::Start, listing];
    let mut later = later.into_iter();
    let mut selection = Some(selection);
    events.reverse();
    let mut event = events.pop().unwrap();
    loop {
        let (next, action) = run(state, event);
        state = next;
        event = match action {
            Action::Execute(command) => {
                commands.push(command);
                match events.pop() {
                    Some(e) => e,
                    None => later.next().unwrap_or(Event::CommandRan(ok_output(""))),
                }
            }
            Action::Select(_) => {
                selections += 1;
                Event::Selected(selection.take().unwrap())
            }
            Action::Stop => break,
        };
    }
    (commands, selections, state)
}

#[test]
fn listing_splits_into_names_in_order() {
    assert_eq!(session_list("work\npersonal\n"), vec!["work".to_string(), "personal".to_string()]);
    assert_eq!(session_list("a\r\nb"), vec!["a".to_string(), "b".to_string()]);
    assert_eq!(session_list("a\n\nb\n"), vec!["a".to_string(), String::new(), "b".to_string()]);
    assert_eq!(session_list(""), Vec::<String>::new());
    assert_eq!(session_list("\n"), vec![String::new()]);
    assert_eq!(session_list("x\r"), vec!["x\r".to_string()]);
    assert_eq!(session_list("café\nnaïve"), vec!["café".to_string(), "naïve".to_string()]);
}

#[test]
fn membership_is_exact() {
    let all = "work\npersonal\n";
    assert!(has_session(all, &"work".to_string()));
    assert!(has_session(all, &"personal".to_string()));
    assert!(!has_session(all, &"Work".to_string()));
    assert!(!has_session(all, &" work".to_string()));
    assert!(!has_session(all, &"work ".to_string()));
    assert!(!has_session(all, &"wor".to_string()));
    assert!(!has_session("", &String::new()));
}

#[test]
fn case_or_blank_variant_is_created() {
    let (state, action) = session_action("work\n".to_string(), "Work".to_string());
    assert_eq!(state, State::Creating { name: "Work".to_string() });
    assert_eq!(action, Action::Execute(TmuxCommand::NewSession("Work".to_string())));
    let (_, action) = session_action("work\n".to_string(), " work".to_string());
    assert_eq!(action, Action::Execute(TmuxCommand::NewSession(" work".to_string())));
}

#[test]
fn selecting_existing_session_only_attaches() {
    let (commands, selections, state) =
        drive(Event::CommandRan(ok_output("work\npersonal\n")), picked("personal"), vec![]);
    assert_eq!(commands, vec![TmuxCommand::ListSessions, TmuxCommand::SwitchClient("personal".to_string())]);
    assert_eq!(selections, 1);
    assert_eq!(state, State::Done);
}

#[test]
fn typing_new_name_creates_then_attaches() {
    let (commands, _, state) = drive(Event::CommandRan(ok_output("work\n")), typed("scratch"), vec![]);
    assert_eq!(
        commands,
        vec![
            TmuxCommand::ListSessions,
            TmuxCommand::NewSession("scratch".to_string()),
            TmuxCommand::SwitchClient("scratch".to_string()),
        ]
    );
    assert_eq!(state, State::Done);
}

#[test]
fn failing_listing_reports_its_error_and_never_selects() {
    let (commands, selections, state) =
        drive(Event::CommandRan(failed_output("no server running")), None, vec![]);
    assert_eq!(commands, vec![TmuxCommand::ListSessions]);
    assert_eq!(selections, 0);
    assert_eq!(state, State::Failed(TsmErrors::CommandExecutionFailed("no server running".to_string())));
}

#[test]
fn aborted_selection_is_cancelled() {
    let aborted = Some(SelectorOutput {
        is_abort: true,
        query: "work".to_string(),
        selected_items: vec!["work".to_string()],
    });
    let (commands, selections, state) = drive(Event::CommandRan(ok_output("work\n")), aborted, vec![]);
    assert_eq!(commands, vec![TmuxCommand::ListSessions]);
    assert_eq!(selections, 1);
    assert_eq!(state, State::Failed(TsmErrors::OperationCancelled));
}

#[test]
fn finder_failure_is_reported() {
    let (commands, _, state) = drive(Event::CommandRan(ok_output("work\n")), None, vec![]);
    assert_eq!(commands, vec![TmuxCommand::ListSessions]);
    assert_eq!(
        state,
        State::Failed(TsmErrors::FuzzyFindError("Error: Cannot select the option".to_string()))
    );
}

#[test]
fn failed_create_does_not_attach() {
    let (commands, _, state) = drive(
        Event::CommandRan(ok_output("work\n")),
        typed("new"),
        vec![Event::CommandRan(failed_output("duplicate session: new"))],
    );
    assert_eq!(commands, vec![TmuxCommand::ListSessions, TmuxCommand::NewSession("new".to_string())]);
    assert_eq!(state, State::Failed(TsmErrors::CommandExecutionFailed("duplicate session: new".to_string())));
}

#[test]
fn failed_attach_is_reported() {
    let (commands, _, state) = drive(
        Event::CommandRan(ok_output("work\n")),
        picked("work"),
        vec![Event::CommandRan(failed_output("no current client"))],
    );
    assert_eq!(commands, vec![TmuxCommand::ListSessions, TmuxCommand::SwitchClient("work".to_string())]);
    assert_eq!(state, State::Failed(TsmErrors::CommandExecutionFailed("no current client".to_string())));
}

#[test]
fn command_that_cannot_start_is_reported() {
    let (commands, selections, state) = drive(Event::CommandNotRun("tmux not found".to_string()), None, vec![]);
    assert_eq!(commands, vec![TmuxCommand::ListSessions]);
    assert_eq!(selections, 0);
    assert_eq!(state, State::Failed(TsmErrors::CommandExecutionFailed("tmux not found".to_string())));
    let (_, _, state) = drive(
        Event::CommandRan(ok_output("work\n")),
        typed("x"),
        vec![Event::CommandNotRun("spawn failed".to_string())],
    );
    assert_eq!(state, State::Failed(TsmErrors::CommandExecutionFailed("spawn failed".to_string())));
}

#[test]
fn invalid_utf8_is_its_own_error() {
    let bad_stdout = CommandOutput { success: true, stdout: vec![0x77, 0xff, 0x0a], stderr: Vec::new() };
    assert_eq!(fetch_all_sessions(bad_stdout), Err(TsmErrors::NonUtf8Path));
    let bad_stderr = CommandOutput { success: false, stdout: Vec::new(), stderr: vec![0xc3] };
    assert_eq!(fetch_all_sessions(bad_stderr.clone()), Err(TsmErrors::NonUtf8Path));
    assert_eq!(command_status(bad_stderr), Err(TsmErrors::NonUtf8Path));
}

#[test]
fn listing_output_is_decoded() {
    let out = CommandOutput { success: true, stdout: "café\nwork\n".as_bytes().to_vec(), stderr: vec![0xff] };
    assert_eq!(fetch_all_sessions(out), Ok("café\nwork\n".to_string()));
    assert_eq!(fetch_all_sessions(ok_output("")), Ok(String::new()));
    assert_eq!(
        fetch_all_sessions(failed_output("no server running")),
        Err(TsmErrors::CommandExecutionFailed("no server running".to_string()))
    );
}

#[test]
fn command_status_follows_exit() {
    assert_eq!(command_status(ok_output("anything")), Ok(()));
    assert_eq!(command_status(failed_output("bad")), Err(TsmErrors::CommandExecutionFailed("bad".to_string())));
}

#[test]
fn highlighted_item_wins_over_query() {
    let out = Some(SelectorOutput {
        is_abort: false,
        query: "per".to_string(),
        selected_items: vec!["personal".to_string()],
    });
    assert_eq!(get_session_name(out), Ok("personal".to_string()));
    assert_eq!(get_session_name(typed("scratch")), Ok("scratch".to_string()));
    assert_eq!(get_session_name(typed("")), Ok(String::new()));
}

#[test]
fn command_arguments() {
    assert_eq!(TmuxCommand::ListSessions.args(), vec!["list-sessions", "-F", "#S"]);
    assert_eq!(
        TmuxCommand::SwitchClient("my work".to_string()).args(),
        vec!["switch-client", "-t", "my work"]
    );
    assert_eq!(
        TmuxCommand::NewSession("a;b".to_string()).args(),
        vec!["new-session", "-ds", "a;b", "-c", "~"]
    );
}

#[test]
fn switch_and_create_steps() {
    assert_eq!(
        switch_session("w".to_string()),
        (State::Attaching { name: "w".to_string() }, Action::Execute(TmuxCommand::SwitchClient("w".to_string())))
    );
    assert_eq!(
        create_session("n".to_string()),
        (State::Creating { name: "n".to_string() }, Action::Execute(TmuxCommand::NewSession("n".to_string())))
    );
}

#[test]
fn unexpected_event_keeps_stage() {
    assert_eq!(run(State::Idle, Event::Selected(None)), (State::Idle, Action::Stop));
    assert_eq!(run(State::Done, Event::Start), (State::Done, Action::Stop));
    let failed = State::Failed(TsmErrors::OperationCancelled);
    assert_eq!(run(failed.clone(), Event::CommandRan(ok_output(""))), (failed, Action::Stop));
    let selecting = State::Selecting { all_sessions: "w\n".to_string() };
    assert_eq!(run(selecting.clone(), Event::Start), (selecting, Action::Stop));
}
