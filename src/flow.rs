//! Whole runs of the switcher: the steps that a sequence of events causes,
//! and what the multiplexer is asked to do along the way.
use vstd::prelude::*;
use vstd::utf8::{decode_utf8, valid_utf8};

use crate::input::{chosen_name, transition, Action, Event, SelectorOutput, State, TsmErrors};
use crate::lines::{is_line_name, joined, lemma_lines_of_joined, lines_of};
use crate::tmux::{CommandOutput, TmuxCommand};

verus! {

/// `steps` are the steps that a run from stage `s` takes on `events`, one
/// step per event.
pub open spec fn runs(s: State, events: Seq<Event>, steps: Seq<(State, Action)>) -> bool
    decreases events.len(),
{
    &&& steps.len() == events.len()
    &&& events.len() > 0 ==> {
        &&& transition(s, events[0], steps[0])
        &&& runs(steps[0].0, events.drop_first(), steps.drop_first())
    }
}

/// The multiplexer commands that `steps` issue, in order.
pub open spec fn commands_of(steps: Seq<(State, Action)>) -> Seq<TmuxCommand>
    decreases steps.len(),
{
    if steps.len() == 0 {
        Seq::empty()
    } else {
        let rest = commands_of(steps.drop_first());
        match steps[0].1 {
            Action::Execute(c) => seq![c] + rest,
            _ => rest,
        }
    }
}

/// A stage after which no command is issued any more.
pub open spec fn is_settled(s: State) -> bool {
    s is Attaching || s is Done || s is Failed
}

/// From a settled stage every step stops and stays settled.
proof fn lemma_settled_runs_stop(s: State, events: Seq<Event>, steps: Seq<(State, Action)>)
    requires
        is_settled(s),
        runs(s, events, steps),
    ensures
        commands_of(steps) == Seq::<TmuxCommand>::empty(),
        forall|i: int| 0 <= i < steps.len() ==> (#[trigger] steps[i]).1 is Stop,
    decreases events.len(),
{
    if events.len() > 0 {
        lemma_settled_runs_stop(steps[0].0, events.drop_first(), steps.drop_first());
        assert forall|i: int| 0 <= i < steps.len() implies (#[trigger] steps[i]).1 is Stop by {
            if i > 0 {
                assert(steps[i] == steps.drop_first()[i - 1]);
            }
        }
    }
}

/// A failed run stays failed with the same error, and stops at every step.
proof fn lemma_failed_stays(e: TsmErrors, events: Seq<Event>, steps: Seq<(State, Action)>)
    requires
        runs(State::Failed(e), events, steps),
    ensures
        forall|i: int| 0 <= i < steps.len() ==> #[trigger] steps[i] == (State::Failed(e), Action::Stop),
    decreases events.len(),
{
    if events.len() > 0 {
        lemma_failed_stays(e, events.drop_first(), steps.drop_first());
        assert forall|i: int| 0 <= i < steps.len() implies #[trigger] steps[i] == (
            State::Failed(e),
            Action::Stop,
        ) by {
            if i > 0 {
                assert(steps[i] == steps.drop_first()[i - 1]);
            }
        }
    }
}

/// Well-formed listing output, read and split, gives back the names it
/// lists, in their order.
pub proof fn lemma_listing_gives_names(
    out: CommandOutput,
    names: Seq<Seq<char>>,
    t: (State, Action),
)
    requires
        out.success,
        valid_utf8(out.stdout@),
        decode_utf8(out.stdout@) == joined(names),
        forall|i: int| 0 <= i < names.len() ==> is_line_name(#[trigger] names[i]),
        transition(State::Listing, Event::CommandRan(out), t),
    ensures
        t.0 matches State::Selecting { all_sessions } && lines_of(all_sessions@) == names,
{
    lemma_lines_of_joined(names);
}

/// A chosen name that the listing holds is switched to, and that is all:
/// exactly one switch command, for that very name, and no create command.
pub proof fn lemma_existing_name_attaches(
    all_sessions: String,
    o: SelectorOutput,
    events: Seq<Event>,
    steps: Seq<(State, Action)>,
)
    requires
        !o.is_abort,
        lines_of(all_sessions@).contains(chosen_name(o)),
        events.len() > 0,
        events[0] == Event::Selected(Some(o)),
        runs(State::Selecting { all_sessions }, events, steps),
    ensures
        commands_of(steps).len() == 1,
        commands_of(steps)[0] matches TmuxCommand::SwitchClient(n) && n@ == chosen_name(o),
{
    lemma_settled_runs_stop(steps[0].0, events.drop_first(), steps.drop_first());
}

/// A chosen name that the listing lacks is created and then switched to:
/// one create command, then one switch command, both for that name.
pub proof fn lemma_new_name_created_then_attached(
    all_sessions: String,
    o: SelectorOutput,
    created: CommandOutput,
    events: Seq<Event>,
    steps: Seq<(State, Action)>,
)
    requires
        !o.is_abort,
        !lines_of(all_sessions@).contains(chosen_name(o)),
        events.len() > 1,
        events[0] == Event::Selected(Some(o)),
        events[1] == Event::CommandRan(created),
        created.success,
        runs(State::Selecting { all_sessions }, events, steps),
    ensures
        commands_of(steps).len() == 2,
        commands_of(steps)[0] matches TmuxCommand::NewSession(n) && n@ == chosen_name(o),
        commands_of(steps)[1] matches TmuxCommand::SwitchClient(n) && n@ == chosen_name(o),
{
    let rest = steps.drop_first();
    assert(events.drop_first()[0] == events[1]);
    assert(runs(steps[0].0, events.drop_first(), rest));
    assert(transition(steps[0].0, events[1], rest[0]));
    lemma_settled_runs_stop(rest[0].0, events.drop_first().drop_first(), rest.drop_first());
    assert(commands_of(rest) == seq![rest[0].1->Execute_0] + commands_of(rest.drop_first()));
}

/// Whether the chosen name is switched to is decided by exact equality with
/// a line of the listing: a name that differs from every line, if only in
/// case or in surrounding blanks, is created.
pub proof fn lemma_membership_is_exact(
    all_sessions: String,
    o: SelectorOutput,
    t: (State, Action),
)
    requires
        !o.is_abort,
        transition(State::Selecting { all_sessions }, Event::Selected(Some(o)), t),
    ensures
        t.1 matches Action::Execute(TmuxCommand::SwitchClient(_)) <==> exists|i: int|
            0 <= i < lines_of(all_sessions@).len() && lines_of(all_sessions@)[i] == chosen_name(o),
        t.1 matches Action::Execute(TmuxCommand::NewSession(_)) <==> forall|i: int|
            0 <= i < lines_of(all_sessions@).len() ==> lines_of(all_sessions@)[i] != chosen_name(o),
{
}

/// An aborted selection ends the run as cancelled, before any switch or
/// create command, and it stays so whatever is reported after.
pub proof fn lemma_abort_cancels(
    all_sessions: String,
    o: SelectorOutput,
    events: Seq<Event>,
    steps: Seq<(State, Action)>,
)
    requires
        o.is_abort,
        events.len() > 0,
        events[0] == Event::Selected(Some(o)),
        runs(State::Selecting { all_sessions }, events, steps),
    ensures
        commands_of(steps).len() == 0,
        forall|i: int|
            0 <= i < steps.len() ==> #[trigger] steps[i] == (
                State::Failed(TsmErrors::OperationCancelled),
                Action::Stop,
            ),
{
    lemma_failed_stays(TsmErrors::OperationCancelled, events.drop_first(), steps.drop_first());
    lemma_settled_runs_stop(steps[0].0, events.drop_first(), steps.drop_first());
    assert forall|i: int| 0 <= i < steps.len() implies #[trigger] steps[i] == (
        State::Failed(TsmErrors::OperationCancelled),
        Action::Stop,
    ) by {
        if i > 0 {
            assert(steps[i] == steps.drop_first()[i - 1]);
        }
    }
}

/// A listing command that fails ends the run with its error stream as the
/// reported error; the fuzzy finder is never opened and no command follows.
pub proof fn lemma_listing_failure_stops(
    out: CommandOutput,
    events: Seq<Event>,
    steps: Seq<(State, Action)>,
)
    requires
        !out.success,
        valid_utf8(out.stderr@),
        events.len() > 0,
        events[0] == Event::CommandRan(out),
        runs(State::Listing, events, steps),
    ensures
        steps[0].0 matches State::Failed(TsmErrors::CommandExecutionFailed(m)) && m@
            == decode_utf8(out.stderr@),
        commands_of(steps).len() == 0,
        forall|i: int| 0 <= i < steps.len() ==> (#[trigger] steps[i]).1 is Stop,
{
    lemma_settled_runs_stop(steps[0].0, events.drop_first(), steps.drop_first());
    assert forall|i: int| 0 <= i < steps.len() implies (#[trigger] steps[i]).1 is Stop by {
        if i > 0 {
            assert(steps[i] == steps.drop_first()[i - 1]);
        }
    }
}

} // verus!
