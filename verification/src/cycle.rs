//! The course of the terminal UI: what is done in which order.
//!
//! A pass begins with a look at the clock. The list is refreshed if it is due; then the screen is
//! drawn, once; then a key is waited for, and at most one event is read and acted on. The course
//! ends with the press of a key that quits, or with the first drawing, wait or reading that fails.
//! [`Cycle::action`] says what is to be done next, and [`Cycle::step`] takes in what came of it.

use vstd::prelude::*;

use crate::model::{Flow, FlowSummary};
use crate::screen::{bodies_read_utf8, draw, Screen};
use crate::tui::{kept_selection, path_at, App, Command, CommandView, Key, FLOWS_PATH, POLL_MILLIS};

verus! {

/// What follows when all that a refresh or a key asked for has been fetched.
#[derive(Debug, Clone, Copy, PartialEq, Eq, Structural)]
pub enum Next {
    /// The drawing of this pass.
    Draw,
    /// The next pass.
    Pass,
}

/// Where the course stands.
#[derive(Debug, PartialEq)]
pub enum Phase {
    /// A pass begins.
    Start,
    /// The list is being fetched.
    List(Next),
    /// The selected flow is being fetched, as the end of a refresh or by itself.
    Detail { path: String, refreshing: bool, next: Next },
    /// A refresh ends.
    End(Next),
    Draw,
    Poll,
    Read,
    /// The course has ended, well or with the reason of a failure.
    Quit(Result<(), String>),
}

/// The content of a phase.
#[verifier::ext_equal]
pub enum PhaseView {
    Start,
    List(Next),
    Detail { path: Seq<char>, refreshing: bool, next: Next },
    End(Next),
    Draw,
    Poll,
    Read,
    Quit(Result<(), Seq<char>>),
}

/// How the course has ended, with the text of the reason.
pub open spec fn outcome_of(outcome: Result<(), String>) -> Result<(), Seq<char>> {
    match outcome {
        Ok(()) => Ok(()),
        Err(why) => Err(why@),
    }
}

impl View for Phase {
    type V = PhaseView;

    open spec fn view(&self) -> PhaseView {
        match *self {
            Phase::Start => PhaseView::Start,
            Phase::List(next) => PhaseView::List(next),
            Phase::Detail { path, refreshing, next } => PhaseView::Detail {
                path: path@,
                refreshing,
                next,
            },
            Phase::End(next) => PhaseView::End(next),
            Phase::Draw => PhaseView::Draw,
            Phase::Poll => PhaseView::Poll,
            Phase::Read => PhaseView::Read,
            Phase::Quit(outcome) => PhaseView::Quit(outcome_of(outcome)),
        }
    }
}

/// What is to be done.
#[derive(Debug, PartialEq)]
pub enum Action {
    /// Tell the time.
    TellTime,
    /// Fetch the list of flows at that path of the API.
    FetchList(String),
    /// Fetch the flow at that path of the API.
    FetchFlow(String),
    /// Draw the screen.
    Draw(Screen),
    /// Wait for an event, at most that many milliseconds.
    Poll(u64),
    /// Read the event that has come.
    ReadEvent,
    /// Leave, with that outcome.
    Leave(Result<(), String>),
}

/// What came of an action.
#[derive(Debug, PartialEq)]
pub enum Event {
    /// The time, in nanoseconds.
    Time(i128),
    /// The list of flows, or why it could not be fetched.
    List(Result<Vec<FlowSummary>, String>),
    /// The flow, where it could be fetched.
    Flow(Option<Flow>),
    Drawn,
    /// Whether an event has come.
    Polled(bool),
    /// A key event; whether it is the press of the key, and the key.
    Key(bool, Key),
    /// An event that is no key event.
    OtherInput,
    /// The drawing, the wait or the reading failed, for that reason.
    Failed(String),
}

/// The event is what can come of the action in that phase.
pub open spec fn answers(phase: PhaseView, event: Event) -> bool {
    match phase {
        PhaseView::Start => event is Time,
        PhaseView::List(_) => event is List,
        PhaseView::Detail { .. } => event is Flow,
        PhaseView::End(_) => event is Time,
        PhaseView::Draw => event is Drawn || event is Failed,
        PhaseView::Poll => event is Polled || event is Failed,
        PhaseView::Read => event is Key || event is OtherInput || event is Failed,
        PhaseView::Quit(_) => false,
    }
}

/// The phase that follows.
pub open spec fn phase_of(next: Next) -> PhaseView {
    match next {
        Next::Draw => PhaseView::Draw,
        Next::Pass => PhaseView::Start,
    }
}

/// The path of the flow that is selected once the list has been taken in.
pub open spec fn list_path(app: App, fetched: Result<Vec<FlowSummary>, String>) -> Option<
    Seq<char>,
> {
    match fetched {
        Ok(flows) => path_at(flows@, kept_selection(app.selected, flows@.len())),
        Err(_) => None,
    }
}

/// The phase that a command leads to.
pub open spec fn command_phase(command: CommandView) -> PhaseView {
    match command {
        CommandView::Wait => PhaseView::Start,
        CommandView::Quit => PhaseView::Quit(Ok(())),
        CommandView::Refresh => PhaseView::List(Next::Pass),
        CommandView::Load(path) => PhaseView::Detail { path, refreshing: false, next: Next::Pass },
    }
}

/// The phase after an event; one that is no answer changes nothing.
pub open spec fn next_phase(app: App, phase: PhaseView, event: Event) -> PhaseView {
    match (phase, event) {
        (PhaseView::Start, Event::Time(now)) => if app.is_due(now as int) {
            PhaseView::List(Next::Draw)
        } else {
            PhaseView::Draw
        },
        (PhaseView::List(next), Event::List(fetched)) => match list_path(app, fetched) {
            Some(path) => PhaseView::Detail { path, refreshing: true, next },
            None => PhaseView::End(next),
        },
        (PhaseView::Detail { path, refreshing, next }, Event::Flow(_)) => if refreshing {
            PhaseView::End(next)
        } else {
            phase_of(next)
        },
        (PhaseView::End(next), Event::Time(_)) => phase_of(next),
        (PhaseView::Draw, Event::Drawn) => PhaseView::Poll,
        (PhaseView::Poll, Event::Polled(come)) => if come {
            PhaseView::Read
        } else {
            PhaseView::Start
        },
        (PhaseView::Read, Event::Key(pressed, key)) => command_phase(
            app.key_command(pressed, key),
        ),
        (PhaseView::Read, Event::OtherInput) => PhaseView::Start,
        (PhaseView::Draw | PhaseView::Poll | PhaseView::Read, Event::Failed(why)) => PhaseView::Quit(
            Err(why@),
        ),
        _ => phase,
    }
}

/// The state after an event; one that is no answer changes nothing.
pub open spec fn app_follows(after: App, before: App, phase: PhaseView, event: Event) -> bool {
    match (phase, event) {
        (PhaseView::List(_), Event::List(fetched)) => after.took_list(
            before,
            fetched,
            list_path(before, fetched),
        ),
        (PhaseView::Detail { .. }, Event::Flow(flow)) => {
            &&& after.same_list(before)
            &&& after.selected == before.selected
            &&& after.detail == flow
        },
        (PhaseView::End(_), Event::Time(now)) => after.refreshed_at(before, now as int),
        (PhaseView::Read, Event::Key(pressed, key)) => after.took_key(before, pressed, key),
        _ => after == before,
    }
}

/// The action is the one of that phase, in that state.
pub open spec fn is_action(action: Action, app: App, phase: PhaseView) -> bool {
    match phase {
        PhaseView::Start => action is TellTime,
        PhaseView::List(_) => action matches Action::FetchList(path) && path@ == FLOWS_PATH@,
        PhaseView::Detail { path, .. } => action matches Action::FetchFlow(p) && p@ == path,
        PhaseView::End(_) => action is TellTime,
        PhaseView::Draw => action matches Action::Draw(screen) && screen.shows(app)
            && bodies_read_utf8(app.detail),
        PhaseView::Poll => action == Action::Poll(POLL_MILLIS),
        PhaseView::Read => action is ReadEvent,
        PhaseView::Quit(outcome) => action matches Action::Leave(o) && outcome_of(o) == outcome,
    }
}

/// The terminal UI in its course.
pub struct Cycle {
    pub app: App,
    pub phase: Phase,
}

/// The phase that follows.
fn follow(next: Next) -> (r: Phase)
    ensures
        r@ == phase_of(next),
{
    match next {
        Next::Draw => Phase::Draw,
        Next::Pass => Phase::Start,
    }
}

impl Cycle {
    /// The course of that state from its start.
    pub fn new(app: App) -> (r: Cycle)
        ensures
            r.app == app,
            r.phase is Start,
    {
        Cycle { app, phase: Phase::Start }
    }

    /// Tells what is to be done.
    pub fn action(&self) -> (r: Action)
        ensures
            is_action(r, self.app, self.phase@),
    {
        match &self.phase {
            Phase::Start => Action::TellTime,
            Phase::List(_) => Action::FetchList(FLOWS_PATH.to_owned()),
            Phase::Detail { path, .. } => Action::FetchFlow(path.clone()),
            Phase::End(_) => Action::TellTime,
            Phase::Draw => Action::Draw(draw(&self.app)),
            Phase::Poll => Action::Poll(POLL_MILLIS),
            Phase::Read => Action::ReadEvent,
            Phase::Quit(Ok(())) => Action::Leave(Ok(())),
            Phase::Quit(Err(why)) => Action::Leave(Err(why.clone())),
        }
    }

    /// Takes in what came of the action.
    pub fn step(&mut self, event: Event)
        ensures
            final(self).phase@ == next_phase(old(self).app, old(self).phase@, event),
            app_follows(final(self).app, old(self).app, old(self).phase@, event),
            old(self).app.wf() ==> final(self).app.wf(),
    {
        match (&self.phase, event) {
            (Phase::Start, Event::Time(now)) => {
                self.phase = if self.app.refresh_due(now) {
                    Phase::List(Next::Draw)
                } else {
                    Phase::Draw
                };
            },
            (Phase::List(next), Event::List(fetched)) => {
                let next = *next;
                let path = self.app.refreshed(fetched);
                self.phase = match path {
                    Some(path) => Phase::Detail { path, refreshing: true, next },
                    None => Phase::End(next),
                };
            },
            (Phase::Detail { refreshing, next, .. }, Event::Flow(flow)) => {
                let next = *next;
                let refreshing = *refreshing;
                self.app.detail_loaded(flow);
                self.phase = if refreshing {
                    Phase::End(next)
                } else {
                    follow(next)
                };
            },
            (Phase::End(next), Event::Time(now)) => {
                let next = *next;
                self.app.refresh_ended(now);
                self.phase = follow(next);
            },
            (Phase::Draw, Event::Drawn) => {
                self.phase = Phase::Poll;
            },
            (Phase::Poll, Event::Polled(come)) => {
                self.phase = if come {
                    Phase::Read
                } else {
                    Phase::Start
                };
            },
            (Phase::Read, Event::Key(pressed, key)) => {
                self.phase = match self.app.on_key(pressed, key) {
                    Command::Wait => Phase::Start,
                    Command::Quit => Phase::Quit(Ok(())),
                    Command::Refresh => Phase::List(Next::Pass),
                    Command::Load(path) => Phase::Detail {
                        path,
                        refreshing: false,
                        next: Next::Pass,
                    },
                };
            },
            (Phase::Read, Event::OtherInput) => {
                self.phase = Phase::Start;
            },
            (Phase::Draw | Phase::Poll | Phase::Read, Event::Failed(why)) => {
                self.phase = Phase::Quit(Err(why));
            },
            _ => {},
        }
    }
}

/// One moment of the course.
pub struct Moment {
    pub app: App,
    pub phase: PhaseView,
}

/// The second moment comes of the first by that event.
pub open spec fn follows(before: Moment, event: Event, after: Moment) -> bool {
    &&& answers(before.phase, event)
    &&& after.phase == next_phase(before.app, before.phase, event)
    &&& app_follows(after.app, before.app, before.phase, event)
}

/// A stretch of the course: each moment comes of the one before it by the event between them.
pub open spec fn is_run(run: Seq<Moment>, events: Seq<Event>) -> bool {
    &&& run.len() == events.len() + 1
    &&& forall|i: int|
        0 <= i < events.len() ==> follows(run[i], #[trigger] events[i], run[i + 1])
}

/// How far a pass has come in that phase.
pub open spec fn progress(phase: PhaseView) -> int {
    match phase {
        PhaseView::Start => 0,
        PhaseView::List(Next::Draw) => 1,
        PhaseView::Detail { next: Next::Draw, .. } => 2,
        PhaseView::End(Next::Draw) => 3,
        PhaseView::Draw => 4,
        PhaseView::Poll => 5,
        PhaseView::Read => 6,
        PhaseView::List(Next::Pass) => 7,
        PhaseView::Detail { next: Next::Pass, .. } => 8,
        PhaseView::End(Next::Pass) => 9,
        PhaseView::Quit(_) => 10,
    }
}

/// The screen is about to be refreshed and drawn: the phases of a pass between its start and its
/// drawing.
pub open spec fn before_drawing(phase: PhaseView) -> bool {
    1 <= progress(phase) <= 3
}

/// What the event that was read asked for is being fetched.
pub open spec fn after_reading(phase: PhaseView) -> bool {
    7 <= progress(phase) <= 9
}

/// A pass: from a start to the next start or to the end of the course.
pub open spec fn is_pass(run: Seq<Moment>, events: Seq<Event>, start: int, end: int) -> bool {
    &&& is_run(run, events)
    &&& 0 <= start < end < run.len()
    &&& run[start].phase is Start
    &&& run[end].phase is Start || run[end].phase is Quit
    &&& forall|i: int| start < i < end ==> !((#[trigger] run[i]).phase is Start)
}

/// What was to be done at that moment failed, and the course has ended with the reason, in the
/// state of that moment.
pub open spec fn fails_at(run: Seq<Moment>, events: Seq<Event>, at: int, end: int) -> bool {
    &&& end == at + 1
    &&& run[end].phase == PhaseView::Quit(Err(events[at]->Failed_0@))
    &&& run[end].app == run[at].app
}

/// The pass keeps its order, with its drawing at that moment:
/// - before it comes a refresh, from the list to the end, if the list is due at the start, and
///   nothing otherwise;
/// - what is drawn is the state that the refresh has left, or that of the start;
/// - there is no other drawing;
/// - after it an event is waited for, once, and read, once, exactly if it has come; the state is
///   the one drawn until then;
/// - after that comes only what the event asked for;
/// - where the drawing, the wait or the reading fails, nothing comes after it, and the course has
///   ended with its reason.
pub open spec fn in_order(
    run: Seq<Moment>,
    events: Seq<Event>,
    start: int,
    drawing: int,
    end: int,
) -> bool {
    &&& start < drawing < end
    &&& run[drawing].phase is Draw
    &&& if run[start].app.is_due(events[start]->Time_0 as int) {
        &&& drawing > start + 1
        &&& run[start + 1].phase == PhaseView::List(Next::Draw)
        &&& run[start + 2].app.took_list(
            run[start].app,
            events[start + 1]->List_0,
            list_path(run[start].app, events[start + 1]->List_0),
        )
        &&& run[drawing - 1].phase == PhaseView::End(Next::Draw)
        &&& run[drawing].app.refreshed_at(
            run[drawing - 1].app,
            events[drawing - 1]->Time_0 as int,
        )
    } else {
        &&& drawing == start + 1
        &&& run[drawing].app == run[start].app
    }
    &&& forall|i: int| start < i < drawing ==> before_drawing((#[trigger] run[i]).phase)
    &&& if events[drawing] is Failed {
        fails_at(run, events, drawing, end)
    } else {
        &&& drawing + 1 < end
        &&& run[drawing + 1].phase is Poll
        &&& run[drawing + 2].app == run[drawing].app
        &&& match events[drawing + 1] {
            Event::Failed(_) => fails_at(run, events, drawing + 1, end),
            Event::Polled(true) => {
                &&& drawing + 2 < end
                &&& run[drawing + 2].phase is Read
                &&& events[drawing + 2] is Failed ==> fails_at(run, events, drawing + 2, end)
            },
            _ => end == drawing + 2,
        }
    }
    &&& forall|i: int| drawing + 2 < i < end ==> after_reading((#[trigger] run[i]).phase)
}

/// What follows a phase is further on in the pass, or the next pass begins, which it does only
/// after the drawing and the wait. The drawing is never passed over.
pub proof fn law_a_pass_advances(before: Moment, event: Event, after: Moment)
    requires
        follows(before, event, after),
    ensures
        progress(after.phase) > progress(before.phase) || (after.phase is Start && progress(
            before.phase,
        ) >= progress(PhaseView::Poll)),
        progress(before.phase) < progress(PhaseView::Draw) ==> progress(after.phase) <= progress(
            PhaseView::Draw,
        ),
{
}

proof fn lemma_progress_grows(
    run: Seq<Moment>,
    events: Seq<Event>,
    start: int,
    end: int,
    i: int,
    j: int,
)
    requires
        is_pass(run, events, start, end),
        start <= i < j < end,
    ensures
        progress(run[i].phase) < progress(run[j].phase),
    decreases j,
{
    assert(follows(run[j - 1], events[j - 1], run[j]));
    law_a_pass_advances(run[j - 1], events[j - 1], run[j]);
    if i < j - 1 {
        lemma_progress_grows(run, events, start, end, i, j - 1);
    }
}

/// Somewhere in the pass the drawing is reached, by way of the refresh alone.
proof fn lemma_drawing_reached(
    run: Seq<Moment>,
    events: Seq<Event>,
    start: int,
    end: int,
    i: int,
) -> (drawing: int)
    requires
        is_pass(run, events, start, end),
        start < i < end,
        before_drawing(run[i].phase) || run[i].phase is Draw,
        forall|k: int| start < k < i ==> before_drawing((#[trigger] run[k]).phase),
    ensures
        i <= drawing < end,
        run[drawing].phase is Draw,
        forall|k: int| start < k < drawing ==> before_drawing((#[trigger] run[k]).phase),
    decreases end - i,
{
    if run[i].phase is Draw {
        i
    } else {
        assert(follows(run[i], events[i], run[i + 1]));
        law_a_pass_advances(run[i], events[i], run[i + 1]);
        lemma_drawing_reached(run, events, start, end, i + 1)
    }
}

/// Every pass, whatever the clock and the events, keeps its order: a refresh exactly if the list
/// is due, then exactly one drawing, then one wait, then at most one event, as far as nothing
/// fails.
pub proof fn law_order_of_a_pass(run: Seq<Moment>, events: Seq<Event>, start: int, end: int)
    requires
        is_pass(run, events, start, end),
    ensures
        exists|drawing: int| #[trigger] in_order(run, events, start, drawing, end),
{
    assert(follows(run[start], events[start], run[start + 1]));
    let drawing = lemma_drawing_reached(run, events, start, end, start + 1);
    let due = run[start].app.is_due(events[start]->Time_0 as int);
    assert(follows(run[drawing], events[drawing], run[drawing + 1]));
    if events[drawing] is Failed {
        lemma_quit_ends(run, events, drawing + 1);
    } else {
        assert(run[drawing + 1].phase is Poll);
        assert(follows(run[drawing + 1], events[drawing + 1], run[drawing + 2]));
        if events[drawing + 1] is Failed {
            lemma_quit_ends(run, events, drawing + 2);
        } else if run[drawing + 2].phase is Read {
            assert(follows(run[drawing + 2], events[drawing + 2], run[drawing + 3]));
            if events[drawing + 2] is Failed {
                lemma_quit_ends(run, events, drawing + 3);
            }
        }
    }
    if due {
        assert(run[start + 1].phase == PhaseView::List(Next::Draw));
        assert(drawing > start + 1);
        assert(follows(run[start + 1], events[start + 1], run[start + 2]));
        assert(follows(run[drawing - 1], events[drawing - 1], run[drawing]));
        lemma_only_refreshes(run, events, start, end, drawing - 1);
    } else if drawing > start + 1 {
        lemma_progress_grows(run, events, start, end, start + 1, drawing);
    }
    assert forall|i: int| drawing + 2 < i < end implies after_reading((#[trigger] run[i]).phase) by {
        lemma_progress_grows(run, events, start, end, drawing + 2, i);
        assert(follows(run[i - 1], events[i - 1], run[i]));
        if run[i].phase is Quit {
            lemma_quit_ends(run, events, i);
        }
    }
    assert(in_order(run, events, start, drawing, end));
}

/// Nothing comes of the end of the course.
proof fn lemma_quit_ends(run: Seq<Moment>, events: Seq<Event>, i: int)
    requires
        is_run(run, events),
        0 <= i < run.len(),
        run[i].phase is Quit,
    ensures
        i == run.len() - 1,
{
    if i < events.len() {
        assert(follows(run[i], events[i], run[i + 1]));
    }
}

/// A flow that is fetched before the drawing is fetched as part of a refresh.
proof fn lemma_only_refreshes(run: Seq<Moment>, events: Seq<Event>, start: int, end: int, i: int)
    requires
        is_pass(run, events, start, end),
        start < i < end,
        before_drawing(run[i].phase),
    ensures
        run[i].phase matches PhaseView::Detail { refreshing, .. } ==> refreshing,
{
    assert(follows(run[i - 1], events[i - 1], run[i]));
    law_a_pass_advances(run[i - 1], events[i - 1], run[i]);
}

/// Between an event that was read and the next wait, reading or end there is a drawing, unless
/// that reading ended the course: what an event has done is shown.
pub proof fn law_events_are_shown(run: Seq<Moment>, events: Seq<Event>, read: int, later: int)
    requires
        is_run(run, events),
        0 <= read < later < run.len(),
        run[read].phase is Read,
        !(run[read + 1].phase is Quit),
        run[later].phase is Poll || run[later].phase is Read || run[later].phase is Quit,
    ensures
        exists|drawing: int| read < drawing < later && (#[trigger] run[drawing]).phase is Draw,
{
    if forall|i: int| read < i < later ==> !((#[trigger] run[i]).phase is Draw) {
        lemma_undrawn(run, events, read, later);
    }
}

/// Until something is drawn after an event, the course stays between the event and the drawing.
proof fn lemma_undrawn(run: Seq<Moment>, events: Seq<Event>, read: int, i: int)
    requires
        is_run(run, events),
        0 <= read < i < run.len(),
        run[read].phase is Read,
        !(run[read + 1].phase is Quit),
        forall|k: int| read < k < i ==> !((#[trigger] run[k]).phase is Draw),
    ensures
        after_reading(run[i].phase) || progress(run[i].phase) <= progress(PhaseView::Draw),
    decreases i,
{
    assert(follows(run[i - 1], events[i - 1], run[i]));
    law_a_pass_advances(run[i - 1], events[i - 1], run[i]);
    if read < i - 1 {
        lemma_undrawn(run, events, read, i - 1);
        assert(!(run[i - 1].phase is Draw));
    }
}

/// At most how many events come before the next drawing.
pub open spec fn steps_to_drawing(phase: PhaseView) -> nat {
    match phase {
        PhaseView::Draw => 0,
        PhaseView::End(Next::Draw) => 1,
        PhaseView::Detail { next: Next::Draw, .. } => 2,
        PhaseView::List(Next::Draw) => 3,
        PhaseView::Start => 4,
        PhaseView::End(Next::Pass) => 5,
        PhaseView::Detail { next: Next::Pass, .. } => 6,
        PhaseView::List(Next::Pass) => 7,
        PhaseView::Read => 8,
        PhaseView::Poll => 9,
        PhaseView::Quit(_) => 0,
    }
}

/// Every event brings the next drawing nearer, or ends the course.
pub proof fn law_a_drawing_comes(before: Moment, event: Event, after: Moment)
    requires
        follows(before, event, after),
        !(before.phase is Draw),
    ensures
        steps_to_drawing(after.phase) < steps_to_drawing(before.phase),
{
}

/// The outcome with which an event ends the course, where it is one that does: well by the press
/// of q or Esc, and with the reason by a failure. The reply of the API, whatever it is, is none.
pub open spec fn ending(event: Event) -> Option<Result<(), Seq<char>>> {
    match event {
        Event::Key(true, Key::Char('q') | Key::Esc) => Some(Ok(())),
        Event::Failed(why) => Some(Err(why@)),
        _ => None,
    }
}

/// The course ends with the first event that is an ending, with its outcome and in the state as
/// it was, and with no other event; nothing is handled after it.
pub proof fn law_the_first_ending_ends(run: Seq<Moment>, events: Seq<Event>, i: int)
    requires
        is_run(run, events),
        0 <= i < events.len(),
    ensures
        match ending(events[i]) {
            Some(outcome) => {
                &&& run[i + 1].phase == PhaseView::Quit(outcome)
                &&& run[i + 1].app == run[i].app
                &&& i == events.len() - 1
            },
            None => !(run[i + 1].phase is Quit),
        },
{
    assert(follows(run[i], events[i], run[i + 1]));
    if run[i + 1].phase is Quit {
        lemma_quit_ends(run, events, i + 1);
    }
}

/// The time that a refresh counts from is told after all that it fetches has come: neither the
/// list nor the selected flow changes it.
pub proof fn law_a_refresh_counts_from_its_end(before: Moment, event: Event, after: Moment)
    requires
        follows(before, event, after),
    ensures
        before.phase is End ==> after.app.last_refresh == event->Time_0,
        !(before.phase is End) ==> after.app.last_refresh == before.app.last_refresh,
{
}

} // verus!
