//! Laws on the course of the terminal UI.

use vstd::prelude::*;

use crate::cycle::{follows, is_run, Action, Cycle, Event, Moment, Next, Phase, PhaseView};
use crate::model::{Flow, FlowSummary};
use crate::screen::{draw, line_views, Screen};
use crate::text::{decimal_text, integer_text};
use crate::tui::{App, Command, Key};

verus! {

/// What is asked for in each phase: the time, the list of at most five hundred flows, the flow of
/// the path, the drawing, a wait of at most 400 milliseconds, the event, or to leave.
pub proof fn law_actions(cycle: &Cycle, r: Action)
    requires
        call_ensures(Cycle::action, (cycle,), r),
    ensures
        r is TellTime <==> cycle.phase is Start || cycle.phase is End,
        r is FetchList <==> cycle.phase is List,
        r is FetchList ==> r->FetchList_0@ == "/api/v1/flows?limit=500"@,
        r is FetchFlow <==> cycle.phase is Detail,
        r is FetchFlow ==> r->FetchFlow_0@ == cycle.phase->Detail_path@,
        r is Draw <==> cycle.phase is Draw,
        r is Poll <==> cycle.phase is Poll,
        r is Poll ==> r->Poll_0 == 400,
        r is ReadEvent <==> cycle.phase is Read,
        r is Leave <==> cycle.phase is Quit,
        cycle.phase matches Phase::Quit(Ok(())) ==> r is Leave && r->Leave_0 is Ok,
        cycle.phase matches Phase::Quit(Err(why)) ==> r is Leave && r->Leave_0 is Err
            && r->Leave_0->Err_0@ == why@,
{
}

/// What is drawn is what drawing the state makes.
pub proof fn law_the_state_is_drawn(cycle: &Cycle, r: Action, screen: Screen)
    requires
        call_ensures(Cycle::action, (cycle,), r),
        call_ensures(draw, (&cycle.app,), screen),
        cycle.phase is Draw,
    ensures
        ({
            &&& r matches Action::Draw(drawn)
            &&& drawn.highlighted == screen.highlighted
            &&& drawn.title@ == screen.title@
            &&& line_views(drawn.rows@) == line_views(screen.rows@)
            &&& line_views(drawn.detail@) == line_views(screen.detail@)
            &&& drawn.help@ == screen.help@
        }),
{
}

/// A step on an event that the phase asks for, or on a failure where something can fail, is a step
/// of the course.
pub proof fn law_steps_follow(cycle: &mut Cycle, event: Event)
    requires
        call_ensures(Cycle::step, (cycle, event), ()),
        match event {
            Event::Time(_) => old(cycle).phase is Start || old(cycle).phase is End,
            Event::List(_) => old(cycle).phase is List,
            Event::Flow(_) => old(cycle).phase is Detail,
            Event::Drawn => old(cycle).phase is Draw,
            Event::Polled(_) => old(cycle).phase is Poll,
            Event::Key(_, _) => old(cycle).phase is Read,
            Event::OtherInput => old(cycle).phase is Read,
            Event::Failed(_) => old(cycle).phase is Draw || old(cycle).phase is Poll || old(
                cycle,
            ).phase is Read,
        },
    ensures
        follows(
            Moment { app: old(cycle).app, phase: old(cycle).phase@ },
            event,
            Moment { app: final(cycle).app, phase: final(cycle).phase@ },
        ),
{
}

/// A pass begins with the time: the list is fetched if more than two seconds have passed since
/// the last refresh, and drawing comes otherwise.
pub proof fn law_step_of_time(cycle: &mut Cycle, now: i128)
    requires
        call_ensures(Cycle::step, (cycle, Event::Time(now)), ()),
        old(cycle).phase is Start,
    ensures
        final(cycle).app == old(cycle).app,
        now - old(cycle).app.last_refresh > 2_000_000_000 ==> final(cycle).phase == Phase::List(
            Next::Draw,
        ),
        now - old(cycle).app.last_refresh <= 2_000_000_000 ==> final(cycle).phase is Draw,
{
}

/// A list that was fetched is held, whole, with its count as the status. A selection in it stays,
/// and one beyond it goes to its last flow. The flow that is selected then is fetched as the end of the refresh; without one the refresh ends.
pub proof fn law_step_of_list(cycle: &mut Cycle, next: Next, flows: Vec<FlowSummary>)
    requires
        call_ensures(Cycle::step, (cycle, Event::List(Ok(flows))), ()),
        old(cycle).phase == Phase::List(next),
    ensures
        final(cycle).app.host == old(cycle).app.host,
        final(cycle).app.port == old(cycle).app.port,
        final(cycle).app.flows == flows,
        final(cycle).app.status@ == decimal_text(flows@.len()) + " flows"@,
        flows@.len() == 0 || old(cycle).app.selected is None ==> final(cycle).app.selected is None,
        flows@.len() > 0 ==> (old(cycle).app.selected matches Some(place) ==> final(cycle).app.selected == Some(
            if place < flows@.len() {
                place
            } else {
                (flows@.len() - 1) as usize
            },
        )),
        final(cycle).app.last_refresh == old(cycle).app.last_refresh,
        match final(cycle).app.selected {
            Some(place) => {
                &&& place < flows@.len()
                &&& final(cycle).phase matches Phase::Detail { path, refreshing, next: n }
                &&& path@ == "/api/v1/flows/"@ + integer_text(flows@[place as int].id as int)
                &&& refreshing
                &&& n == next
                &&& final(cycle).app.detail == old(cycle).app.detail
            },
            None => final(cycle).phase == Phase::End(next) && final(cycle).app.detail is None,
        },
{
    assert(old(cycle).phase@ == PhaseView::List(next));
    assert(final(cycle).app.selected is None ==> final(cycle).phase@ == PhaseView::End(next));
}

/// A list that could not be fetched ends the refresh, with the reason as the status, and all else
/// as it was.
pub proof fn law_step_of_failed_list(cycle: &mut Cycle, next: Next, why: String)
    requires
        call_ensures(Cycle::step, (cycle, Event::List(Err(why))), ()),
        old(cycle).phase == Phase::List(next),
    ensures
        final(cycle).app.host == old(cycle).app.host,
        final(cycle).app.port == old(cycle).app.port,
        final(cycle).phase == Phase::End(next),
        final(cycle).app.status@ == "error: "@ + why@,
        final(cycle).app.flows == old(cycle).app.flows,
        final(cycle).app.selected == old(cycle).app.selected,
        final(cycle).app.detail == old(cycle).app.detail,
        final(cycle).app.last_refresh == old(cycle).app.last_refresh,
{
    assert(final(cycle).phase@ == PhaseView::End(next));
}

/// A flow that was fetched is the flow that is held, and one that could not be fetched leaves
/// none; nothing else changes. The refresh ends, or what follows the key comes.
pub proof fn law_step_of_flow(
    cycle: &mut Cycle,
    path: String,
    refreshing: bool,
    next: Next,
    flow: Option<Flow>,
)
    requires
        call_ensures(Cycle::step, (cycle, Event::Flow(flow)), ()),
        old(cycle).phase == (Phase::Detail { path, refreshing, next }),
    ensures
        final(cycle).app.host == old(cycle).app.host,
        final(cycle).app.port == old(cycle).app.port,
        final(cycle).app.detail == flow,
        final(cycle).app.flows == old(cycle).app.flows,
        final(cycle).app.selected == old(cycle).app.selected,
        final(cycle).app.status == old(cycle).app.status,
        final(cycle).app.last_refresh == old(cycle).app.last_refresh,
        refreshing ==> final(cycle).phase == Phase::End(next),
        !refreshing && next == Next::Pass ==> final(cycle).phase is Start,
        !refreshing && next == Next::Draw ==> final(cycle).phase is Draw,
{
    assert(refreshing ==> final(cycle).phase@ == PhaseView::End(next));
}

/// The time at the end of a refresh is the time that it counts from; nothing else changes, and
/// what follows is the drawing of the pass, or the next pass after a key.
pub proof fn law_step_of_end(cycle: &mut Cycle, next: Next, now: i128)
    requires
        call_ensures(Cycle::step, (cycle, Event::Time(now)), ()),
        old(cycle).phase == Phase::End(next),
    ensures
        final(cycle).app.host == old(cycle).app.host,
        final(cycle).app.port == old(cycle).app.port,
        final(cycle).app.last_refresh == now,
        final(cycle).app.flows == old(cycle).app.flows,
        final(cycle).app.selected == old(cycle).app.selected,
        final(cycle).app.detail == old(cycle).app.detail,
        final(cycle).app.status == old(cycle).app.status,
        next == Next::Draw ==> final(cycle).phase is Draw,
        next == Next::Pass ==> final(cycle).phase is Start,
{
}

/// After the drawing comes the wait, after it the reading where an event has come and the next
/// pass otherwise; an event of another kind is passed over. None of these changes the state.
pub proof fn law_steps_of_drawing_and_waiting(cycle: &mut Cycle, event: Event)
    requires
        call_ensures(Cycle::step, (cycle, event), ()),
        (old(cycle).phase is Draw && event is Drawn) || (old(cycle).phase is Poll && event is Polled)
            || (old(cycle).phase is Read && event is OtherInput),
    ensures
        final(cycle).app == old(cycle).app,
        old(cycle).phase is Draw ==> final(cycle).phase is Poll,
        old(cycle).phase is Poll && event == Event::Polled(true) ==> final(cycle).phase is Read,
        old(cycle).phase is Poll && event == Event::Polled(false) ==> final(cycle).phase is Start,
        old(cycle).phase is Read ==> final(cycle).phase is Start,
{
}

/// A key that was read does to the state what the key does, and what it asks for comes next: the
/// end, the list, the flow of the path, or the next pass.
pub proof fn law_step_of_key(
    cycle: &mut Cycle,
    pressed: bool,
    key: Key,
    app: &mut App,
    command: Command,
)
    requires
        call_ensures(Cycle::step, (cycle, Event::Key(pressed, key)), ()),
        old(cycle).phase is Read,
        *old(app) == old(cycle).app,
        call_ensures(App::on_key, (app, pressed, key), command),
    ensures
        final(cycle).app.host == old(cycle).app.host,
        final(cycle).app.port == old(cycle).app.port,
        final(cycle).app.selected == final(app).selected,
        final(cycle).app.detail == final(app).detail,
        final(cycle).app.flows == final(app).flows,
        final(cycle).app.last_refresh == final(app).last_refresh,
        final(cycle).app.status == final(app).status,
        match command {
            Command::Wait => final(cycle).phase is Start,
            Command::Quit => final(cycle).phase matches Phase::Quit(Ok(())),
            Command::Refresh => final(cycle).phase == Phase::List(Next::Pass),
            Command::Load(asked) => {
                &&& final(cycle).phase matches Phase::Detail { path, refreshing, next }
                &&& path@ == asked@
                &&& !refreshing
                &&& next == Next::Pass
            },
        },
{
    assert(command is Quit ==> final(cycle).phase@ == PhaseView::Quit(Ok(())));
    assert(command is Refresh ==> final(cycle).phase@ == PhaseView::List(Next::Pass));
}

/// A drawing, wait or reading that fails ends the course with the reason, and the state stays.
pub proof fn law_step_of_failure(cycle: &mut Cycle, why: String)
    requires
        call_ensures(Cycle::step, (cycle, Event::Failed(why)), ()),
        old(cycle).phase is Draw || old(cycle).phase is Poll || old(cycle).phase is Read,
    ensures
        final(cycle).phase matches Phase::Quit(Err(reason)) && reason@ == why@,
        final(cycle).app == old(cycle).app,
{
    assert(final(cycle).phase@ == PhaseView::Quit(Err(why@)));
}

/// An event that is not what the phase asks for changes nothing.
pub proof fn law_step_of_no_answer(cycle: &mut Cycle, event: Event)
    requires
        call_ensures(Cycle::step, (cycle, event), ()),
        match event {
            Event::Time(_) => !(old(cycle).phase is Start) && !(old(cycle).phase is End),
            Event::List(_) => !(old(cycle).phase is List),
            Event::Flow(_) => !(old(cycle).phase is Detail),
            Event::Drawn => !(old(cycle).phase is Draw),
            Event::Polled(_) => !(old(cycle).phase is Poll),
            Event::Key(_, _) => !(old(cycle).phase is Read),
            Event::OtherInput => !(old(cycle).phase is Read),
            Event::Failed(_) => !(old(cycle).phase is Draw) && !(old(cycle).phase is Poll) && !(old(
                cycle,
            ).phase is Read),
        },
    ensures
        final(cycle).app == old(cycle).app,
        final(cycle).phase@ == old(cycle).phase@,
{
}

/// Nothing is asked of a caller: the course takes every event in every phase.
pub proof fn law_the_course_takes_every_event(cycle: &mut Cycle, event: Event, app: App)
    ensures
        call_requires(Cycle::step, (cycle, event)),
        call_requires(Cycle::action, (&*old(cycle),)),
        call_requires(Cycle::new, (app,)),
{
}

/// The course begins with a pass, in the state that it is given.
pub proof fn law_course_begins(app: App, r: Cycle)
    requires
        call_ensures(Cycle::new, (app,), r),
    ensures
        r.app == app,
        r.phase is Start,
{
}

/// A flow that was fetched, or that none could be fetched, is what the next drawing shows, unless
/// the list is fetched again before it.
pub proof fn law_fetched_flow_is_drawn(
    run: Seq<Moment>,
    events: Seq<Event>,
    i: int,
    flow: Option<Flow>,
    drawing: int,
)
    requires
        is_run(run, events),
        0 <= i < drawing < run.len(),
        run[i].phase is Detail,
        events[i] == Event::Flow(flow),
        run[drawing].phase is Draw,
        forall|k: int| i < k < drawing ==> !((#[trigger] run[k]).phase is Draw) && !(run[k].phase is List),
    ensures
        run[i + 1].app.detail == flow,
        run[drawing].app.detail == flow,
        run[drawing].app.flows == run[i].app.flows,
        run[drawing].app.selected == run[i].app.selected,
{
    assert(follows(run[i], events[i], run[i + 1]));
    if drawing > i + 1 {
        assert(!(run[i + 1].phase is Draw));
        assert(follows(run[i + 1], events[i + 1], run[i + 2]));
        if drawing > i + 2 {
            assert(!(run[i + 2].phase is Draw) && !(run[i + 2].phase is List));
            assert(follows(run[i + 2], events[i + 2], run[i + 3]));
            if drawing > i + 3 {
                assert(!(run[i + 3].phase is Draw) && !(run[i + 3].phase is List));
            }
        }
    }
}

/// A flow that was fetched at the end of a refresh that is due is drawn in the same pass, two
/// events later.
pub proof fn law_refreshed_flow_is_drawn(run: Seq<Moment>, events: Seq<Event>, i: int, flow: Option<Flow>)
    requires
        is_run(run, events),
        0 <= i,
        i + 2 < run.len(),
        run[i].phase matches PhaseView::Detail { refreshing: true, next: Next::Draw, .. },
        events[i] == Event::Flow(flow),
    ensures
        run[i + 2].phase is Draw,
        run[i + 2].app.detail == flow,
{
    assert(follows(run[i], events[i], run[i + 1]));
    assert(follows(run[i + 1], events[i + 1], run[i + 2]));
}

/// A list that was fetched is what the next drawing shows, unless it is fetched again before it.
pub proof fn law_fetched_list_is_drawn(
    run: Seq<Moment>,
    events: Seq<Event>,
    i: int,
    flows: Vec<FlowSummary>,
    drawing: int,
)
    requires
        is_run(run, events),
        0 <= i < drawing < run.len(),
        run[i].phase is List,
        events[i] == Event::List(Ok(flows)),
        run[drawing].phase is Draw,
        forall|k: int| i < k < drawing ==> !((#[trigger] run[k]).phase is Draw) && !(run[k].phase is List),
    ensures
        run[drawing].app.flows == flows,
        run[drawing].app.status@ == decimal_text(flows@.len()) + " flows"@,
{
    assert(follows(run[i], events[i], run[i + 1]));
    if drawing > i + 1 {
        assert(follows(run[i + 1], events[i + 1], run[i + 2]));
        if drawing > i + 2 {
            assert(!(run[i + 2].phase is Draw) && !(run[i + 2].phase is List));
            assert(follows(run[i + 2], events[i + 2], run[i + 3]));
            if drawing > i + 3 {
                assert(!(run[i + 3].phase is Draw) && !(run[i + 3].phase is List));
                assert(follows(run[i + 3], events[i + 3], run[i + 4]));
                if drawing > i + 4 {
                    assert(!(run[i + 4].phase is Draw) && !(run[i + 4].phase is List));
                }
            }
        }
    }
}

} // verus!
