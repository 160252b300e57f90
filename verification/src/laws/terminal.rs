//! Laws on the state of the terminal UI: what keys, refreshes and loaded flows do to it.

use vstd::prelude::*;

use crate::model::{Flow, FlowSummary};
use crate::text::{decimal_text, integer_text};
use crate::tui::{App, Command, Key, DEFAULT_HOST, DEFAULT_PORT};

verus! {

/// At the start there are no flows, the first place is selected, no flow is loaded, and the list
/// counts as ten seconds old.
pub proof fn law_start(host: String, port: u16, now: i128, r: App)
    requires
        call_ensures(App::new, (host, port, now), r),
    ensures
        r.host == host,
        r.port == port,
        r.flows@.len() == 0,
        r.selected == Some(0usize),
        r.detail is None,
        r.status@ == "loading…"@,
        r.last_refresh == now - 10_000_000_000,
{
}

/// The list is due exactly if more than two seconds have passed since the last refresh ended.
pub proof fn law_due(app: &App, now: i128, r: bool)
    requires
        call_ensures(App::refresh_due, (app, now), r),
    ensures
        r <==> now - app.last_refresh > 2_000_000_000,
{
}

/// Turning to the selected flow gives the path of that flow, by its id, and leaves all as it was;
/// where no flow of the list is selected there is no path, and no flow is loaded any more.
pub proof fn law_load_detail(app: &mut App, r: Option<String>)
    requires
        call_ensures(App::load_detail, (app,), r),
    ensures
        final(app).host == old(app).host,
        final(app).port == old(app).port,
        final(app).flows == old(app).flows,
        final(app).selected == old(app).selected,
        final(app).status == old(app).status,
        final(app).last_refresh == old(app).last_refresh,
        r is Some <==> old(app).selected is Some && old(app).selected->Some_0 < old(
            app,
        ).flows@.len(),
        r is Some ==> r->Some_0@ == "/api/v1/flows/"@ + integer_text(
            old(app).flows@[old(app).selected->Some_0 as int].id as int,
        ),
        r is Some ==> final(app).detail == old(app).detail,
        r is None ==> final(app).detail is None,
{
}

/// The flow that was loaded is the one that is held, whichever it is, and nothing else changes.
pub proof fn law_loaded(app: &mut App, flow: Option<Flow>)
    requires
        call_ensures(App::detail_loaded, (app, flow), ()),
    ensures
        final(app).detail == flow,
        final(app).host == old(app).host,
        final(app).port == old(app).port,
        final(app).flows == old(app).flows,
        final(app).selected == old(app).selected,
        final(app).status == old(app).status,
        final(app).last_refresh == old(app).last_refresh,
{
}

/// A list that came in takes the place of the old one, whole, and the status tells how many flows
/// it has. A selection in the list stays; one beyond it goes to its last flow, or is lost where it
/// is empty. The path is that of the flow that is selected then.
pub proof fn law_refreshed(app: &mut App, flows: Vec<FlowSummary>, r: Option<String>)
    requires
        call_ensures(App::refreshed, (app, Ok::<Vec<FlowSummary>, String>(flows)), r),
    ensures
        final(app).flows == flows,
        final(app).status@ == decimal_text(flows@.len()) + " flows"@,
        final(app).host == old(app).host,
        final(app).port == old(app).port,
        final(app).last_refresh == old(app).last_refresh,
        flows@.len() == 0 ==> final(app).selected is None,
        flows@.len() > 0 ==> (old(app).selected matches Some(place) ==> final(app).selected == Some(
            if place < flows@.len() {
                place
            } else {
                (flows@.len() - 1) as usize
            },
        )),
        old(app).selected is None ==> final(app).selected is None,
        r is Some <==> final(app).selected is Some,
        r is Some ==> final(app).selected->Some_0 < flows@.len() && r->Some_0@
            == "/api/v1/flows/"@ + integer_text(
            flows@[final(app).selected->Some_0 as int].id as int,
        ),
        r is Some ==> final(app).detail == old(app).detail,
        r is None ==> final(app).detail is None,
{
}

/// A list that could not be fetched leaves all as it was but for the status, which tells why.
pub proof fn law_refresh_failed(app: &mut App, why: String, r: Option<String>)
    requires
        call_ensures(App::refreshed, (app, Err::<Vec<FlowSummary>, String>(why)), r),
    ensures
        r is None,
        final(app).status@ == "error: "@ + why@,
        final(app).flows == old(app).flows,
        final(app).selected == old(app).selected,
        final(app).detail == old(app).detail,
        final(app).host == old(app).host,
        final(app).port == old(app).port,
        final(app).last_refresh == old(app).last_refresh,
{
}

/// From the end of a refresh on, the list is due again exactly when more than two seconds have
/// passed since; nothing else changes.
pub proof fn law_refresh_ended(app: &mut App, end: i128, later: i128, due: bool)
    requires
        call_ensures(App::refresh_ended, (app, end), ()),
        call_ensures(App::refresh_due, (&*final(app), later), due),
    ensures
        due <==> later - end > 2_000_000_000,
        final(app).last_refresh == end,
        final(app).flows == old(app).flows,
        final(app).selected == old(app).selected,
        final(app).detail == old(app).detail,
        final(app).status == old(app).status,
        final(app).host == old(app).host,
        final(app).port == old(app).port,
{
}

/// In a list that is not empty a move goes by as many places as it says, short of the first and
/// the last flow, and from the first where nothing was selected; the path is that of the flow
/// there. In an empty list nothing changes.
pub proof fn law_move(app: &mut App, delta: isize, from: int, r: Option<String>)
    requires
        call_ensures(App::move_by, (app, delta), r),
        from == match old(app).selected {
            Some(place) => place as int,
            None => 0,
        },
    ensures
        final(app).flows == old(app).flows,
        final(app).status == old(app).status,
        final(app).host == old(app).host,
        final(app).port == old(app).port,
        final(app).last_refresh == old(app).last_refresh,
        old(app).flows@.len() == 0 ==> r is None && *final(app) == *old(app),
        old(app).flows@.len() > 0 ==> {
            let last = old(app).flows@.len() - 1;
            &&& final(app).selected is Some
            &&& 0 <= from + delta <= last ==> final(app).selected->Some_0 == from + delta
            &&& from + delta < 0 ==> final(app).selected->Some_0 == 0
            &&& from + delta > last ==> final(app).selected->Some_0 == last
            &&& r is Some
            &&& r->Some_0@ == "/api/v1/flows/"@ + integer_text(
                old(app).flows@[final(app).selected->Some_0 as int].id as int,
            )
            &&& final(app).detail == old(app).detail
        },
{
    assert(old(app).flows.len() == old(app).flows@.len());
}

/// A key that is not pressed but repeated or released does nothing, whichever it is.
pub proof fn law_only_presses_count(app: &mut App, key: Key, r: Command)
    requires
        call_ensures(App::on_key, (app, false, key), r),
    ensures
        r is Wait,
        *final(app) == *old(app),
{
}

/// The keys q and Esc quit, r refreshes, and all but those and the keys that select do nothing;
/// none of these changes anything.
pub proof fn law_keys_that_do_not_select(app: &mut App, key: Key, r: Command)
    requires
        call_ensures(App::on_key, (app, true, key), r),
        key != Key::Char('j') && key != Key::Down && key != Key::Char('k') && key != Key::Up && key
            != Key::Char('g') && key != Key::Char('G'),
    ensures
        *final(app) == *old(app),
        r is Quit <==> key == Key::Char('q') || key == Key::Esc,
        r is Refresh <==> key == Key::Char('r'),
        r is Wait <==> key != Key::Char('q') && key != Key::Esc && key != Key::Char('r'),
{
}

/// The keys j and Down select the flow below, k and Up the flow above, short of the ends of the
/// list, g the first and G the last, and the flow there is to be loaded.
pub proof fn law_keys_that_select(app: &mut App, key: Key, from: int, r: Command)
    requires
        call_ensures(App::on_key, (app, true, key), r),
        key == Key::Char('j') || key == Key::Down || key == Key::Char('k') || key == Key::Up || key
            == Key::Char('g') || key == Key::Char('G'),
        old(app).flows@.len() > 0,
        from == match old(app).selected {
            Some(place) => place as int,
            None => 0,
        },
    ensures
        ({
            let last = old(app).flows@.len() - 1;
            let place = final(app).selected->Some_0;
            &&& final(app).selected is Some
            &&& key == Key::Char('j') || key == Key::Down ==> place == if from < last {
                from + 1
            } else {
                last
            }
            &&& key == Key::Char('k') || key == Key::Up ==> place == if from == 0 {
                0
            } else if from - 1 > last {
                last
            } else {
                from - 1
            }
            &&& key == Key::Char('g') ==> place == 0
            &&& key == Key::Char('G') ==> place == last
            &&& r is Load
            &&& r->Load_0@ == "/api/v1/flows/"@ + integer_text(
                old(app).flows@[place as int].id as int,
            )
            &&& final(app).detail == old(app).detail
            &&& final(app).flows == old(app).flows
            &&& final(app).status == old(app).status
            &&& final(app).host == old(app).host
            &&& final(app).port == old(app).port
            &&& final(app).last_refresh == old(app).last_refresh
        }),
{
    assert(old(app).flows.len() == old(app).flows@.len());
}

/// In an empty list the keys that select load nothing; only g does anything, which is to select
/// the first place and to hold no flow any more.
pub proof fn law_keys_in_an_empty_list(app: &mut App, key: Key, r: Command)
    requires
        call_ensures(App::on_key, (app, true, key), r),
        old(app).flows@.len() == 0,
    ensures
        !(r is Load),
        key == Key::Char('j') || key == Key::Down || key == Key::Char('k') || key == Key::Up || key
            == Key::Char('G') ==> r is Wait,
        key != Key::Char('g') ==> *final(app) == *old(app),
        key == Key::Char('g') ==> {
            &&& r is Wait
            &&& final(app).selected == Some(0usize)
            &&& final(app).detail is None
            &&& final(app).flows == old(app).flows
            &&& final(app).status == old(app).status
            &&& final(app).host == old(app).host
            &&& final(app).port == old(app).port
            &&& final(app).last_refresh == old(app).last_refresh
        },
{
}

/// Where nothing else is said, the daemon is sought on this machine at port 9000.
pub proof fn law_default_address()
    ensures
        DEFAULT_HOST@ == "127.0.0.1"@,
        DEFAULT_PORT == 9000,
{
}

/// Nothing is asked of a caller but, at the start, a clock from which ten seconds can be taken.
pub proof fn law_every_event_is_taken(
    app: &mut App,
    host: String,
    port: u16,
    now: i128,
    fetched: Result<Vec<FlowSummary>, String>,
    flow: Option<Flow>,
    delta: isize,
    pressed: bool,
    key: Key,
)
    ensures
        now >= 0 ==> call_requires(App::new, (host, port, now)),
        call_requires(App::refresh_due, (&*old(app), now)),
        call_requires(App::load_detail, (app,)),
        call_requires(App::detail_loaded, (app, flow)),
        call_requires(App::refreshed, (app, fetched)),
        call_requires(App::refresh_ended, (app, now)),
        call_requires(App::move_by, (app, delta)),
        call_requires(App::on_key, (app, pressed, key)),
{
}

} // verus!
