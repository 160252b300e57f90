use snare::cycle::{Action, Cycle, Event};
use snare::model::FlowSummary;
use snare::screen::draw;
use snare::tui::{App, Key};

const SECOND: i128 = 1_000_000_000;

fn started() -> Cycle {
    Cycle::new(App::new("h".to_string(), 1, 0))
}

fn flows(n: i64) -> Event {
    Event::List(Ok((1..=n)
        .map(|id| FlowSummary {
            id,
            method: "GET".to_string(),
            scheme: "http".to_string(),
            host: "h".to_string(),
            path: "/".to_string(),
            status: None,
            mime: None,
            resp_size: None,
            duration_ms: None,
        })
        .collect()))
}

fn name(action: &Action) -> &'static str {
    match action {
        Action::TellTime => "time",
        Action::FetchList(_) => "list",
        Action::FetchFlow(_) => "flow",
        Action::Draw(_) => "draw",
        Action::Poll(_) => "poll",
        Action::ReadEvent => "read",
        Action::Leave(Ok(())) => "leave",
        Action::Leave(Err(_)) => "fail",
    }
}

/// Feeds the events in turn; the names of the actions that they answered.
fn actions(cycle: &mut Cycle, events: Vec<Event>) -> Vec<&'static str> {
    let mut names = vec![];
    for event in events {
        names.push(name(&cycle.action()));
        cycle.step(event);
    }
    names
}

/// Takes the course through its first pass, in which nothing is pressed.
fn drawn() -> Cycle {
    let mut cycle = started();
    actions(
        &mut cycle,
        vec![
            Event::Time(0),
            flows(2),
            Event::Flow(None),
            Event::Time(0),
            Event::Drawn,
            Event::Polled(false),
        ],
    );
    cycle
}

#[test]
fn the_first_pass_refreshes_and_draws() {
    let mut cycle = started();
    assert_eq!(
        actions(
            &mut cycle,
            vec![
                Event::Time(0),
                flows(2),
                Event::Flow(None),
                Event::Time(SECOND),
                Event::Drawn,
                Event::Polled(false),
            ]
        ),
        ["time", "list", "flow", "time", "draw", "poll"]
    );
    assert_eq!(name(&cycle.action()), "time");
    assert_eq!(cycle.app.last_refresh, SECOND);
}

#[test]
fn the_paths_and_the_wait() {
    let mut cycle = started();
    cycle.step(Event::Time(0));
    assert_eq!(cycle.action(), Action::FetchList("/api/v1/flows?limit=500".to_string()));
    cycle.step(flows(1));
    assert_eq!(cycle.action(), Action::FetchFlow("/api/v1/flows/1".to_string()));
    cycle.step(Event::Flow(None));
    cycle.step(Event::Time(0));
    assert_eq!(cycle.action(), Action::Draw(draw(&cycle.app)));
    cycle.step(Event::Drawn);
    assert_eq!(cycle.action(), Action::Poll(400));
}

#[test]
fn a_list_that_is_not_due_is_not_refreshed() {
    let mut cycle = drawn();
    let quiet = |time| vec![Event::Time(time), Event::Drawn, Event::Polled(false)];
    assert_eq!(actions(&mut cycle, quiet(SECOND)), ["time", "draw", "poll"]);
    assert_eq!(actions(&mut cycle, quiet(2 * SECOND)), ["time", "draw", "poll"]);
    cycle.step(Event::Time(2 * SECOND + 1));
    assert_eq!(name(&cycle.action()), "list");
}

#[test]
fn a_refresh_counts_from_its_end() {
    let mut cycle = started();
    actions(
        &mut cycle,
        vec![
            Event::Time(0),
            flows(1),
            Event::Flow(None),
            Event::Time(3 * SECOND),
            Event::Drawn,
            Event::Polled(false),
            Event::Time(4 * SECOND),
        ],
    );
    assert_eq!(name(&cycle.action()), "draw");
}

#[test]
fn a_failed_refresh_still_ends() {
    let mut cycle = started();
    assert_eq!(
        actions(
            &mut cycle,
            vec![
                Event::Time(0),
                Event::List(Err("down".to_string())),
                Event::Time(SECOND),
                Event::Drawn
            ]
        ),
        ["time", "list", "time", "draw"]
    );
    assert_eq!(cycle.app.status, "error: down");
    assert_eq!(cycle.app.last_refresh, SECOND);
}

#[test]
fn an_event_is_read_once_and_then_shown() {
    let pass = |input: Event| {
        let mut cycle = drawn();
        let mut names = actions(
            &mut cycle,
            vec![Event::Time(0), Event::Drawn, Event::Polled(true), input],
        );
        loop {
            let action = cycle.action();
            names.push(name(&action));
            match action {
                Action::TellTime => cycle.step(Event::Time(0)),
                Action::FetchList(_) => cycle.step(flows(2)),
                Action::FetchFlow(_) => cycle.step(Event::Flow(None)),
                _ => return names[4..].to_vec(),
            }
        }
    };
    assert_eq!(pass(Event::Key(true, Key::Down)), ["flow", "time", "draw"]);
    assert_eq!(pass(Event::Key(true, Key::Char('r'))), ["list", "flow", "time", "time", "draw"]);
    assert_eq!(pass(Event::Key(true, Key::Char('x'))), ["time", "draw"]);
    assert_eq!(pass(Event::Key(false, Key::Char('q'))), ["time", "draw"]);
    assert_eq!(pass(Event::OtherInput), ["time", "draw"]);
    assert_eq!(pass(Event::Key(true, Key::Char('q'))), ["leave"]);
}

#[test]
fn an_event_that_is_no_answer_changes_nothing() {
    let mut cycle = started();
    cycle.step(Event::Drawn);
    assert_eq!(name(&cycle.action()), "time");
    cycle.step(Event::Key(true, Key::Esc));
    assert_eq!(name(&cycle.action()), "time");
    assert_eq!(cycle.app.selected, Some(0));
}

#[test]
fn a_failed_drawing_wait_or_reading_ends_the_course() {
    let quiet = || vec![Event::Time(0), Event::Drawn, Event::Polled(true)];
    for handled in 1..=3 {
        let mut cycle = drawn();
        let mut events = quiet();
        events.truncate(handled);
        actions(&mut cycle, events);
        let asked = name(&cycle.action());
        assert_eq!(asked, ["draw", "poll", "read"][handled - 1]);
        cycle.step(Event::Failed("gone".to_string()));
        assert_eq!(cycle.action(), Action::Leave(Err("gone".to_string())));
        cycle.step(Event::Key(true, Key::Esc));
        assert_eq!(cycle.action(), Action::Leave(Err("gone".to_string())));
        assert_eq!(cycle.app.status, "2 flows");
    }
}

#[test]
fn only_q_and_escape_end_the_course_well() {
    let after = |pressed, key| {
        let mut cycle = drawn();
        actions(
            &mut cycle,
            vec![Event::Time(0), Event::Drawn, Event::Polled(true), Event::Key(pressed, key)],
        );
        cycle.action() == Action::Leave(Ok(()))
    };
    assert!(after(true, Key::Char('q')));
    assert!(after(true, Key::Esc));
    assert!(!after(true, Key::Char('Q')));
    assert!(!after(true, Key::Other));
    assert!(!after(false, Key::Esc));
}

#[test]
fn a_failure_where_nothing_can_fail_changes_nothing() {
    let mut cycle = started();
    cycle.step(Event::Failed("gone".to_string()));
    assert_eq!(name(&cycle.action()), "time");
}
