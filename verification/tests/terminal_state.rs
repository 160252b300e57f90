use snare::model::{Flow, FlowRequest, FlowSummary};
use snare::tui::{App, Command, Key, FLOWS_PATH};

const SECOND: i128 = 1_000_000_000;

fn summary(id: i64) -> FlowSummary {
    FlowSummary {
        id,
        method: "GET".to_string(),
        scheme: "http".to_string(),
        host: "h".to_string(),
        path: "/".to_string(),
        status: None,
        mime: None,
        resp_size: None,
        duration_ms: None,
    }
}

fn flow(id: i64) -> Flow {
    Flow {
        id,
        request: FlowRequest {
            method: "GET".to_string(),
            url: "http://h/".to_string(),
            http_version: "HTTP/1.1".to_string(),
            headers: vec![],
            body: vec![],
        },
        response: None,
    }
}

fn list(n: i64) -> Result<Vec<FlowSummary>, String> {
    Ok((0..n).map(|i| summary(100 + i)).collect())
}

fn started() -> App {
    App::new("127.0.0.1".to_string(), 9000, 0)
}

fn listed(n: i64) -> App {
    let mut app = started();
    app.refreshed(list(n));
    app
}

fn load(path: &str) -> Command {
    Command::Load(path.to_string())
}

#[test]
fn the_state_at_the_start() {
    let app = started();
    assert_eq!(app.host, "127.0.0.1");
    assert_eq!(app.port, 9000);
    assert!(app.flows.is_empty());
    assert_eq!(app.selected, Some(0));
    assert_eq!(app.detail, None);
    assert_eq!(app.status, "loading…");
    assert_eq!(FLOWS_PATH, "/api/v1/flows?limit=500");
}

#[test]
fn the_list_is_due_at_the_start_and_every_two_seconds() {
    let mut app = started();
    assert!(app.refresh_due(0));
    app.refreshed(list(1));
    assert!(app.refresh_due(5 * SECOND));
    app.detail_loaded(None);
    app.refresh_ended(5 * SECOND);
    assert!(!app.refresh_due(5 * SECOND));
    assert!(!app.refresh_due(7 * SECOND));
    assert!(app.refresh_due(7 * SECOND + 1));
    assert!(!app.refresh_due(0));
    app.refreshed(Err("down".to_string()));
    app.refresh_ended(9 * SECOND);
    assert!(!app.refresh_due(11 * SECOND));
}

#[test]
fn due_at_the_ends_of_the_clock() {
    let mut app = started();
    app.last_refresh = i128::MIN;
    assert!(app.refresh_due(i128::MAX));
    app.last_refresh = i128::MAX;
    assert!(!app.refresh_due(i128::MIN));
}

#[test]
fn a_new_list_loads_the_selected_flow() {
    let mut app = started();
    assert_eq!(app.refreshed(list(2)), Some("/api/v1/flows/100".to_string()));
    assert_eq!(app.status, "2 flows");
    assert_eq!(app.selected, Some(0));
    app.detail_loaded(Some(flow(100)));
    assert_eq!(app.detail, Some(flow(100)));
    app.detail_loaded(None);
    assert_eq!(app.detail, None);
}

#[test]
fn a_shorter_list_pulls_the_selection_in() {
    let mut app = listed(5);
    app.move_by(4);
    assert_eq!(app.selected, Some(4));
    assert_eq!(app.refreshed(list(3)), Some("/api/v1/flows/102".to_string()));
    assert_eq!(app.selected, Some(2));
}

#[test]
fn an_empty_list_has_no_selection() {
    let mut app = listed(2);
    app.detail_loaded(Some(flow(100)));
    assert_eq!(app.refreshed(list(0)), None);
    assert_eq!(app.selected, None);
    assert_eq!(app.detail, None);
    assert_eq!(app.status, "0 flows");
    assert_eq!(app.refreshed(list(2)), None);
    assert_eq!(app.selected, None);
}

#[test]
fn a_failed_refresh_keeps_what_is_shown() {
    let mut app = listed(2);
    app.move_by(1);
    app.detail_loaded(Some(flow(101)));
    assert_eq!(app.refreshed(Err("connection refused".to_string())), None);
    app.refresh_ended(7);
    assert_eq!(app.status, "error: connection refused");
    assert_eq!(app.flows.len(), 2);
    assert_eq!(app.selected, Some(1));
    assert_eq!(app.detail, Some(flow(101)));
    assert_eq!(app.last_refresh, 7);
}

#[test]
fn moves_stay_in_the_list_and_cancel() {
    let mut app = listed(3);
    assert_eq!(app.move_by(-1), Some("/api/v1/flows/100".to_string()));
    assert_eq!(app.selected, Some(0));
    app.move_by(2);
    app.move_by(-2);
    assert_eq!(app.selected, Some(0));
    app.move_by(2);
    assert_eq!(app.selected, Some(2));
    app.move_by(-2);
    assert_eq!(app.selected, Some(0));
    app.move_by(isize::MAX);
    assert_eq!(app.selected, Some(2));
    app.move_by(isize::MAX);
    assert_eq!(app.selected, Some(2));
    app.move_by(isize::MIN);
    assert_eq!(app.selected, Some(0));
}

#[test]
fn a_move_without_selection_counts_from_the_top() {
    let mut app = listed(0);
    assert_eq!(app.move_by(1), None);
    assert_eq!(app.selected, None);
    app.refreshed(list(3));
    app.move_by(1);
    assert_eq!(app.selected, Some(1));
}

#[test]
fn keys() {
    let mut app = listed(3);
    assert_eq!(app.on_key(true, Key::Char('j')), load("/api/v1/flows/101"));
    assert_eq!(app.on_key(true, Key::Down), load("/api/v1/flows/102"));
    assert_eq!(app.on_key(true, Key::Char('k')), load("/api/v1/flows/101"));
    assert_eq!(app.on_key(true, Key::Up), load("/api/v1/flows/100"));
    assert_eq!(app.on_key(true, Key::Char('G')), load("/api/v1/flows/102"));
    assert_eq!(app.on_key(true, Key::Char('g')), load("/api/v1/flows/100"));
    assert_eq!(app.on_key(true, Key::Char('r')), Command::Refresh);
    assert_eq!(app.on_key(true, Key::Char('x')), Command::Wait);
    assert_eq!(app.on_key(true, Key::Other), Command::Wait);
    assert_eq!(app.selected, Some(0));
    assert_eq!(app.on_key(true, Key::Char('q')), Command::Quit);
    assert_eq!(app.on_key(true, Key::Esc), Command::Quit);
}

#[test]
fn only_presses_count() {
    let mut app = listed(3);
    assert_eq!(app.on_key(false, Key::Char('q')), Command::Wait);
    assert_eq!(app.on_key(false, Key::Char('j')), Command::Wait);
    assert_eq!(app.selected, Some(0));
}

#[test]
fn keys_on_an_empty_list() {
    let mut app = listed(0);
    assert_eq!(app.on_key(true, Key::Char('j')), Command::Wait);
    assert_eq!(app.on_key(true, Key::Char('G')), Command::Wait);
    assert_eq!(app.selected, None);
    app.detail_loaded(Some(flow(1)));
    assert_eq!(app.on_key(true, Key::Char('g')), Command::Wait);
    assert_eq!(app.selected, Some(0));
    assert_eq!(app.detail, None);
}

#[test]
fn a_negative_id_in_a_path() {
    let mut app = started();
    assert_eq!(
        app.refreshed(Ok(vec![summary(-5)])),
        Some("/api/v1/flows/-5".to_string())
    );
    assert_eq!(app.load_detail(), Some("/api/v1/flows/-5".to_string()));
}

#[test]
fn flows_of_different_ids_have_different_paths() {
    let path = |id: i64| {
        let mut app = started();
        app.refreshed(Ok(vec![summary(id)])).unwrap()
    };
    let ids = [0, 1, 10, 11, 110, -1, -10, i64::MAX, i64::MIN];
    for a in ids {
        for b in ids {
            assert_eq!(path(a) == path(b), a == b);
        }
    }
}
