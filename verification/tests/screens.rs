use snare::model::{Flow, FlowRequest, FlowResponse, FlowSummary};
use snare::screen::{
    body_preview, detail_widget, draw, help_line, highlight, row_line, text_preview, title_line,
    Color, Line, Span, Style, BODY_ROWS, DETAIL_PERCENT, HELP_ROWS, LIST_PERCENT, TITLE_ROWS,
};
use snare::tui::App;

fn span(text: &str, fg: Option<Color>, bold: bool) -> Span {
    Span { text: text.to_string(), style: Style { fg, bg: None, bold } }
}

fn line(spans: Vec<Span>) -> Line {
    Line { spans }
}

fn summary(status: Option<u16>, method: &str) -> FlowSummary {
    FlowSummary {
        id: 1,
        method: method.to_string(),
        scheme: "https".to_string(),
        host: "example.com".to_string(),
        path: "/a".to_string(),
        status,
        mime: None,
        resp_size: None,
        duration_ms: None,
    }
}

fn header(n: usize) -> (String, String) {
    (format!("h{n}"), format!("v{n}"))
}

fn flow() -> Flow {
    Flow {
        id: 1,
        request: FlowRequest {
            method: "POST".to_string(),
            url: "https://example.com/a".to_string(),
            http_version: "HTTP/2".to_string(),
            headers: vec![header(0)],
            body: b"in".to_vec(),
        },
        response: Some(FlowResponse { status: 201, headers: vec![], body: vec![] }),
    }
}

#[test]
fn the_title_shows_the_status() {
    let title = title_line("3 flows");
    assert_eq!(title.spans.len(), 3);
    assert_eq!(title.spans[0].text, " 🪤 Snare ");
    assert_eq!(
        title.spans[0].style,
        Style { fg: Some(Color::Black), bg: Some(Color::Yellow), bold: true }
    );
    assert_eq!(title.spans[1], span("  ", None, false));
    assert_eq!(title.spans[2], span("3 flows", Some(Color::Cyan), false));
}

#[test]
fn the_help_line() {
    assert_eq!(
        help_line(),
        line(vec![span(
            " j/k move · g/G top/bottom · r refresh · q quit ",
            Some(Color::DarkGray),
            false
        )])
    );
    assert_eq!(highlight(), Style { fg: None, bg: Some(Color::DarkGray), bold: true });
}

#[test]
fn a_row_of_the_list() {
    assert_eq!(
        row_line(&summary(Some(200), "GET")),
        line(vec![
            span("200 ", Some(Color::Green), false),
            span("GET   ", Some(Color::Magenta), false),
            span("example.com/a", None, false),
        ])
    );
    let awaited = row_line(&summary(None, "DELETE"));
    assert_eq!(awaited.spans[0], span("··· ", Some(Color::DarkGray), false));
    assert_eq!(awaited.spans[1].text, "DELETE ");
    assert_eq!(row_line(&summary(Some(7), "GET")).spans[0].text, "  7 ");
}

#[test]
fn the_colors_of_statuses() {
    for (status, color) in [
        (0, Color::Green),
        (299, Color::Green),
        (300, Color::Cyan),
        (399, Color::Cyan),
        (400, Color::Yellow),
        (499, Color::Yellow),
        (500, Color::Red),
        (65535, Color::Red),
    ] {
        assert_eq!(row_line(&summary(Some(status), "GET")).spans[0].style.fg, Some(color));
    }
}

#[test]
fn a_flow_in_full() {
    assert_eq!(
        detail_widget(&Some(flow())),
        vec![
            line(vec![span("POST https://example.com/a", Some(Color::Yellow), true)]),
            line(vec![span("h0: ", Some(Color::Blue), false), span("v0", None, false)]),
            line(vec![]),
            line(vec![span("[request body] ", Some(Color::DarkGray), false), span("in", None, false)]),
            line(vec![]),
            line(vec![span("← 201 (0 bytes)", Some(Color::Green), true)]),
        ]
    );
}

#[test]
fn a_response_with_a_body() {
    let mut flow = flow();
    flow.request.body = vec![];
    flow.response = Some(FlowResponse {
        status: 500,
        headers: vec![header(1)],
        body: vec![0xf0, 0x9f, b'x'],
    });
    let lines = detail_widget(&Some(flow));
    assert_eq!(lines.len(), 7);
    assert_eq!(lines[3].spans[0].text, "← 500 (3 bytes)");
    assert_eq!(lines[4].spans[0].text, "h1: ");
    assert_eq!(lines[6].spans[0].text, "[response body] ");
    assert_eq!(lines[6].spans[1].text, "\u{fffd}x");
}

#[test]
fn twenty_header_fields_are_shown() {
    let mut flow = flow();
    flow.request.headers = (0..25).map(header).collect();
    let lines = detail_widget(&Some(flow));
    assert_eq!(lines[20].spans[1].text, "v19");
    assert_eq!(lines[21], line(vec![]));
}

#[test]
fn an_awaited_response() {
    let mut flow = flow();
    flow.response = None;
    let lines = detail_widget(&Some(flow));
    assert_eq!(
        lines.last(),
        Some(&line(vec![span("(awaiting response…)", Some(Color::DarkGray), false)]))
    );
}

#[test]
fn nothing_selected() {
    assert_eq!(
        detail_widget(&None),
        vec![line(vec![span(
            "select a flow — or start browsing through the proxy",
            Some(Color::DarkGray),
            false
        )])]
    );
}

#[test]
fn a_body_in_utf8_is_shown_as_its_text() {
    let shown = body_preview("b", &"grün ▶ 🪤".as_bytes().to_vec());
    assert_eq!(shown.spans[0].text, "[b] ");
    assert_eq!(shown.spans[1].text, "grün ▶ 🪤");
}

#[test]
fn a_long_body_is_cut() {
    let text = "ü".repeat(2100);
    let shown = body_preview("request body", &text.clone().into_bytes());
    assert_eq!(shown.spans[1].text, "ü".repeat(2000));
    assert_eq!(text_preview("b", &text), text_preview("b", &"ü".repeat(2000)));
}

#[test]
fn the_screen_of_a_state() {
    let mut app = App::new("h".to_string(), 1, 0);
    app.refreshed(Ok(vec![summary(Some(200), "GET"), summary(None, "PUT")]));
    app.move_by(1);
    app.detail_loaded(Some(flow()));
    let screen = draw(&app);
    assert_eq!(screen.title, title_line("2 flows"));
    assert_eq!(
        screen.rows,
        vec![row_line(&summary(Some(200), "GET")), row_line(&summary(None, "PUT"))]
    );
    assert_eq!(screen.highlighted, Some(1));
    assert_eq!(screen.detail, detail_widget(&Some(flow())));
    assert_eq!(screen.help, help_line());
}

#[test]
fn the_layout() {
    assert_eq!((TITLE_ROWS, BODY_ROWS, HELP_ROWS), (1, 0, 1));
    assert_eq!((LIST_PERCENT, DETAIL_PERCENT), (42, 58));
}
