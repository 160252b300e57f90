//! What the terminal UI shows: its lines, each of styled pieces of text.

use vstd::prelude::*;

use crate::model::{Flow, FlowRequest, FlowResponse, FlowSummary};
use crate::text::{
    align_left, align_right, begin, beginning, decimal, decimal_text, left_aligned, lossy,
    lossy_text, reads_utf8, right_aligned,
};
use crate::tui::App;

verus! {

/// How many header fields of a request or a response are shown.
pub const HEADERS_SHOWN: usize = 20;

/// How many characters of a body are shown.
pub const BODY_SHOWN: usize = 2000;

/// The title of the frame around the list.
pub const LIST_TITLE: &'static str = " flows ";

/// The title of the frame around the selected flow.
pub const DETAIL_TITLE: &'static str = " detail ";

/// What stands before the selected row.
pub const HIGHLIGHT_SYMBOL: &'static str = "▶ ";

/// How many rows the title takes, at the top.
pub const TITLE_ROWS: u16 = 1;

/// How many rows the list and the selected flow take at least, between title and help.
pub const BODY_ROWS: u16 = 0;

/// How many rows the help takes, at the bottom.
pub const HELP_ROWS: u16 = 1;

/// The share of the width that the list takes, in percent.
pub const LIST_PERCENT: u16 = 42;

/// The share of the width that the selected flow takes, in percent.
pub const DETAIL_PERCENT: u16 = 58;

/// A color of the terminal.
#[derive(Debug, Clone, Copy, PartialEq, Eq, Structural)]
pub enum Color {
    Black,
    Red,
    Green,
    Yellow,
    Blue,
    Magenta,
    Cyan,
    DarkGray,
}

/// How a piece of text looks; a color that is not given is the terminal's own.
#[derive(Debug, Clone, Copy, PartialEq, Eq)]
pub struct Style {
    pub fg: Option<Color>,
    pub bg: Option<Color>,
    pub bold: bool,
}

/// A piece of text of one style.
#[derive(Debug, PartialEq)]
pub struct Span {
    pub text: String,
    pub style: Style,
}

/// The content of a piece of text.
#[verifier::ext_equal]
pub struct SpanView {
    pub text: Seq<char>,
    pub style: Style,
}

impl View for Span {
    type V = SpanView;

    open spec fn view(&self) -> SpanView {
        SpanView { text: self.text@, style: self.style }
    }
}

/// A line.
#[derive(Debug, PartialEq)]
pub struct Line {
    pub spans: Vec<Span>,
}

impl View for Line {
    type V = Seq<SpanView>;

    open spec fn view(&self) -> Seq<SpanView> {
        self.spans@.map_values(|span: Span| span@)
    }
}

/// The contents of lines.
pub open spec fn line_views(lines: Seq<Line>) -> Seq<Seq<SpanView>> {
    lines.map_values(|line: Line| line@)
}

/// The style of plain text.
pub open spec fn plain() -> Style {
    Style { fg: None, bg: None, bold: false }
}

/// The style of text in that color.
pub open spec fn colored(color: Color) -> Style {
    Style { fg: Some(color), bg: None, bold: false }
}

/// The style of bold text in that color.
pub open spec fn bold(color: Color) -> Style {
    Style { fg: Some(color), bg: None, bold: true }
}

/// The style of the badge in the first line.
pub open spec fn badge() -> Style {
    Style { fg: Some(Color::Black), bg: Some(Color::Yellow), bold: true }
}

/// A piece of text of that style.
pub open spec fn piece(text: Seq<char>, style: Style) -> SpanView {
    SpanView { text, style }
}

/// The line without text.
pub open spec fn blank_line() -> Seq<SpanView> {
    Seq::empty()
}

/// The color of a response status: by its hundreds, and gray while the response is awaited.
pub open spec fn status_color(status: Option<u16>) -> Color {
    match status {
        Some(status) => if status < 300 {
            Color::Green
        } else if status < 400 {
            Color::Cyan
        } else if status < 500 {
            Color::Yellow
        } else {
            Color::Red
        },
        None => Color::DarkGray,
    }
}

/// What a response status is shown as.
pub open spec fn status_text(status: Option<u16>) -> Seq<char> {
    match status {
        Some(status) => decimal_text(status as nat),
        None => "···"@,
    }
}

/// The first line of the screen.
pub open spec fn title_view(status: Seq<char>) -> Seq<SpanView> {
    seq![
        piece(" 🪤 Snare "@, badge()),
        piece("  "@, plain()),
        piece(status, colored(Color::Cyan)),
    ]
}

/// The last line of the screen.
pub open spec fn help_view() -> Seq<SpanView> {
    seq![piece(" j/k move · g/G top/bottom · r refresh · q quit "@, colored(Color::DarkGray))]
}

/// The row of a flow in the list.
pub open spec fn row_view(flow: FlowSummary) -> Seq<SpanView> {
    seq![
        piece(
            right_aligned(status_text(flow.status), 3) + " "@,
            colored(status_color(flow.status)),
        ),
        piece(left_aligned(flow.method@, 5) + " "@, colored(Color::Magenta)),
        piece(flow.host@ + flow.path@, plain()),
    ]
}

/// The rows of the list.
pub open spec fn rows_view(flows: Seq<FlowSummary>) -> Seq<Seq<SpanView>> {
    flows.map_values(|flow: FlowSummary| row_view(flow))
}

/// The line of a header field.
pub open spec fn header_view(header: (String, String)) -> Seq<SpanView> {
    seq![piece(header.0@ + ": "@, colored(Color::Blue)), piece(header.1@, plain())]
}

/// The lines of header fields, as many as are shown.
pub open spec fn headers_view(headers: Seq<(String, String)>) -> Seq<Seq<SpanView>> {
    let shown = if headers.len() <= HEADERS_SHOWN {
        headers
    } else {
        headers.take(HEADERS_SHOWN as int)
    };
    shown.map_values(|header: (String, String)| header_view(header))
}

/// The beginning of a body, after its label.
pub open spec fn body_preview_view(label: Seq<char>, body: Seq<u8>) -> Seq<SpanView> {
    preview_view(label, lossy_text(body))
}

/// The beginning of the text of a body, after its label.
pub open spec fn preview_view(label: Seq<char>, text: Seq<char>) -> Seq<SpanView> {
    seq![
        piece("["@ + label + "] "@, colored(Color::DarkGray)),
        piece(beginning(text, BODY_SHOWN as nat), plain()),
    ]
}

/// The lines of a body: none where it is empty.
pub open spec fn body_view(label: Seq<char>, body: Seq<u8>) -> Seq<Seq<SpanView>> {
    if body.len() == 0 {
        Seq::empty()
    } else {
        seq![blank_line(), body_preview_view(label, body)]
    }
}

/// The lines of a request.
pub open spec fn request_view(request: FlowRequest) -> Seq<Seq<SpanView>> {
    seq![seq![piece(request.method@ + " "@ + request.url@, bold(Color::Yellow))]] + headers_view(
        request.headers@,
    ) + body_view("request body"@, request.body@)
}

/// The lines of a response.
pub open spec fn response_view(response: Option<FlowResponse>) -> Seq<Seq<SpanView>> {
    match response {
        Some(response) => seq![
            seq![
                piece(
                    "← "@ + decimal_text(response.status as nat) + " ("@ + decimal_text(
                        response.body@.len(),
                    ) + " bytes)"@,
                    bold(Color::Green),
                ),
            ],
        ] + headers_view(response.headers@) + body_view("response body"@, response.body@),
        None => seq![seq![piece("(awaiting response…)"@, colored(Color::DarkGray))]],
    }
}

/// The lines of the selected flow.
pub open spec fn detail_view(detail: Option<Flow>) -> Seq<Seq<SpanView>> {
    match detail {
        Some(flow) => request_view(flow.request) + seq![blank_line()] + response_view(
            flow.response,
        ),
        None => seq![
            seq![
                piece(
                    "select a flow — or start browsing through the proxy"@,
                    colored(Color::DarkGray),
                ),
            ],
        ],
    }
}

/// The bodies that are shown of a flow are read as the text that they encode, where they are
/// UTF-8.
pub open spec fn bodies_read_utf8(detail: Option<Flow>) -> bool {
    detail matches Some(flow) ==> {
        &&& flow.request.body@.len() > 0 ==> reads_utf8(flow.request.body@)
        &&& flow.response matches Some(response) ==> response.body@.len() > 0 ==> reads_utf8(
            response.body@,
        )
    }
}

/// A piece of text of that style.
fn span(text: String, style: Style) -> (r: Span)
    ensures
        r@ == piece(text@, style),
{
    Span { text, style }
}

/// A piece of text in that color.
fn in_color(text: String, color: Color) -> (r: Span)
    ensures
        r@ == piece(text@, colored(color)),
{
    span(text, Style { fg: Some(color), bg: None, bold: false })
}

/// A piece of bold text in that color.
fn in_bold(text: String, color: Color) -> (r: Span)
    ensures
        r@ == piece(text@, bold(color)),
{
    span(text, Style { fg: Some(color), bg: None, bold: true })
}

/// A piece of plain text.
fn in_plain(text: String) -> (r: Span)
    ensures
        r@ == piece(text@, plain()),
{
    span(text, Style { fg: None, bg: None, bold: false })
}

/// The line of one piece.
fn line_of_one(a: Span) -> (r: Line)
    ensures
        r@ == seq![a@],
{
    let r = Line { spans: vec![a] };
    assert(r@ =~= seq![a@]);
    r
}

/// The line of two pieces.
fn line_of_two(a: Span, b: Span) -> (r: Line)
    ensures
        r@ == seq![a@, b@],
{
    let r = Line { spans: vec![a, b] };
    assert(r@ =~= seq![a@, b@]);
    r
}

/// The line of three pieces.
fn line_of_three(a: Span, b: Span, c: Span) -> (r: Line)
    ensures
        r@ == seq![a@, b@, c@],
{
    let r = Line { spans: vec![a, b, c] };
    assert(r@ =~= seq![a@, b@, c@]);
    r
}

/// The line without text.
fn empty_line() -> (r: Line)
    ensures
        r@ == blank_line(),
{
    let r = Line { spans: Vec::new() };
    assert(r@ =~= blank_line());
    r
}

/// Joins two texts.
fn join(a: &str, b: &str) -> (r: String)
    ensures
        r@ == a@ + b@,
{
    let mut r = a.to_owned();
    r.append(b);
    r
}

/// The style of the highlighted row.
pub fn highlight() -> (r: Style)
    ensures
        r == (Style { fg: None, bg: Some(Color::DarkGray), bold: true }),
{
    Style { fg: None, bg: Some(Color::DarkGray), bold: true }
}

/// Makes the first line of the screen.
pub fn title_line(status: &str) -> (r: Line)
    ensures
        r@ == title_view(status@),
{
    line_of_three(
        span(
            " 🪤 Snare ".to_owned(),
            Style { fg: Some(Color::Black), bg: Some(Color::Yellow), bold: true },
        ),
        in_plain("  ".to_owned()),
        in_color(status.to_owned(), Color::Cyan),
    )
}

/// Makes the last line of the screen.
pub fn help_line() -> (r: Line)
    ensures
        r@ == help_view(),
{
    line_of_one(
        in_color(" j/k move · g/G top/bottom · r refresh · q quit ".to_owned(), Color::DarkGray),
    )
}

/// Makes the row of a flow in the list.
pub fn row_line(flow: &FlowSummary) -> (r: Line)
    ensures
        r@ == row_view(*flow),
{
    let status = match flow.status {
        Some(status) => decimal(status as u64),
        None => "···".to_owned(),
    };
    let color = match flow.status {
        Some(status) => if status < 300 {
            Color::Green
        } else if status < 400 {
            Color::Cyan
        } else if status < 500 {
            Color::Yellow
        } else {
            Color::Red
        },
        None => Color::DarkGray,
    };
    line_of_three(
        in_color(join(align_right(status.as_str(), 3).as_str(), " "), color),
        in_color(join(align_left(flow.method.as_str(), 5).as_str(), " "), Color::Magenta),
        in_plain(join(flow.host.as_str(), flow.path.as_str())),
    )
}

/// Makes the rows of the list.
pub fn row_lines(flows: &Vec<FlowSummary>) -> (r: Vec<Line>)
    ensures
        line_views(r@) == rows_view(flows@),
{
    let mut rows: Vec<Line> = Vec::new();
    let mut i: usize = 0;
    while i < flows.len()
        invariant
            i <= flows@.len(),
            rows@.len() == i,
            forall|k: int| 0 <= k < i ==> (#[trigger] rows@[k])@ == row_view(flows@[k]),
        decreases flows@.len() - i,
    {
        rows.push(row_line(&flows[i]));
        i = i + 1;
    }
    assert(line_views(rows@) =~= rows_view(flows@));
    rows
}

/// Makes the beginning of the text of a body, after its label.
pub fn text_preview(label: &str, text: &str) -> (r: Line)
    ensures
        r@ == preview_view(label@, text@),
{
    line_of_two(
        in_color(join(join("[", label).as_str(), "] "), Color::DarkGray),
        in_plain(begin(text, BODY_SHOWN)),
    )
}

/// Makes the beginning of a body, after its label.
pub fn body_preview(label: &str, body: &Vec<u8>) -> (r: Line)
    ensures
        r@ == body_preview_view(label@, body@),
        reads_utf8(body@),
{
    text_preview(label, lossy(body).as_str())
}

/// Adds a line.
fn add_line(lines: &mut Vec<Line>, line: Line)
    ensures
        line_views(final(lines)@) == line_views(old(lines)@).push(line@),
{
    lines.push(line);
    assert(line_views(lines@) =~= line_views(old(lines)@).push(line@));
}

/// Adds the lines of header fields, as many as are shown.
fn add_headers(lines: &mut Vec<Line>, headers: &Vec<(String, String)>)
    ensures
        line_views(final(lines)@) == line_views(old(lines)@) + headers_view(headers@),
{
    let shown: usize = if headers.len() <= HEADERS_SHOWN {
        headers.len()
    } else {
        HEADERS_SHOWN
    };
    let ghost before = line_views(lines@);
    let ghost all = headers_view(headers@);
    assert(all.len() == shown);
    assert(before + all.take(0) =~= before);
    let mut i: usize = 0;
    while i < shown
        invariant
            i <= shown,
            shown <= headers@.len(),
            shown <= HEADERS_SHOWN,
            shown < headers@.len() ==> shown == HEADERS_SHOWN,
            all == headers_view(headers@),
            all.len() == shown,
            line_views(lines@) == before + all.take(i as int),
        decreases shown - i,
    {
        let line = line_of_two(
            in_color(join(headers[i].0.as_str(), ": "), Color::Blue),
            in_plain(headers[i].1.clone()),
        );
        assert(line@ == all[i as int]);
        add_line(lines, line);
        assert(before + all.take(i + 1) =~= (before + all.take(i as int)).push(all[i as int]));
        i = i + 1;
    }
    assert(all.take(i as int) =~= all);
}

/// Adds the lines of a body.
fn add_body(lines: &mut Vec<Line>, label: &str, body: &Vec<u8>)
    ensures
        line_views(final(lines)@) == line_views(old(lines)@) + body_view(label@, body@),
        body@.len() > 0 ==> reads_utf8(body@),
{
    let ghost before = line_views(lines@);
    if body.len() > 0 {
        add_line(lines, empty_line());
        add_line(lines, body_preview(label, body));
    }
    assert(line_views(lines@) =~= before + body_view(label@, body@));
}

/// Makes the lines of the selected flow.
pub fn detail_widget(detail: &Option<Flow>) -> (r: Vec<Line>)
    ensures
        line_views(r@) == detail_view(*detail),
        bodies_read_utf8(*detail),
{
    let mut lines: Vec<Line> = Vec::new();
    assert(line_views(lines@) =~= Seq::<Seq<SpanView>>::empty());
    match detail {
        Some(flow) => {
            let request = &flow.request;
            let head = join(join(request.method.as_str(), " ").as_str(), request.url.as_str());
            add_line(&mut lines, line_of_one(in_bold(head, Color::Yellow)));
            add_headers(&mut lines, &request.headers);
            add_body(&mut lines, "request body", &request.body);
            assert(line_views(lines@) =~= request_view(flow.request));
            add_line(&mut lines, empty_line());
            assert(line_views(lines@) =~= request_view(flow.request) + seq![blank_line()]);
            match &flow.response {
                Some(response) => {
                    let mut head = join("← ", decimal(response.status as u64).as_str());
                    head.append(" (");
                    head.append(decimal(response.body.len() as u64).as_str());
                    head.append(" bytes)");
                    add_line(&mut lines, line_of_one(in_bold(head, Color::Green)));
                    add_headers(&mut lines, &response.headers);
                    add_body(&mut lines, "response body", &response.body);
                },
                None => {
                    let text = "(awaiting response…)".to_owned();
                    add_line(&mut lines, line_of_one(in_color(text, Color::DarkGray)));
                },
            }
            assert(line_views(lines@) =~= detail_view(*detail));
        },
        None => {
            let text = "select a flow — or start browsing through the proxy".to_owned();
            add_line(&mut lines, line_of_one(in_color(text, Color::DarkGray)));
            assert(line_views(lines@) =~= detail_view(*detail));
        },
    }
    lines
}

/// All that the screen shows.
#[derive(Debug, PartialEq)]
pub struct Screen {
    pub title: Line,
    pub rows: Vec<Line>,
    /// The place of the row that is highlighted.
    pub highlighted: Option<usize>,
    pub detail: Vec<Line>,
    pub help: Line,
}

impl Screen {
    /// It shows that state.
    pub open spec fn shows(self, app: App) -> bool {
        &&& self.title@ == title_view(app.status@)
        &&& line_views(self.rows@) == rows_view(app.flows@)
        &&& self.highlighted == app.selected
        &&& line_views(self.detail@) == detail_view(app.detail)
        &&& self.help@ == help_view()
    }
}

/// Makes what the screen shows of a state.
pub fn draw(app: &App) -> (r: Screen)
    ensures
        r.shows(*app),
        bodies_read_utf8(app.detail),
{
    Screen {
        title: title_line(app.status.as_str()),
        rows: row_lines(&app.flows),
        highlighted: app.selected,
        detail: detail_widget(&app.detail),
        help: help_line(),
    }
}

} // verus!
