//! Laws on what the terminal UI shows.

use vstd::prelude::*;
use vstd::utf8::*;

use crate::model::{Flow, FlowSummary};
use crate::screen::{
    body_preview, detail_view, detail_widget, draw, headers_view, help_line, highlight, line_views,
    request_view, response_view, row_line, row_lines, row_view, rows_view, text_preview, title_line,
    Color, Line, Screen, Style, BODY_ROWS, DETAIL_PERCENT, DETAIL_TITLE, HELP_ROWS,
    HIGHLIGHT_SYMBOL, LIST_PERCENT, LIST_TITLE, TITLE_ROWS,
};
use crate::text::{decimal_text, lossy_text};
use crate::tui::App;

verus! {

/// What the view of a line tells of its pieces.
proof fn lemma_pieces(line: Line)
    ensures
        line@.len() == line.spans@.len(),
        forall|i: int|
            0 <= i < line.spans@.len() ==> line@[i].text == (#[trigger] line.spans@[i]).text@
                && line@[i].style == line.spans@[i].style,
{
}

/// What the views of lines tell of the lines.
proof fn lemma_lines(lines: Seq<Line>)
    ensures
        line_views(lines).len() == lines.len(),
        forall|i: int| 0 <= i < lines.len() ==> line_views(lines)[i] == (#[trigger] lines[i])@,
        forall|i: int|
            0 <= i < lines.len() ==> line_views(lines)[i].len() == (#[trigger] lines[i]).spans@.len(),
        forall|i: int, k: int|
            0 <= i < lines.len() && 0 <= k < lines[i].spans@.len() ==> line_views(lines)[i][k].text == (
            #[trigger] lines[i].spans@[k]).text@ && line_views(lines)[i][k].style
                == lines[i].spans@[k].style,
{
}

/// The row of a flow has three pieces: the status, the method, and host and path, whole. Status
/// and method are followed by a space, after the padding that takes them to three and to five
/// characters.
pub proof fn law_row(flow: &FlowSummary, r: Line)
    requires
        call_ensures(row_line, (flow,), r),
    ensures
        r.spans@.len() == 3,
        ({
            let shown = match flow.status {
                Some(status) => decimal_text(status as nat),
                None => "···"@,
            };
            let text = r.spans@[0].text@;
            &&& text.len() == 1 + if shown.len() < 3 {
                3
            } else {
                shown.len() as int
            }
            &&& text.last() == ' '
            &&& text.drop_last().skip(text.len() - 1 - shown.len()) == shown
            &&& forall|i: int| 0 <= i < text.len() - 1 - shown.len() ==> #[trigger] text[i] == ' '
        }),
        ({
            let text = r.spans@[1].text@;
            &&& text.len() == 1 + if flow.method@.len() < 5 {
                5
            } else {
                flow.method@.len() as int
            }
            &&& text.take(flow.method@.len() as int) == flow.method@
            &&& forall|i: int| flow.method@.len() <= i < text.len() ==> #[trigger] text[i] == ' '
        }),
        r.spans@[2].text@ == flow.host@ + flow.path@,
{
    lemma_pieces(r);
    reveal_strlit(" ");
    reveal_strlit("···");
    let shown = match flow.status {
        Some(status) => decimal_text(status as nat),
        None => "···"@,
    };
    let text = r.spans@[0].text@;
    assert(text == row_view(*flow)[0].text);
    assert(text.drop_last().skip(text.len() - 1 - shown.len()) =~= shown);
    assert(r.spans@[1].text@ == row_view(*flow)[1].text);
    assert(r.spans@[1].text@.take(flow.method@.len() as int) =~= flow.method@);
    assert(r.spans@[2].text@ == row_view(*flow)[2].text);
}

/// The status stands in green below 300, then in cyan below 400, in yellow below 500 and in red
/// from there on, and in gray while the response is awaited; the method stands in magenta, host
/// and path in the terminal's own color, and nothing is bold.
pub proof fn law_row_colors(flow: &FlowSummary, r: Line)
    requires
        call_ensures(row_line, (flow,), r),
    ensures
        r.spans@.len() == 3,
        r.spans@[0].style.fg == Some(
            match flow.status {
                None => Color::DarkGray,
                Some(status) => if status >= 500 {
                    Color::Red
                } else if status >= 400 {
                    Color::Yellow
                } else if status >= 300 {
                    Color::Cyan
                } else {
                    Color::Green
                },
            },
        ),
        r.spans@[1].style.fg == Some(Color::Magenta),
        r.spans@[2].style.fg is None,
        forall|i: int|
            0 <= i < 3 ==> (#[trigger] r.spans@[i]).style.bg is None && !r.spans@[i].style.bold,
{
    lemma_pieces(r);
    assert(r.spans@[0].style == row_view(*flow)[0].style);
    assert(r.spans@[1].style == row_view(*flow)[1].style);
    assert(r.spans@[2].style == row_view(*flow)[2].style);
}

/// The list has one row to each flow, in the order of the flows, and each row is the row of its
/// flow.
pub proof fn law_rows(flows: &Vec<FlowSummary>, r: Vec<Line>, i: int, row: Line)
    requires
        call_ensures(row_lines, (flows,), r),
        0 <= i < flows@.len(),
        call_ensures(row_line, (&flows@[i],), row),
    ensures
        r@.len() == flows@.len(),
        r@[i].spans@.len() == row.spans@.len(),
        forall|k: int|
            0 <= k < row.spans@.len() ==> (#[trigger] r@[i].spans@[k]).text@ == row.spans@[k].text@
                && r@[i].spans@[k].style == row.spans@[k].style,
{
    lemma_lines(r@);
    lemma_pieces(row);
    assert(rows_view(flows@)[i] == row_view(flows@[i]));
}

/// An empty list has no rows.
pub proof fn law_no_rows(flows: &Vec<FlowSummary>, r: Vec<Line>)
    requires
        call_ensures(row_lines, (flows,), r),
    ensures
        r@.len() == flows@.len(),
{
    lemma_lines(r@);
}

/// The preview of a text is its label in brackets, in gray, and the first two thousand
/// characters of the text, or all where there are fewer, in the terminal's own color.
pub proof fn law_text_preview(label: &str, text: &str, r: Line)
    requires
        call_ensures(text_preview, (label, text), r),
    ensures
        r.spans@.len() == 2,
        r.spans@[0].text@ == "["@ + label@ + "] "@,
        r.spans@[0].style == (Style { fg: Some(Color::DarkGray), bg: None, bold: false }),
        r.spans@[1].style == (Style { fg: None, bg: None, bold: false }),
        r.spans@[1].text@.len() == if text@.len() < 2000 {
            text@.len() as int
        } else {
            2000
        },
        forall|i: int|
            0 <= i < r.spans@[1].text@.len() ==> #[trigger] r.spans@[1].text@[i] == text@[i],
{
    lemma_pieces(r);
    assert(r.spans@[0].text@ == r@[0].text);
    assert(r.spans@[1].text@ == r@[1].text);
}

/// The preview of a body is that of the text that it stands for, and of the text that it encodes
/// where it is UTF-8.
pub proof fn law_body_preview(label: &str, body: &Vec<u8>, r: Line)
    requires
        call_ensures(body_preview, (label, body), r),
    ensures
        r.spans@.len() == 2,
        r.spans@[0].text@ == "["@ + label@ + "] "@,
        r.spans@[1].text@.len() == if lossy_text(body@).len() < 2000 {
            lossy_text(body@).len() as int
        } else {
            2000
        },
        forall|i: int|
            0 <= i < r.spans@[1].text@.len() ==> #[trigger] r.spans@[1].text@[i] == lossy_text(
                body@,
            )[i],
        valid_utf8(body@) ==> forall|i: int|
            0 <= i < r.spans@[1].text@.len() ==> #[trigger] r.spans@[1].text@[i] == decode_utf8(
                body@,
            )[i],
{
    lemma_pieces(r);
    assert(r.spans@[0].text@ == r@[0].text);
    assert(r.spans@[1].text@ == r@[1].text);
}

/// Without a flow the detail pane is one line, which tells what to do.
pub proof fn law_detail_of_nothing(r: Vec<Line>)
    requires
        call_ensures(detail_widget, (&None::<Flow>,), r),
    ensures
        r@.len() == 1,
        r@[0].spans@.len() == 1,
        r@[0].spans@[0].text@ == "select a flow — or start browsing through the proxy"@,
        r@[0].spans@[0].style == (Style { fg: Some(Color::DarkGray), bg: None, bold: false }),
{
    lemma_lines(r@);
    assert(line_views(r@)[0] == detail_view(None)[0]);
    assert(r@[0].spans@[0].text@ == line_views(r@)[0][0].text);
}

/// The lines of the pane: how many there are, and where the request ends.
proof fn lemma_detail(flow: Flow, r: Vec<Line>)
    requires
        call_ensures(detail_widget, (&Some(flow),), r),
    ensures
        ({
            let request = request_view(flow.request);
            let response = response_view(flow.response);
            &&& line_views(r@).len() == r@.len()
            &&& r@.len() == request.len() + 1 + response.len()
            &&& forall|i: int| 0 <= i < request.len() ==> line_views(r@)[i] == request[i]
            &&& line_views(r@)[request.len() as int].len() == 0
            &&& forall|i: int|
                0 <= i < response.len() ==> #[trigger] line_views(r@)[request.len() + 1 + i]
                    == response[i]
        }),
{
    lemma_lines(r@);
    let view = detail_view(Some(flow));
    assert(line_views(r@) == view);
}

/// The pane of a flow begins with the method and the address of the request, bold in yellow.
pub proof fn law_detail_request_line(flow: Flow, r: Vec<Line>)
    requires
        call_ensures(detail_widget, (&Some(flow),), r),
    ensures
        r@.len() > 0,
        r@[0].spans@.len() == 1,
        r@[0].spans@[0].text@ == flow.request.method@ + " "@ + flow.request.url@,
        r@[0].spans@[0].style == (Style { fg: Some(Color::Yellow), bg: None, bold: true }),
{
    lemma_detail(flow, r);
    lemma_lines(r@);
    assert(line_views(r@)[0] == request_view(flow.request)[0]);
    assert(r@[0].spans@[0].text@ == line_views(r@)[0][0].text);
}

/// Right after that come the first twenty header fields of the request, or all where there are
/// fewer, one line to a field, in order, each of the name with a colon, in blue, and of the value.
pub proof fn law_detail_request_headers(flow: Flow, r: Vec<Line>, i: int)
    requires
        call_ensures(detail_widget, (&Some(flow),), r),
        0 <= i < 20,
        i < flow.request.headers@.len(),
    ensures
        1 + i < r@.len(),
        r@[1 + i].spans@.len() == 2,
        r@[1 + i].spans@[0].text@ == flow.request.headers@[i].0@ + ": "@,
        r@[1 + i].spans@[1].text@ == flow.request.headers@[i].1@,
        r@[1 + i].spans@[0].style == (Style { fg: Some(Color::Blue), bg: None, bold: false }),
        r@[1 + i].spans@[1].style == (Style { fg: None, bg: None, bold: false }),
{
    lemma_detail(flow, r);
    lemma_lines(r@);
    assert(request_view(flow.request)[1 + i] == headers_view(flow.request.headers@)[i]);
    assert(line_views(r@)[1 + i] == request_view(flow.request)[1 + i]);
    assert(r@[1 + i].spans@[0].text@ == line_views(r@)[1 + i][0].text);
    assert(r@[1 + i].spans@[1].text@ == line_views(r@)[1 + i][1].text);
}

/// After the shown header fields of the request comes its body, where it is not empty: an empty
/// line and the preview under the label `request body`. Then comes an empty line, and then the
/// response.
pub proof fn law_detail_request_body(flow: Flow, r: Vec<Line>, label: &str, preview: Line, shown: int)
    requires
        call_ensures(detail_widget, (&Some(flow),), r),
        label@ == "request body"@,
        call_ensures(body_preview, (label, &flow.request.body), preview),
        shown == if flow.request.headers@.len() < 20 {
            flow.request.headers@.len() as int
        } else {
            20
        },
    ensures
        flow.request.body@.len() == 0 ==> {
            &&& r@.len() > shown + 2
            &&& r@[1 + shown].spans@.len() == 0
        },
        flow.request.body@.len() > 0 ==> {
            &&& r@.len() > shown + 4
            &&& r@[1 + shown].spans@.len() == 0
            &&& r@[2 + shown].spans@.len() == 2
            &&& r@[2 + shown].spans@[0].text@ == preview.spans@[0].text@
            &&& r@[2 + shown].spans@[1].text@ == preview.spans@[1].text@
            &&& r@[2 + shown].spans@[0].style == preview.spans@[0].style
            &&& r@[2 + shown].spans@[1].style == preview.spans@[1].style
            &&& r@[3 + shown].spans@.len() == 0
        },
{
    lemma_detail(flow, r);
    lemma_lines(r@);
    lemma_pieces(preview);
    let request = request_view(flow.request);
    assert(headers_view(flow.request.headers@).len() == shown);
    if flow.request.body@.len() > 0 {
        assert(request.len() == shown + 3);
        assert(line_views(r@)[1 + shown] == request[1 + shown]);
        assert(line_views(r@)[2 + shown] == request[2 + shown]);
        assert(request[2 + shown] == preview@);
        assert(preview.spans@.len() == 2);
        assert(r@[2 + shown].spans@[0].text@ == line_views(r@)[2 + shown][0].text);
        assert(r@[2 + shown].spans@[1].text@ == line_views(r@)[2 + shown][1].text);
        assert(preview.spans@[0].text@ == preview@[0].text);
        assert(preview.spans@[1].text@ == preview@[1].text);
    } else {
        assert(request.len() == shown + 1);
    }
}

/// While the response is awaited, a line in gray that says so stands where it would, and ends the
/// pane.
pub proof fn law_detail_awaits_response(flow: Flow, r: Vec<Line>)
    requires
        call_ensures(detail_widget, (&Some(flow),), r),
        flow.response is None,
    ensures
        r@.len() == 3 + (if flow.request.headers@.len() < 20 {
            flow.request.headers@.len() as int
        } else {
            20
        }) + if flow.request.body@.len() > 0 {
            2int
        } else {
            0
        },
        r@.last().spans@.len() == 1,
        r@.last().spans@[0].text@ == "(awaiting response…)"@,
        r@.last().spans@[0].style == (Style { fg: Some(Color::DarkGray), bg: None, bold: false }),
{
    lemma_detail(flow, r);
    lemma_lines(r@);
    let request = request_view(flow.request);
    let at = request.len() as int + 1;
    assert(line_views(r@)[at + 0] == response_view(flow.response)[0]);
    assert(r@[at].spans@[0].text@ == line_views(r@)[at][0].text);
}

/// The pane of a flow with a response: after the request and an empty line comes a line, bold in
/// green, of the status and of the number of bytes of the body. After it stands, whatever the
/// body, one line to each of the first twenty header fields of the response, or to all where
/// there are fewer, and two lines more exactly where the body is not empty; there the pane ends.
pub proof fn law_detail_response(flow: Flow, r: Vec<Line>, at: int, shown: int)
    requires
        call_ensures(detail_widget, (&Some(flow),), r),
        flow.response is Some,
        at == 2 + (if flow.request.headers@.len() < 20 {
            flow.request.headers@.len() as int
        } else {
            20
        }) + if flow.request.body@.len() > 0 {
            2int
        } else {
            0
        },
        shown == if flow.response->Some_0.headers@.len() < 20 {
            flow.response->Some_0.headers@.len() as int
        } else {
            20
        },
    ensures
        r@.len() == at + 1 + shown + if flow.response->Some_0.body@.len() > 0 {
            2int
        } else {
            0
        },
        r@[at - 1].spans@.len() == 0,
        r@[at].spans@.len() == 1,
        r@[at].spans@[0].text@ == "← "@ + decimal_text(flow.response->Some_0.status as nat) + " ("@
            + decimal_text(flow.response->Some_0.body@.len()) + " bytes)"@,
        r@[at].spans@[0].style == (Style { fg: Some(Color::Green), bg: None, bold: true }),
        forall|i: int|
            #![trigger flow.response->Some_0.headers@[i]]
            0 <= i < shown ==> {
                let line = r@[at + 1 + i].spans@;
                &&& line.len() == 2
                &&& line[0].text@ == flow.response->Some_0.headers@[i].0@ + ": "@
                &&& line[1].text@ == flow.response->Some_0.headers@[i].1@
                &&& line[0].style == (Style { fg: Some(Color::Blue), bg: None, bold: false })
                &&& line[1].style == (Style { fg: None, bg: None, bold: false })
            },
{
    lemma_detail(flow, r);
    lemma_lines(r@);
    let request = request_view(flow.request);
    let got = flow.response->Some_0;
    let response = response_view(flow.response);
    assert(headers_view(flow.request.headers@).len() == at - 2 - if flow.request.body@.len() > 0 {
        2int
    } else {
        0
    });
    assert(request.len() + 1 == at);
    assert(headers_view(got.headers@).len() == shown);
    assert(line_views(r@)[at + 0] == response[0]);
    assert(r@[at].spans@[0].text@ == line_views(r@)[at][0].text);
    assert forall|i: int|
        #![trigger got.headers@[i]]
        0 <= i < shown implies ({
        let line = r@[at + 1 + i].spans@;
        &&& line.len() == 2
        &&& line[0].text@ == got.headers@[i].0@ + ": "@
        &&& line[1].text@ == got.headers@[i].1@
        &&& line[0].style == (Style { fg: Some(Color::Blue), bg: None, bold: false })
        &&& line[1].style == (Style { fg: None, bg: None, bold: false })
    }) by {
        assert(response[1 + i] == headers_view(got.headers@)[i]);
        assert(line_views(r@)[at + (1 + i)] == response[1 + i]);
        let line = r@[at + 1 + i].spans@;
        assert(line[0].text@ == line_views(r@)[at + 1 + i][0].text);
        assert(line[1].text@ == line_views(r@)[at + 1 + i][1].text);
    }
}

/// The last two lines of the pane, where the body of the response is not empty, are an empty line
/// and the preview of the body under the label `response body`.
pub proof fn law_detail_response_body(flow: Flow, r: Vec<Line>, label: &str, preview: Line)
    requires
        call_ensures(detail_widget, (&Some(flow),), r),
        flow.response is Some,
        flow.response->Some_0.body@.len() > 0,
        label@ == "response body"@,
        call_ensures(body_preview, (label, &flow.response->Some_0.body), preview),
    ensures
        r@.len() > 2,
        r@[r@.len() - 2].spans@.len() == 0,
        r@.last().spans@.len() == 2,
        r@.last().spans@[0].text@ == preview.spans@[0].text@,
        r@.last().spans@[1].text@ == preview.spans@[1].text@,
        r@.last().spans@[0].style == preview.spans@[0].style,
        r@.last().spans@[1].style == preview.spans@[1].style,
{
    lemma_detail(flow, r);
    lemma_lines(r@);
    lemma_pieces(preview);
    let request = request_view(flow.request);
    let response = response_view(flow.response);
    let n = response.len() as int;
    assert(line_views(r@)[request.len() + 1 + (n - 2)] == response[n - 2]);
    assert(line_views(r@)[request.len() + 1 + (n - 1)] == response[n - 1]);
    assert(response[n - 1] == preview@);
    assert(preview.spans@.len() == 2);
    let last = r@.len() - 1;
    assert(r@[last].spans@[0].text@ == line_views(r@)[last][0].text);
    assert(r@[last].spans@[1].text@ == line_views(r@)[last][1].text);
    assert(preview.spans@[0].text@ == preview@[0].text);
    assert(preview.spans@[1].text@ == preview@[1].text);
}

/// The first line shows the badge, in black on yellow, and the status, whole, in cyan.
pub proof fn law_title(status: &str, r: Line)
    requires
        call_ensures(title_line, (status,), r),
    ensures
        r.spans@.len() == 3,
        r.spans@[0].text@ == " 🪤 Snare "@,
        r.spans@[0].style == (Style { fg: Some(Color::Black), bg: Some(Color::Yellow), bold: true }),
        r.spans@[1].text@ == "  "@,
        r.spans@[1].style == (Style { fg: None, bg: None, bold: false }),
        r.spans@[2].text@ == status@,
        r.spans@[2].style == (Style { fg: Some(Color::Cyan), bg: None, bold: false }),
{
    lemma_pieces(r);
    assert(r.spans@[0].text@ == r@[0].text);
    assert(r.spans@[1].text@ == r@[1].text);
    assert(r.spans@[2].text@ == r@[2].text);
}

/// The last line tells the keys, in gray. The selected row is bold on gray, after its symbol. List
/// and pane stand under their titles and share the whole width, between a row of title and one of
/// help.
pub proof fn law_help_and_highlight(r: Line, style: Style)
    requires
        call_ensures(help_line, (), r),
        call_ensures(highlight, (), style),
    ensures
        r.spans@.len() == 1,
        r.spans@[0].text@ == " j/k move · g/G top/bottom · r refresh · q quit "@,
        r.spans@[0].style == (Style { fg: Some(Color::DarkGray), bg: None, bold: false }),
        style == (Style { fg: None, bg: Some(Color::DarkGray), bold: true }),
        LIST_PERCENT == 42,
        LIST_PERCENT + DETAIL_PERCENT == 100,
        TITLE_ROWS == 1,
        BODY_ROWS == 0,
        HELP_ROWS == 1,
        LIST_TITLE@ == " flows "@,
        DETAIL_TITLE@ == " detail "@,
        HIGHLIGHT_SYMBOL@ == "▶ "@,
{
    lemma_pieces(r);
    assert(r.spans@[0].text@ == r@[0].text);
}

/// The screen shows the status of the state, a row to each of its flows, the selection as it is,
/// the pane of the flow that is loaded, and the keys.
pub proof fn law_draw(
    app: &App,
    r: Screen,
    status: &str,
    title: Line,
    rows: Vec<Line>,
    detail: Vec<Line>,
    help: Line,
)
    requires
        call_ensures(draw, (app,), r),
        status@ == app.status@,
        call_ensures(title_line, (status,), title),
        call_ensures(row_lines, (&app.flows,), rows),
        call_ensures(detail_widget, (&app.detail,), detail),
        call_ensures(help_line, (), help),
    ensures
        r.highlighted == app.selected,
        r.title.spans@.len() == title.spans@.len(),
        forall|k: int|
            0 <= k < title.spans@.len() ==> (#[trigger] r.title.spans@[k]).text@
                == title.spans@[k].text@ && r.title.spans@[k].style == title.spans@[k].style,
        r.help.spans@.len() == help.spans@.len(),
        forall|k: int|
            0 <= k < help.spans@.len() ==> (#[trigger] r.help.spans@[k]).text@
                == help.spans@[k].text@ && r.help.spans@[k].style == help.spans@[k].style,
        r.rows@.len() == rows@.len(),
        forall|i: int|
            0 <= i < rows@.len() ==> (#[trigger] r.rows@[i]).spans@.len() == rows@[i].spans@.len(),
        forall|i: int, k: int|
            0 <= i < rows@.len() && 0 <= k < rows@[i].spans@.len() ==> (
            #[trigger] r.rows@[i].spans@[k]).text@ == rows@[i].spans@[k].text@
                && r.rows@[i].spans@[k].style == rows@[i].spans@[k].style,
        r.detail@.len() == detail@.len(),
        forall|i: int|
            0 <= i < detail@.len() ==> (#[trigger] r.detail@[i]).spans@.len()
                == detail@[i].spans@.len(),
        forall|i: int, k: int|
            0 <= i < detail@.len() && 0 <= k < detail@[i].spans@.len() ==> (
            #[trigger] r.detail@[i].spans@[k]).text@ == detail@[i].spans@[k].text@
                && r.detail@[i].spans@[k].style == detail@[i].spans@[k].style,
{
    lemma_pieces(title);
    lemma_pieces(r.title);
    lemma_pieces(help);
    lemma_pieces(r.help);
    lemma_lines(rows@);
    lemma_lines(r.rows@);
    lemma_lines(detail@);
    lemma_lines(r.detail@);
    lemma_same_lines(r.rows@, rows@);
    lemma_same_lines(r.detail@, detail@);
}

/// Lines of the same views have the same pieces.
proof fn lemma_same_lines(a: Seq<Line>, b: Seq<Line>)
    requires
        line_views(a) == line_views(b),
    ensures
        a.len() == b.len(),
        forall|i: int| 0 <= i < b.len() ==> (#[trigger] a[i]).spans@.len() == b[i].spans@.len(),
        forall|i: int, k: int|
            0 <= i < b.len() && 0 <= k < b[i].spans@.len() ==> (#[trigger] a[i].spans@[k]).text@
                == b[i].spans@[k].text@ && a[i].spans@[k].style == b[i].spans@[k].style,
{
    lemma_lines(a);
    lemma_lines(b);
    assert forall|i: int| 0 <= i < b.len() implies (#[trigger] a[i]).spans@.len()
        == b[i].spans@.len() by {
        assert(line_views(b)[i] == b[i]@);
    }
    assert forall|i: int, k: int| 0 <= i < b.len() && 0 <= k < b[i].spans@.len() implies (
    #[trigger] a[i].spans@[k]).text@ == b[i].spans@[k].text@ && a[i].spans@[k].style
        == b[i].spans@[k].style by {
        assert(a[i].spans@.len() == b[i].spans@.len());
        assert(line_views(b)[i][k].text == b[i].spans@[k].text@);
    }
}

/// Nothing is asked of a caller: every state and every flow can be shown.
pub proof fn law_everything_can_be_shown(
    app: &App,
    flow: &FlowSummary,
    flows: &Vec<FlowSummary>,
    detail: &Option<Flow>,
    label: &str,
    body: &Vec<u8>,
)
    ensures
        call_requires(draw, (app,)),
        call_requires(row_line, (flow,)),
        call_requires(row_lines, (flows,)),
        call_requires(detail_widget, (detail,)),
        call_requires(body_preview, (label, body)),
        call_requires(text_preview, (label, label)),
        call_requires(title_line, (label,)),
{
}

} // verus!
