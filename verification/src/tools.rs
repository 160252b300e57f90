//! The tools that the server offers to agents: what they are, what a call of one asks the store
//! of flows, and the result that comes of its answer.

use vstd::prelude::*;

use crate::json::{
    compact_text, integer_of, lemma_fits_deeper, member_of, pretty_text, spells, string_of, tree_of_option, Elements,
    Fields, Json, JsonTree, MAX_DEPTH,
};
use crate::model::{text_of, Flow, FlowQuery, FlowQueryView, FlowRequest, FlowResponse, FlowSummary};
use crate::text::{integer, integer_text, lossy, lossy_text, reads_utf8, same};

verus! {

/// How many flows are listed where the caller does not say.
pub const DEFAULT_LIMIT: i64 = 50;

/// An object of the tree.
pub open spec fn object(fields: Map<Seq<char>, JsonTree>) -> JsonTree {
    JsonTree::Object(fields)
}

/// A string of the tree.
pub open spec fn string(text: Seq<char>) -> JsonTree {
    JsonTree::Str(text)
}

/// The schema of a value of that type.
pub open spec fn type_tree(kind: Seq<char>) -> JsonTree {
    object(map!["type"@ => string(kind)])
}

/// The schema of a described value of that type.
pub open spec fn property_tree(kind: Seq<char>, description: Seq<char>) -> JsonTree {
    object(map!["type"@ => string(kind), "description"@ => string(description)])
}

/// The entry of one tool.
pub open spec fn tool_tree(name: Seq<char>, description: Seq<char>, schema: JsonTree) -> JsonTree {
    object(
        map![
            "name"@ => string(name),
            "description"@ => string(description),
            "inputSchema"@ => schema,
        ],
    )
}

/// The entry of the tool that lists flows.
pub open spec fn list_tool_tree() -> JsonTree {
    tool_tree(
        "proxy_list_flows"@,
        "List captured HTTP flows (newest first). Optional case-insensitive substring search over method/host/path."@,
        object(
            map![
                "type"@ => string("object"@),
                "properties"@ => object(map![
                    "search"@ => property_tree("string"@, "substring filter"@),
                    "limit"@ => property_tree("integer"@, "max rows (default 50)"@),
                ]),
            ],
        ),
    )
}

/// The entry of the tool that fetches one flow.
pub open spec fn get_tool_tree() -> JsonTree {
    tool_tree(
        "proxy_get_flow"@,
        "Fetch one full flow (request + response) by id. `part` = request|response|all (default all)."@,
        object(
            map![
                "type"@ => string("object"@),
                "properties"@ => object(map![
                    "id"@ => type_tree("integer"@),
                    "part"@ => object(map![
                        "type"@ => string("string"@),
                        "enum"@ => JsonTree::Array(
                            seq![string("request"@), string("response"@), string("all"@)],
                        ),
                    ]),
                ]),
                "required"@ => JsonTree::Array(seq![string("id"@)]),
            ],
        ),
    )
}

/// The entry of the tool that counts flows.
pub open spec fn stats_tool_tree() -> JsonTree {
    tool_tree(
        "proxy_stats"@,
        "Total number of flows captured."@,
        object(
            map![
                "type"@ => string("object"@),
                "properties"@ => object(map![]),
            ],
        ),
    )
}

/// The tools that the server offers.
pub open spec fn tools() -> Seq<JsonTree> {
    seq![list_tool_tree(), get_tool_tree(), stats_tool_tree()]
}

/// The result of a tool: one piece of text.
pub open spec fn text_result_tree(text: Seq<char>) -> JsonTree {
    object(
        map![
            "content"@ => JsonTree::Array(
                seq![object(map!["type"@ => string("text"@), "text"@ => string(text)])],
            ),
        ],
    )
}

fn type_schema(kind: &str) -> (r: Json)
    ensures
        r@ == type_tree(kind@),
{
    Fields::new().with("type", Json::text(kind)).into_json()
}

fn property(kind: &str, description: &str) -> (r: Json)
    ensures
        r@ == property_tree(kind@, description@),
{
    Fields::new().with("type", Json::text(kind)).with(
        "description",
        Json::text(description),
    ).into_json()
}

fn tool(name: &str, description: &str, schema: Json) -> (r: Json)
    ensures
        r@ == tool_tree(name@, description@, schema@),
{
    Fields::new().with("name", Json::text(name)).with("description", Json::text(description)).with(
        "inputSchema",
        schema,
    ).into_json()
}

fn list_tool() -> (r: Json)
    ensures
        r@ == list_tool_tree(),
{
    let properties = Fields::new().with("search", property("string", "substring filter")).with(
        "limit",
        property("integer", "max rows (default 50)"),
    ).into_json();
    tool(
        "proxy_list_flows",
        "List captured HTTP flows (newest first). Optional case-insensitive substring search over method/host/path.",
        Fields::new().with("type", Json::text("object")).with("properties", properties).into_json(),
    )
}

fn get_tool() -> (r: Json)
    ensures
        r@ == get_tool_tree(),
{
    let parts = Elements::new().with(Json::text("request")).with(Json::text("response")).with(
        Json::text("all"),
    ).into_json();
    let properties = Fields::new().with("id", type_schema("integer")).with(
        "part",
        Fields::new().with("type", Json::text("string")).with("enum", parts).into_json(),
    ).into_json();
    let required = Elements::new().with(Json::text("id")).into_json();
    assert(parts@->Array_0 =~= seq![string("request"@), string("response"@), string("all"@)]);
    assert(required@->Array_0 =~= seq![string("id"@)]);
    tool(
        "proxy_get_flow",
        "Fetch one full flow (request + response) by id. `part` = request|response|all (default all).",
        Fields::new().with("type", Json::text("object")).with("properties", properties).with(
            "required",
            required,
        ).into_json(),
    )
}

fn stats_tool() -> (r: Json)
    ensures
        r@ == stats_tool_tree(),
{
    tool(
        "proxy_stats",
        "Total number of flows captured.",
        Fields::new().with("type", Json::text("object")).with(
            "properties",
            Fields::new().into_json(),
        ).into_json(),
    )
}

/// Lists the tools that the server offers.
pub fn tool_specs() -> (r: Json)
    ensures
        r@ == JsonTree::Array(tools()),
{
    let r = Elements::new().with(list_tool()).with(get_tool()).with(stats_tool()).into_json();
    assert(r@->Array_0 =~= tools());
    r
}

pub(crate) proof fn lemma_tools_fit()
    ensures
        JsonTree::Array(tools()).fits(6),
{
    reveal_with_fuel(JsonTree::fits, 2);
    let search = property_tree("string"@, "substring filter"@);
    let limit = property_tree("integer"@, "max rows (default 50)"@);
    assert(search.fits(2) && limit.fits(2));
    let list_properties = object(map!["search"@ => search, "limit"@ => limit]);
    assert(list_properties.fits(3));
    let list_schema = object(
        map!["type"@ => string("object"@), "properties"@ => list_properties],
    );
    assert(list_schema.fits(4));
    assert(list_tool_tree().fits(5));

    let id = type_tree("integer"@);
    let choices = JsonTree::Array(seq![string("request"@), string("response"@), string("all"@)]);
    assert(id.fits(2) && choices.fits(1));
    let part = object(map!["type"@ => string("string"@), "enum"@ => choices]);
    assert(part.fits(2));
    let get_properties = object(map!["id"@ => id, "part"@ => part]);
    assert(get_properties.fits(3));
    let required = JsonTree::Array(seq![string("id"@)]);
    assert(required.fits(3));
    let get_schema = object(
        map![
            "type"@ => string("object"@),
            "properties"@ => get_properties,
            "required"@ => required,
        ],
    );
    assert(get_schema.fits(4));
    assert(get_tool_tree().fits(5));

    let stats_properties = object(map![]);
    assert(stats_properties.fits(3));
    let stats_schema = object(
        map!["type"@ => string("object"@), "properties"@ => stats_properties],
    );
    assert(stats_schema.fits(4));
    assert(stats_tool_tree().fits(5));
}

/// Wraps a text as the result of a tool.
pub fn text_result(text: String) -> (r: Json)
    ensures
        r@ == text_result_tree(text@),
{
    let piece = Fields::new().with("type", Json::text("text")).with(
        "text",
        Json::Str(text),
    ).into_json();
    let content = Elements::new().with(piece).into_json();
    assert(content@->Array_0 =~= seq![piece@]);
    Fields::new().with("content", content).into_json()
}

/// A question to the store of flows.
#[derive(Debug, PartialEq)]
pub enum Lookup {
    /// How many flows there are.
    Count,
    /// The flows that the query selects.
    List(FlowQuery),
    /// The flow of that id, of which the caller wants that part.
    Get { id: i64, part: String },
}

/// The content of a question.
pub enum LookupView {
    Count,
    List(FlowQueryView),
    Get { id: i64, part: Seq<char> },
}

impl View for Lookup {
    type V = LookupView;

    open spec fn view(&self) -> LookupView {
        match *self {
            Lookup::Count => LookupView::Count,
            Lookup::List(query) => LookupView::List(query@),
            Lookup::Get { id, part } => LookupView::Get { id, part: part@ },
        }
    }
}

/// What becomes of a call.
#[derive(Debug, PartialEq)]
pub enum Plan {
    /// It is answered at once.
    Answer(Json),
    /// It fails, for that reason.
    Refuse(String),
    /// The answer depends on the store.
    Ask(Lookup),
}

/// The content of a plan.
pub enum PlanView {
    Answer(JsonTree),
    Refuse(Seq<char>),
    Ask(LookupView),
}

impl View for Plan {
    type V = PlanView;

    open spec fn view(&self) -> PlanView {
        match *self {
            Plan::Answer(json) => PlanView::Answer(json@),
            Plan::Refuse(message) => PlanView::Refuse(message@),
            Plan::Ask(lookup) => PlanView::Ask(lookup@),
        }
    }
}

/// The text, or another where there is none.
pub open spec fn text_or(text: Option<Seq<char>>, other: Seq<char>) -> Seq<char> {
    match text {
        Some(text) => text,
        None => other,
    }
}

/// The name of the tool that is called; empty where none is given.
pub open spec fn called_tool(params: Option<JsonTree>) -> Seq<char> {
    text_or(string_of(member_of(params, "name"@)), ""@)
}

/// The query that arguments make.
pub open spec fn query_of(args: Option<JsonTree>) -> FlowQueryView {
    FlowQueryView {
        search: string_of(member_of(args, "search"@)),
        host: None,
        limit: match integer_of(member_of(args, "limit"@)) {
            Some(limit) => limit,
            None => DEFAULT_LIMIT,
        },
        offset: 0,
    }
}

/// The plan for fetching one flow.
pub open spec fn get_plan(args: Option<JsonTree>) -> PlanView {
    match integer_of(member_of(args, "id"@)) {
        Some(id) => PlanView::Ask(
            LookupView::Get { id, part: text_or(string_of(member_of(args, "part"@)), "all"@) },
        ),
        None => PlanView::Refuse("missing `id`"@),
    }
}

/// The plan for the call of a tool.
pub open spec fn call_plan(params: Option<JsonTree>) -> PlanView {
    let name = called_tool(params);
    let args = member_of(params, "arguments"@);
    if name == "proxy_stats"@ {
        PlanView::Ask(LookupView::Count)
    } else if name == "proxy_list_flows"@ {
        PlanView::Ask(LookupView::List(query_of(args)))
    } else if name == "proxy_get_flow"@ {
        get_plan(args)
    } else {
        PlanView::Refuse("unknown tool: "@ + name)
    }
}

/// The member of an optional document.
fn member<'a>(json: Option<&'a Json>, name: &str) -> (r: Option<&'a Json>)
    ensures
        tree_of_option(r) == member_of(tree_of_option(json), name@),
{
    match json {
        Some(json) => json.get(name),
        None => None,
    }
}

/// The text of a member that is a string.
fn string_member(json: Option<&Json>, name: &str) -> (r: Option<String>)
    ensures
        text_of(r) == string_of(member_of(tree_of_option(json), name@)),
{
    match member(json, name) {
        Some(json) => match json.as_str() {
            Some(s) => Some(s.to_owned()),
            None => None,
        },
        None => None,
    }
}

/// The value of a member that is an integer.
fn integer_member(json: Option<&Json>, name: &str) -> (r: Option<i64>)
    ensures
        r == integer_of(member_of(tree_of_option(json), name@)),
{
    match member(json, name) {
        Some(json) => json.as_i64(),
        None => None,
    }
}

/// The text of a member that is a string, or another text.
fn string_member_or(json: Option<&Json>, name: &str, other: &str) -> (r: String)
    ensures
        r@ == text_or(string_of(member_of(tree_of_option(json), name@)), other@),
{
    match string_member(json, name) {
        Some(s) => s,
        None => other.to_owned(),
    }
}

/// Decides what the call of a tool comes to.
pub fn tools_call(params: Option<&Json>) -> (r: Plan)
    ensures
        r@ == call_plan(tree_of_option(params)),
{
    let name = string_member_or(params, "name", "");
    let args = member(params, "arguments");
    if same(name.as_str(), "proxy_stats") {
        Plan::Ask(Lookup::Count)
    } else if same(name.as_str(), "proxy_list_flows") {
        Plan::Ask(
            Lookup::List(
                FlowQuery {
                    search: string_member(args, "search"),
                    host: None,
                    limit: match integer_member(args, "limit") {
                        Some(limit) => limit,
                        None => DEFAULT_LIMIT,
                    },
                    offset: 0,
                },
            ),
        )
    } else if same(name.as_str(), "proxy_get_flow") {
        match integer_member(args, "id") {
            Some(id) => Plan::Ask(
                Lookup::Get { id, part: string_member_or(args, "part", "all") },
            ),
            None => Plan::Refuse("missing `id`".to_owned()),
        }
    } else {
        let mut message = "unknown tool: ".to_owned();
        message.append(name.as_str());
        Plan::Refuse(message)
    }
}

/// An optional integer: null where there is none.
pub open spec fn optional_int(n: Option<int>) -> JsonTree {
    match n {
        Some(n) => JsonTree::Int(n),
        None => JsonTree::Null,
    }
}

/// An optional string: null where there is none.
pub open spec fn optional_string(s: Option<Seq<char>>) -> JsonTree {
    match s {
        Some(s) => string(s),
        None => JsonTree::Null,
    }
}

/// The integer that an optional status is.
pub open spec fn status_int(status: Option<u16>) -> Option<int> {
    match status {
        Some(status) => Some(status as int),
        None => None,
    }
}

/// The integer that an optional number is.
pub open spec fn number_int(n: Option<i64>) -> Option<int> {
    match n {
        Some(n) => Some(n as int),
        None => None,
    }
}

/// The count of flows as a document.
pub open spec fn stats_tree(count: i64) -> JsonTree {
    object(map!["flows"@ => JsonTree::Int(count as int)])
}

/// One flow of a list as a document.
pub open spec fn row_tree(flow: FlowSummary) -> JsonTree {
    object(
        map![
            "id"@ => JsonTree::Int(flow.id as int),
            "method"@ => string(flow.method@),
            "url"@ => string(flow.url_text()),
            "status"@ => optional_int(status_int(flow.status)),
            "mime"@ => optional_string(text_of(flow.mime)),
            "size"@ => optional_int(number_int(flow.resp_size)),
            "ms"@ => optional_int(number_int(flow.duration_ms)),
        ],
    )
}

/// A list of flows as a document.
pub open spec fn rows_tree(flows: Seq<FlowSummary>) -> JsonTree {
    JsonTree::Array(flows.map_values(|flow: FlowSummary| row_tree(flow)))
}

/// One header field as a document: its name and its value.
pub open spec fn header_tree(header: (String, String)) -> JsonTree {
    JsonTree::Array(seq![string(header.0@), string(header.1@)])
}

/// Header fields as a document.
pub open spec fn headers_tree(headers: Seq<(String, String)>) -> JsonTree {
    JsonTree::Array(headers.map_values(|header: (String, String)| header_tree(header)))
}

/// A request as a document.
pub open spec fn request_tree(request: FlowRequest) -> JsonTree {
    object(
        map![
            "method"@ => string(request.method@),
            "url"@ => string(request.url@),
            "http_version"@ => string(request.http_version@),
            "headers"@ => headers_tree(request.headers@),
            "body"@ => string(lossy_text(request.body@)),
        ],
    )
}

/// A response as a document.
pub open spec fn response_tree(response: FlowResponse) -> JsonTree {
    object(
        map![
            "status"@ => JsonTree::Int(response.status as int),
            "headers"@ => headers_tree(response.headers@),
            "body"@ => string(lossy_text(response.body@)),
        ],
    )
}

/// The caller wants the request.
pub open spec fn wants_request(part: Seq<char>) -> bool {
    part == "request"@ || part == "all"@
}

/// The caller wants the response.
pub open spec fn wants_response(part: Seq<char>) -> bool {
    part == "response"@ || part == "all"@
}

/// The wanted part of a flow as a document.
pub open spec fn flow_tree(flow: Flow, part: Seq<char>) -> JsonTree {
    let head = map!["id"@ => JsonTree::Int(flow.id as int)];
    let with_request = if wants_request(part) {
        head.insert("request"@, request_tree(flow.request))
    } else {
        head
    };
    object(
        match flow.response {
            Some(response) => if wants_response(part) {
                with_request.insert("response"@, response_tree(response))
            } else {
                with_request
            },
            None => with_request,
        },
    )
}

/// Why a flow that is not there cannot be fetched.
pub open spec fn not_found_text(id: i64) -> Seq<char> {
    "flow "@ + integer_text(id as int) + " not found"@
}

/// An optional integer as a document.
fn int_or_null(n: Option<i64>) -> (r: Json)
    ensures
        r@ == optional_int(number_int(n)),
{
    match n {
        Some(n) => Json::integer(n),
        None => Json::Null,
    }
}

/// Makes the result of counting the flows. Its text spells the count.
pub fn stats_result(count: i64) -> (r: Json)
    ensures
        r@ == text_result_tree(compact_text(stats_tree(count))),
        spells(compact_text(stats_tree(count)), stats_tree(count)),
{
    let stats = Fields::new().with("flows", Json::integer(count)).into_json();
    proof {
        reveal_with_fuel(JsonTree::fits, 2);
        assert(stats@.fits(1));
        lemma_fits_deeper(stats@, 1, MAX_DEPTH as nat);
    }
    text_result(stats.to_compact())
}

proof fn lemma_row_fits(flow: FlowSummary)
    ensures
        row_tree(flow).fits(1),
{
    reveal_with_fuel(JsonTree::fits, 2);
}

proof fn lemma_rows_fit(flows: Seq<FlowSummary>)
    ensures
        rows_tree(flows).fits(MAX_DEPTH as nat),
{
    let rows = flows.map_values(|flow: FlowSummary| row_tree(flow));
    assert forall|i: int| 0 <= i < rows.len() implies (#[trigger] rows[i]).fits(1) by {
        lemma_row_fits(flows[i]);
    }
    assert(rows_tree(flows).fits(2));
    lemma_fits_deeper(rows_tree(flows), 2, MAX_DEPTH as nat);
}

/// One flow of a list as a document.
fn row(flow: &FlowSummary) -> (r: Json)
    ensures
        r@ == row_tree(*flow),
{
    let status = match flow.status {
        Some(status) => Json::integer(status as i64),
        None => Json::Null,
    };
    let mime = match &flow.mime {
        Some(mime) => Json::text(mime.as_str()),
        None => Json::Null,
    };
    Fields::new().with("id", Json::integer(flow.id)).with(
        "method",
        Json::text(flow.method.as_str()),
    ).with("url", Json::Str(flow.url())).with("status", status).with("mime", mime).with(
        "size",
        int_or_null(flow.resp_size),
    ).with("ms", int_or_null(flow.duration_ms)).into_json()
}

/// Makes the result of listing flows. Its text spells the list, in the order of the flows.
pub fn list_result(flows: &Vec<FlowSummary>) -> (r: Json)
    ensures
        r@ == text_result_tree(pretty_text(rows_tree(flows@))),
        spells(pretty_text(rows_tree(flows@)), rows_tree(flows@)),
{
    let mut rows = Elements::new();
    let mut i: usize = 0;
    while i < flows.len()
        invariant
            i <= flows@.len(),
            rows@.len() == i,
            forall|k: int| 0 <= k < i ==> #[trigger] rows@[k] == row_tree(flows@[k]),
        decreases flows@.len() - i,
    {
        rows = rows.with(row(&flows[i]));
        i = i + 1;
    }
    let rows = rows.into_json();
    proof {
        assert(rows@->Array_0 =~= rows_tree(flows@)->Array_0);
        lemma_rows_fit(flows@);
    }
    text_result(rows.to_pretty())
}

/// Header fields as a document.
fn header_list(headers: &Vec<(String, String)>) -> (r: Json)
    ensures
        r@ == headers_tree(headers@),
{
    let mut list = Elements::new();
    let mut i: usize = 0;
    while i < headers.len()
        invariant
            i <= headers@.len(),
            list@.len() == i,
            forall|k: int| 0 <= k < i ==> #[trigger] list@[k] == header_tree(headers@[k]),
        decreases headers@.len() - i,
    {
        let header = Elements::new().with(Json::text(headers[i].0.as_str())).with(
            Json::text(headers[i].1.as_str()),
        ).into_json();
        assert(header@->Array_0 =~= header_tree(headers@[i as int])->Array_0);
        list = list.with(header);
        i = i + 1;
    }
    let r = list.into_json();
    assert(r@->Array_0 =~= headers_tree(headers@)->Array_0);
    r
}

/// A request as a document.
fn request_json(request: &FlowRequest) -> (r: Json)
    ensures
        r@ == request_tree(*request),
        reads_utf8(request.body@),
{
    Fields::new().with("method", Json::text(request.method.as_str())).with(
        "url",
        Json::text(request.url.as_str()),
    ).with("http_version", Json::text(request.http_version.as_str())).with(
        "headers",
        header_list(&request.headers),
    ).with("body", Json::Str(lossy(&request.body))).into_json()
}

/// A response as a document.
fn response_json(response: &FlowResponse) -> (r: Json)
    ensures
        r@ == response_tree(*response),
        reads_utf8(response.body@),
{
    Fields::new().with("status", Json::integer(response.status as i64)).with(
        "headers",
        header_list(&response.headers),
    ).with("body", Json::Str(lossy(&response.body))).into_json()
}

proof fn lemma_headers_fit(headers: Seq<(String, String)>)
    ensures
        headers_tree(headers).fits(2),
{
    let list = headers.map_values(|header: (String, String)| header_tree(header));
    assert forall|i: int| 0 <= i < list.len() implies (#[trigger] list[i]).fits(1) by {
        reveal_with_fuel(JsonTree::fits, 2);
        assert(list[i] == header_tree(headers[i]));
    }
}

proof fn lemma_flow_fits(flow: Flow, part: Seq<char>)
    ensures
        flow_tree(flow, part).fits(MAX_DEPTH as nat),
{
    reveal_with_fuel(JsonTree::fits, 2);
    lemma_headers_fit(flow.request.headers@);
    assert(request_tree(flow.request).fits(3));
    if let Some(response) = flow.response {
        lemma_headers_fit(response.headers@);
        assert(response_tree(response).fits(3));
    }
    assert(flow_tree(flow, part).fits(4));
    lemma_fits_deeper(flow_tree(flow, part), 4, MAX_DEPTH as nat);
}

/// The bodies in the wanted part of a flow are read as the text that they encode, where they are
/// UTF-8.
pub open spec fn part_reads_utf8(flow: Flow, part: Seq<char>) -> bool {
    &&& wants_request(part) ==> reads_utf8(flow.request.body@)
    &&& flow.response matches Some(response) ==> wants_response(part) ==> reads_utf8(
        response.body@,
    )
}

/// Makes the result of fetching one flow, where the store has it. Its text spells the wanted
/// part of the flow; a part that is not known selects neither request nor response.
pub fn flow_result(id: i64, part: &str, flow: Option<&Flow>) -> (r: Result<Json, String>)
    ensures
        match flow {
            Some(flow) => {
                &&& r is Ok
                &&& r->Ok_0@ == text_result_tree(pretty_text(flow_tree(*flow, part@)))
                &&& spells(pretty_text(flow_tree(*flow, part@)), flow_tree(*flow, part@))
                &&& part_reads_utf8(*flow, part@)
            },
            None => r is Err && r->Err_0@ == not_found_text(id),
        },
{
    match flow {
        Some(flow) => {
            let all = same(part, "all");
            let mut out = Fields::new().with("id", Json::integer(flow.id));
            if same(part, "request") || all {
                out = out.with("request", request_json(&flow.request));
            }
            if same(part, "response") || all {
                if let Some(response) = &flow.response {
                    out = out.with("response", response_json(response));
                }
            }
            let out = out.into_json();
            assert(out@ == flow_tree(*flow, part@));
            proof {
                lemma_flow_fits(*flow, part@);
            }
            Ok(text_result(out.to_pretty()))
        },
        None => {
            let mut message = "flow ".to_owned();
            message.append(integer(id).as_str());
            message.append(" not found");
            Err(message)
        },
    }
}

/// The name stands in the list of tools.
pub open spec fn is_listed(name: Seq<char>) -> bool {
    exists|i: int|
        0 <= i < tools().len() && (#[trigger] tools()[i]).member("name"@) == Some(string(name))
}

/// A name is that of a listed tool exactly if it is one of the three.
proof fn lemma_listed(name: Seq<char>)
    ensures
        is_listed(name) <==> name == "proxy_list_flows"@ || name == "proxy_get_flow"@ || name
            == "proxy_stats"@,
{
    reveal_strlit("name");
    reveal_strlit("description");
    reveal_strlit("inputSchema");
    assert("name"@.len() != "description"@.len());
    assert("name"@.len() != "inputSchema"@.len());
    assert(tools()[0].member("name"@) == Some(string("proxy_list_flows"@)));
    assert(tools()[1].member("name"@) == Some(string("proxy_get_flow"@)));
    assert(tools()[2].member("name"@) == Some(string("proxy_stats"@)));
}

/// The tools that are listed are the tools that can be called: the call of any other name, and of
/// no listed one, is refused as that of an unknown tool.
pub proof fn law_listed_tools_are_known(params: Option<JsonTree>)
    ensures
        call_plan(params) == PlanView::Refuse("unknown tool: "@ + called_tool(params))
            <==> !is_listed(called_tool(params)),
{
    let name = called_tool(params);
    lemma_listed(name);
    reveal_strlit("unknown tool: ");
    reveal_strlit("missing `id`");
    assert(("unknown tool: "@ + name)[0] == 'u');
    assert("missing `id`"@[0] == 'm');
}

/// A call asks the store for a flow only by an integer that the caller gave, and is refused
/// without one: the argument that the list of tools calls required is required.
pub proof fn law_required_argument(params: Option<JsonTree>)
    requires
        called_tool(params) == "proxy_get_flow"@,
    ensures
        match integer_of(member_of(member_of(params, "arguments"@), "id"@)) {
            Some(id) => call_plan(params) matches PlanView::Ask(LookupView::Get { id: asked, .. })
                && asked == id,
            None => call_plan(params) == PlanView::Refuse("missing `id`"@),
        },
{
    reveal_strlit("proxy_get_flow");
    reveal_strlit("proxy_stats");
    reveal_strlit("proxy_list_flows");
    assert("proxy_get_flow"@.len() != "proxy_stats"@.len());
    assert("proxy_get_flow"@.len() != "proxy_list_flows"@.len());
}

/// An argument that is left out, or is not of its type, counts as its documented default: fifty
/// rows and no search for a list, all parts of a flow that is fetched.
pub proof fn law_argument_defaults(params: Option<JsonTree>)
    ensures
        called_tool(params) == "proxy_list_flows"@ ==> {
            let args = member_of(params, "arguments"@);
            &&& call_plan(params) == PlanView::Ask(LookupView::List(query_of(args)))
            &&& integer_of(member_of(args, "limit"@)) is None ==> query_of(args).limit == 50
            &&& string_of(member_of(args, "search"@)) is None ==> query_of(args).search is None
        },
        called_tool(params) == "proxy_get_flow"@ ==> {
            let args = member_of(params, "arguments"@);
            string_of(member_of(args, "part"@)) is None ==> match integer_of(
                member_of(args, "id"@),
            ) {
                Some(id) => call_plan(params) == PlanView::Ask(
                    LookupView::Get { id, part: "all"@ },
                ),
                None => call_plan(params) is Refuse,
            }
        },
{
    reveal_strlit("proxy_get_flow");
    reveal_strlit("proxy_stats");
    reveal_strlit("proxy_list_flows");
    assert("proxy_get_flow"@.len() != "proxy_stats"@.len());
    assert("proxy_get_flow"@.len() != "proxy_list_flows"@.len());
    assert("proxy_stats"@.len() != "proxy_list_flows"@.len());
}

/// What is fetched of a flow always names the flow, holds the request exactly if the caller wants
/// it, and the response exactly if the caller wants it and it has come.
pub proof fn law_parts(flow: Flow, part: Seq<char>)
    ensures
        flow_tree(flow, part).member("id"@) == Some(JsonTree::Int(flow.id as int)),
        flow_tree(flow, part).member("request"@) == if wants_request(part) {
            Some(request_tree(flow.request))
        } else {
            None
        },
        flow_tree(flow, part).member("response"@) == match flow.response {
            Some(response) => if wants_response(part) {
                Some(response_tree(response))
            } else {
                None
            },
            None => None,
        },
{
    reveal_strlit("id");
    reveal_strlit("request");
    reveal_strlit("response");
    assert("id"@.len() != "request"@.len());
    assert("id"@.len() != "response"@.len());
    assert("request"@.len() != "response"@.len());
}

/// The part `all` is the parts `request` and `response` together.
pub proof fn law_all_is_both(flow: Flow)
    ensures
        flow_tree(flow, "all"@).member("request"@) == flow_tree(flow, "request"@).member(
            "request"@,
        ),
        flow_tree(flow, "all"@).member("response"@) == flow_tree(flow, "response"@).member(
            "response"@,
        ),
        flow_tree(flow, "request"@).member("response"@) is None,
        flow_tree(flow, "response"@).member("request"@) is None,
{
    law_parts(flow, "all"@);
    law_parts(flow, "request"@);
    law_parts(flow, "response"@);
    reveal_strlit("all");
    reveal_strlit("request");
    reveal_strlit("response");
    assert("all"@.len() != "request"@.len());
    assert("all"@.len() != "response"@.len());
    assert("request"@.len() != "response"@.len());
}

/// A list of flows has one row to each flow, in the same order.
pub proof fn law_rows_keep_order(flows: Seq<FlowSummary>)
    ensures
        rows_tree(flows)->Array_0.len() == flows.len(),
        forall|i: int|
            0 <= i < flows.len() ==> #[trigger] rows_tree(flows)->Array_0[i] == row_tree(flows[i]),
{
}

} // verus!
