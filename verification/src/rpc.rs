//! The Model Context Protocol server: JSON-RPC 2.0, one message to a line.
//!
//! [`receive`] takes a line to the next step. Where that step is a question to the store of
//! flows, the store's answer goes to [`finish`], which writes the reply.

use vstd::prelude::*;

use crate::json::{
    compact_text, integers_only, lemma_fits_deeper, lemma_shallow_fits, parsed, pretty_text, spells, tree_of_option, Fields, Json,
    JsonTree, MAX_DEPTH,
};
use crate::model::{Flow, FlowSummary};
use crate::text::{blank, is_blank, same};
use crate::tools::{
    call_plan, flow_result, flow_tree, lemma_tools_fit, list_result, not_found_text, object, part_reads_utf8, rows_tree, stats_result,
    stats_tree, string, text_or, text_result_tree, tool_specs, tools, tools_call, Lookup, LookupView,
    Plan, PlanView,
};

verus! {

/// The version of the protocol that the server speaks.
pub const PROTOCOL_VERSION: &'static str = "2024-11-05";

/// The JSON-RPC code of an error in the server.
pub const INTERNAL_ERROR: i64 = -32603;

/// What a client learns on its first call.
pub open spec fn initialize_tree(version: Seq<char>) -> JsonTree {
    object(
        map![
            "protocolVersion"@ => string(PROTOCOL_VERSION@),
            "capabilities"@ => object(map!["tools"@ => object(map![])]),
            "serverInfo"@ => object(map![
                "name"@ => string("snare-mcp"@),
                "version"@ => string(version),
            ]),
        ],
    )
}

/// The list of tools as a result.
pub open spec fn tool_list_tree() -> JsonTree {
    object(map!["tools"@ => JsonTree::Array(tools())])
}

/// The plan for a call of a method.
pub open spec fn method_plan(
    method: Seq<char>,
    params: Option<JsonTree>,
    version: Seq<char>,
) -> PlanView {
    if method == "initialize"@ {
        PlanView::Answer(initialize_tree(version))
    } else if method == "ping"@ {
        PlanView::Answer(object(map![]))
    } else if method == "tools/list"@ {
        PlanView::Answer(tool_list_tree())
    } else if method == "tools/call"@ {
        call_plan(params)
    } else {
        PlanView::Refuse("method not found: "@ + method)
    }
}

/// Decides what a call of a method comes to, in a server of that version.
pub fn handle(method: &str, params: Option<&Json>, version: &str) -> (r: Plan)
    ensures
        r@ == method_plan(method@, tree_of_option(params), version@),
{
    if same(method, "initialize") {
        let capabilities = Fields::new().with("tools", Fields::new().into_json()).into_json();
        let info = Fields::new().with("name", Json::text("snare-mcp")).with(
            "version",
            Json::text(version),
        ).into_json();
        Plan::Answer(
            Fields::new().with("protocolVersion", Json::text(PROTOCOL_VERSION)).with(
                "capabilities",
                capabilities,
            ).with("serverInfo", info).into_json(),
        )
    } else if same(method, "ping") {
        Plan::Answer(Fields::new().into_json())
    } else if same(method, "tools/list") {
        Plan::Answer(Fields::new().with("tools", tool_specs()).into_json())
    } else if same(method, "tools/call") {
        tools_call(params)
    } else {
        let mut message = "method not found: ".to_owned();
        message.append(method);
        Plan::Refuse(message)
    }
}

/// What came of a call: a result, or why there is none.
pub open spec fn outcome_view(outcome: Result<Json, String>) -> Result<JsonTree, Seq<char>> {
    match outcome {
        Ok(result) => Ok(result@),
        Err(message) => Err(message@),
    }
}

/// The reply to the request of that id.
pub open spec fn reply_tree(id: JsonTree, outcome: Result<JsonTree, Seq<char>>) -> JsonTree {
    match outcome {
        Ok(result) => object(
            map!["jsonrpc"@ => string("2.0"@), "id"@ => id, "result"@ => result],
        ),
        Err(message) => object(
            map![
                "jsonrpc"@ => string("2.0"@),
                "id"@ => id,
                "error"@ => object(map![
                    "code"@ => JsonTree::Int(INTERNAL_ERROR as int),
                    "message"@ => string(message),
                ]),
            ],
        ),
    }
}

/// The document is one that a reply can carry and a reader of the reply gets back: no number in
/// it is other than an integer, and it leaves room for the reply around it.
pub open spec fn carried(tree: JsonTree) -> bool {
    tree.fits((MAX_DEPTH - 1) as nat)
}

/// The text is one line that is the reply to the request of that id; a reader gets the reply
/// back from it.
pub open spec fn is_reply(
    text: Seq<char>,
    id: JsonTree,
    outcome: Result<JsonTree, Seq<char>>,
) -> bool {
    &&& text == compact_text(reply_tree(id, outcome))
    &&& !text.contains('\n')
    &&& carried(id) ==> spells(text, reply_tree(id, outcome))
}

/// Builds the reply to the request of that id.
pub fn reply_document(id: Json, outcome: Result<Json, String>) -> (r: Json)
    ensures
        r@ == reply_tree(id@, outcome_view(outcome)),
{
    let head = Fields::new().with("jsonrpc", Json::text("2.0")).with("id", id);
    match outcome {
        Ok(result) => head.with("result", result).into_json(),
        Err(message) => {
            let error = Fields::new().with("code", Json::integer(INTERNAL_ERROR)).with(
                "message",
                Json::Str(message),
            ).into_json();
            head.with("error", error).into_json()
        },
    }
}

proof fn lemma_reply_fits(id: JsonTree, outcome: Result<JsonTree, Seq<char>>)
    requires
        carried(id),
        outcome is Ok ==> carried(outcome->Ok_0),
    ensures
        reply_tree(id, outcome).fits(MAX_DEPTH as nat),
{
    reveal_with_fuel(JsonTree::fits, 3);
}

/// Writes the reply to the request of that id.
pub fn reply(id: Json, outcome: Result<Json, String>) -> (r: String)
    ensures
        r@ == compact_text(reply_tree(id@, outcome_view(outcome))),
        !r@.contains('\n'),
        outcome is Ok ==> carried(outcome->Ok_0@) ==> is_reply(r@, id@, outcome_view(outcome)),
        outcome is Err ==> is_reply(r@, id@, outcome_view(outcome)),
{
    let document = reply_document(id, outcome);
    proof {
        if carried(id@) && (outcome is Ok ==> carried(outcome->Ok_0@)) {
            lemma_reply_fits(id@, outcome_view(outcome));
        }
    }
    document.to_compact()
}

/// A message of a client.
#[derive(Debug, PartialEq)]
pub struct Message {
    /// The id to reply under; a message without one wants no reply.
    pub id: Option<Json>,
    /// The method that is called; empty where none is named.
    pub method: String,
    pub params: Option<Json>,
}

/// The content of a message.
pub struct MessageView {
    pub id: Option<JsonTree>,
    pub method: Seq<char>,
    pub params: Option<JsonTree>,
}

/// The content of an optional document that is held.
pub open spec fn held_tree(json: Option<Json>) -> Option<JsonTree> {
    match json {
        Some(json) => Some(json@),
        None => None,
    }
}

impl View for Message {
    type V = MessageView;

    open spec fn view(&self) -> MessageView {
        MessageView {
            id: held_tree(self.id),
            method: self.method@,
            params: held_tree(self.params),
        }
    }
}

/// The message that a document is.
pub open spec fn message_of(tree: JsonTree) -> MessageView {
    MessageView {
        id: tree.member("id"@),
        method: text_or(crate::json::string_of(tree.member("method"@)), ""@),
        params: tree.member("params"@),
    }
}

/// The id of a message that was read is not too deep to be carried back.
proof fn lemma_id_is_carried(tree: JsonTree)
    requires
        tree.shallow(MAX_DEPTH as nat),
    ensures
        message_of(tree).id matches Some(id) ==> integers_only(id) ==> carried(id),
{
    if let Some(id) = message_of(tree).id {
        assert(tree->Object_0.contains_key("id"@));
        if integers_only(id) {
            let some = choose|depth: nat| id.fits(depth);
            lemma_shallow_fits(id, (MAX_DEPTH - 1) as nat, some);
        }
    }
}

/// Copies a member of a document.
fn copy_member(json: &Json, name: &str) -> (r: Option<Json>)
    ensures
        held_tree(r) == json@.member(name@),
{
    match json.get(name) {
        Some(member) => Some(member.clone()),
        None => None,
    }
}

/// Reads the message that a document is.
pub fn read_message(json: &Json) -> (r: Message)
    ensures
        r@ == message_of(json@),
{
    let method = match json.get("method") {
        Some(method) => match method.as_str() {
            Some(method) => method.to_owned(),
            None => "".to_owned(),
        },
        None => "".to_owned(),
    };
    Message { id: copy_member(json, "id"), method, params: copy_member(json, "params") }
}

/// What the server does next.
#[derive(Debug, PartialEq)]
pub enum Step {
    /// Nothing: the line wants no reply.
    Wait,
    /// Sends that line.
    Send(String),
    /// Asks the store, and replies under that id.
    Ask { id: Json, lookup: Lookup },
}

/// The content of a step.
pub enum StepView {
    Wait,
    Send(Seq<char>),
    Ask { id: JsonTree, lookup: LookupView },
}

impl View for Step {
    type V = StepView;

    open spec fn view(&self) -> StepView {
        match *self {
            Step::Wait => StepView::Wait,
            Step::Send(line) => StepView::Send(line@),
            Step::Ask { id, lookup } => StepView::Ask { id: id@, lookup: lookup@ },
        }
    }
}

/// The step that a plan comes to for the request of that id.
pub open spec fn planned_step(id: JsonTree, plan: PlanView) -> StepView {
    match plan {
        PlanView::Answer(result) => StepView::Send(compact_text(reply_tree(id, Ok(result)))),
        PlanView::Refuse(message) => StepView::Send(compact_text(reply_tree(id, Err(message)))),
        PlanView::Ask(lookup) => StepView::Ask { id, lookup },
    }
}

/// The step that a message calls for.
pub open spec fn message_step(message: MessageView, version: Seq<char>) -> StepView {
    match message.id {
        Some(id) => planned_step(id, method_plan(message.method, message.params, version)),
        None => StepView::Wait,
    }
}

/// The outcome of a plan that needs no store.
pub open spec fn plan_outcome(plan: PlanView) -> Option<Result<JsonTree, Seq<char>>> {
    match plan {
        PlanView::Answer(result) => Some(Ok(result)),
        PlanView::Refuse(message) => Some(Err(message)),
        PlanView::Ask(_) => None,
    }
}

proof fn lemma_initialize_carried(version: Seq<char>)
    ensures
        carried(initialize_tree(version)),
{
    reveal_with_fuel(JsonTree::fits, 4);
    assert(initialize_tree(version).fits(3));
    lemma_fits_deeper(initialize_tree(version), 3, (MAX_DEPTH - 1) as nat);
}

proof fn lemma_tool_list_carried()
    ensures
        carried(tool_list_tree()),
{
    reveal_with_fuel(JsonTree::fits, 2);
    lemma_tools_fit();
    assert(tool_list_tree().fits(7));
    lemma_fits_deeper(tool_list_tree(), 7, (MAX_DEPTH - 1) as nat);
}

proof fn lemma_text_result_carried(text: Seq<char>)
    ensures
        carried(text_result_tree(text)),
{
    reveal_with_fuel(JsonTree::fits, 4);
    assert(text_result_tree(text).fits(3));
    lemma_fits_deeper(text_result_tree(text), 3, (MAX_DEPTH - 1) as nat);
}

proof fn lemma_answer_carried(method: Seq<char>, params: Option<JsonTree>, version: Seq<char>)
    ensures
        method_plan(method, params, version) matches PlanView::Answer(result) ==> carried(result),
{
    lemma_initialize_carried(version);
    lemma_tool_list_carried();
}

/// A step that sends a line sends a reply that the plan for the message came to.
pub open spec fn sends_reply(step: StepView, message: MessageView, version: Seq<char>) -> bool {
    step is Send ==> {
        let outcome = plan_outcome(method_plan(message.method, message.params, version));
        &&& message.id is Some
        &&& outcome is Some
        &&& is_reply(step->Send_0, message.id->Some_0, outcome->Some_0)
    }
}

/// Decides what a message calls for, in a server of that version.
pub fn dispatch(message: Message, version: &str) -> (r: Step)
    ensures
        r@ == message_step(message@, version@),
        sends_reply(r@, message@, version@),
{
    match message.id {
        Some(id) => {
            let plan = match &message.params {
                Some(params) => handle(message.method.as_str(), Some(params), version),
                None => handle(message.method.as_str(), None, version),
            };
            proof {
                lemma_answer_carried(message.method@, message@.params, version@);
            }
            match plan {
                Plan::Answer(result) => Step::Send(reply(id, Ok(result))),
                Plan::Refuse(why) => Step::Send(reply(id, Err(why))),
                Plan::Ask(lookup) => Step::Ask { id, lookup },
            }
        },
        None => Step::Wait,
    }
}

/// What a line is.
#[derive(Debug, PartialEq)]
pub enum Line {
    /// Nothing but white space.
    Blank,
    /// No JSON document, for that reason.
    Unreadable(String),
    /// A message.
    Message(Message),
}

/// The content of a line.
pub enum LineView {
    Blank,
    Unreadable(Seq<char>),
    Message(MessageView),
}

impl View for Line {
    type V = LineView;

    open spec fn view(&self) -> LineView {
        match *self {
            Line::Blank => LineView::Blank,
            Line::Unreadable(why) => LineView::Unreadable(why@),
            Line::Message(message) => LineView::Message(message@),
        }
    }
}

/// What the line of that text is.
pub open spec fn line_of(text: Seq<char>) -> LineView {
    if is_blank(text) {
        LineView::Blank
    } else {
        match parsed(text) {
            Ok(tree) => LineView::Message(message_of(tree)),
            Err(why) => LineView::Unreadable(why),
        }
    }
}

/// The id of a message is one that a reply can carry, unless it holds a number that is no
/// integer.
pub open spec fn id_is_carried(line: LineView) -> bool {
    line matches LineView::Message(message) ==> message.id matches Some(id) ==> integers_only(id)
        ==> carried(id)
}

/// Reads a line.
pub fn read_line(text: &str) -> (r: Line)
    ensures
        r@ == line_of(text@),
        id_is_carried(r@),
{
    if blank(text) {
        Line::Blank
    } else {
        match Json::parse(text) {
            Ok(json) => {
                proof {
                    lemma_id_is_carried(json@);
                }
                Line::Message(read_message(&json))
            },
            Err(why) => Line::Unreadable(why),
        }
    }
}

/// What the server notes down on a line.
pub open spec fn note_of(line: LineView) -> Option<Seq<char>> {
    match line {
        LineView::Blank => None,
        LineView::Unreadable(why) => Some("[snare-mcp] bad json: "@ + why),
        LineView::Message(message) => Some("[snare-mcp] -> "@ + message.method),
    }
}

/// The step that a line calls for.
pub open spec fn line_step(line: LineView, version: Seq<char>) -> StepView {
    match line {
        LineView::Message(message) => message_step(message, version),
        _ => StepView::Wait,
    }
}

/// Decides what a line calls for, in a server of that version, and what to note down on it.
pub fn act_on(line: Line, version: &str) -> (r: (Option<String>, Step))
    ensures
        crate::model::text_of(r.0) == note_of(line@),
        r.1@ == line_step(line@, version@),
        line@ matches LineView::Message(message) ==> sends_reply(r.1@, message, version@),
{
    match line {
        Line::Blank => (None, Step::Wait),
        Line::Unreadable(why) => {
            let mut note = "[snare-mcp] bad json: ".to_owned();
            note.append(why.as_str());
            (Some(note), Step::Wait)
        },
        Line::Message(message) => {
            let mut note = "[snare-mcp] -> ".to_owned();
            note.append(message.method.as_str());
            (Some(note), dispatch(message, version))
        },
    }
}

/// Takes a line from a client to the next step, in a server of that version; the first of the
/// pair is what to note down on it.
pub fn receive(text: &str, version: &str) -> (r: (Option<String>, Step))
    ensures
        crate::model::text_of(r.0) == note_of(line_of(text@)),
        r.1@ == line_step(line_of(text@), version@),
        line_of(text@) matches LineView::Message(message) ==> sends_reply(r.1@, message, version@),
        id_is_carried(line_of(text@)),
{
    act_on(read_line(text), version)
}

/// The outcome of counting the flows.
pub open spec fn count_outcome(count: Result<i64, String>) -> Result<JsonTree, Seq<char>> {
    match count {
        Ok(count) => Ok(text_result_tree(compact_text(stats_tree(count)))),
        Err(why) => Err(why@),
    }
}

/// The outcome of listing flows.
pub open spec fn list_outcome(flows: Result<Vec<FlowSummary>, String>) -> Result<
    JsonTree,
    Seq<char>,
> {
    match flows {
        Ok(flows) => Ok(text_result_tree(pretty_text(rows_tree(flows@)))),
        Err(why) => Err(why@),
    }
}

/// The outcome of fetching one flow.
pub open spec fn get_outcome(
    flow_id: i64,
    part: Seq<char>,
    flow: Result<Option<Flow>, String>,
) -> Result<JsonTree, Seq<char>> {
    match flow {
        Ok(Some(flow)) => Ok(text_result_tree(pretty_text(flow_tree(flow, part)))),
        Ok(None) => Err(not_found_text(flow_id)),
        Err(why) => Err(why@),
    }
}

/// Replies with the store's count of flows, or with why it has none.
pub fn finish_count(id: Json, count: Result<i64, String>) -> (r: String)
    ensures
        is_reply(r@, id@, count_outcome(count)),
{
    match count {
        Ok(count) => {
            proof {
                lemma_text_result_carried(compact_text(stats_tree(count)));
            }
            reply(id, Ok(stats_result(count)))
        },
        Err(why) => reply(id, Err(why)),
    }
}

/// Replies with the flows that the store lists, or with why it lists none.
pub fn finish_list(id: Json, flows: Result<Vec<FlowSummary>, String>) -> (r: String)
    ensures
        is_reply(r@, id@, list_outcome(flows)),
{
    match flows {
        Ok(flows) => {
            proof {
                lemma_text_result_carried(pretty_text(rows_tree(flows@)));
            }
            reply(id, Ok(list_result(&flows)))
        },
        Err(why) => reply(id, Err(why)),
    }
}

/// Replies with the wanted part of the flow that the store has under that id, or with why it
/// cannot.
pub fn finish_get(
    id: Json,
    flow_id: i64,
    part: &str,
    flow: Result<Option<Flow>, String>,
) -> (r: String)
    ensures
        is_reply(r@, id@, get_outcome(flow_id, part@, flow)),
        flow matches Ok(Some(found)) ==> part_reads_utf8(found, part@),
{
    match flow {
        Ok(flow) => match &flow {
            Some(found) => {
                proof {
                    lemma_text_result_carried(pretty_text(flow_tree(*found, part@)));
                }
                reply(id, flow_result(flow_id, part, Some(found)))
            },
            None => reply(id, flow_result(flow_id, part, None)),
        },
        Err(why) => reply(id, Err(why)),
    }
}

/// An answer of the store, or why it has none.
#[derive(Debug, PartialEq)]
pub enum Answer {
    /// How many flows there are.
    Count(Result<i64, String>),
    /// The flows that the query selects.
    List(Result<Vec<FlowSummary>, String>),
    /// The flow of the id that was asked for, where there is one.
    Get(Result<Option<Flow>, String>),
}

/// The answer is one to that question.
pub open spec fn is_answer_to(answer: Answer, lookup: LookupView) -> bool {
    match lookup {
        LookupView::Count => answer is Count,
        LookupView::List(_) => answer is List,
        LookupView::Get { .. } => answer is Get,
    }
}

/// The outcome of a question and the answer to it.
pub open spec fn lookup_outcome(lookup: LookupView, answer: Answer) -> Result<
    JsonTree,
    Seq<char>,
> {
    match lookup {
        LookupView::Count => count_outcome(answer->Count_0),
        LookupView::List(_) => list_outcome(answer->List_0),
        LookupView::Get { id, part } => get_outcome(id, part, answer->Get_0),
    }
}

/// Replies, under the id of the request, with what the store answered to the question that the
/// request came to; there is no reply where the answer is one to another question.
pub fn finish(id: Json, lookup: Lookup, answer: Answer) -> (r: Option<String>)
    ensures
        r is Some <==> is_answer_to(answer, lookup@),
        r matches Some(text) ==> is_reply(text@, id@, lookup_outcome(lookup@, answer)),
{
    match (lookup, answer) {
        (Lookup::Count, Answer::Count(count)) => Some(finish_count(id, count)),
        (Lookup::List(_), Answer::List(flows)) => Some(finish_list(id, flows)),
        (Lookup::Get { id: flow_id, part }, Answer::Get(flow)) => Some(
            finish_get(id, flow_id, part.as_str(), flow),
        ),
        _ => None,
    }
}

/// A message is answered exactly if it has an id; a line that holds no message is not answered.
pub proof fn law_only_requests_are_answered(line: LineView, version: Seq<char>)
    ensures
        line_step(line, version) is Wait <==> !(line matches LineView::Message(message)
            && message.id is Some),
{
}

/// The store is asked only on behalf of a call of a tool, and the reply goes out under the id of
/// that call.
pub proof fn law_only_tool_calls_ask(message: MessageView, version: Seq<char>)
    requires
        message_step(message, version) is Ask,
    ensures
        message.method == "tools/call"@,
        message.id == Some(message_step(message, version)->id),
        call_plan(message.params) == PlanView::Ask(message_step(message, version)->lookup),
{
}

/// The reply to a call that asks the store is the reply to the message that made the call: it
/// goes out under the id of the message, with the outcome of the lookup that the message came to.
pub proof fn law_store_answers_reach_their_call(
    message: MessageView,
    version: Seq<char>,
    answer: Answer,
    text: Seq<char>,
)
    requires
        message_step(message, version) is Ask,
        is_answer_to(answer, message_step(message, version)->lookup),
        is_reply(
            text,
            message_step(message, version)->id,
            lookup_outcome(message_step(message, version)->lookup, answer),
        ),
    ensures
        message.id is Some,
        match call_plan(message.params) {
            PlanView::Ask(lookup) => is_reply(
                text,
                message.id->Some_0,
                lookup_outcome(lookup, answer),
            ),
            _ => false,
        },
{
}

/// Every reply says that it is JSON-RPC 2.0, carries the id of its request, and holds either the
/// result or the error, with its code and message, and not both.
pub proof fn law_reply_members(id: JsonTree, outcome: Result<JsonTree, Seq<char>>)
    ensures
        reply_tree(id, outcome).member("jsonrpc"@) == Some(string("2.0"@)),
        reply_tree(id, outcome).member("id"@) == Some(id),
        match outcome {
            Ok(result) => {
                &&& reply_tree(id, outcome).member("result"@) == Some(result)
                &&& reply_tree(id, outcome).member("error"@) is None
            },
            Err(message) => {
                let error = reply_tree(id, outcome).member("error"@);
                &&& reply_tree(id, outcome).member("result"@) is None
                &&& error is Some
                &&& error->Some_0.member("code"@) == Some(JsonTree::Int(INTERNAL_ERROR as int))
                &&& error->Some_0.member("message"@) == Some(string(message))
            },
        },
{
    reveal_strlit("jsonrpc");
    reveal_strlit("id");
    reveal_strlit("result");
    reveal_strlit("error");
    reveal_strlit("code");
    reveal_strlit("message");
    assert("jsonrpc"@.len() == 7 && "id"@.len() == 2 && "result"@.len() == 6 && "error"@.len() == 5
        && "code"@.len() == 4 && "message"@.len() == 7);
}

/// Whoever reads the line of a reply finds the id of the request in it, and the result or the
/// error.
pub proof fn law_reader_finds_reply(
    text: Seq<char>,
    id: JsonTree,
    outcome: Result<JsonTree, Seq<char>>,
)
    requires
        is_reply(text, id, outcome),
        carried(id),
    ensures
        parsed(text) is Ok,
        parsed(text)->Ok_0.member("id"@) == Some(id),
        outcome matches Ok(result) ==> parsed(text)->Ok_0.member("result"@) == Some(result),
        outcome matches Err(message) ==> {
            let error = parsed(text)->Ok_0.member("error"@);
            &&& parsed(text)->Ok_0.member("result"@) is None
            &&& error is Some
            &&& error->Some_0.member("message"@) == Some(string(message))
        },
{
    law_reply_members(id, outcome);
}

} // verus!
