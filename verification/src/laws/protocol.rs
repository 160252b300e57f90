//! Laws on the protocol: what a line of a client comes to, and what the reply holds.

use vstd::prelude::*;

use crate::json::{compact_text, integers_only, parsed, Json, JsonTree};
use crate::model::{Flow, FlowSummary};
use crate::rpc::{
    carried, count_outcome, finish, get_outcome, handle, initialize_tree, law_reply_members,
    list_outcome, read_message, receive, reply, reply_document, tool_list_tree, Answer, Message,
    Step,
};
use crate::text::blank;
use crate::tools::{
    flow_result, list_result, stats_result, tool_specs, tools_call, Lookup, Plan,
};

verus! {

proof fn lemma_method_names()
    ensures
        "initialize"@ != "ping"@,
        "initialize"@ != "tools/list"@,
        "initialize"@ != "tools/call"@,
        "ping"@ != "tools/list"@,
        "ping"@ != "tools/call"@,
        "tools/list"@ != "tools/call"@,
        "initialize"@.len() > 0,
        "ping"@.len() > 0,
        "tools/list"@.len() > 0,
        "tools/call"@.len() > 0,
        ""@.len() == 0,
{
    reveal_strlit("initialize");
    reveal_strlit("ping");
    reveal_strlit("tools/list");
    reveal_strlit("tools/call");
    reveal_strlit("");
    assert("initialize"@[0] == 'i' && "ping"@[0] == 'p' && "tools/list"@[6] == 'l'
        && "tools/call"@[6] == 'c' && "tools/list"@[0] == 't' && "tools/call"@[0] == 't');
}

proof fn lemma_greeting_names()
    ensures
        "protocolVersion"@ != "capabilities"@,
        "protocolVersion"@ != "serverInfo"@,
        "capabilities"@ != "serverInfo"@,
        "name"@ != "version"@,
{
    reveal_strlit("protocolVersion");
    reveal_strlit("capabilities");
    reveal_strlit("serverInfo");
    reveal_strlit("name");
    reveal_strlit("version");
    assert("protocolVersion"@.len() == 15 && "capabilities"@.len() == 12 && "serverInfo"@.len()
        == 10 && "name"@.len() == 4 && "version"@.len() == 7);
}

/// Whatever the parameters, a client that greets the server learns the version of the protocol,
/// that there are tools, and the server's name and version.
pub proof fn law_initialize(method: &str, params: Option<&Json>, version: &str, r: Plan)
    requires
        call_ensures(handle, (method, params, version), r),
        method@ == "initialize"@,
    ensures
        ({
            &&& r matches Plan::Answer(result)
            &&& result@.member("protocolVersion"@) == Some(JsonTree::Str("2024-11-05"@))
            &&& result@.member("capabilities"@) matches Some(capabilities)
            &&& capabilities.member("tools"@) is Some
            &&& capabilities.member("tools"@)->Some_0 is Object
            &&& forall|name: Seq<char>| #[trigger]
                capabilities.member("tools"@)->Some_0.member(name) is None
            &&& forall|name: Seq<char>| #[trigger]
                capabilities.member(name) is Some ==> name == "tools"@
            &&& result@.member("serverInfo"@) matches Some(info)
            &&& info.member("name"@) == Some(JsonTree::Str("snare-mcp"@))
            &&& info.member("version"@) == Some(JsonTree::Str(version@))
            &&& forall|name: Seq<char>| #[trigger]
                info.member(name) is Some ==> name == "name"@ || name == "version"@
            &&& forall|name: Seq<char>| #[trigger]
                result@.member(name) is Some ==> name == "protocolVersion"@ || name
                    == "capabilities"@ || name == "serverInfo"@
        }),
{
    lemma_greeting_names();
}

/// Whatever the parameters, a ping is answered with an object without members.
pub proof fn law_ping(method: &str, params: Option<&Json>, version: &str, r: Plan)
    requires
        call_ensures(handle, (method, params, version), r),
        method@ == "ping"@,
    ensures
        ({
            &&& r matches Plan::Answer(result)
            &&& result@ is Object
            &&& forall|name: Seq<char>| #[trigger] result@.member(name) is None
        }),
{
    lemma_method_names();
}

/// Whatever the parameters, who asks for the tools gets all that are listed, and nothing else.
pub proof fn law_tools_list(method: &str, params: Option<&Json>, version: &str, r: Plan, listed: Json)
    requires
        call_ensures(handle, (method, params, version), r),
        call_ensures(tool_specs, (), listed),
        method@ == "tools/list"@,
    ensures
        ({
            &&& r matches Plan::Answer(result)
            &&& result@.member("tools"@) == Some(listed@)
            &&& forall|name: Seq<char>| #[trigger] result@.member(name) is Some ==> name == "tools"@
        }),
{
    lemma_method_names();
}

/// The call of a tool comes to what the tool's call comes to.
pub proof fn law_tools_call(method: &str, params: Option<&Json>, version: &str, r: Plan, p: Plan)
    requires
        call_ensures(handle, (method, params, version), r),
        call_ensures(tools_call, (params,), p),
        method@ == "tools/call"@,
    ensures
        match p {
            Plan::Answer(_) => false,
            Plan::Refuse(why) => r is Refuse && r->Refuse_0@ == why@,
            Plan::Ask(Lookup::Count) => r == Plan::Ask(Lookup::Count),
            Plan::Ask(Lookup::List(asked)) => {
                &&& r matches Plan::Ask(Lookup::List(query))
                &&& query.search is Some <==> asked.search is Some
                &&& query.search is Some ==> query.search->Some_0@ == asked.search->Some_0@
                &&& query.host is Some <==> asked.host is Some
                &&& query.limit == asked.limit
                &&& query.offset == asked.offset
            },
            Plan::Ask(Lookup::Get { id, part }) => {
                &&& r matches Plan::Ask(Lookup::Get { id: i, part: p })
                &&& i == id
                &&& p@ == part@
            },
        },
{
    lemma_method_names();
}

/// A method is refused as one that is not found exactly if it is none of the four, and never
/// comes to anything else then.
pub proof fn law_unknown_method(method: &str, params: Option<&Json>, version: &str, r: Plan)
    requires
        call_ensures(handle, (method, params, version), r),
    ensures
        (r is Refuse && r->Refuse_0@ == "method not found: "@ + method@) <==> (method@
            != "initialize"@ && method@ != "ping"@ && method@ != "tools/list"@ && method@
            != "tools/call"@),
{
    lemma_method_names();
    reveal_strlit("method not found: ");
    reveal_strlit("unknown tool: ");
    reveal_strlit("missing `id`");
    if r is Refuse {
        let why = r->Refuse_0@;
        assert(("method not found: "@ + method@)[1] == 'e');
        assert(("method not found: "@ + method@)[0] == 'm');
        assert("missing `id`"@[1] == 'i');
        assert(forall|name: Seq<char>| (#[trigger] ("unknown tool: "@ + name))[0] == 'u');
    }
}

/// A message is the members `id`, `method` and `params` of its document; a method that is no
/// string counts as the empty one.
pub proof fn law_message(json: &Json, r: Message)
    requires
        call_ensures(read_message, (json,), r),
    ensures
        match r.id {
            Some(id) => json@.member("id"@) == Some(id@),
            None => json@.member("id"@) is None,
        },
        match r.params {
            Some(params) => json@.member("params"@) == Some(params@),
            None => json@.member("params"@) is None,
        },
        json@.member("method"@) matches Some(JsonTree::Str(name)) ==> r.method@ == name,
        json@.member("method"@) is None || !(json@.member("method"@)->Some_0 is Str)
            ==> r.method@.len() == 0,
{
    lemma_method_names();
}

/// A line that is blank, and no other, is passed over in silence.
pub proof fn law_blank_lines(text: &str, version: &str, r: (Option<String>, Step), empty: bool)
    requires
        call_ensures(receive, (text, version), r),
        call_ensures(blank, (text,), empty),
    ensures
        r.0 is None <==> empty,
        empty ==> r.1 is Wait,
{
}

/// A line that spells no document is noted down with the reason, and gets no reply.
pub proof fn law_bad_lines(text: &str, version: &str, r: (Option<String>, Step), why: Seq<char>)
    requires
        call_ensures(receive, (text, version), r),
        call_ensures(blank, (text,), false),
        parsed(text@) == Err::<JsonTree, Seq<char>>(why),
    ensures
        r.0 is Some && r.0->Some_0@ == "[snare-mcp] bad json: "@ + why,
        r.1 is Wait,
{
}

/// A message is noted down with its method, and without an id it gets no reply, whatever it
/// calls.
pub proof fn law_notifications(text: &str, version: &str, r: (Option<String>, Step), document: JsonTree)
    requires
        call_ensures(receive, (text, version), r),
        call_ensures(blank, (text,), false),
        parsed(text@) == Ok::<JsonTree, Seq<char>>(document),
    ensures
        r.0 is Some,
        document.member("method"@) matches Some(JsonTree::Str(name)) ==> r.0->Some_0@
            == "[snare-mcp] -> "@ + name,
        document.member("method"@) is None || !(document.member("method"@)->Some_0 is Str)
            ==> r.0->Some_0@ == "[snare-mcp] -> "@,
        document.member("id"@) is None <==> r.1 is Wait,
{
    reveal_strlit("");
    assert("[snare-mcp] -> "@ + ""@ =~= "[snare-mcp] -> "@);
}

/// Whatever else it holds, a request to greet is replied to on one line, under its id, with the
/// version of the protocol, the capability of tools, and the server's name and version. Reading
/// the line gives the reply.
pub proof fn law_greeting_is_answered(
    text: &str,
    version: &str,
    r: (Option<String>, Step),
    document: JsonTree,
    id: JsonTree,
)
    requires
        call_ensures(receive, (text, version), r),
        call_ensures(blank, (text,), false),
        parsed(text@) == Ok::<JsonTree, Seq<char>>(document),
        document.member("id"@) == Some(id),
        document.member("method"@) == Some(JsonTree::Str("initialize"@)),
        integers_only(id),
    ensures
        ({
            &&& r.1 matches Step::Send(line)
            &&& !line@.contains('\n')
            &&& parsed(line@) matches Ok(reply)
            &&& reply.member("jsonrpc"@) == Some(JsonTree::Str("2.0"@))
            &&& reply.member("id"@) == Some(id)
            &&& reply.member("error"@) is None
            &&& reply.member("result"@) matches Some(result)
            &&& result.member("protocolVersion"@) == Some(JsonTree::Str("2024-11-05"@))
            &&& result.member("capabilities"@) is Some
            &&& result.member("capabilities"@)->Some_0.member("tools"@) is Some
            &&& result.member("serverInfo"@) is Some
            &&& result.member("serverInfo"@)->Some_0.member("name"@) == Some(
                JsonTree::Str("snare-mcp"@),
            )
            &&& result.member("serverInfo"@)->Some_0.member("version"@) == Some(
                JsonTree::Str(version@),
            )
        }),
{
    lemma_greeting_names();
    law_reply_members(id, Ok(initialize_tree(version@)));
}

/// Whatever else it holds, a request for the tools is replied to under its id with all that are
/// listed, and a ping with an object without members.
pub proof fn law_ping_and_tools_are_answered(
    text: &str,
    version: &str,
    r: (Option<String>, Step),
    document: JsonTree,
    id: JsonTree,
    listed: Json,
)
    requires
        call_ensures(receive, (text, version), r),
        call_ensures(tool_specs, (), listed),
        call_ensures(blank, (text,), false),
        parsed(text@) == Ok::<JsonTree, Seq<char>>(document),
        document.member("id"@) == Some(id),
        integers_only(id),
    ensures
        document.member("method"@) == Some(JsonTree::Str("ping"@)) ==> {
            &&& r.1 matches Step::Send(line)
            &&& parsed(line@) matches Ok(reply)
            &&& reply.member("id"@) == Some(id)
            &&& reply.member("result"@) matches Some(JsonTree::Object(result))
            &&& forall|name: Seq<char>| !(#[trigger] result.contains_key(name))
        },
        document.member("method"@) == Some(JsonTree::Str("tools/list"@)) ==> {
            &&& r.1 matches Step::Send(line)
            &&& parsed(line@) matches Ok(reply)
            &&& reply.member("id"@) == Some(id)
            &&& reply.member("result"@) matches Some(result)
            &&& result.member("tools"@) == Some(listed@)
        },
{
    lemma_method_names();
    law_reply_members(id, Ok(JsonTree::Object(Map::empty())));
    law_reply_members(id, Ok(tool_list_tree()));
}

/// A request for any other method, or for none, is replied to under its id with an error that
/// names the method.
pub proof fn law_unknown_methods_are_refused(
    text: &str,
    version: &str,
    r: (Option<String>, Step),
    document: JsonTree,
    id: JsonTree,
    method: Seq<char>,
)
    requires
        call_ensures(receive, (text, version), r),
        call_ensures(blank, (text,), false),
        parsed(text@) == Ok::<JsonTree, Seq<char>>(document),
        document.member("id"@) == Some(id),
        integers_only(id),
        document.member("method"@) == Some(JsonTree::Str(method)) || (document.member("method"@)
            is None && method.len() == 0),
        method != "initialize"@ && method != "ping"@ && method != "tools/list"@ && method
            != "tools/call"@,
    ensures
        ({
            &&& r.1 matches Step::Send(line)
            &&& parsed(line@) matches Ok(reply)
            &&& reply.member("id"@) == Some(id)
            &&& reply.member("result"@) is None
            &&& reply.member("error"@) matches Some(error)
            &&& error.member("code"@) == Some(JsonTree::Int(-32603))
            &&& error.member("message"@) == Some(JsonTree::Str("method not found: "@ + method))
        }),
{
    lemma_method_names();
    assert(method.len() == 0 ==> method =~= ""@);
    law_reply_members(id, Err("method not found: "@ + method));
}

/// The call of a tool asks the store what the tool's call comes to, and keeps the id to reply
/// under; a call that is refused is replied to under its id with an error of the reason.
pub proof fn law_tool_calls_ask(
    text: &str,
    version: &str,
    r: (Option<String>, Step),
    document: JsonTree,
    id: JsonTree,
    params: Option<&Json>,
    plan: Plan,
)
    requires
        call_ensures(receive, (text, version), r),
        call_ensures(tools_call, (params,), plan),
        call_ensures(blank, (text,), false),
        parsed(text@) == Ok::<JsonTree, Seq<char>>(document),
        document.member("id"@) == Some(id),
        integers_only(id),
        document.member("method"@) == Some(JsonTree::Str("tools/call"@)),
        match params {
            Some(params) => document.member("params"@) == Some(params@),
            None => document.member("params"@) is None,
        },
    ensures
        match plan {
            Plan::Answer(_) => false,
            Plan::Refuse(why) => {
                &&& r.1 matches Step::Send(line)
                &&& parsed(line@) matches Ok(reply)
                &&& reply.member("id"@) == Some(id)
                &&& reply.member("result"@) is None
                &&& reply.member("error"@) matches Some(error)
                &&& error.member("code"@) == Some(JsonTree::Int(-32603))
                &&& error.member("message"@) == Some(JsonTree::Str(why@))
            },
            Plan::Ask(Lookup::Count) => r.1 matches Step::Ask { id: under, lookup } && under@ == id
                && lookup is Count,
            Plan::Ask(Lookup::List(asked)) => {
                &&& r.1 matches Step::Ask { id: under, lookup: Lookup::List(query) }
                &&& under@ == id
                &&& query.search is Some <==> asked.search is Some
                &&& query.search is Some ==> query.search->Some_0@ == asked.search->Some_0@
                &&& query.host is Some <==> asked.host is Some
                &&& query.limit == asked.limit
                &&& query.offset == asked.offset
            },
            Plan::Ask(Lookup::Get { id: flow, part }) => {
                &&& r.1 matches Step::Ask { id: under, lookup: Lookup::Get { id: i, part: p } }
                &&& under@ == id
                &&& i == flow
                &&& p@ == part@
            },
        },
{
    lemma_method_names();
    if let Plan::Refuse(why) = plan {
        law_reply_members(id, Err(why@));
    }
}

/// Every message with an id, whatever the id is, comes to what its method comes to: to the reply
/// of the result under the id, to the reply of the reason under the id, or to the question that is
/// put to the store, with the id kept.
pub proof fn law_messages_are_handled(
    text: &str,
    version: &str,
    r: (Option<String>, Step),
    document: JsonTree,
    id: Json,
    method: &str,
    params: Option<&Json>,
    plan: Plan,
    outcome: Result<Json, String>,
    expected: String,
)
    requires
        call_ensures(receive, (text, version), r),
        call_ensures(blank, (text,), false),
        parsed(text@) == Ok::<JsonTree, Seq<char>>(document),
        document.member("id"@) == Some(id@),
        match document.member("method"@) {
            Some(JsonTree::Str(name)) => method@ == name,
            _ => method@.len() == 0,
        },
        match params {
            Some(params) => document.member("params"@) == Some(params@),
            None => document.member("params"@) is None,
        },
        call_ensures(handle, (method, params, version), plan),
        call_ensures(reply, (id, outcome), expected),
    ensures
        match plan {
            Plan::Answer(result) => outcome == Ok::<Json, String>(result) ==> r.1 is Send
                && r.1->Send_0@ == expected@,
            Plan::Refuse(why) => outcome == Err::<Json, String>(why) ==> r.1 is Send
                && r.1->Send_0@ == expected@,
            Plan::Ask(lookup) => {
                &&& r.1 matches Step::Ask { id: under, lookup: asked }
                &&& under@ == id@
                &&& asked@ == lookup@
            },
        },
{
    lemma_method_names();
    assert(method@.len() == 0 ==> method@ =~= ""@);
}

/// Whatever the id of the request is, the store's answer goes out as the reply, under that id, of
/// what counting, listing or fetching makes of it, or of the reason why there is none.
pub proof fn law_answers_are_replied(
    id: Json,
    lookup: Lookup,
    answer: Answer,
    r: Option<String>,
    outcome: Result<Json, String>,
    expected: String,
    wanted: &str,
)
    requires
        call_ensures(finish, (id, lookup, answer), r),
        call_ensures(reply, (id, outcome), expected),
        match (lookup, answer) {
            (Lookup::Count, Answer::Count(Ok(count))) => outcome is Ok && call_ensures(
                stats_result,
                (count,),
                outcome->Ok_0,
            ),
            (Lookup::Count, Answer::Count(Err(why))) => outcome == Err::<Json, String>(why),
            (Lookup::List(_), Answer::List(Ok(flows))) => outcome is Ok && call_ensures(
                list_result,
                (&flows,),
                outcome->Ok_0,
            ),
            (Lookup::List(_), Answer::List(Err(why))) => outcome == Err::<Json, String>(why),
            (Lookup::Get { id: asked, part }, Answer::Get(Ok(Some(flow)))) => wanted@ == part@
                && call_ensures(flow_result, (asked, wanted, Some(&flow)), outcome),
            (Lookup::Get { id: asked, part }, Answer::Get(Ok(None))) => wanted@ == part@
                && call_ensures(flow_result, (asked, wanted, None::<&Flow>), outcome),
            (Lookup::Get { .. }, Answer::Get(Err(why))) => outcome == Err::<Json, String>(why),
            _ => false,
        },
    ensures
        r is Some && r->Some_0@ == expected@,
{
}

/// A reply is written as its document: on one line, with the version, the id of the request, and
/// either the result or the error of the reason, which has the code of an internal error.
pub proof fn law_reply_document(id: Json, outcome: Result<Json, String>, d: Json, line: String)
    requires
        call_ensures(reply_document, (id, outcome), d),
        call_ensures(reply, (id, outcome), line),
    ensures
        line@ == compact_text(d@),
        !line@.contains('\n'),
        d@.member("jsonrpc"@) == Some(JsonTree::Str("2.0"@)),
        d@.member("id"@) == Some(id@),
        outcome matches Ok(result) ==> d@.member("result"@) == Some(result@) && d@.member("error"@)
            is None,
        outcome matches Err(why) ==> {
            &&& d@.member("result"@) is None
            &&& d@.member("error"@) matches Some(error)
            &&& error.member("code"@) == Some(JsonTree::Int(-32603))
            &&& error.member("message"@) == Some(JsonTree::Str(why@))
            &&& forall|name: Seq<char>| #[trigger]
                error.member(name) is Some ==> name == "code"@ || name == "message"@
        },
        forall|name: Seq<char>| #[trigger]
            d@.member(name) is Some ==> name == "jsonrpc"@ || name == "id"@ || name == "result"@
                || name == "error"@,
{
    law_reply_members(id@, crate::rpc::outcome_view(outcome));
}

/// The store's count is replied with under the id of the request, as the result that counting
/// makes of it; and the reason under the same id where there is no count.
pub proof fn law_count_is_replied(
    id: Json,
    answer: Result<i64, String>,
    r: Option<String>,
    count: i64,
    counted: Json,
)
    requires
        call_ensures(finish, (id, Lookup::Count, Answer::Count(answer)), r),
        call_ensures(stats_result, (count,), counted),
        carried(id@),
    ensures
        ({
            &&& r matches Some(line)
            &&& !line@.contains('\n')
            &&& parsed(line@) matches Ok(reply)
            &&& reply.member("id"@) == Some(id@)
            &&& answer == Ok::<i64, String>(count) ==> reply.member("result"@) == Some(counted@)
            &&& answer is Ok ==> reply.member("error"@) is None
            &&& answer is Err ==> {
                &&& reply.member("result"@) is None
                &&& reply.member("error"@) matches Some(error)
                &&& error.member("message"@) == Some(JsonTree::Str(answer->Err_0@))
            }
        }),
{
    law_reply_members(id@, count_outcome(answer));
}

/// The flows that the store lists are replied with under the id of the request, as the result
/// that listing makes of them; and the reason under the same id where there are none.
pub proof fn law_list_is_replied(
    id: Json,
    lookup: Lookup,
    answer: Result<Vec<FlowSummary>, String>,
    r: Option<String>,
    flows: &Vec<FlowSummary>,
    listed: Json,
)
    requires
        lookup is List,
        call_ensures(finish, (id, lookup, Answer::List(answer)), r),
        call_ensures(list_result, (flows,), listed),
        carried(id@),
    ensures
        ({
            &&& r matches Some(line)
            &&& !line@.contains('\n')
            &&& parsed(line@) matches Ok(reply)
            &&& reply.member("id"@) == Some(id@)
            &&& answer == Ok::<Vec<FlowSummary>, String>(*flows) ==> reply.member("result"@) == Some(
                listed@,
            )
            &&& answer is Ok ==> reply.member("error"@) is None
            &&& answer is Err ==> {
                &&& reply.member("result"@) is None
                &&& reply.member("error"@) matches Some(error)
                &&& error.member("message"@) == Some(JsonTree::Str(answer->Err_0@))
            }
        }),
{
    law_reply_members(id@, list_outcome(answer));
}

/// What the store has under the id that was asked for is replied with under the id of the
/// request, as what fetching makes of it for the part that was asked for, a result or an error.
pub proof fn law_flow_is_replied(
    id: Json,
    asked: i64,
    part: String,
    wanted: &str,
    answer: Result<Option<Flow>, String>,
    r: Option<String>,
    found: Option<&Flow>,
    fetched: Result<Json, String>,
)
    requires
        call_ensures(finish, (id, Lookup::Get { id: asked, part }, Answer::Get(answer)), r),
        call_ensures(flow_result, (asked, wanted, found), fetched),
        wanted@ == part@,
        carried(id@),
        answer matches Ok(flow) ==> match found {
            Some(f) => flow == Some(*f),
            None => flow is None,
        },
    ensures
        ({
            &&& r matches Some(line)
            &&& !line@.contains('\n')
            &&& parsed(line@) matches Ok(reply)
            &&& reply.member("id"@) == Some(id@)
            &&& answer is Ok && fetched is Ok ==> reply.member("result"@) == Some(fetched->Ok_0@)
                && reply.member("error"@) is None
            &&& answer is Ok && fetched is Err ==> {
                &&& reply.member("result"@) is None
                &&& reply.member("error"@) matches Some(error)
                &&& error.member("message"@) == Some(JsonTree::Str(fetched->Err_0@))
            }
            &&& answer is Err ==> {
                &&& reply.member("result"@) is None
                &&& reply.member("error"@) matches Some(error)
                &&& error.member("message"@) == Some(JsonTree::Str(answer->Err_0@))
            }
        }),
{
    law_reply_members(id@, get_outcome(asked, part@, answer));
}

/// An answer to another question is not replied with, and every answer to the question is.
pub proof fn law_answers_fit_questions(id: Json, lookup: Lookup, answer: Answer, r: Option<String>)
    requires
        call_ensures(finish, (id, lookup, answer), r),
    ensures
        r is Some <==> (lookup is Count && answer is Count) || (lookup is List && answer is List) || (
        lookup is Get && answer is Get),
{
}

/// Every id that is null, a truth value, an integer or a string is one that replies carry.
pub proof fn law_plain_ids_are_carried(id: JsonTree)
    requires
        id is Null || id is Bool || id is Int || id is Str,
    ensures
        carried(id),
{
}

/// Nothing is asked of a caller: every line, method and answer is taken.
pub proof fn law_every_message_is_taken(
    text: &str,
    version: &str,
    method: &str,
    params: Option<&Json>,
    json: &Json,
    id: Json,
    lookup: Lookup,
    answer: Answer,
    outcome: Result<Json, String>,
)
    ensures
        call_requires(receive, (text, version)),
        call_requires(handle, (method, params, version)),
        call_requires(read_message, (json,)),
        call_requires(finish, (id, lookup, answer)),
        call_requires(reply, (id, outcome)),
        call_requires(reply_document, (id, outcome)),
{
}

} // verus!
