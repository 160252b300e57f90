//! Laws on the tools: what a call of one asks the store, and what is made of the store's answer.

use vstd::prelude::*;
use vstd::utf8::*;

use crate::json::{parsed, Json, JsonTree};
use crate::model::{Flow, FlowSummary};
use crate::text::{integer_text, lossy_text};
use crate::tools::{
    flow_result, list_result, law_parts, stats_result, text_result, tool_specs, tools_call, Lookup, Plan,
};

verus! {

proof fn lemma_tool_names()
    ensures
        "proxy_stats"@ != "proxy_list_flows"@,
        "proxy_stats"@ != "proxy_get_flow"@,
        "proxy_list_flows"@ != "proxy_get_flow"@,
        "proxy_stats"@.len() > 0,
        "proxy_list_flows"@.len() > 0,
        "proxy_get_flow"@.len() > 0,
{
    reveal_strlit("proxy_stats");
    reveal_strlit("proxy_list_flows");
    reveal_strlit("proxy_get_flow");
    assert("proxy_stats"@.len() == 11 && "proxy_list_flows"@.len() == 16
        && "proxy_get_flow"@.len() == 14);
}

/// Every call of the tool that lists flows asks the store for a list. The search is the text of
/// the argument `search`, whatever else is given or left out, and none where that is no string;
/// the limit is the integer of the argument `limit`, whatever the search, and fifty where that is
/// none. No host is asked for, and nothing is passed over.
pub proof fn law_list_call(params: Option<&Json>, r: Plan)
    requires
        call_ensures(tools_call, (params,), r),
        params is Some,
        params->Some_0@.member("name"@) == Some(JsonTree::Str("proxy_list_flows"@)),
    ensures
        r matches Plan::Ask(Lookup::List(query)) && {
            let args = params->Some_0@.member("arguments"@);
            let search = if args is Some {
                args->Some_0.member("search"@)
            } else {
                None
            };
            let limit = if args is Some {
                args->Some_0.member("limit"@)
            } else {
                None
            };
            &&& query.host is None
            &&& query.offset == 0
            &&& query.search is Some <==> search is Some && search->Some_0 is Str
            &&& query.search is Some ==> query.search->Some_0@ == search->Some_0->Str_0
            &&& query.limit == if limit is Some && limit->Some_0 is Int && -0x8000_0000_0000_0000
                <= limit->Some_0->Int_0 <= 0x7fff_ffff_ffff_ffff {
                limit->Some_0->Int_0
            } else {
                50
            }
        },
{
    lemma_tool_names();
}

/// A search or limit that is left out, with or without arguments, does not touch the other.
pub proof fn law_list_arguments_are_independent(a: Option<&Json>, b: Option<&Json>, p: Plan, q: Plan)
    requires
        call_ensures(tools_call, (a,), p),
        call_ensures(tools_call, (b,), q),
        a is Some && a->Some_0@.member("name"@) == Some(JsonTree::Str("proxy_list_flows"@)),
        b is Some && b->Some_0@.member("name"@) == Some(JsonTree::Str("proxy_list_flows"@)),
        a->Some_0@.member("arguments"@) is Some,
        b->Some_0@.member("arguments"@) is Some,
    ensures
        p matches Plan::Ask(Lookup::List(x)) && q matches Plan::Ask(Lookup::List(y)) && {
            let of_a = a->Some_0@.member("arguments"@)->Some_0;
            let of_b = b->Some_0@.member("arguments"@)->Some_0;
            &&& of_a.member("search"@) == of_b.member("search"@) ==> {
                &&& x.search is Some <==> y.search is Some
                &&& x.search is Some ==> x.search->Some_0@ == y.search->Some_0@
            }
            &&& of_a.member("limit"@) == of_b.member("limit"@) ==> x.limit == y.limit
        },
{
    lemma_tool_names();
}

/// Every call of the tool that fetches a flow asks the store for the flow of the integer `id`,
/// and is refused without one, whatever the other arguments; the part is the text of the argument
/// `part`, whatever the id, and `all` where that is no string.
pub proof fn law_get_call(params: Option<&Json>, r: Plan)
    requires
        call_ensures(tools_call, (params,), r),
        params is Some,
        params->Some_0@.member("name"@) == Some(JsonTree::Str("proxy_get_flow"@)),
    ensures
        ({
            let args = params->Some_0@.member("arguments"@);
            let id = if args is Some {
                args->Some_0.member("id"@)
            } else {
                None
            };
            let part = if args is Some {
                args->Some_0.member("part"@)
            } else {
                None
            };
            if id is Some && id->Some_0 is Int && -0x8000_0000_0000_0000 <= id->Some_0->Int_0
                <= 0x7fff_ffff_ffff_ffff {
                r matches Plan::Ask(Lookup::Get { id: asked, part: wanted }) && {
                    &&& asked == id->Some_0->Int_0
                    &&& part is Some && part->Some_0 is Str ==> wanted@ == part->Some_0->Str_0
                    &&& part is None || !(part->Some_0 is Str) ==> wanted@ == "all"@
                }
            } else {
                r matches Plan::Refuse(why) && why@ == "missing `id`"@
            }
        }),
{
    lemma_tool_names();
}

/// Every call of the tool that counts flows asks the store for the count, whatever the arguments.
pub proof fn law_stats_call(params: Option<&Json>, r: Plan)
    requires
        call_ensures(tools_call, (params,), r),
        params is Some,
        params->Some_0@.member("name"@) == Some(JsonTree::Str("proxy_stats"@)),
    ensures
        r == Plan::Ask(Lookup::Count),
{
    lemma_tool_names();
}

/// The call of any other name is refused, whatever the arguments, with the name in the reason; a
/// call without a name, or without parameters, counts as one of the empty name.
pub proof fn law_unknown_call(params: Option<&Json>, r: Plan)
    requires
        call_ensures(tools_call, (params,), r),
    ensures
        params is None || params->Some_0@.member("name"@) is None || !(params->Some_0@.member(
            "name"@,
        )->Some_0 is Str) ==> r is Refuse && r->Refuse_0@ == "unknown tool: "@,
        params matches Some(given) ==> (given@.member("name"@) matches Some(JsonTree::Str(name))
            ==> name != "proxy_stats"@ && name != "proxy_list_flows"@ && name != "proxy_get_flow"@
            ==> r is Refuse && r->Refuse_0@ == "unknown tool: "@ + name),
        !(r is Answer),
{
    lemma_tool_names();
    reveal_strlit("");
    assert("unknown tool: "@ + ""@ =~= "unknown tool: "@);
}

/// A result is one piece of content, of the type `text`, with the text.
pub proof fn law_text_result(text: String, r: Json)
    requires
        call_ensures(text_result, (text,), r),
    ensures
        r@.member("content"@) matches Some(JsonTree::Array(pieces)) && {
            &&& pieces.len() == 1
            &&& pieces[0].member("type"@) == Some(JsonTree::Str("text"@))
            &&& pieces[0].member("text"@) == Some(JsonTree::Str(text@))
            &&& forall|name: Seq<char>| #[trigger]
                pieces[0].member(name) is Some ==> name == "type"@ || name == "text"@
        },
        forall|name: Seq<char>| #[trigger] r@.member(name) is Some ==> name == "content"@,
{
    reveal_strlit("type");
    reveal_strlit("text");
    assert("type"@[1] == 'y' && "text"@[1] == 'e');
}

/// Whoever reads the text of the result of counting finds the count, under `flows`, and nothing
/// else.
pub proof fn law_stats_result(count: i64, r: Json)
    requires
        call_ensures(stats_result, (count,), r),
    ensures
        ({
            &&& r@.member("content"@) matches Some(JsonTree::Array(pieces))
            &&& pieces.len() == 1
            &&& pieces[0].member("type"@) == Some(JsonTree::Str("text"@))
            &&& pieces[0].member("text"@) matches Some(JsonTree::Str(text))
            &&& parsed(text) matches Ok(document)
            &&& document.member("flows"@) == Some(JsonTree::Int(count as int))
            &&& forall|name: Seq<char>| #[trigger] document.member(name) is Some ==> name == "flows"@
        }),
{
    reveal_strlit("type");
    reveal_strlit("text");
    assert("type"@[1] == 'y' && "text"@[1] == 'e');
}

proof fn lemma_row_names()
    ensures
        "id"@ != "method"@,
        "id"@ != "url"@,
        "id"@ != "status"@,
        "id"@ != "mime"@,
        "id"@ != "size"@,
        "id"@ != "ms"@,
        "method"@ != "url"@,
        "method"@ != "status"@,
        "method"@ != "mime"@,
        "method"@ != "size"@,
        "method"@ != "ms"@,
        "url"@ != "status"@,
        "url"@ != "mime"@,
        "url"@ != "size"@,
        "url"@ != "ms"@,
        "status"@ != "mime"@,
        "status"@ != "size"@,
        "status"@ != "ms"@,
        "mime"@ != "size"@,
        "mime"@ != "ms"@,
        "size"@ != "ms"@,
{
    reveal_strlit("id");
    reveal_strlit("method");
    reveal_strlit("url");
    reveal_strlit("status");
    reveal_strlit("mime");
    reveal_strlit("size");
    reveal_strlit("ms");
    assert("id"@[0] == 'i' && "ms"@[0] == 'm' && "method"@[0] == 'm' && "status"@[0] == 's'
        && "mime"@[0] == 'm' && "size"@[0] == 's');
    assert("id"@.len() == 2 && "ms"@.len() == 2 && "method"@.len() == 6 && "status"@.len() == 6
        && "url"@.len() == 3 && "mime"@.len() == 4 && "size"@.len() == 4);
}

/// Whoever reads the text of the result of listing finds as many rows as there are flows, and in
/// the place of each flow its id, method, address, status, type, size and time, each null where
/// the flow has none.
pub proof fn law_list_result(flows: &Vec<FlowSummary>, r: Json)
    requires
        call_ensures(list_result, (flows,), r),
    ensures
        ({
            &&& r@.member("content"@) matches Some(JsonTree::Array(pieces))
            &&& pieces.len() == 1
            &&& pieces[0].member("type"@) == Some(JsonTree::Str("text"@))
            &&& pieces[0].member("text"@) matches Some(JsonTree::Str(text))
            &&& parsed(text) matches Ok(JsonTree::Array(rows))
            &&& rows.len() == flows@.len()
            &&& forall|i: int|
            #![trigger rows[i]]
            0 <= i < rows.len() ==> {
                let flow = flows@[i];
                &&& rows[i].member("id"@) == Some(JsonTree::Int(flow.id as int))
                &&& rows[i].member("method"@) == Some(JsonTree::Str(flow.method@))
                &&& rows[i].member("url"@) == Some(
                    JsonTree::Str(flow.scheme@ + "://"@ + flow.host@ + flow.path@),
                )
                &&& rows[i].member("status"@) == Some(
                    if flow.status is Some {
                        JsonTree::Int(flow.status->Some_0 as int)
                    } else {
                        JsonTree::Null
                    },
                )
                &&& rows[i].member("mime"@) == Some(
                    if flow.mime is Some {
                        JsonTree::Str(flow.mime->Some_0@)
                    } else {
                        JsonTree::Null
                    },
                )
                &&& rows[i].member("size"@) == Some(
                    if flow.resp_size is Some {
                        JsonTree::Int(flow.resp_size->Some_0 as int)
                    } else {
                        JsonTree::Null
                    },
                )
                &&& rows[i].member("ms"@) == Some(
                    if flow.duration_ms is Some {
                        JsonTree::Int(flow.duration_ms->Some_0 as int)
                    } else {
                        JsonTree::Null
                    },
                )
                &&& forall|name: Seq<char>| #[trigger]
                    rows[i].member(name) is Some ==> name == "id"@ || name == "method"@ || name
                        == "url"@ || name == "status"@ || name == "mime"@ || name == "size"@ || name
                        == "ms"@
            }
        }),
{
    reveal_strlit("type");
    reveal_strlit("text");
    assert("type"@[1] == 'y' && "text"@[1] == 'e');
    lemma_row_names();
}

proof fn lemma_flow_names()
    ensures
        "method"@ != "url"@,
        "method"@ != "http_version"@,
        "method"@ != "headers"@,
        "method"@ != "body"@,
        "url"@ != "http_version"@,
        "url"@ != "headers"@,
        "url"@ != "body"@,
        "http_version"@ != "headers"@,
        "http_version"@ != "body"@,
        "headers"@ != "body"@,
        "status"@ != "headers"@,
        "status"@ != "body"@,
        "id"@ != "request"@,
        "id"@ != "response"@,
        "request"@ != "response"@,
        "all"@ != "request"@,
        "all"@ != "response"@,
{
    reveal_strlit("method");
    reveal_strlit("url");
    reveal_strlit("http_version");
    reveal_strlit("headers");
    reveal_strlit("body");
    reveal_strlit("status");
    reveal_strlit("id");
    reveal_strlit("request");
    reveal_strlit("response");
    reveal_strlit("all");
    assert("method"@.len() == 6 && "url"@.len() == 3 && "http_version"@.len() == 12
        && "headers"@.len() == 7 && "body"@.len() == 4 && "status"@.len() == 6 && "id"@.len() == 2
        && "request"@.len() == 7 && "response"@.len() == 8 && "all"@.len() == 3);
}

/// Whoever reads the text of a flow that was fetched finds, in the order of the flow, every
/// header field of the request where the request is wanted, and of the response where that is
/// wanted and has come: as many pairs as there are fields, each of the name and the value.
pub proof fn law_fetched_headers(
    id: i64,
    part: &str,
    flow: Option<&Flow>,
    r: Result<Json, String>,
)
    requires
        call_ensures(flow_result, (id, part, flow), r),
        flow is Some,
    ensures
        ({
            &&& r is Ok
            &&& r->Ok_0@.member("content"@) matches Some(JsonTree::Array(pieces))
            &&& pieces.len() == 1
            &&& pieces[0].member("text"@) matches Some(JsonTree::Str(text))
            &&& parsed(text) matches Ok(document)
            &&& part@ == "request"@ || part@ == "all"@ ==> {
                &&& document.member("request"@) is Some
                &&& document.member("request"@)->Some_0.member("headers"@) matches Some(
                    JsonTree::Array(fields),
                )
                &&& fields.len() == flow->Some_0.request.headers@.len()
                &&& forall|i: int|
                    0 <= i < flow->Some_0.request.headers@.len() ==> #[trigger] fields[i] == JsonTree::Array(
                        seq![JsonTree::Str(flow->Some_0.request.headers@[i].0@), JsonTree::Str(flow->Some_0.request.headers@[i].1@)],
                    )
            }
            &&& (part@ == "response"@ || part@ == "all"@) && flow->Some_0.response is Some ==> {
                let got = flow->Some_0.response->Some_0.headers@;
                &&& document.member("response"@) is Some
                &&& document.member("response"@)->Some_0.member("headers"@) matches Some(
                    JsonTree::Array(fields),
                )
                &&& fields.len() == got.len()
                &&& forall|i: int|
                    0 <= i < got.len() ==> #[trigger] fields[i] == JsonTree::Array(
                        seq![JsonTree::Str(got[i].0@), JsonTree::Str(got[i].1@)],
                    )
            }
        }),
{
    reveal_strlit("type");
    reveal_strlit("text");
    assert("type"@[1] == 'y' && "text"@[1] == 'e');
    lemma_flow_names();
    law_parts(*flow->Some_0, part@);
}

/// Whoever reads the text of a flow that was fetched finds its id; its request, with method,
/// address, version and body, exactly if the part is `request` or `all`; and its response, with
/// status and body, exactly if the part is `response` or `all` and it has come. A body that is
/// UTF-8 is found as the text that it encodes.
pub proof fn law_fetched_flow(id: i64, part: &str, flow: Option<&Flow>, r: Result<Json, String>)
    requires
        call_ensures(flow_result, (id, part, flow), r),
        flow is Some,
    ensures
        ({
            &&& r is Ok
            &&& r->Ok_0@.member("content"@) matches Some(JsonTree::Array(pieces))
            &&& pieces.len() == 1
            &&& pieces[0].member("type"@) == Some(JsonTree::Str("text"@))
            &&& pieces[0].member("text"@) matches Some(JsonTree::Str(text))
            &&& parsed(text) matches Ok(document)
            &&& document.member("id"@) == Some(JsonTree::Int(flow->Some_0.id as int))
            &&& document.member("request"@) is Some <==> part@ == "request"@ || part@ == "all"@
            &&& document.member("request"@) matches Some(request) ==> {
                &&& request.member("method"@) == Some(JsonTree::Str(flow->Some_0.request.method@))
                &&& request.member("url"@) == Some(JsonTree::Str(flow->Some_0.request.url@))
                &&& request.member("http_version"@) == Some(JsonTree::Str(flow->Some_0.request.http_version@))
                &&& request.member("body"@) == Some(JsonTree::Str(lossy_text(flow->Some_0.request.body@)))
                &&& valid_utf8(flow->Some_0.request.body@) ==> request.member("body"@) == Some(
                    JsonTree::Str(decode_utf8(flow->Some_0.request.body@)),
                )
                &&& forall|name: Seq<char>| #[trigger]
                    request.member(name) is Some ==> name == "method"@ || name == "url"@ || name
                        == "http_version"@ || name == "headers"@ || name == "body"@
            }
            &&& document.member("response"@) is Some <==> flow->Some_0.response is Some && (part@
                == "response"@ || part@ == "all"@)
            &&& document.member("response"@) matches Some(response) ==> {
                let got = flow->Some_0.response->Some_0;
                &&& response.member("status"@) == Some(JsonTree::Int(got.status as int))
                &&& response.member("body"@) == Some(JsonTree::Str(lossy_text(got.body@)))
                &&& valid_utf8(got.body@) ==> response.member("body"@) == Some(
                    JsonTree::Str(decode_utf8(got.body@)),
                )
                &&& forall|name: Seq<char>| #[trigger]
                    response.member(name) is Some ==> name == "status"@ || name == "headers"@ || name
                        == "body"@
            }
            &&& forall|name: Seq<char>| #[trigger]
                document.member(name) is Some ==> name == "id"@ || name == "request"@ || name
                    == "response"@
        }),
{
    reveal_strlit("type");
    reveal_strlit("text");
    assert("type"@[1] == 'y' && "text"@[1] == 'e');
    lemma_flow_names();
    law_parts(*flow->Some_0, part@);
}

/// A flow that is not there is refused, whatever the part, with the id that was asked for.
pub proof fn law_missing_flow(id: i64, part: &str, r: Result<Json, String>)
    requires
        call_ensures(flow_result, (id, part, None::<&Flow>), r),
    ensures
        r is Err && r->Err_0@ == "flow "@ + integer_text(id as int) + " not found"@,
{
}

proof fn lemma_spec_names()
    ensures
        "name"@ != "description"@,
        "name"@ != "inputSchema"@,
        "description"@ != "inputSchema"@,
        "type"@ != "properties"@,
        "type"@ != "required"@,
        "properties"@ != "required"@,
        "type"@ != "description"@,
        "type"@ != "enum"@,
        "search"@ != "limit"@,
        "id"@ != "part"@,
{
    reveal_strlit("name");
    reveal_strlit("description");
    reveal_strlit("inputSchema");
    reveal_strlit("type");
    reveal_strlit("properties");
    reveal_strlit("required");
    reveal_strlit("enum");
    reveal_strlit("search");
    reveal_strlit("limit");
    reveal_strlit("id");
    reveal_strlit("part");
    assert("name"@.len() == 4 && "type"@.len() == 4 && "enum"@.len() == 4 && "search"@.len() == 6
        && "limit"@.len() == 5 && "id"@.len() == 2 && "part"@.len() == 4 && "properties"@.len()
        == 10 && "required"@.len() == 8);
    assert("description"@[0] == 'd' && "inputSchema"@[0] == 'i' && "type"@[0] == 't'
        && "enum"@[0] == 'e');
}

/// Three tools are listed, in order, each with its name, its description and an object as the
/// schema of its arguments.
pub proof fn law_tools_listed(r: Json)
    requires
        call_ensures(tool_specs, (), r),
    ensures
        ({
            &&& r@ matches JsonTree::Array(tools)
            &&& tools.len() == 3
            &&& tools[0].member("name"@) == Some(JsonTree::Str("proxy_list_flows"@))
            &&& tools[0].member("description"@) == Some(
                JsonTree::Str(
                    "List captured HTTP flows (newest first). Optional case-insensitive substring search over method/host/path."@,
                ),
            )
            &&& tools[1].member("name"@) == Some(JsonTree::Str("proxy_get_flow"@))
            &&& tools[1].member("description"@) == Some(
                JsonTree::Str(
                    "Fetch one full flow (request + response) by id. `part` = request|response|all (default all)."@,
                ),
            )
            &&& tools[2].member("name"@) == Some(JsonTree::Str("proxy_stats"@))
            &&& tools[2].member("description"@) == Some(
                JsonTree::Str("Total number of flows captured."@),
            )
            &&& forall|i: int|
                #![trigger tools[i]]
                0 <= i < 3 ==> {
                    &&& tools[i].member("inputSchema"@) is Some
                    &&& tools[i].member("inputSchema"@)->Some_0.member("type"@) == Some(
                        JsonTree::Str("object"@),
                    )
                    &&& tools[i].member("inputSchema"@)->Some_0.member("properties"@) is Some
                    &&& tools[i].member("inputSchema"@)->Some_0.member("required"@) is Some <==> i
                        == 1
                    &&& forall|name: Seq<char>| #[trigger]
                        tools[i].member(name) is Some ==> name == "name"@ || name == "description"@
                            || name == "inputSchema"@
                    &&& forall|name: Seq<char>| #[trigger]
                        tools[i].member("inputSchema"@)->Some_0.member(name) is Some ==> name
                            == "type"@ || name == "properties"@ || name == "required"@
                }
        }),
{
    lemma_spec_names();
}

/// The arguments of the listed tools: a list takes a string to search for and an integer as the
/// limit, a flow is fetched by an integer, which is required, and one of three parts, and the
/// count takes none.
pub proof fn law_tool_arguments_listed(r: Json)
    requires
        call_ensures(tool_specs, (), r),
    ensures
        ({
            let tools = r@->Array_0;
            let listing = tools[0].member("inputSchema"@)->Some_0.member("properties"@)->Some_0;
            let fetching = tools[1].member("inputSchema"@)->Some_0.member("properties"@)->Some_0;
            let counting = tools[2].member("inputSchema"@)->Some_0.member("properties"@)->Some_0;
            &&& listing.member("search"@) is Some
            &&& listing.member("search"@)->Some_0.member("type"@) == Some(
                JsonTree::Str("string"@),
            )
            &&& listing.member("search"@)->Some_0.member("description"@) == Some(
                JsonTree::Str("substring filter"@),
            )
            &&& listing.member("limit"@) is Some
            &&& listing.member("limit"@)->Some_0.member("type"@) == Some(
                JsonTree::Str("integer"@),
            )
            &&& listing.member("limit"@)->Some_0.member("description"@) == Some(
                JsonTree::Str("max rows (default 50)"@),
            )
            &&& forall|name: Seq<char>| #[trigger]
                listing.member(name) is Some ==> name == "search"@ || name == "limit"@
            &&& forall|name: Seq<char>| #[trigger]
                listing.member("search"@)->Some_0.member(name) is Some ==> name == "type"@ || name
                    == "description"@
            &&& forall|name: Seq<char>| #[trigger]
                listing.member("limit"@)->Some_0.member(name) is Some ==> name == "type"@ || name
                    == "description"@
            &&& fetching.member("id"@) is Some
            &&& fetching.member("id"@)->Some_0.member("type"@) == Some(JsonTree::Str("integer"@))
            &&& fetching.member("part"@) is Some
            &&& fetching.member("part"@)->Some_0.member("type"@) == Some(JsonTree::Str("string"@))
            &&& fetching.member("part"@)->Some_0.member("enum"@) == Some(
                JsonTree::Array(
                    seq![
                        JsonTree::Str("request"@),
                        JsonTree::Str("response"@),
                        JsonTree::Str("all"@),
                    ],
                ),
            )
            &&& forall|name: Seq<char>| #[trigger]
                fetching.member("id"@)->Some_0.member(name) is Some ==> name == "type"@
            &&& forall|name: Seq<char>| #[trigger]
                fetching.member("part"@)->Some_0.member(name) is Some ==> name == "type"@ || name
                    == "enum"@
            &&& forall|name: Seq<char>| #[trigger]
                fetching.member(name) is Some ==> name == "id"@ || name == "part"@
            &&& tools[1].member("inputSchema"@)->Some_0.member("required"@) == Some(
                JsonTree::Array(seq![JsonTree::Str("id"@)]),
            )
            &&& counting is Object
            &&& forall|name: Seq<char>| #[trigger] counting.member(name) is None
        }),
{
    lemma_spec_names();
}

/// Nothing is asked of a caller: every call and every answer of the store is taken.
pub proof fn law_every_call_is_taken(
    params: Option<&Json>,
    text: String,
    count: i64,
    flows: &Vec<FlowSummary>,
    part: &str,
    flow: Option<&Flow>,
)
    ensures
        call_requires(tools_call, (params,)),
        call_requires(tool_specs, ()),
        call_requires(text_result, (text,)),
        call_requires(stats_result, (count,)),
        call_requires(list_result, (flows,)),
        call_requires(flow_result, (count, part, flow)),
{
}

} // verus!
