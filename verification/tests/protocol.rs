use snare::json::Json;
use snare::rpc::{
    dispatch, finish, finish_count, finish_get, finish_list, handle, read_line, read_message,
    receive, reply, reply_document, Answer, Line, Message, Step,
};
use snare::tools::{Lookup, Plan};

fn sent(line: &str) -> String {
    match receive(line, "1.2.3") {
        (_, Step::Send(reply)) => reply,
        (_, other) => panic!("{other:?}"),
    }
}

#[test]
fn ping_is_answered_under_its_id() {
    assert_eq!(
        sent(r#"{"jsonrpc":"2.0","id":1,"method":"ping"}"#),
        r#"{"id":1,"jsonrpc":"2.0","result":{}}"#
    );
    assert_eq!(
        sent(r#"{"id":"abc","method":"ping"}"#),
        r#"{"id":"abc","jsonrpc":"2.0","result":{}}"#
    );
    assert_eq!(
        sent(r#"{"id":1.5,"method":"ping"}"#),
        r#"{"id":1.5,"jsonrpc":"2.0","result":{}}"#
    );
    assert_eq!(
        sent(r#"{"id":null,"method":"ping"}"#),
        r#"{"id":null,"jsonrpc":"2.0","result":{}}"#
    );
}

#[test]
fn the_first_call_learns_of_the_server() {
    assert_eq!(
        sent(r#"{"id":0,"method":"initialize","params":{}}"#),
        r#"{"id":0,"jsonrpc":"2.0","result":{"capabilities":{"tools":{}},"protocolVersion":"2024-11-05","serverInfo":{"name":"snare-mcp","version":"1.2.3"}}}"#
    );
}

#[test]
fn the_tools_are_listed() {
    let reply = Json::parse(&sent(r#"{"id":2,"method":"tools/list"}"#)).unwrap();
    let tools = reply.get("result").unwrap().get("tools").unwrap();
    assert_eq!(tools.to_compact(), snare::tools::tool_specs().to_compact());
}

#[test]
fn an_unknown_method_is_an_error() {
    assert_eq!(
        sent(r#"{"id":3,"method":"resources/list"}"#),
        r#"{"error":{"code":-32603,"message":"method not found: resources/list"},"id":3,"jsonrpc":"2.0"}"#
    );
    assert_eq!(
        sent(r#"{"id":3}"#),
        r#"{"error":{"code":-32603,"message":"method not found: "},"id":3,"jsonrpc":"2.0"}"#
    );
    assert_eq!(
        sent(r#"{"id":3,"method":7}"#),
        r#"{"error":{"code":-32603,"message":"method not found: "},"id":3,"jsonrpc":"2.0"}"#
    );
}

#[test]
fn a_refused_tool_is_an_error() {
    assert_eq!(
        sent(r#"{"id":4,"method":"tools/call","params":{"name":"nope"}}"#),
        r#"{"error":{"code":-32603,"message":"unknown tool: nope"},"id":4,"jsonrpc":"2.0"}"#
    );
}

#[test]
fn notifications_get_no_reply() {
    assert_eq!(
        receive(r#"{"method":"notifications/initialized"}"#, "1"),
        (Some("[snare-mcp] -> notifications/initialized".to_string()), Step::Wait)
    );
    assert_eq!(receive("[1,2]", "1"), (Some("[snare-mcp] -> ".to_string()), Step::Wait));
}

#[test]
fn blank_and_unreadable_lines_get_no_reply() {
    assert_eq!(receive("", "1"), (None, Step::Wait));
    assert_eq!(receive("  \t", "1"), (None, Step::Wait));
    assert_eq!(
        receive("{", "1"),
        (
            Some(
                "[snare-mcp] bad json: EOF while parsing an object at line 1 column 1".to_string()
            ),
            Step::Wait
        )
    );
}

#[test]
fn lines_are_told_apart() {
    assert_eq!(read_line(" "), Line::Blank);
    match read_line("nope") {
        Line::Unreadable(why) => assert_eq!(why, "expected ident at line 1 column 2"),
        other => panic!("{other:?}"),
    }
    assert_eq!(
        read_line(r#"{"id":1,"method":"ping","params":[]}"#),
        Line::Message(Message {
            id: Some(Json::integer(1)),
            method: "ping".to_string(),
            params: Some(Json::Array(vec![])),
        })
    );
}

#[test]
fn messages_are_read_from_documents() {
    let message = read_message(&Json::parse(r#"{"method":"x"}"#).unwrap());
    assert_eq!(message.id, None);
    assert_eq!(message.method, "x");
    assert_eq!(message.params, None);
}

#[test]
fn tool_calls_ask_the_store() {
    assert_eq!(
        receive(r#"{"id":9,"method":"tools/call","params":{"name":"proxy_stats"}}"#, "1").1,
        Step::Ask { id: Json::integer(9), lookup: Lookup::Count }
    );
    assert_eq!(handle("tools/call", None, "1"), Plan::Refuse("unknown tool: ".to_string()));
    let message = Message {
        id: Some(Json::text("q")),
        method: "tools/call".to_string(),
        params: Some(
            Json::parse(r#"{"name":"proxy_get_flow","arguments":{"id":5,"part":"response"}}"#)
                .unwrap(),
        ),
    };
    assert_eq!(
        dispatch(message, "1"),
        Step::Ask {
            id: Json::text("q"),
            lookup: Lookup::Get { id: 5, part: "response".to_string() },
        }
    );
}

#[test]
fn the_stores_answers_become_replies() {
    assert_eq!(
        finish_count(Json::integer(9), Ok(3)),
        r#"{"id":9,"jsonrpc":"2.0","result":{"content":[{"text":"{\"flows\":3}","type":"text"}]}}"#
    );
    assert_eq!(
        finish_list(Json::integer(9), Ok(vec![])),
        r#"{"id":9,"jsonrpc":"2.0","result":{"content":[{"text":"[]","type":"text"}]}}"#
    );
    assert_eq!(
        finish_get(Json::integer(9), 5, "all", Ok(None)),
        r#"{"error":{"code":-32603,"message":"flow 5 not found"},"id":9,"jsonrpc":"2.0"}"#
    );
}

#[test]
fn the_stores_failures_become_errors() {
    let expected = r#"{"error":{"code":-32603,"message":"disk I/O error"},"id":1,"jsonrpc":"2.0"}"#;
    let why = || "disk I/O error".to_string();
    assert_eq!(finish_count(Json::integer(1), Err(why())), expected);
    assert_eq!(finish_list(Json::integer(1), Err(why())), expected);
    assert_eq!(finish_get(Json::integer(1), 2, "all", Err(why())), expected);
}

#[test]
fn a_reply_is_one_line_and_reads_back() {
    let line = reply(Json::text("a\nb"), Err("two\nlines".to_string()));
    assert!(!line.contains('\n'));
    let back = Json::parse(&line).unwrap();
    assert_eq!(back.get("id").unwrap().as_str(), Some("a\nb"));
    assert_eq!(back.get("error").unwrap().get("message").unwrap().as_str(), Some("two\nlines"));
    assert_eq!(back.get("error").unwrap().get("code").unwrap().as_i64(), Some(-32603));
    assert_eq!(back.get("result"), None);
    let document = reply_document(Json::integer(1), Ok(Json::Null));
    assert_eq!(document.get("jsonrpc").unwrap().as_str(), Some("2.0"));
    assert_eq!(document.get("result"), Some(&Json::Null));
    assert_eq!(document.get("error"), None);
}

#[test]
fn an_answer_goes_to_the_lookup_that_asked() {
    let asked = |params: &str| {
        let line = format!("{{\"id\":6,\"method\":\"tools/call\",\"params\":{params}}}");
        match receive(&line, "1").1 {
            Step::Ask { id, lookup } => (id, lookup),
            other => panic!("{other:?}"),
        }
    };
    let (id, lookup) = asked(r#"{"name":"proxy_stats"}"#);
    assert_eq!(
        finish(id, lookup, Answer::Count(Ok(3))),
        Some(finish_count(Json::integer(6), Ok(3)))
    );
    let (id, lookup) = asked(r#"{"name":"proxy_list_flows"}"#);
    assert_eq!(
        finish(id, lookup, Answer::List(Ok(vec![]))),
        Some(finish_list(Json::integer(6), Ok(vec![])))
    );
    let get = r#"{"name":"proxy_get_flow","arguments":{"id":44}}"#;
    let (id, lookup) = asked(get);
    assert_eq!(
        finish(id, lookup, Answer::Get(Ok(None))),
        Some(
            r#"{"error":{"code":-32603,"message":"flow 44 not found"},"id":6,"jsonrpc":"2.0"}"#
                .to_string()
        )
    );
    let (id, lookup) = asked(get);
    assert_eq!(finish(id, lookup, Answer::Count(Ok(3))), None);
}
