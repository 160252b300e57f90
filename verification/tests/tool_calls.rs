use snare::json::Json;
use snare::model::{Flow, FlowQuery, FlowRequest, FlowResponse, FlowSummary};
use snare::tools::{
    flow_result, list_result, stats_result, text_result, tool_specs, tools_call, Lookup, Plan,
};

fn call(params: &str) -> Plan {
    tools_call(Some(&Json::parse(params).unwrap()))
}

fn content(result: &Json) -> String {
    match result.get("content") {
        Some(Json::Array(pieces)) => {
            assert_eq!(pieces.len(), 1);
            assert_eq!(pieces[0].get("type").unwrap().as_str(), Some("text"));
            pieces[0].get("text").unwrap().as_str().unwrap().to_string()
        }
        other => panic!("{other:?}"),
    }
}

fn query(search: Option<&str>, limit: i64) -> Plan {
    Plan::Ask(Lookup::List(FlowQuery {
        search: search.map(String::from),
        host: None,
        limit,
        offset: 0,
    }))
}

fn flow() -> Flow {
    Flow {
        id: 7,
        request: FlowRequest {
            method: "POST".to_string(),
            url: "https://example.com/a".to_string(),
            http_version: "HTTP/1.1".to_string(),
            headers: vec![("accept".to_string(), "*/*".to_string())],
            body: b"hi".to_vec(),
        },
        response: Some(FlowResponse {
            status: 404,
            headers: vec![],
            body: vec![0x61, 0xff, 0x62],
        }),
    }
}

#[test]
fn the_list_of_tools() {
    let expected = concat_texts(&[
        r#"[{"description":"List captured HTTP flows (newest first). Optional case-insensitive substring search over method/host/path.","#,
        r#""inputSchema":{"properties":{"limit":{"description":"max rows (default 50)","type":"integer"},"search":{"description":"substring filter","type":"string"}},"type":"object"},"#,
        r#""name":"proxy_list_flows"},"#,
        r#"{"description":"Fetch one full flow (request + response) by id. `part` = request|response|all (default all).","#,
        r#""inputSchema":{"properties":{"id":{"type":"integer"},"part":{"enum":["request","response","all"],"type":"string"}},"required":["id"],"type":"object"},"#,
        r#""name":"proxy_get_flow"},"#,
        r#"{"description":"Total number of flows captured.","inputSchema":{"properties":{},"type":"object"},"name":"proxy_stats"}]"#,
    ]);
    assert_eq!(tool_specs().to_compact(), expected);
}

fn concat_texts(parts: &[&str]) -> String {
    parts.concat()
}

#[test]
fn every_listed_tool_is_known_and_no_other() {
    let names: Vec<String> = match tool_specs() {
        Json::Array(tools) => tools
            .iter()
            .map(|tool| tool.get("name").unwrap().as_str().unwrap().to_string())
            .collect(),
        other => panic!("{other:?}"),
    };
    assert_eq!(names, ["proxy_list_flows", "proxy_get_flow", "proxy_stats"]);
    for name in &names {
        let plan = call(&format!("{{\"name\":\"{name}\"}}"));
        assert_ne!(plan, Plan::Refuse(format!("unknown tool: {name}")));
    }
    assert_eq!(
        call(r#"{"name":"proxy_replay"}"#),
        Plan::Refuse("unknown tool: proxy_replay".to_string())
    );
}

#[test]
fn a_call_without_a_name_is_refused() {
    let refused = Plan::Refuse("unknown tool: ".to_string());
    assert_eq!(tools_call(None), refused);
    assert_eq!(call("{}"), refused);
    assert_eq!(call("null"), refused);
    assert_eq!(call(r#"{"name":5}"#), refused);
}

#[test]
fn counting_asks_for_the_count() {
    assert_eq!(call(r#"{"name":"proxy_stats"}"#), Plan::Ask(Lookup::Count));
}

#[test]
fn listing_takes_search_and_limit() {
    assert_eq!(call(r#"{"name":"proxy_list_flows"}"#), query(None, 50));
    assert_eq!(
        call(r#"{"name":"proxy_list_flows","arguments":{"search":"login","limit":3}}"#),
        query(Some("login"), 3)
    );
    assert_eq!(
        call(r#"{"name":"proxy_list_flows","arguments":{"search":1,"limit":"3"}}"#),
        query(None, 50)
    );
    assert_eq!(
        call(r#"{"name":"proxy_list_flows","arguments":{"limit":-1}}"#),
        query(None, -1)
    );
    assert_eq!(
        call(r#"{"name":"proxy_list_flows","arguments":{"limit":2.5}}"#),
        query(None, 50)
    );
}

#[test]
fn fetching_needs_an_id() {
    let get = |id: i64, part: &str| Plan::Ask(Lookup::Get { id, part: part.to_string() });
    assert_eq!(call(r#"{"name":"proxy_get_flow","arguments":{"id":4}}"#), get(4, "all"));
    assert_eq!(
        call(r#"{"name":"proxy_get_flow","arguments":{"id":4,"part":"request"}}"#),
        get(4, "request")
    );
    let missing = Plan::Refuse("missing `id`".to_string());
    assert_eq!(call(r#"{"name":"proxy_get_flow"}"#), missing);
    assert_eq!(call(r#"{"name":"proxy_get_flow","arguments":{"id":"4"}}"#), missing);
    assert_eq!(call(r#"{"name":"proxy_get_flow","arguments":{"id":4.0}}"#), missing);
}

#[test]
fn a_text_as_a_result() {
    assert_eq!(
        text_result("x".to_string()).to_compact(),
        r#"{"content":[{"text":"x","type":"text"}]}"#
    );
}

#[test]
fn the_count_as_a_result() {
    assert_eq!(content(&stats_result(12)), r#"{"flows":12}"#);
}

#[test]
fn the_list_as_a_result() {
    let flows = vec![
        FlowSummary {
            id: 2,
            method: "GET".to_string(),
            scheme: "https".to_string(),
            host: "example.com".to_string(),
            path: "/x?y=1".to_string(),
            status: Some(200),
            mime: Some("text/html".to_string()),
            resp_size: Some(512),
            duration_ms: Some(31),
        },
        FlowSummary {
            id: 1,
            method: "GET".to_string(),
            scheme: "http".to_string(),
            host: "a".to_string(),
            path: "/".to_string(),
            status: None,
            mime: None,
            resp_size: None,
            duration_ms: None,
        },
    ];
    let text = content(&list_result(&flows));
    assert_eq!(
        Json::parse(&text).unwrap().to_compact(),
        concat_texts(&[
            r#"[{"id":2,"method":"GET","mime":"text/html","ms":31,"size":512,"status":200,"url":"https://example.com/x?y=1"},"#,
            r#"{"id":1,"method":"GET","mime":null,"ms":null,"size":null,"status":null,"url":"http://a/"}]"#,
        ])
    );
    assert!(text.starts_with("[\n  {\n    \"id\": 2,"));
    assert_eq!(content(&list_result(&vec![])), "[]");
}

#[test]
fn a_flow_as_a_result() {
    let fetched = |part: &str| {
        let text = content(&flow_result(7, part, Some(&flow())).unwrap());
        Json::parse(&text).unwrap().to_compact()
    };
    let request = r#""request":{"body":"hi","headers":[["accept","*/*"]],"http_version":"HTTP/1.1","method":"POST","url":"https://example.com/a"}"#;
    let response = "\"response\":{\"body\":\"a\u{fffd}b\",\"headers\":[],\"status\":404}";
    assert_eq!(fetched("all"), format!("{{\"id\":7,{request},{response}}}"));
    assert_eq!(fetched("request"), format!("{{\"id\":7,{request}}}"));
    assert_eq!(fetched("response"), format!("{{\"id\":7,{response}}}"));
    assert_eq!(fetched("headers"), r#"{"id":7}"#);
}

#[test]
fn an_awaited_response_is_left_out() {
    let awaited = Flow { response: None, ..flow() };
    let text = content(&flow_result(7, "all", Some(&awaited)).unwrap());
    let json = Json::parse(&text).unwrap();
    assert!(json.get("request").is_some());
    assert!(json.get("response").is_none());
}

#[test]
fn a_flow_that_is_not_there() {
    assert_eq!(flow_result(-3, "all", None), Err("flow -3 not found".to_string()));
}
