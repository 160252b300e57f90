use snare::json::{Elements, Fields, Json};

#[test]
fn reads_every_kind_of_document() {
    let json = Json::parse(r#"{"a":null,"b":true,"c":-3,"d":1.5,"e":"x","f":[1,"y",{}]}"#).unwrap();
    assert_eq!(json.get("a"), Some(&Json::Null));
    assert_eq!(json.get("b"), Some(&Json::Bool(true)));
    assert_eq!(json.get("c").unwrap().as_i64(), Some(-3));
    assert_eq!(json.get("d").unwrap().as_i64(), None);
    assert_eq!(json.get("e").unwrap().as_str(), Some("x"));
    assert_eq!(json.get("f").unwrap().to_compact(), r#"[1,"y",{}]"#);
    assert_eq!(json.get("g"), None);
}

#[test]
fn a_text_that_is_no_document_gives_the_reason() {
    assert_eq!(
        Json::parse("{").unwrap_err(),
        "EOF while parsing an object at line 1 column 1"
    );
    assert!(Json::parse("").is_err());
    assert!(Json::parse("{} {}").is_err());
}

#[test]
fn the_later_of_two_members_of_one_name_counts() {
    let json = Json::parse(r#"{"a":1,"a":2}"#).unwrap();
    assert_eq!(json.get("a").unwrap().as_i64(), Some(2));
    let built = Fields::new()
        .with("a", Json::integer(1))
        .with("a", Json::integer(2))
        .into_json();
    assert_eq!(built.get("a").unwrap().as_i64(), Some(2));
    assert_eq!(built.to_compact(), r#"{"a":2}"#);
}

#[test]
fn only_objects_have_members() {
    assert_eq!(Json::parse("[1]").unwrap().get("0"), None);
    assert_eq!(Json::Null.get("a"), None);
    assert_eq!(Json::text("a").get("a"), None);
}

#[test]
fn integers_at_the_limits() {
    let read = |text: &str| Json::parse(text).unwrap().as_i64();
    assert_eq!(read("9223372036854775807"), Some(i64::MAX));
    assert_eq!(read("-9223372036854775808"), Some(i64::MIN));
    assert_eq!(read("9223372036854775808"), None);
    assert_eq!(read("18446744073709551615"), None);
    assert_eq!(read("1e2"), None);
    assert_eq!(read("\"1\""), None);
    assert_eq!(Json::integer(i64::MIN).to_compact(), "-9223372036854775808");
    assert_eq!(Json::integer(i64::MIN).as_i64(), Some(i64::MIN));
}

#[test]
fn compact_text_sorts_members_and_escapes() {
    let json = Fields::new()
        .with("z", Json::text("line\nfeed \"q\" \u{1} ü"))
        .with("a", Elements::new().with(Json::Null).with(Json::Bool(false)).into_json())
        .into_json();
    let text = json.to_compact();
    assert_eq!(text, "{\"a\":[null,false],\"z\":\"line\\nfeed \\\"q\\\" \\u0001 ü\"}");
    assert!(!text.contains('\n'));
    let back = Json::parse(&text).unwrap();
    assert_eq!(back.get("z"), json.get("z"));
    assert_eq!(back.get("a"), json.get("a"));
}

#[test]
fn pretty_text_is_indented_and_reads_back() {
    let json = Fields::new()
        .with("b", Elements::new().with(Json::integer(1)).into_json())
        .with("a", Fields::new().into_json())
        .into_json();
    let text = json.to_pretty();
    assert_eq!(text, "{\n  \"a\": {},\n  \"b\": [\n    1\n  ]\n}");
    assert_eq!(Json::parse(&text).unwrap().to_compact(), json.to_compact());
}

#[test]
fn a_copy_holds_the_same_document() {
    let json = Json::parse(r#"{"a":[1,{"b":"c"}],"d":2.5}"#).unwrap();
    assert_eq!(json.clone(), json);
}

#[test]
fn the_greatest_depth_that_reads_back() {
    let nested = |depth: usize| {
        let mut json = Json::integer(7);
        for _ in 0..depth {
            json = Elements::new().with(json).into_json();
        }
        json
    };
    let fits = nested(127);
    assert_eq!(Json::parse(&fits.to_compact()), Ok(fits));
    assert!(Json::parse(&nested(128).to_compact()).is_err());
}
