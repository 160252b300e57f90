use snare::store::{db_path, Location};

fn location(base: Option<&'static str>, parts: &[&str]) -> Location<&'static str> {
    Location { base, parts: parts.iter().map(|part| part.to_string()).collect() }
}

#[test]
fn the_home_comes_first() {
    let expected = location(Some("/home"), &["data", "flows.sqlite"]);
    assert_eq!(db_path(Some("/home"), Some("/share")), expected);
    assert_eq!(db_path(Some("/home"), None), expected);
}

#[test]
fn the_platforms_directory_comes_next() {
    assert_eq!(
        db_path(None, Some("/share")),
        location(Some("/share"), &["flows.sqlite"])
    );
    assert_eq!(db_path(None, None), location(None, &["flows.sqlite"]));
}
