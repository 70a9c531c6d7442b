use mawaku::document::{entry as toml_entry, get, Toml};
use mawaku::json::{
    entry, find, number, parse, read_optional_text, read_required_text, read_required_texts,
    render, text_array, Json, Member,
};

#[test]
fn json_is_read_into_a_tree() {
    let tree = parse(r#"{"b": [1, "two", null, true], "a": {"c": "d"}}"#).expect("valid JSON");
    let members = tree.members().expect("an object");
    assert_eq!(members.len(), 2);
    let a = find(members, "a").expect("member a");
    assert_eq!(
        find(a.members().expect("an object"), "c").and_then(Json::as_text),
        Some("d")
    );
    let b = find(members, "b").and_then(Json::items).expect("an array");
    assert_eq!(b.len(), 4);
    assert!(matches!(b[0], Json::Number(_)));
    assert_eq!(b[1].as_text(), Some("two"));
    assert!(b[2].is_null());
    assert!(matches!(b[3], Json::Bool(true)));
    assert!(find(members, "z").is_none());
    assert!(tree.items().is_none() && tree.as_text().is_none() && !tree.is_null());
}

#[test]
fn json_errors_keep_the_words_of_the_parser() {
    let words = parse("{\"a\": ").expect_err("cut short");
    assert!(words.contains("EOF"));
    assert!(parse("").is_err());
    assert!(parse("nul").is_err());
}

#[test]
fn json_is_written_compactly() {
    let tree = Json::object(vec![
        entry("name", Json::text("a \"b\"")),
        entry(
            "list",
            Json::array(vec![number(7), Json::Null, Json::Bool(false)]),
        ),
        entry("words", text_array(&vec!["x".to_string(), "y".to_string()])),
    ]);
    let written = render(&tree);
    let expected: serde_json::Value =
        serde_json::from_str(r#"{"name": "a \"b\"", "list": [7, null, false], "words": ["x", "y"]}"#)
            .expect("valid JSON");
    let read: serde_json::Value = serde_json::from_str(&written).expect("valid JSON");
    assert_eq!(read, expected);
    assert!(!written.contains('\n') && !written.contains(": "));
    assert_eq!(render(&number(0)), "0");
    assert_eq!(render(&number(u32::MAX)), "4294967295");
    assert_eq!(render(&Json::text("hi")), "\"hi\"");
}

#[test]
fn json_members_are_read_by_kind() {
    let members: Vec<Member> = vec![
        entry("text", Json::text("t")),
        entry("none", Json::Null),
        entry("flag", Json::Bool(true)),
        entry("list", text_array(&vec!["a".to_string(), "b".to_string()])),
        entry("mixed", Json::array(vec![Json::text("a"), Json::Null])),
    ];
    assert_eq!(read_optional_text(&members, "text"), Ok(Some("t".to_string())));
    assert_eq!(read_optional_text(&members, "none"), Ok(None));
    assert_eq!(read_optional_text(&members, "absent"), Ok(None));
    assert_eq!(
        read_optional_text(&members, "flag"),
        Err("invalid type: flag".to_string())
    );
    assert_eq!(read_required_text(&members, "text"), Ok("t".to_string()));
    assert_eq!(
        read_required_text(&members, "none"),
        Err("invalid type: none".to_string())
    );
    assert_eq!(
        read_required_text(&members, "absent"),
        Err("missing field: absent".to_string())
    );
    assert_eq!(
        read_required_texts(&members, "list"),
        Ok(vec!["a".to_string(), "b".to_string()])
    );
    assert_eq!(
        read_required_texts(&members, "mixed"),
        Err("invalid type: mixed".to_string())
    );
    assert_eq!(
        read_required_texts(&members, "text"),
        Err("invalid type: text".to_string())
    );
    assert_eq!(
        read_required_texts(&members, "absent"),
        Err("missing field: absent".to_string())
    );
}

#[test]
fn toml_is_read_into_a_tree() {
    let tree = mawaku::document::parse("name = \"n\"\ncount = 3\n[table]\ninner = \"i\"\nlist = [1, 2]\n")
        .expect("valid TOML");
    let root = tree.entries().expect("a table");
    assert_eq!(root.len(), 3);
    assert_eq!(get(root, "name").and_then(Toml::as_text), Some("n"));
    assert!(matches!(get(root, "count"), Some(Toml::Other(_))));
    let table = get(root, "table").and_then(Toml::entries).expect("a table");
    assert_eq!(get(table, "inner").and_then(Toml::as_text), Some("i"));
    assert!(matches!(get(table, "list"), Some(Toml::Other(_))));
    assert!(get(root, "absent").is_none());
    assert!(tree.as_text().is_none());
}

#[test]
fn toml_errors_keep_the_words_of_the_parser() {
    let words = mawaku::document::parse("a = ").expect_err("cut short");
    assert!(!words.is_empty());
    assert!(mawaku::document::parse("[a]\n[a]\n").is_err());
}

#[test]
fn toml_is_written_with_what_was_read() {
    let stored = "count = 3\nname = \"n\"\n\n[table]\ninner = \"i\"\nlist = [1, 2]\n";
    let tree = mawaku::document::parse(stored).expect("valid TOML");
    let written = mawaku::document::render(&tree).expect("a table can be written");
    let read: toml::Value = written.parse().expect("valid TOML");
    let expected: toml::Value = stored.parse().expect("valid TOML");
    assert_eq!(read, expected);

    let built = Toml::table(vec![
        toml_entry("b", Toml::text("two")),
        toml_entry("a", Toml::table(vec![toml_entry("c", Toml::text("d"))])),
    ]);
    assert_eq!(
        mawaku::document::render(&built).as_deref(),
        Ok("b = \"two\"\n\n[a]\nc = \"d\"\n")
    );
    assert!(mawaku::document::render(&Toml::text("alone")).is_err());
}
