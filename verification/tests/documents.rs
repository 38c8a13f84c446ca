use chat_view::error::MalformedFrame;
use chat_view::json::{parse, Json};

fn text(s: &str) -> Json {
    Json::Text(s.to_string())
}

#[test]
fn parse_reads_a_string() {
    assert_eq!(parse("\"hi\""), Ok(text("hi")));
}

#[test]
fn parse_undoes_the_escapes_of_a_string() {
    assert_eq!(parse("\"a\\\"b\\\\c\\n\\u00e9\""), Ok(text("a\"b\\c\n\u{e9}")));
}

#[test]
fn parse_reads_the_scalars() {
    assert_eq!(parse("null"), Ok(Json::Null));
    assert_eq!(parse("true"), Ok(Json::Bool(true)));
    assert_eq!(parse("false"), Ok(Json::Bool(false)));
    assert_eq!(parse("17"), Ok(Json::Number("17".to_string())));
    assert_eq!(parse("-4"), Ok(Json::Number("-4".to_string())));
    assert_eq!(parse("-2.5"), Ok(Json::Number("-2.5".to_string())));
}

#[test]
fn parse_reads_a_list_in_order() {
    assert_eq!(
        parse("[\"b\", null, [\"a\"], true]"),
        Ok(Json::List(vec![text("b"), Json::Null, Json::List(vec![text("a")]), Json::Bool(true)]))
    );
}

#[test]
fn parse_hands_out_members_by_key() {
    assert_eq!(
        parse("{\"b\": 1, \"a\": {\"z\": null}}"),
        Ok(Json::Record(vec![
            ("a".to_string(), Json::Record(vec![("z".to_string(), Json::Null)])),
            ("b".to_string(), Json::Number("1".to_string())),
        ]))
    );
}

#[test]
fn parse_keeps_the_last_of_two_members_with_one_key() {
    assert_eq!(
        parse("{\"a\": 1, \"a\": 2}"),
        Ok(Json::Record(vec![("a".to_string(), Json::Number("2".to_string()))]))
    );
}

#[test]
fn parse_allows_space_around_a_document() {
    assert_eq!(parse("  [ ]\n"), Ok(Json::List(vec![])));
}

#[test]
fn parse_rejects_an_open_brace() {
    assert_eq!(parse("{"), Err(MalformedFrame));
}

#[test]
fn parse_rejects_the_empty_text() {
    assert_eq!(parse(""), Err(MalformedFrame));
}

#[test]
fn parse_rejects_text_after_a_document() {
    assert_eq!(parse("{} x"), Err(MalformedFrame));
}

#[test]
fn parse_rejects_a_bare_word() {
    assert_eq!(parse("hello"), Err(MalformedFrame));
}

#[test]
fn get_finds_a_member_of_a_record() {
    let doc = parse("{\"from\": \"bob\", \"message\": \"hi\"}").unwrap();
    assert_eq!(doc.get("from"), Some(&text("bob")));
    assert_eq!(doc.get("message"), Some(&text("hi")));
    assert_eq!(doc.get("fro"), None);
    assert_eq!(doc.get("From"), None);
}

#[test]
fn get_finds_the_first_of_two_members_with_one_key() {
    let doc = Json::Record(vec![("k".to_string(), text("one")), ("k".to_string(), text("two"))]);
    assert_eq!(doc.get("k"), Some(&text("one")));
}

#[test]
fn get_finds_nothing_in_what_is_no_record() {
    assert_eq!(text("from").get("from"), None);
    assert_eq!(Json::List(vec![text("from")]).get("from"), None);
    assert_eq!(Json::Null.get(""), None);
}
