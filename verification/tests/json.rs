use nakama_rs::json::{chars_of, parse, write_text, Json, Member};

fn text(value: &str) -> Json {
    Json::Text(value.to_owned())
}

fn number(value: &str) -> Json {
    Json::Number(value.to_owned())
}

fn member(name: &str, value: Json) -> Member {
    Member { name: name.to_owned(), value }
}

fn optional(name: &str, value: Option<&str>) -> Option<Member> {
    value.map(|value| member(name, text(value)))
}

#[test]
fn test_serialization() {
    fn object(a: Option<&str>, b: Option<&str>, c: Option<&str>) -> Json {
        Json::Object(
            vec![optional("a", a), optional("b", b), optional("c", c)]
                .into_iter()
                .flatten()
                .collect(),
        )
    }
    let result = object(Some("string"), Some("hello"), None).to_text();
    let result2 = object(None, Some("string"), Some("hello")).to_text();
    assert_eq!(result2, "{\"b\":\"string\",\"c\":\"hello\"}");
    assert_eq!(result, "{\"a\":\"string\",\"b\":\"hello\"}");
}

#[test]
fn scalars_are_written_plainly() {
    assert_eq!(Json::Null.to_text(), "null");
    assert_eq!(Json::Bool(true).to_text(), "true");
    assert_eq!(Json::Bool(false).to_text(), "false");
    assert_eq!(number("-12.5e3").to_text(), "-12.5e3");
    assert_eq!(text("hello").to_text(), "\"hello\"");
    assert_eq!(text("").to_text(), "\"\"");
}

#[test]
fn arrays_and_objects_are_written_without_blanks() {
    assert_eq!(Json::Array(vec![]).to_text(), "[]");
    assert_eq!(Json::Object(vec![]).to_text(), "{}");
    assert_eq!(Json::Array(vec![number("1"), number("2"), Json::Null]).to_text(), "[1,2,null]");
    let nested = Json::Object(vec![
        member("a", Json::Array(vec![Json::Object(vec![member("b", Json::Bool(true))])])),
        member("c", text("d")),
    ]);
    assert_eq!(nested.to_text(), "{\"a\":[{\"b\":true}],\"c\":\"d\"}");
}

#[test]
fn strings_are_escaped() {
    assert_eq!(text("say \"hi\"").to_text(), "\"say \\\"hi\\\"\"");
    assert_eq!(text("a\\b").to_text(), "\"a\\\\b\"");
    assert_eq!(text("line\nbreak\ttab").to_text(), "\"line\\u000abreak\\u0009tab\"");
    assert_eq!(text("\u{0}\u{1f}").to_text(), "\"\\u0000\\u001f\"");
    assert_eq!(text("caf\u{e9} \u{1f600}").to_text(), "\"caf\u{e9} \u{1f600}\"");
    assert_eq!(text("a/b").to_text(), "\"a/b\"");
    let mut out = String::from("x=");
    write_text("y", &mut out);
    assert_eq!(out, "x=\"y\"");
}

#[test]
fn scalars_are_read() {
    assert_eq!(parse("null"), Some(Json::Null));
    assert_eq!(parse("true"), Some(Json::Bool(true)));
    assert_eq!(parse("false"), Some(Json::Bool(false)));
    assert_eq!(parse("0"), Some(number("0")));
    assert_eq!(parse("-0"), Some(number("-0")));
    assert_eq!(parse("12"), Some(number("12")));
    assert_eq!(parse("-12.50"), Some(number("-12.50")));
    assert_eq!(parse("1e9"), Some(number("1e9")));
    assert_eq!(parse("1.5E-3"), Some(number("1.5E-3")));
    assert_eq!(parse("2e+2"), Some(number("2e+2")));
    assert_eq!(parse("\"hi\""), Some(text("hi")));
}

#[test]
fn blanks_are_allowed_between_the_parts() {
    assert_eq!(parse(" \n\t 1 \r\n"), Some(number("1")));
    assert_eq!(
        parse(" { \"a\" : [ 1 , 2 ] , \"b\" : { } } "),
        Some(Json::Object(vec![
            member("a", Json::Array(vec![number("1"), number("2")])),
            member("b", Json::Object(vec![])),
        ]))
    );
    assert_eq!(parse("[ ]"), Some(Json::Array(vec![])));
}

#[test]
fn every_escape_is_read() {
    assert_eq!(parse("\"\\\"\\\\\\/\\b\\f\\n\\r\\t\""), Some(text("\"\\/\u{8}\u{c}\n\r\t")));
    assert_eq!(parse("\"\\u0041\\u00e9\\u20AC\""), Some(text("A\u{e9}\u{20ac}")));
    assert_eq!(parse("\"\\ud83d\\ude00\""), Some(text("\u{1f600}")));
    assert_eq!(parse("\"\\u003cb\\u003e\""), Some(text("<b>")));
    assert_eq!(parse("\"caf\u{e9}\""), Some(text("caf\u{e9}")));
}

#[test]
fn members_keep_their_order_and_their_doubles() {
    assert_eq!(
        parse("{\"b\":1,\"a\":2,\"b\":3}"),
        Some(Json::Object(vec![
            member("b", number("1")),
            member("a", number("2")),
            member("b", number("3")),
        ]))
    );
}

#[test]
fn text_that_is_not_json_is_refused() {
    for bad in [
        "", " ", "nul", "tru", "True", "01", "1.", ".5", "1e", "1e+", "-", "+1", "0x10", "1 2",
        "[", "]", "[1,]", "[,1]", "[1 2]", "{", "}", "{\"a\"}", "{\"a\":}", "{\"a\":1,}",
        "{a:1}", "{\"a\" 1}", "{1:2}", "\"", "\"abc", "\"\\x\"", "\"\\u12\"", "\"\\u12g4\"",
        "\"\\ud83d\"", "\"\\ud83dx\"", "\"\\ud83d\\u0041\"", "\"\\ude00\"", "\"a\nb\"", "nullx",
        "{\"a\":1}}", "[1]]", "'a'",
    ] {
        assert_eq!(parse(bad), None, "{:?} was taken for JSON", bad);
    }
}

#[test]
fn nesting_has_a_limit() {
    let deep = |levels: usize| format!("{}{}", "[".repeat(levels), "]".repeat(levels));
    assert!(parse(&deep(1)).is_some());
    assert!(parse(&deep(64)).is_some());
    assert!(parse(&deep(65)).is_none());
    assert!(parse(&deep(10_000)).is_none());
    let wide = format!("[{}0]", "0,".repeat(50_000));
    assert!(parse(&wide).is_some());
}

#[test]
fn reading_a_value_undoes_writing_it() {
    let values = vec![
        Json::Null,
        Json::Bool(true),
        number("-1.5e-7"),
        text("plain"),
        text("\"quoted\" \\ and\ncontrol\u{1}\u{1f} chars / caf\u{e9} \u{1f600}"),
        Json::Array(vec![]),
        Json::Object(vec![]),
        Json::Array(vec![Json::Array(vec![Json::Array(vec![number("0")])]), Json::Null]),
        Json::Object(vec![
            member("", text("")),
            member("k\"ey", Json::Object(vec![member("in\\ner", Json::Array(vec![text("x")]))])),
            member("n", number("10")),
        ]),
    ];
    for value in values {
        assert_eq!(parse(&value.to_text()), Some(value));
    }
}

#[test]
fn characters_are_taken_one_by_one() {
    assert_eq!(chars_of("a\u{e9}\u{1f600}"), vec!['a', '\u{e9}', '\u{1f600}']);
    assert!(chars_of("").is_empty());
}

#[test]
fn strings_are_written_as_the_usual_encoder_reads_them() {
    for sample in ["", "plain", "q\"uote", "back\\slash", "new\nline", "\u{7}bell", "caf\u{e9}"] {
        let written = text(sample).to_text();
        let read: String = nanoserde::DeJson::deserialize_json(&written).unwrap();
        assert_eq!(read, sample);
        let theirs = nanoserde::SerJson::serialize_json(&sample.to_owned());
        assert_eq!(parse(&theirs), Some(text(sample)));
    }
}
