use jwst_cosmos::json::{
    is_object, read_count, read_flag, read_number, read_optional_number,
    read_optional_small_number, read_optional_text, read_present, read_text, read_text_or_empty,
    texts_of, Json,
};
use jwst_cosmos::services::{
    chain, read_plain, request_below, HttpReply, Method, Payload, ServiceError,
};

fn text(s: &str) -> Json {
    Json::Text(s.to_string())
}

fn number(n: u64) -> Json {
    Json::Number(Some(n), i64::try_from(n).ok())
}

fn object(members: Vec<(&str, Json)>) -> Json {
    Json::Object(members.into_iter().map(|(k, v)| (k.to_string(), v)).collect())
}

#[test]
fn members_and_items_are_found() {
    let doc = object(vec![("a", number(1)), ("b", Json::List(vec![text("x"), Json::Null]))]);
    assert!(matches!(doc.get("a"), Some(Json::Number(Some(1), Some(1)))));
    assert!(doc.get("c").is_none());
    assert!(doc.get("").is_none());
    assert!(doc.at(0).is_none());
    let list = doc.get("b").unwrap();
    assert_eq!(list.at(0).and_then(|j| j.as_str()), Some("x"));
    assert!(matches!(list.at(1), Some(Json::Null)));
    assert!(list.at(2).is_none());
    assert!(list.get("a").is_none());
    assert_eq!(list.as_array().map(|items| items.len()), Some(2));
    assert!(doc.as_array().is_none());
    assert!(doc.as_str().is_none());
    assert!(is_object(&doc));
    assert!(!is_object(list));
    assert!(!is_object(&Json::Null));
}

#[test]
fn texts_are_picked_out() {
    let items = vec![text("a"), number(1), text(""), Json::Bool(true), Json::List(vec![text("no")]), text("b")];
    assert_eq!(texts_of(&items), vec!["a", "", "b"]);
    assert_eq!(texts_of(&Vec::new()), Vec::<String>::new());
}

#[test]
fn fields_are_read_with_their_defaults() {
    let doc = object(vec![
        ("n", number(7)),
        ("big", number(u64::MAX)),
        ("neg", Json::Number(None, Some(-3))),
        ("frac", Json::Number(None, None)),
        ("t", text("hi")),
        ("null", Json::Null),
        ("yes", Json::Bool(true)),
    ]);
    assert_eq!(read_count(&doc, "n"), Some(7));
    assert_eq!(read_count(&doc, "missing"), Some(0));
    assert_eq!(read_count(&doc, "big"), None);
    assert_eq!(read_count(&doc, "neg"), None);
    assert_eq!(read_count(&doc, "null"), None);
    assert_eq!(read_number(&doc, "big"), Some(u64::MAX));
    assert_eq!(read_number(&doc, "missing"), Some(0));
    assert_eq!(read_number(&doc, "frac"), None);
    assert_eq!(read_number(&doc, "t"), None);
    assert_eq!(read_optional_number(&doc, "n"), Some(Some(7)));
    assert_eq!(read_optional_number(&doc, "null"), Some(None));
    assert_eq!(read_optional_number(&doc, "missing"), Some(None));
    assert_eq!(read_optional_number(&doc, "neg"), None);
    assert_eq!(read_optional_small_number(&doc, "neg"), Some(Some(-3)));
    assert_eq!(read_optional_small_number(&doc, "n"), Some(Some(7)));
    assert_eq!(read_optional_small_number(&doc, "big"), None);
    assert_eq!(read_optional_small_number(&doc, "null"), Some(None));
    assert_eq!(read_optional_small_number(&doc, "t"), None);
    assert_eq!(read_text(&doc, "t"), Some("hi".to_string()));
    assert_eq!(read_text(&doc, "n"), None);
    assert_eq!(read_text(&doc, "missing"), None);
    assert_eq!(read_text(&doc, "null"), None);
    assert_eq!(read_optional_text(&doc, "t"), Some(Some("hi".to_string())));
    assert_eq!(read_optional_text(&doc, "null"), Some(None));
    assert_eq!(read_optional_text(&doc, "missing"), Some(None));
    assert_eq!(read_optional_text(&doc, "n"), None);
    assert_eq!(read_text_or_empty(&doc, "t"), Some("hi".to_string()));
    assert_eq!(read_text_or_empty(&doc, "missing"), Some(String::new()));
    assert_eq!(read_text_or_empty(&doc, "null"), None);
    assert_eq!(read_flag(&doc, "yes"), Some(true));
    assert_eq!(read_flag(&doc, "missing"), Some(false));
    assert_eq!(read_flag(&doc, "null"), None);
    assert_eq!(read_flag(&doc, "n"), None);
    assert!(read_present(&doc, "null").is_none());
    assert!(read_present(&doc, "missing").is_none());
    assert!(read_present(&doc, "t").is_some());
    assert_eq!(read_text(&Json::Null, "t"), None);
    assert_eq!(read_count(&Json::List(Vec::new()), "n"), Some(0));
}

#[test]
fn replies_succeed_from_200_to_299() {
    for (status, expected) in [(0, false), (199, false), (200, true), (204, true), (299, true), (300, false), (404, false), (u16::MAX, false)] {
        let reply = HttpReply { status, body: "b".to_string() };
        assert_eq!(reply.is_success(), expected, "{status}");
        assert_eq!(
            read_plain(&reply),
            if expected { Ok(()) } else { Err(ServiceError::Rejected { status, body: "b".to_string() }) }
        );
    }
}

#[test]
fn requests_lie_below_the_base_url() {
    let request = request_below(
        &Some("http://h:1".to_string()),
        Method::Delete,
        "/x",
        Payload::Name("n".to_string()),
    )
    .unwrap();
    assert_eq!((request.method, request.url.as_str()), (Method::Delete, "http://h:1/x"));
    assert_eq!(request.payload, Payload::Name("n".to_string()));
    assert_eq!(
        request_below(&None, Method::Get, "/x", Payload::Empty),
        Err(ServiceError::NotConnected)
    );
    assert_eq!(chain("a", "b"), "ab");
    assert_eq!(chain("", ""), "");
}
