use message_board::response::MediaType;
use message_board::service::handle_request;
use message_board::store::MessageStore;

const PAGE_HEAD: &str = "<head><title>microservice</title><meta charset=\"utf-8\"></head><body><ul>";
const PAGE_TAIL: &str = "</ul></body>";

#[test]
fn post_then_get_renders_the_message() {
    let mut store = MessageStore::starting_at(1001);
    let r = handle_request(&mut store, "POST", "/", None, b"message=hello&username=bob");
    assert_eq!(r.status, 200);
    assert_eq!(r.content_type, Some(MediaType::Json));
    assert_eq!(r.body, "{\"timestamp\":1001}");
    assert_eq!(r.content_length, r.body.as_bytes().len());

    let g = handle_request(&mut store, "GET", "/", None, b"");
    assert_eq!(g.status, 200);
    assert_eq!(g.content_type, Some(MediaType::Html));
    assert!(g.body.contains("bob (1001): hello"));
    assert_eq!(
        g.body,
        format!("{}<li>bob (1001): hello</li>{}", PAGE_HEAD, PAGE_TAIL)
    );
    assert_eq!(g.content_length, g.body.as_bytes().len());
}

#[test]
fn post_without_username_stores_anonymous() {
    let mut store = MessageStore::new();
    let r = handle_request(&mut store, "POST", "/", None, b"message=hi");
    assert_eq!(r.status, 200);
    assert_eq!(store.rows.len(), 1);
    assert_eq!(store.rows[0].username, "anonymous");
    assert_eq!(store.rows[0].message, "hi");
    assert_eq!(store.rows[0].timestamp, 1);
}

#[test]
fn post_without_message_persists_nothing() {
    let mut store = MessageStore::new();
    let r = handle_request(&mut store, "POST", "/", None, b"username=bob");
    assert_eq!(r.status, 500);
    assert_eq!(r.content_type, Some(MediaType::Json));
    assert_eq!(r.body, "{\"error\":\"Missing field message\"}");
    assert_eq!(store.rows.len(), 0);
    assert_eq!(store.next_timestamp, 1);
}

#[test]
fn get_with_bad_bound_is_rejected_before_storage() {
    let mut store = MessageStore::new();
    handle_request(&mut store, "POST", "/", None, b"message=hi");
    let rows_before = store.rows.len();
    let r = handle_request(&mut store, "GET", "/", Some("before=abc"), b"");
    assert_eq!(r.status, 500);
    assert_eq!(r.content_type, Some(MediaType::Json));
    assert_eq!(
        r.body,
        "{\"error\":\"Error parsing 'before': invalid value 'abc'\"}"
    );
    assert_eq!(store.rows.len(), rows_before);

    let r = handle_request(&mut store, "GET", "/", Some("after=1x"), b"");
    assert_eq!(r.status, 500);
    assert_eq!(
        r.body,
        "{\"error\":\"Error parsing 'after': invalid value '1x'\"}"
    );
}

#[test]
fn get_filters_strictly_by_before_and_after() {
    let mut store = MessageStore::new();
    handle_request(&mut store, "POST", "/", None, b"message=one");
    handle_request(&mut store, "POST", "/", None, b"message=two");
    handle_request(&mut store, "POST", "/", None, b"message=three");

    let all = handle_request(&mut store, "GET", "/", None, b"");
    assert!(all.body.contains("one") && all.body.contains("two") && all.body.contains("three"));

    let before = handle_request(&mut store, "GET", "/", Some("before=3"), b"");
    assert!(before.body.contains("one") && before.body.contains("two"));
    assert!(!before.body.contains("three"));

    let after = handle_request(&mut store, "GET", "/", Some("after=1"), b"");
    assert!(!after.body.contains("one"));
    assert!(after.body.contains("two") && after.body.contains("three"));

    let both = handle_request(&mut store, "GET", "/", Some("before=3&after=1"), b"");
    assert_eq!(
        both.body,
        format!("{}<li>anonymous (2): two</li>{}", PAGE_HEAD, PAGE_TAIL)
    );
}

#[test]
fn rendered_markup_in_username_is_escaped() {
    let mut store = MessageStore::new();
    let r = handle_request(
        &mut store,
        "POST",
        "/",
        None,
        b"message=hi&username=%3Cb%3Ex%3C%2Fb%3E",
    );
    assert_eq!(r.status, 200);
    assert_eq!(store.rows[0].username, "<b>x</b>");

    let g = handle_request(&mut store, "GET", "/", None, b"");
    assert!(!g.body.contains("<b>x</b>"));
    assert!(g.body.contains("&lt;b&gt;x&lt;/b&gt; (1): hi"));
}

#[test]
fn unmatched_routes_answer_404_with_no_body() {
    let mut store = MessageStore::new();
    let r = handle_request(&mut store, "PUT", "/", None, b"message=hi");
    assert_eq!(r.status, 404);
    assert_eq!(r.content_type, None);
    assert_eq!(r.body, "");
    assert_eq!(r.content_length, 0);
    assert_eq!(store.rows.len(), 0);

    let r = handle_request(&mut store, "GET", "/other", None, b"");
    assert_eq!(r.status, 404);
}

#[test]
fn exhausted_timestamps_fail_the_write_and_persist_nothing() {
    let mut store = MessageStore::starting_at(i64::MAX);
    let r = handle_request(&mut store, "POST", "/", None, b"message=hi");
    assert_eq!(r.status, 500);
    assert_eq!(r.body, "{\"error\":\"Error writing to the database\"}");
    assert_eq!(store.rows.len(), 0);
}

#[test]
fn percent_escapes_and_plus_are_decoded() {
    let mut store = MessageStore::new();
    let r = handle_request(&mut store, "POST", "/", None, b"message=a%26b%3Dc+d");
    assert_eq!(r.status, 200);
    assert_eq!(store.rows[0].message, "a&b=c d");
}

#[test]
fn content_length_counts_bytes_not_characters() {
    let mut store = MessageStore::new();
    let r = handle_request(&mut store, "POST", "/", None, b"message=caf%C3%A9");
    assert_eq!(r.status, 200);
    assert_eq!(store.rows[0].message, "café");
    let g = handle_request(&mut store, "GET", "/", None, b"");
    assert!(g.body.contains("café"));
    assert_eq!(g.content_length, g.body.as_bytes().len());
    assert!(g.content_length > g.body.chars().count());
}

#[test]
fn repeated_fields_keep_the_last_value() {
    let mut store = MessageStore::new();
    let r = handle_request(&mut store, "POST", "/", None, b"message=first&message=second");
    assert_eq!(r.status, 200);
    assert_eq!(store.rows[0].message, "second");
}
