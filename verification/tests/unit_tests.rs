use message_board::error::Error;
use message_board::form::parse_form;
use message_board::form::parse_query;
use message_board::html::escape_html_str;
use message_board::html::render_html;
use message_board::json::error_body;
use message_board::json::json_escape_str;
use message_board::json::timestamp_body;
use message_board::response::internal_error_response;
use message_board::response::make_get_response;
use message_board::response::make_post_response;
use message_board::response::MediaType;
use message_board::service::route;
use message_board::service::Route;
use message_board::store::Message;
use message_board::store::MessageStore;
use message_board::store::TimeRange;
use message_board::text::i64_to_dec_string;
use message_board::text::parse_i64;
use message_board::text::str_eq;

#[test]
fn routing_matches_method_and_path() {
    assert_eq!(route("POST", "/"), Route::PostMessage);
    assert_eq!(route("GET", "/"), Route::GetMessages);
    assert_eq!(route("GET", "/messages"), Route::NotFound);
    assert_eq!(route("DELETE", "/"), Route::NotFound);
    assert_eq!(route("post", "/"), Route::NotFound);
}

#[test]
fn str_eq_compares_contents() {
    assert!(str_eq("abc", "abc"));
    assert!(!str_eq("abc", "abd"));
    assert!(!str_eq("abc", "ab"));
    assert!(str_eq("", ""));
}

#[test]
fn decimal_rendering_matches_expected_values() {
    assert_eq!(i64_to_dec_string(0), "0");
    assert_eq!(i64_to_dec_string(1001), "1001");
    assert_eq!(i64_to_dec_string(-42), "-42");
    assert_eq!(i64_to_dec_string(i64::MAX), "9223372036854775807");
    assert_eq!(i64_to_dec_string(i64::MIN), "-9223372036854775808");
}

#[test]
fn integer_parsing_matches_the_standard_library() {
    for s in [
        "0", "7", "-7", "+42", "1001", "9223372036854775807", "-9223372036854775808",
        "9223372036854775808", "-9223372036854775809", "99999999999999999999999", "",
        "+", "-", "1 2", "1a", "a1", " 1", "1.5", "--1", "+-1",
    ] {
        assert_eq!(parse_i64(s), s.parse::<i64>().ok(), "input {:?}", s);
    }
}

#[test]
fn html_escaping_replaces_the_metacharacters() {
    assert_eq!(escape_html_str("a<b>&\"c\""), "a&lt;b&gt;&amp;&quot;c&quot;");
    assert_eq!(escape_html_str("plain"), "plain");
    assert_eq!(escape_html_str(""), "");
}

#[test]
fn json_escaping_replaces_quotes_backslashes_and_controls() {
    assert_eq!(json_escape_str("a\"b"), "a\\\"b");
    assert_eq!(json_escape_str("a\\b"), "a\\\\b");
    assert_eq!(json_escape_str("a\nb"), "a\\u000ab");
    assert_eq!(json_escape_str("\u{1f}"), "\\u001f");
}

#[test]
fn json_bodies_have_the_expected_shape() {
    assert_eq!(timestamp_body(5), "{\"timestamp\":5}");
    assert_eq!(timestamp_body(-3), "{\"timestamp\":-3}");
    assert_eq!(error_body("boom \"x\""), "{\"error\":\"boom \\\"x\\\"\"}");
}

#[test]
fn error_messages_echo_what_the_client_may_see() {
    assert_eq!(
        Error::MissingField(String::from("message")).message(),
        "Missing field message"
    );
    assert_eq!(
        Error::InvalidQueryParam(String::from("before"), String::from("abc")).message(),
        "Error parsing 'before': invalid value 'abc'"
    );
    assert_eq!(
        Error::StorageConnectFailure.message(),
        "Error connecting to the database"
    );
    assert_eq!(
        Error::StorageReadFailure.message(),
        "Error reading from the database"
    );
    assert_eq!(
        Error::StorageWriteFailure.message(),
        "Error writing to the database"
    );
    assert_eq!(
        Error::RouteNotFound.message(),
        "No route matches the request"
    );
}

#[test]
fn parse_form_requires_message_and_defaults_username() {
    let ok = parse_form(b"message=hello&username=bob").unwrap();
    assert_eq!(ok.message, "hello");
    assert_eq!(ok.username, "bob");

    let anon = parse_form(b"message=hello").unwrap();
    assert_eq!(anon.username, "anonymous");

    let err = parse_form(b"username=bob").unwrap_err();
    match err {
        Error::MissingField(f) => assert_eq!(f, "message"),
        other => panic!("unexpected error {:?}", other),
    }

    assert!(parse_form(b"").is_err());
}

#[test]
fn parse_query_reads_optional_strict_bounds() {
    let tr = parse_query("before=10&after=2").unwrap();
    assert_eq!(tr.before, Some(10));
    assert_eq!(tr.after, Some(2));

    let tr = parse_query("").unwrap();
    assert_eq!(tr.before, None);
    assert_eq!(tr.after, None);

    let tr = parse_query("after=-5").unwrap();
    assert_eq!(tr.after, Some(-5));

    let err = parse_query("before=abc&after=xyz").unwrap_err();
    match err {
        Error::InvalidQueryParam(f, raw) => {
            assert_eq!(f, "before");
            assert_eq!(raw, "abc");
        },
        other => panic!("unexpected error {:?}", other),
    }

    let tr = parse_query("before=9223372036854775807").unwrap();
    assert_eq!(tr.before, Some(i64::MAX));
    assert!(parse_query("before=9223372036854775808").is_err());
}

#[test]
fn repeated_query_keys_keep_the_last_value() {
    let tr = parse_query("before=x&before=5").unwrap();
    assert_eq!(tr.before, Some(5));

    let err = parse_query("before=5&before=x").unwrap_err();
    match err {
        Error::InvalidQueryParam(f, raw) => {
            assert_eq!(f, "before");
            assert_eq!(raw, "x");
        },
        other => panic!("unexpected error {:?}", other),
    }
}

#[test]
fn store_query_selects_strictly_inside_the_window() {
    let mut store = MessageStore::starting_at(10);
    for text in ["a", "b", "c"] {
        let nm = parse_form(format!("message={}", text).as_bytes()).unwrap();
        store.insert(nm).unwrap();
    }
    let ts: Vec<i64> = store.rows.iter().map(|m| m.timestamp).collect();
    assert_eq!(ts, vec![10, 11, 12]);

    let window = |before: Option<i64>, after: Option<i64>| -> Vec<String> {
        store
            .query(&TimeRange { before, after })
            .into_iter()
            .map(|m| m.message)
            .collect()
    };
    assert_eq!(window(None, None), vec!["a", "b", "c"]);
    assert_eq!(window(Some(12), None), vec!["a", "b"]);
    assert_eq!(window(None, Some(10)), vec!["b", "c"]);
    assert_eq!(window(Some(12), Some(10)), vec!["b"]);
    assert_eq!(window(Some(10), None), Vec::<String>::new());
}

#[test]
fn responses_carry_exact_bodies_and_lengths() {
    let ok = make_post_response(Ok(7));
    assert_eq!(ok.status, 200);
    assert_eq!(ok.content_type, Some(MediaType::Json));
    assert_eq!(ok.body, "{\"timestamp\":7}");
    assert_eq!(ok.content_length, 15);

    let err = make_post_response(Err(Error::StorageWriteFailure));
    assert_eq!(err.status, 500);
    assert_eq!(err.body, "{\"error\":\"Error writing to the database\"}");

    let failed_read = make_get_response(None);
    assert_eq!(failed_read.status, 500);
    assert_eq!(failed_read.content_type, None);
    assert_eq!(failed_read.body, "");
    assert_eq!(failed_read.content_length, 0);

    let short_circuit = internal_error_response();
    assert_eq!(short_circuit.status, 500);
    assert_eq!(short_circuit.content_type, None);
    assert_eq!(short_circuit.body, "");
    assert_eq!(short_circuit.content_length, 0);
}

#[test]
fn rendering_lists_messages_in_order() {
    let messages = vec![
        Message { username: String::from("bob"), message: String::from("hello"), timestamp: 1 },
        Message { username: String::from("eve"), message: String::from("hi"), timestamp: 2 },
    ];
    assert_eq!(
        render_html(&messages),
        "<head><title>microservice</title><meta charset=\"utf-8\"></head><body><ul>\
         <li>bob (1): hello</li><li>eve (2): hi</li></ul></body>"
    );
    assert_eq!(
        render_html(&Vec::new()),
        "<head><title>microservice</title><meta charset=\"utf-8\"></head><body><ul></ul></body>"
    );
}
