use vstd::prelude::*;
use vstd::utf8::encode_utf8;
use crate::form::form_fields_of;
use crate::form::lookup_field;
use crate::form::parse_form;
use crate::form::parse_query;
use crate::form::query_error_message;
use crate::form::query_range_of;
use crate::html::render_page;
use crate::json::json_error_body;
use crate::json::json_timestamp_body;
use crate::response::HttpResponse;
use crate::response::MediaType;
use crate::response::make_get_response;
use crate::response::make_post_response;
use crate::response::not_found_response;
use crate::store::MessageStore;
use crate::store::TimeRange;
use crate::store::filter_range;
use crate::text::str_eq;

verus! {

/// Which handler serves a request: writes go to `POST /`, reads to `GET /`,
/// and everything else is unrouted.
#[derive(Debug, Clone, Copy, PartialEq, Eq, Structural)]
pub enum Route {
    PostMessage,
    GetMessages,
    NotFound,
}

/// The routing rule, over the request's method and path.
pub open spec fn route_spec(method: Seq<char>, path: Seq<char>) -> Route {
    if method == "POST"@ && path == "/"@ {
        Route::PostMessage
    } else if method == "GET"@ && path == "/"@ {
        Route::GetMessages
    } else {
        Route::NotFound
    }
}

/// Selects the handler for a request's method and path.
pub fn route(method: &str, path: &str) -> (r: Route)
    ensures
        r == route_spec(method@, path@),
{
    if str_eq(method, "POST") && str_eq(path, "/") {
        Route::PostMessage
    } else if str_eq(method, "GET") && str_eq(path, "/") {
        Route::GetMessages
    } else {
        Route::NotFound
    }
}

/// What serving a write request guarantees. A body without a `message` field
/// is rejected before any storage access; otherwise exactly one row is
/// appended, carrying the body's `message`, its `username` (or "anonymous"),
/// and the assigned timestamp, which the response acknowledges.
pub open spec fn post_ensures(
    prev: MessageStore,
    next: MessageStore,
    body: Seq<u8>,
    r: HttpResponse,
) -> bool {
    let fv = form_fields_of(body);
    match lookup_field(fv, "message"@) {
        None => next == prev && r.status == 500 && r.content_type == Some(MediaType::Json)
            && r.body@ == json_error_body("Missing field "@ + "message"@),
        Some(msg) => if prev.next_timestamp == i64::MAX {
            next == prev && r.status == 500 && r.content_type == Some(MediaType::Json) && r.body@
                == json_error_body("Error writing to the database"@)
        } else {
            &&& next.next_timestamp == prev.next_timestamp + 1
            &&& next.rows@.len() == prev.rows@.len() + 1
            &&& next.rows@.drop_last() == prev.rows@
            &&& next.rows@.last().message@ == msg
            &&& next.rows@.last().username@ == (match lookup_field(fv, "username"@) {
                Some(u) => u,
                None => "anonymous"@,
            })
            &&& next.rows@.last().timestamp == prev.next_timestamp
            &&& r.status == 200
            &&& r.content_type == Some(MediaType::Json)
            &&& r.body@ == json_timestamp_body(prev.next_timestamp as int)
        },
    }
}

/// What serving a read request guarantees. A missing query string means an
/// unbounded read; a query string that parses gives the rows inside the
/// window, rendered; one that does not parse is rejected before any storage
/// access, echoing the offending field and value.
pub open spec fn get_ensures(store: MessageStore, query: Option<Seq<char>>, r: HttpResponse) -> bool {
    match query {
        None => r.status == 200 && r.content_type == Some(MediaType::Html) && r.body@
            == render_page(
            filter_range(store.rows@, (TimeRange { before: None, after: None })),
        ),
        Some(q) => {
            let fv = form_fields_of(encode_utf8(q));
            match query_range_of(fv) {
                Some(tr) => r.status == 200 && r.content_type == Some(MediaType::Html) && r.body@
                    == render_page(filter_range(store.rows@, tr)),
                None => r.status == 500 && r.content_type == Some(MediaType::Json) && r.body@
                    == json_error_body(query_error_message(fv)),
            }
        },
    }
}

/// Serves one request against the store: routes on method and path, then
/// either persists a message, reads and renders a window of them, or answers
/// 404. The store changes only when a valid write is persisted.
pub fn handle_request(
    store: &mut MessageStore,
    method: &str,
    path: &str,
    query: Option<&str>,
    body: &[u8],
) -> (r: HttpResponse)
    requires
        old(store).wf(),
    ensures
        final(store).wf(),
        r.wf(),
        match route_spec(method@, path@) {
            Route::NotFound => *final(store) == *old(store) && r.status == 404 && r.content_type
                is None && r.body@ == Seq::<char>::empty(),
            Route::PostMessage => post_ensures(*old(store), *final(store), body@, r),
            Route::GetMessages => *final(store) == *old(store) && get_ensures(
                *old(store),
                (match query {
                    Some(q) => Some(q@),
                    None => None,
                }),
                r,
            ),
        },
{
    match route(method, path) {
        Route::PostMessage => {
            match parse_form(body) {
                Ok(new_message) => {
                    let result = store.insert(new_message);
                    proof {
                        if result is Ok {
                            assert(store.rows@.drop_last() =~= old(store).rows@);
                        }
                    }
                    make_post_response(result)
                },
                Err(e) => make_post_response(Err(e)),
            }
        },
        Route::GetMessages => {
            let time_range = match query {
                Some(q) => parse_query(q),
                None => Ok(TimeRange { before: None, after: None }),
            };
            match time_range {
                Ok(tr) => {
                    let messages = store.query(&tr);
                    make_get_response(Some(messages))
                },
                Err(e) => {
                    let m = e.message();
                    crate::response::make_error_response(m.as_str())
                },
            }
        },
        Route::NotFound => not_found_response(),
    }
}

} // verus!
