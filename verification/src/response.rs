use vstd::prelude::*;
use vstd::utf8::encode_utf8;
use crate::error::Error;
use crate::html::render_html;
use crate::html::render_page;
use crate::json::error_body;
use crate::json::json_error_body;
use crate::json::json_timestamp_body;
use crate::json::timestamp_body;
use crate::store::Message;

verus! {

/// The media type named by a response's content-type header.
#[derive(Debug, Clone, Copy, PartialEq, Eq, Structural)]
pub enum MediaType {
    Json,
    Html,
}

/// An HTTP response as the handlers shape it: a status code, an optional
/// content type, the content length to declare, and the body text.
#[derive(Debug)]
pub struct HttpResponse {
    pub status: u16,
    pub content_type: Option<MediaType>,
    pub content_length: usize,
    pub body: String,
}

impl HttpResponse {
    /// The declared content length is the exact byte length of the body's
    /// UTF-8 encoding.
    pub open spec fn wf(&self) -> bool {
        self.content_length == encode_utf8(self.body@).len() as usize
    }

    fn with_body(status: u16, content_type: Option<MediaType>, body: String) -> (r: Self)
        ensures
            r.wf(),
            r.status == status,
            r.content_type == content_type,
            r.body == body,
    {
        let content_length = body.as_str().len();
        HttpResponse { status, content_type, content_length, body }
    }

    fn empty(status: u16) -> (r: Self)
        ensures
            r.wf(),
            r.status == status,
            r.content_type is None,
            r.body@ == Seq::<char>::empty(),
    {
        Self::with_body(status, None, String::new())
    }
}

/// The acknowledgment for the write path: on success a JSON body carrying the
/// assigned timestamp with status 200, on failure a JSON error body with
/// status 500.
pub fn make_post_response(result: Result<i64, Error>) -> (r: HttpResponse)
    ensures
        r.wf(),
        match result {
            Ok(ts) => r.status == 200 && r.content_type == Some(MediaType::Json) && r.body@
                == json_timestamp_body(ts as int),
            Err(e) => r.status == 500 && r.content_type == Some(MediaType::Json) && r.body@
                == json_error_body(e.message_spec()),
        },
{
    match result {
        Ok(ts) => HttpResponse::with_body(200, Some(MediaType::Json), timestamp_body(ts)),
        Err(e) => make_error_response(e.message().as_str()),
    }
}

/// A status-500 response whose JSON body echoes the given error text.
pub fn make_error_response(error_message: &str) -> (r: HttpResponse)
    ensures
        r.wf(),
        r.status == 500,
        r.content_type == Some(MediaType::Json),
        r.body@ == json_error_body(error_message@),
{
    HttpResponse::with_body(500, Some(MediaType::Json), error_body(error_message))
}

/// The read path's response: the rendered message list with status 200 when a
/// read succeeded, and a bodyless status 500 when the storage read failed.
pub fn make_get_response(messages: Option<Vec<Message>>) -> (r: HttpResponse)
    ensures
        r.wf(),
        match messages {
            Some(ms) => r.status == 200 && r.content_type == Some(MediaType::Html) && r.body@
                == render_page(ms@),
            None => r.status == 500 && r.content_type is None && r.body@
                == Seq::<char>::empty(),
        },
{
    match messages {
        Some(ms) => HttpResponse::with_body(200, Some(MediaType::Html), render_html(&ms)),
        None => HttpResponse::empty(500),
    }
}

/// The bodyless response for a request that matches no route.
pub fn not_found_response() -> (r: HttpResponse)
    ensures
        r.wf(),
        r.status == 404,
        r.content_type is None,
        r.body@ == Seq::<char>::empty(),
{
    HttpResponse::empty(404)
}

/// The bodyless response for a failure before any handler ran, such as a
/// storage connection that could not be acquired.
pub fn internal_error_response() -> (r: HttpResponse)
    ensures
        r.wf(),
        r.status == 500,
        r.content_type is None,
        r.body@ == Seq::<char>::empty(),
{
    HttpResponse::empty(500)
}

} // verus!
