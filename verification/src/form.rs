use vstd::prelude::*;
use vstd::string::StringExecFns;
use crate::error::Error;
use crate::store::NewMessage;
use crate::store::TimeRange;
use crate::text::int_literal_val;
use crate::text::is_i64_literal;
use crate::text::parse_i64;
use crate::text::str_eq;

verus! {

/// The key/value pairs that decoding a form-encoded byte string yields:
/// the input split on `&` and `=`, with `+` and percent escapes decoded.
/// The result depends on the input bytes alone.
pub uninterp spec fn form_fields_of(bytes: Seq<u8>) -> Seq<(Seq<char>, Seq<char>)>;

/// The views of a decoded pair list.
pub open spec fn fields_view(fields: Seq<(String, String)>) -> Seq<(Seq<char>, Seq<char>)> {
    fields.map_values(|p: (String, String)| (p.0@, p.1@))
}

/// Relies on url::form_urlencoded::parse, which splits a form-encoded byte
/// string into percent-decoded key/value pairs; it is deterministic in the
/// input and yields nothing on empty input.
#[verifier::external_body]
fn decode_form(bytes: &[u8]) -> (r: Vec<(String, String)>)
    ensures
        fields_view(r@) == form_fields_of(bytes@),
        bytes@.len() == 0 ==> r@.len() == 0,
{
    url::form_urlencoded::parse(bytes).into_owned().collect()
}

/// The value of the last pair carrying `key`, if any; a later occurrence of a
/// repeated key overrides an earlier one.
pub open spec fn lookup_field(fields: Seq<(Seq<char>, Seq<char>)>, key: Seq<char>) -> Option<
    Seq<char>,
>
    decreases fields.len(),
{
    if fields.len() == 0 {
        None
    } else if fields.last().0 == key {
        Some(fields.last().1)
    } else {
        lookup_field(fields.drop_last(), key)
    }
}

/// Looks `key` up among the decoded pairs, later occurrences overriding
/// earlier ones.
pub fn lookup_field_value(fields: &Vec<(String, String)>, key: &str) -> (r: Option<String>)
    ensures
        match r {
            Some(v) => lookup_field(fields_view(fields@), key@) == Some(v@),
            None => lookup_field(fields_view(fields@), key@) is None,
        },
{
    let mut found: Option<String> = None;
    let n = fields.len();
    for i in 0..n
        invariant
            n == fields@.len(),
            match found {
                Some(v) => lookup_field(fields_view(fields@.take(i as int)), key@) == Some(v@),
                None => lookup_field(fields_view(fields@.take(i as int)), key@) is None,
            },
    {
        proof {
            assert(fields_view(fields@.take(i + 1)).drop_last() =~= fields_view(
                fields@.take(i as int),
            ));
            assert(fields_view(fields@.take(i + 1)).last() == (fields@[i as int].0@, fields@[
                i as int].1@));
        }
        if str_eq(fields[i].0.as_str(), key) {
            found = Some(fields[i].1.clone());
        }
    }
    proof {
        assert(fields_view(fields@.take(n as int)) =~= fields_view(fields@));
    }
    found
}

/// Builds the message to persist from decoded form fields: the `message` field
/// is required, and a missing `username` defaults to "anonymous".
pub fn message_from_fields(fields: &Vec<(String, String)>) -> (r: Result<NewMessage, Error>)
    ensures
        ({
            let fv = fields_view(fields@);
            match r {
                Ok(nm) => lookup_field(fv, "message"@) == Some(nm.message@) && (match lookup_field(
                    fv,
                    "username"@,
                ) {
                    Some(u) => nm.username@ == u,
                    None => nm.username@ == "anonymous"@,
                }),
                Err(e) => lookup_field(fv, "message"@) is None && (e matches Error::MissingField(f)
                    && f@ == "message"@),
            }
        }),
{
    match lookup_field_value(fields, "message") {
        Some(message) => {
            let username = match lookup_field_value(fields, "username") {
                Some(u) => u,
                None => String::from_str("anonymous"),
            };
            Ok(NewMessage { username, message })
        },
        None => Err(Error::MissingField(String::from_str("message"))),
    }
}

/// Parses a form-encoded request body into the message to persist.
pub fn parse_form(body: &[u8]) -> (r: Result<NewMessage, Error>)
    ensures
        ({
            let fv = form_fields_of(body@);
            match r {
                Ok(nm) => lookup_field(fv, "message"@) == Some(nm.message@) && (match lookup_field(
                    fv,
                    "username"@,
                ) {
                    Some(u) => nm.username@ == u,
                    None => nm.username@ == "anonymous"@,
                }),
                Err(e) => lookup_field(fv, "message"@) is None && (e matches Error::MissingField(f)
                    && f@ == "message"@),
            }
        }),
{
    let fields = decode_form(body);
    message_from_fields(&fields)
}

/// What one optional bound parses to: `Some(None)` when the key is absent,
/// `Some(Some(v))` when it is present and a valid `i64`, and `None` when it is
/// present but does not parse.
pub open spec fn parsed_bound(fields: Seq<(Seq<char>, Seq<char>)>, key: Seq<char>) -> Option<
    Option<i64>,
> {
    match lookup_field(fields, key) {
        None => Some(None),
        Some(raw) => if is_i64_literal(raw) {
            Some(Some(int_literal_val(raw) as i64))
        } else {
            None
        },
    }
}

/// The time range that decoded query fields describe, or `None` when either
/// bound fails to parse.
pub open spec fn query_range_of(fields: Seq<(Seq<char>, Seq<char>)>) -> Option<TimeRange> {
    match (parsed_bound(fields, "before"@), parsed_bound(fields, "after"@)) {
        (Some(b), Some(a)) => Some(TimeRange { before: b, after: a }),
        _ => None,
    }
}

/// The error text a failed query parse produces: `before` is checked first,
/// and the offending field and raw value are echoed.
pub open spec fn query_error_message(fields: Seq<(Seq<char>, Seq<char>)>) -> Seq<char>
    recommends
        query_range_of(fields) is None,
{
    if parsed_bound(fields, "before"@) is None {
        match lookup_field(fields, "before"@) {
            Some(raw) => "Error parsing '"@ + "before"@ + "': invalid value '"@ + raw + "'"@,
            None => Seq::empty(),
        }
    } else {
        match lookup_field(fields, "after"@) {
            Some(raw) => "Error parsing '"@ + "after"@ + "': invalid value '"@ + raw + "'"@,
            None => Seq::empty(),
        }
    }
}

/// Parses a query string into the optional `before`/`after` bounds. A present
/// bound that is not a valid `i64` is a hard error naming the field and the
/// raw value; `before` is checked first.
pub fn parse_query(query: &str) -> (r: Result<TimeRange, Error>)
    ensures
        ({
            let fv = form_fields_of(vstd::utf8::encode_utf8(query@));
            match r {
                Ok(tr) => query_range_of(fv) == Some(tr),
                Err(e) => query_range_of(fv) is None && (e matches Error::InvalidQueryParam(
                    f,
                    raw,
                ) && e.message_spec() == query_error_message(fv) && (if parsed_bound(
                    fv,
                    "before"@,
                ) is None {
                    f@ == "before"@ && lookup_field(fv, "before"@) == Some(raw@)
                } else {
                    f@ == "after"@ && lookup_field(fv, "after"@) == Some(raw@)
                })),
            }
        }),
{
    let fields = decode_form(query.as_bytes());
    let before: Option<i64> = match lookup_field_value(&fields, "before") {
        Some(raw) => match parse_i64(raw.as_str()) {
            Some(v) => Some(v),
            None => {
                return Err(Error::InvalidQueryParam(String::from_str("before"), raw));
            },
        },
        None => None,
    };
    let after: Option<i64> = match lookup_field_value(&fields, "after") {
        Some(raw) => match parse_i64(raw.as_str()) {
            Some(v) => Some(v),
            None => {
                return Err(Error::InvalidQueryParam(String::from_str("after"), raw));
            },
        },
        None => None,
    };
    Ok(TimeRange { before, after })
}

} // verus!
