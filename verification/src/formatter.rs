//! The response formatter, an external middleware program shipped with the
//! executor: it marks requests it saw and pretty-prints JSON responses.
use crate::clock::{is_clock_stamp, now_rfc3339};
use crate::middleware::external::MiddlewareResponse;
use crate::text::{join, text_eq};
use vstd::prelude::*;
use vstd::string::*;
use vstd::utf8::encode_utf8;

verus! {

/// The compact JSON text (`serde_json::Value`'s `to_string`) of the value
/// that `serde_json::from_str::<serde_json::Value>` reads from `text`, or
/// none when it reads none.
pub uninterp spec fn json_parse_text(text: Seq<char>) -> Option<Seq<char>>;

/// For the JSON text of an object: the compact text of that object once
/// `as_object_mut().insert(key, Value::String(value))` has set the member;
/// none when the text does not read as an object.
pub uninterp spec fn json_with_member(json: Seq<char>, key: Seq<char>, value: Seq<char>) -> Option<
    Seq<char>,
>;

/// `serde_json::to_string_pretty` of the value read from the JSON text, or
/// none when the text does not read as JSON or printing fails.
pub uninterp spec fn json_pretty_text(json: Seq<char>) -> Option<Seq<char>>;

/// Reads `text` with `serde_json::from_str::<serde_json::Value>` and gives
/// the value's compact text.
#[verifier::external_body]
fn parse_json(text: &str) -> (r: Option<String>)
    ensures
        r.deep_view() == json_parse_text(text@),
{
    match serde_json::from_str::<serde_json::Value>(text) {
        Ok(value) => Some(value.to_string()),
        Err(_) => None,
    }
}

/// Reads `json`, and when it is an object sets the string member `key` to
/// `value` with `as_object_mut` and `insert`, giving the object's compact
/// text.
#[verifier::external_body]
fn json_object_insert(json: &str, key: &str, value: &str) -> (r: Option<String>)
    ensures
        r.deep_view() == json_with_member(json@, key@, value@),
{
    match serde_json::from_str::<serde_json::Value>(json) {
        Ok(mut v) => match v.as_object_mut() {
            Some(members) => {
                members.insert(key.to_string(), serde_json::Value::String(value.to_string()));
                Some(v.to_string())
            },
            None => None,
        },
        Err(_) => None,
    }
}

/// Reads `json` and prints it with `serde_json::to_string_pretty`.
#[verifier::external_body]
fn to_pretty_json(json: &str) -> (r: Option<String>)
    ensures
        r.deep_view() == json_pretty_text(json@),
{
    match serde_json::from_str::<serde_json::Value>(json) {
        Ok(v) => serde_json::to_string_pretty(&v).ok(),
        Err(_) => None,
    }
}

/// Payloads longer than this many bytes are passed on unformatted.
pub const MAX_FORMATTED_BYTES: usize = 1048576;

/// The member value that marks a formatted payload.
pub open spec fn formatted_mark() -> Seq<char> {
    "pretty-printed-by-middleware"@
}

/// The formatted payload: a payload that is not JSON stays as it is; a JSON
/// object gets `_formatted` and `_format_timestamp` (the stamp) members; the
/// JSON value is then pretty-printed, falling back to the payload when that
/// fails.
pub open spec fn formatted_json(payload: Seq<char>, stamp: Seq<char>) -> Seq<char> {
    match json_parse_text(payload) {
        None => payload,
        Some(compact) => {
            let marked = match json_with_member(compact, "_formatted"@, formatted_mark()) {
                Some(with_mark) => match json_with_member(
                    with_mark,
                    "_format_timestamp"@,
                    stamp,
                ) {
                    Some(with_stamp) => with_stamp,
                    None => with_mark,
                },
                None => compact,
            };
            match json_pretty_text(marked) {
                Some(text) => text,
                None => payload,
            }
        },
    }
}

/// Formats a payload with the given time stamp.
pub fn format_json_with_stamp(payload: &str, stamp: &str) -> (r: String)
    ensures
        r@ == formatted_json(payload@, stamp@),
{
    match parse_json(payload) {
        Some(compact) => {
            let marked = match json_object_insert(
                compact.as_str(),
                "_formatted",
                "pretty-printed-by-middleware",
            ) {
                Some(with_mark) => match json_object_insert(
                    with_mark.as_str(),
                    "_format_timestamp",
                    stamp,
                ) {
                    Some(with_stamp) => with_stamp,
                    None => with_mark,
                },
                None => compact,
            };
            match to_pretty_json(marked.as_str()) {
                Some(text) => text,
                None => String::from_str(payload),
            }
        },
        None => String::from_str(payload),
    }
}

/// What formatting gives, by what the payload reads as, whatever its
/// length: a payload that is not JSON comes back as it is; a JSON object
/// comes back as the pretty-printed object with `_formatted` set to
/// `pretty-printed-by-middleware` and `_format_timestamp` set to the stamp;
/// any other JSON value comes back pretty-printed as it is. The payload
/// itself comes back for JSON only where pretty-printing gives nothing.
pub proof fn lemma_formatted_json_cases(payload: Seq<char>, stamp: Seq<char>)
    ensures
        json_parse_text(payload) is None ==> formatted_json(payload, stamp) == payload,
        json_parse_text(payload) matches Some(compact)
            ==> (json_with_member(compact, "_formatted"@, "pretty-printed-by-middleware"@) matches Some(with_mark)
            ==> (json_with_member(with_mark, "_format_timestamp"@, stamp) matches Some(with_stamp)
            ==> (json_pretty_text(with_stamp) matches Some(text)
            ==> formatted_json(payload, stamp) == text))),
        json_parse_text(payload) matches Some(compact)
            ==> (json_with_member(compact, "_formatted"@, "pretty-printed-by-middleware"@) is None
            ==> (json_pretty_text(compact) matches Some(text)
            ==> formatted_json(payload, stamp) == text)),
        json_parse_text(payload) is Some && formatted_json(payload, stamp) != payload
            ==> exists|json: Seq<char>| #[trigger] json_pretty_text(json) == Some(formatted_json(payload, stamp)),
{
    match json_parse_text(payload) {
        None => {},
        Some(compact) => {
            let marked = match json_with_member(compact, "_formatted"@, formatted_mark()) {
                Some(with_mark) => match json_with_member(with_mark, "_format_timestamp"@, stamp) {
                    Some(with_stamp) => with_stamp,
                    None => with_mark,
                },
                None => compact,
            };
            if formatted_json(payload, stamp) != payload {
                assert(json_pretty_text(marked) == Some(formatted_json(payload, stamp)));
            }
        },
    }
}

/// A JSON payload is pretty-printed, with `_formatted` and
/// `_format_timestamp` (the current time) members added when it is an
/// object; any other payload comes back as it is.
pub fn format_json_response(payload: &str) -> (r: String)
    ensures
        exists|stamp: Seq<char>| is_clock_stamp(stamp) && r@ == #[trigger] formatted_json(payload@, stamp),
{
    let stamp = now_rfc3339();
    format_json_with_stamp(payload, stamp.as_str())
}

/// The formatter's metrics for an action, as JSON text.
pub open spec fn formatter_metrics(action: Seq<char>) -> Seq<char> {
    if action == "before"@ {
        "{\"action\":\"before\",\"formatter_version\":\"1.0\"}"@
    } else {
        "{\"action\":\"after\",\"formatter_version\":\"1.0\",\"processed\":true}"@
    }
}

/// The answer to a request that could not be read: execution id `unknown`,
/// do not continue, and the parser's message.
pub fn parse_failure_response(detail: &str) -> (r: MiddlewareResponse)
    ensures
        r.action@ == "error"@,
        r.execution_id@ == "unknown"@,
        !r.should_continue,
        r.modified_payload is None,
        r.modified_headers is None,
        r.modified_metadata is None,
        r.error_message matches Some(m) && m@ == "Failed to parse request: "@ + detail@,
        r.metrics is None,
{
    MiddlewareResponse {
        action: String::from_str("error"),
        execution_id: String::from_str("unknown"),
        should_continue: false,
        modified_payload: None,
        modified_headers: None,
        modified_metadata: None,
        error_message: Some(join("Failed to parse request: ", detail)),
        metrics: None,
    }
}

/// The formatter's answer to a request with the given action, execution id
/// and payload. `before` marks the request with an `X-Formatted-By` header;
/// `after` formats the payload unless it is over the size limit; any other
/// action is refused.
pub fn respond(action: String, execution_id: String, payload: Option<String>) -> (r:
    MiddlewareResponse)
    requires
        payload matches Some(p) ==> encode_utf8(p@).len() <= usize::MAX,
    ensures
        r.execution_id@ == execution_id@,
        r.modified_metadata is None,
        action@ == "before"@ ==> {
            &&& r.action@ == "before"@
            &&& r.should_continue
            &&& r.modified_payload is None
            &&& r.modified_headers matches Some(h) && h@.len() == 1 && h@[0].0@
                == "X-Formatted-By"@ && h@[0].1@ == "response_formatter"@
            &&& r.error_message is None
            &&& r.metrics matches Some(m) && m@ == formatter_metrics("before"@)
        },
        action@ == "after"@ ==> {
            &&& r.action@ == "after"@
            &&& r.should_continue
            &&& (payload is None ==> r.modified_payload is None)
            &&& (payload matches Some(p) ==> (encode_utf8(p@).len() > 1024 * 1024 ==> (r.modified_payload matches Some(q) && q@ == p@)))
            &&& (payload matches Some(p) ==> (encode_utf8(p@).len() <= 1024 * 1024 ==> (r.modified_payload matches Some(q) && exists|stamp: Seq<char>| is_clock_stamp(stamp) && q@ == #[trigger] formatted_json(p@, stamp))))
            &&& (payload is Some ==> r.modified_payload is Some)
            &&& r.modified_headers is None
            &&& r.error_message is None
            &&& r.metrics matches Some(m) && m@ == formatter_metrics("after"@)
        },
        action@ != "before"@ && action@ != "after"@ ==> {
            &&& r.action@ == action@
            &&& !r.should_continue
            &&& r.modified_payload is None
            &&& r.modified_headers is None
            &&& r.error_message matches Some(m) && m@ == "Unknown action: "@
            &&& r.metrics is None
        },
{
    proof {
        reveal_strlit("before");
        reveal_strlit("after");
        assert("before"@.len() != "after"@.len());
    }
    if text_eq(action.as_str(), "before") {
        let mut headers: Vec<(String, String)> = Vec::new();
        headers.push((String::from_str("X-Formatted-By"), String::from_str("response_formatter")));
        MiddlewareResponse {
            action: String::from_str("before"),
            execution_id,
            should_continue: true,
            modified_payload: None,
            modified_headers: Some(headers),
            modified_metadata: None,
            error_message: None,
            metrics: Some(String::from_str("{\"action\":\"before\",\"formatter_version\":\"1.0\"}")),
        }
    } else if text_eq(action.as_str(), "after") {
        let modified_payload = match payload {
            Some(p) => {
                let text = p.as_str();
                assert(text@ == p@);
                if text.len() > MAX_FORMATTED_BYTES {
                    Some(p)
                } else {
                    let q = format_json_response(text);
                    Some(q)
                }
            },
            None => None,
        };
        MiddlewareResponse {
            action: String::from_str("after"),
            execution_id,
            should_continue: true,
            modified_payload,
            modified_headers: None,
            modified_metadata: None,
            error_message: None,
            metrics: Some(
                String::from_str(
                    "{\"action\":\"after\",\"formatter_version\":\"1.0\",\"processed\":true}",
                ),
            ),
        }
    } else {
        MiddlewareResponse {
            action,
            execution_id,
            should_continue: false,
            modified_payload: None,
            modified_headers: None,
            modified_metadata: None,
            error_message: Some(String::from_str("Unknown action: ")),
            metrics: None,
        }
    }
}

} // verus!
