use vstd::prelude::*;
use vstd::string::*;
use vstd::utf8::{decode_utf8, valid_utf8};
use crate::message::{CgiRequest, CgiResponse};
use crate::response::{json_response, respond_json_text};

verus! {

#[verifier::external_type_specification]
#[verifier::external_body]
pub struct ExJsonValue(json::JsonValue);

#[verifier::external_type_specification]
#[verifier::external_body]
pub struct ExJsonError(json::Error);

/// The value that `json::parse` reads from a text, `None` where it fails.
pub uninterp spec fn parsed_json_of(text: Seq<char>) -> Option<json::JsonValue>;

/// The text that `JsonValue::dump` writes for a value.
pub uninterp spec fn dump_text_of(v: json::JsonValue) -> Seq<char>;

/// The JSON string that `From<&str>` makes of a text.
pub uninterp spec fn json_string_of(s: Seq<char>) -> json::JsonValue;

/// The object whose only field is `key`, holding `value`: what setting a
/// field of an empty object through `IndexMut<&str>` leaves.
pub uninterp spec fn field_object_of(key: Seq<char>, value: json::JsonValue) -> json::JsonValue;

/// The text that `String::from_utf8_lossy` makes of some bytes.
pub uninterp spec fn lossy_text_of(bytes: Seq<u8>) -> Seq<char>;

/// Whether `json::parse` accepts a text.
pub open spec fn json_accepts(text: Seq<char>) -> bool {
    parsed_json_of(text) is Some
}

/// Relies on json::parse: what it reads depends on the text alone.
pub assume_specification[ json::parse ](source: &str) -> (r: Result<json::JsonValue, json::Error>)
    ensures
        match r {
            Ok(v) => parsed_json_of(source@) == Some(v),
            Err(_) => parsed_json_of(source@) is None,
        },
;

/// Relies on JsonValue::new_object, which makes an empty object; the dump of
/// an empty object is `{}`.
pub assume_specification[ json::JsonValue::new_object ]() -> (r: json::JsonValue)
    ensures
        dump_text_of(r) == "{}"@,
;

/// Relies on JsonValue::dump, which writes a value as JSON text into a fresh
/// buffer: the text depends on the value alone.
pub assume_specification[ json::JsonValue::dump ](v: &json::JsonValue) -> (r: String)
    ensures
        r@ == dump_text_of(*v),
;

/// Relies on String::from_utf8_lossy: the text depends on the bytes alone,
/// and valid UTF-8 is decoded as it stands.
#[verifier::external_body]
fn lossy_text(bytes: &[u8]) -> (r: String)
    ensures
        r@ == lossy_text_of(bytes@),
        valid_utf8(bytes@) ==> r@ == decode_utf8(bytes@),
{
    String::from_utf8_lossy(bytes).into_owned()
}

/// Relies on `From<&str> for JsonValue`, which makes a JSON string of the
/// text alone.
#[verifier::external_body]
fn json_string(s: &str) -> (r: json::JsonValue)
    ensures
        r == json_string_of(s@),
{
    s.into()
}

/// Relies on `IndexMut<&str> for JsonValue`, which sets a field of an
/// object. Only an empty object dumps as `{}`; setting a field of it leaves
/// the object with that one field.
#[verifier::external_body]
fn set_field(object: &mut json::JsonValue, key: &str, value: json::JsonValue)
    ensures
        dump_text_of(*old(object)) == "{}"@ ==> *final(object) == field_object_of(key@, value),
{
    object[key] = value;
}

/// Whether the handler accepts a request body: an empty body, or one whose
/// text parses as JSON.
pub open spec fn body_accepted(content: Seq<u8>) -> bool {
    content.len() == 0 || json_accepts(lossy_text_of(content))
}

/// The message of a body that is not JSON.
pub open spec fn parse_error_text() -> Seq<char> {
    "Error parsing body"@
}

/// The value echoed under `req_body`: the JSON that the body's text holds,
/// or the empty string for an empty body; `None` where the text is not JSON.
pub open spec fn echoed_value(content: Seq<u8>) -> Option<json::JsonValue> {
    if content.len() == 0 {
        Some(json_string_of(Seq::empty()))
    } else {
        parsed_json_of(lossy_text_of(content))
    }
}

/// What the handler answers for a request body: the JSON response that
/// carries the dump of `{"req_body": <value>}`, or the parse error.
pub open spec fn handler_reply(content: Seq<u8>) -> Result<
    (Seq<(Seq<char>, Seq<char>)>, Seq<u8>),
    Seq<char>,
> {
    match echoed_value(content) {
        Some(v) => Ok(json_response(dump_text_of(field_object_of("req_body"@, v)))),
        None => Err(parse_error_text()),
    }
}

pub open spec fn handler_result_view(r: Result<CgiResponse, String>) -> Result<
    (Seq<(Seq<char>, Seq<char>)>, Seq<u8>),
    Seq<char>,
> {
    match r {
        Ok(resp) => Ok(resp@),
        Err(m) => Err(m@),
    }
}

/// An `application/json` response whose body is the dump of a JSON value.
pub fn respond_cgi_json(content: &json::JsonValue) -> (r: CgiResponse)
    ensures
        r@ == json_response(dump_text_of(*content)),
{
    let text = content.dump();
    respond_json_text(text.as_str())
}

/// Echoes the request body: the parsed JSON under `req_body` in an object, or
/// an empty string there when the body is empty.
pub fn process_request(req: CgiRequest) -> (r: Result<CgiResponse, String>)
    ensures
        handler_result_view(r) == handler_reply(req.content@),
        r is Ok <==> body_accepted(req.content@),
{
    let mut response = json::JsonValue::new_object();
    if req.content.len() > 0 {
        let body_text = lossy_text(req.content.as_slice());
        let parsed = match json::parse(body_text.as_str()) {
            Ok(v) => v,
            Err(_) => {
                return Err("Error parsing body".to_owned());
            },
        };
        set_field(&mut response, "req_body", parsed);
    } else {
        proof {
            reveal_strlit("");
        }
        let empty = json_string("");
        assert(""@ =~= Seq::<char>::empty());
        set_field(&mut response, "req_body", empty);
    }
    Ok(respond_cgi_json(&response))
}

} // verus!
