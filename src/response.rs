use vstd::prelude::*;
use vstd::string::*;
use vstd::utf8::encode_utf8;
use crate::decimal::{decimal_text, format_usize};
use crate::encode::utf8_bytes;
use crate::message::{CgiResponse, HttpHeaderEntry};

verus! {

/// A response of the given content type whose `Content-Length` is the byte
/// length of its body.
pub open spec fn typed_response(content_type: Seq<char>, body: Seq<u8>) -> (
    Seq<(Seq<char>, Seq<char>)>,
    Seq<u8>,
) {
    (
        seq![("Content-Type"@, content_type), ("Content-Length"@, decimal_text(body.len()))],
        body,
    )
}

/// The plain-text response that carries a message.
pub open spec fn plain_text_response(message: Seq<char>) -> (
    Seq<(Seq<char>, Seq<char>)>,
    Seq<u8>,
) {
    typed_response("text/plain; charset=UTF-8"@, encode_utf8(message))
}

/// The JSON response that carries a JSON text.
pub open spec fn json_response(text: Seq<char>) -> (Seq<(Seq<char>, Seq<char>)>, Seq<u8>) {
    typed_response("application/json; charset=UTF-8"@, encode_utf8(text))
}

fn typed(content_type: &str, body: Vec<u8>) -> (r: CgiResponse)
    ensures
        r@ == typed_response(content_type@, body@),
{
    let length = format_usize(body.len());
    let headers = vec![
        HttpHeaderEntry { attribute: "Content-Type".to_owned(), value: content_type.to_owned() },
        HttpHeaderEntry { attribute: "Content-Length".to_owned(), value: length },
    ];
    let r = CgiResponse { headers, content: body };
    assert(r@.0 =~= typed_response(content_type@, body@).0);
    r
}

/// A `text/plain` response whose body is the message.
pub fn respond_cgi_plain_text(content: &str) -> (r: CgiResponse)
    ensures
        r@ == plain_text_response(content@),
{
    typed("text/plain; charset=UTF-8", utf8_bytes(content))
}

/// An `application/json` response whose body is the JSON text.
pub fn respond_json_text(text: &str) -> (r: CgiResponse)
    ensures
        r@ == json_response(text@),
{
    typed("application/json; charset=UTF-8", utf8_bytes(text))
}

} // verus!
