use vstd::prelude::*;
use vstd::utf8::encode_utf8;
use crate::decimal::{decimal_text, lemma_decimal_round_trip, usize_of_text};
use crate::decode::{declared_length, path_or_root, request_of};
use crate::driver::output_of;
use crate::handler::{body_accepted, dump_text_of, echoed_value, field_object_of, json_string_of};
use crate::encode::wire_bytes;
use crate::message::{error_text, DecodeError};
use crate::response::{json_response, plain_text_response};

verus! {

/// A request whose `CONTENT_LENGTH` is the decimal length of the input stream
/// decodes to its method, its path (`/` when `PATH_INFO` is unset) and the
/// whole stream as its body.
pub proof fn lemma_decode_exact(method: Seq<char>, path_info: Option<Seq<char>>, body: Seq<u8>)
    requires
        body.len() <= usize::MAX,
    ensures
        request_of((Some(decimal_text(body.len())), Some(method), path_info), body) == Ok::<
            (Seq<char>, Seq<char>, Seq<u8>),
            DecodeError,
        >((method, path_or_root(path_info), body)),
        path_or_root(None) == "/"@,
{
    lemma_decimal_round_trip(body.len() as usize);
    assert(body.take(body.len() as int) =~= body);
}

/// With `CONTENT_LENGTH` unset, the body is empty whatever the input holds.
pub proof fn lemma_decode_unset_length(method: Seq<char>, path_info: Option<Seq<char>>, input: Seq<u8>)
    ensures
        request_of((None, Some(method), path_info), input) == Ok::<
            (Seq<char>, Seq<char>, Seq<u8>),
            DecodeError,
        >((method, path_or_root(path_info), Seq::empty())),
{
    assert(input.take(0) =~= Seq::<u8>::empty());
}

/// A `CONTENT_LENGTH` that is not a non-negative integer fails the decode,
/// and the reply is the plain-text message with a `Content-Length` of its
/// byte length.
pub proof fn lemma_invalid_length(
    content_length: Seq<char>,
    method: Option<Seq<char>>,
    path_info: Option<Seq<char>>,
    input: Seq<u8>,
)
    requires
        usize_of_text(content_length) is None,
    ensures
        request_of((Some(content_length), method, path_info), input) == Err::<
            (Seq<char>, Seq<char>, Seq<u8>),
            DecodeError,
        >(DecodeError::InvalidContentLength),
        output_of((Some(content_length), method, path_info), input) == wire_bytes(
            plain_text_response(error_text(DecodeError::InvalidContentLength)),
        ),
        plain_text_response(error_text(DecodeError::InvalidContentLength)).0[0] == (
            "Content-Type"@,
            "text/plain; charset=UTF-8"@,
        ),
        plain_text_response(error_text(DecodeError::InvalidContentLength)).0[1] == (
            "Content-Length"@,
            decimal_text(encode_utf8(error_text(DecodeError::InvalidContentLength)).len()),
        ),
{
}

/// An unset `REQUEST_METHOD`, with a valid length, fails the decode and the
/// reply is the plain-text message.
pub proof fn lemma_missing_method(
    content_length: Option<Seq<char>>,
    path_info: Option<Seq<char>>,
    input: Seq<u8>,
)
    requires
        declared_length(content_length) is Some,
    ensures
        request_of((content_length, None, path_info), input) == Err::<
            (Seq<char>, Seq<char>, Seq<u8>),
            DecodeError,
        >(DecodeError::MissingMethod),
        output_of((content_length, None, path_info), input) == wire_bytes(
            plain_text_response(error_text(DecodeError::MissingMethod)),
        ),
{
}

/// An input stream shorter than the declared length is a truncated body.
pub proof fn lemma_truncated(
    content_length: Seq<char>,
    method: Seq<char>,
    path_info: Option<Seq<char>>,
    input: Seq<u8>,
)
    requires
        usize_of_text(content_length) is Some,
        input.len() < usize_of_text(content_length)->Some_0,
    ensures
        request_of((Some(content_length), Some(method), path_info), input) == Err::<
            (Seq<char>, Seq<char>, Seq<u8>),
            DecodeError,
        >(DecodeError::TruncatedBody),
{
}

/// A body of the declared length that holds JSON is echoed: the reply is the
/// JSON response carrying the dump of `{"req_body": <parsed body>}`.
pub proof fn lemma_json_echo(method: Seq<char>, path_info: Option<Seq<char>>, body: Seq<u8>)
    requires
        body.len() <= usize::MAX,
        body_accepted(body),
    ensures
        output_of((Some(decimal_text(body.len())), Some(method), path_info), body) == wire_bytes(
            json_response(dump_text_of(field_object_of("req_body"@, echoed_value(body)->Some_0))),
        ),
{
    lemma_decode_exact(method, path_info, body);
}

/// A request without `CONTENT_LENGTH` is answered with the dump of
/// `{"req_body": ""}`.
pub proof fn lemma_empty_echo(method: Seq<char>, path_info: Option<Seq<char>>, input: Seq<u8>)
    ensures
        output_of((None, Some(method), path_info), input) == wire_bytes(
            json_response(dump_text_of(field_object_of("req_body"@, json_string_of(Seq::empty())))),
        ),
{
    lemma_decode_unset_length(method, path_info, input);
}

/// Two runs on the same variables and the same input write the same bytes.
pub proof fn lemma_same_run(
    env1: (Option<Seq<char>>, Option<Seq<char>>, Option<Seq<char>>),
    input1: Seq<u8>,
    env2: (Option<Seq<char>>, Option<Seq<char>>, Option<Seq<char>>),
    input2: Seq<u8>,
)
    requires
        env1 == env2,
        input1 == input2,
    ensures
        request_of(env1, input1) == request_of(env2, input2),
        output_of(env1, input1) == output_of(env2, input2),
{
}

} // verus!
