use vstd::prelude::*;
use vstd::string::*;
use crate::decode::{decode, request_of, request_result_view};
use crate::encode::{encode, wire_bytes};
use crate::handler::{handler_reply, process_request};
use crate::message::{error_text, CgiEnv, CgiRequest, CgiResponse, DecodeError};
use crate::response::{plain_text_response, respond_cgi_plain_text};

verus! {

/// The response for the outcome of a decode: the handler's reply for a
/// request, and a plain-text response carrying the message of every failure.
pub open spec fn reply_of(decoded: Result<(Seq<char>, Seq<char>, Seq<u8>), DecodeError>) -> (
    Seq<(Seq<char>, Seq<char>)>,
    Seq<u8>,
) {
    match decoded {
        Err(e) => plain_text_response(error_text(e)),
        Ok(q) => match handler_reply(q.2) {
            Ok(resp) => resp,
            Err(m) => plain_text_response(m),
        },
    }
}

/// The bytes that one run writes for the CGI variables and the input stream.
pub open spec fn output_of(
    env: (Option<Seq<char>>, Option<Seq<char>>, Option<Seq<char>>),
    input: Seq<u8>,
) -> Seq<u8> {
    wire_bytes(reply_of(request_of(env, input)))
}

/// The response for a decoded request or a decode failure. Every failure
/// becomes a plain-text response that carries its message.
pub fn respond(decoded: Result<CgiRequest, DecodeError>) -> (r: CgiResponse)
    ensures
        r@ == reply_of(request_result_view(decoded)),
{
    match decoded {
        Err(e) => respond_cgi_plain_text(e.message().as_str()),
        Ok(request) => match process_request(request) {
            Ok(response) => response,
            Err(message) => respond_cgi_plain_text(message.as_str()),
        },
    }
}

/// One whole CGI exchange: decodes the request from the variables and the
/// input stream, answers it, and returns the bytes to write out.
pub fn serve(env: &CgiEnv, input: &[u8]) -> (r: Vec<u8>)
    ensures
        r@ == output_of(env@, input@),
{
    let decoded = decode(env, input);
    let response = respond(decoded);
    encode(&response)
}

} // verus!
