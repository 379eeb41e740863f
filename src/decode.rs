use vstd::prelude::*;
use vstd::string::*;
use crate::decimal::{parse_usize, usize_of_text};
use crate::message::{CgiEnv, CgiRequest, DecodeError};

verus! {

/// What the environment says of a request before its body is read.
pub struct RequestHead {
    pub method: String,
    pub path: String,
    pub content_length: usize,
}

impl View for RequestHead {
    type V = (Seq<char>, Seq<char>, usize);

    open spec fn view(&self) -> (Seq<char>, Seq<char>, usize) {
        (self.method@, self.path@, self.content_length)
    }
}

/// The declared body length: zero when `CONTENT_LENGTH` is unset.
pub open spec fn declared_length(content_length: Option<Seq<char>>) -> Option<usize> {
    match content_length {
        None => Some(0),
        Some(s) => usize_of_text(s),
    }
}

/// The request path: `PATH_INFO`, or `/` when it is unset.
pub open spec fn path_or_root(path_info: Option<Seq<char>>) -> Seq<char> {
    match path_info {
        Some(p) => p,
        None => "/"@,
    }
}

/// The head of the request that an environment describes. The length is
/// checked before the method.
pub open spec fn head_of(
    env: (Option<Seq<char>>, Option<Seq<char>>, Option<Seq<char>>),
) -> Result<(Seq<char>, Seq<char>, usize), DecodeError> {
    match declared_length(env.0) {
        None => Err(DecodeError::InvalidContentLength),
        Some(n) => match env.1 {
            None => Err(DecodeError::MissingMethod),
            Some(m) => Ok((m, path_or_root(env.2), n)),
        },
    }
}

/// The request that an environment and a whole input stream describe: the
/// body is the first `CONTENT_LENGTH` bytes of the stream, and a stream that
/// ends before them is a truncated body.
pub open spec fn request_of(
    env: (Option<Seq<char>>, Option<Seq<char>>, Option<Seq<char>>),
    input: Seq<u8>,
) -> Result<(Seq<char>, Seq<char>, Seq<u8>), DecodeError> {
    match head_of(env) {
        Err(e) => Err(e),
        Ok(h) => if input.len() < h.2 {
            Err(DecodeError::TruncatedBody)
        } else {
            Ok((h.0, h.1, input.take(h.2 as int)))
        },
    }
}

pub open spec fn head_result_view(r: Result<RequestHead, DecodeError>) -> Result<
    (Seq<char>, Seq<char>, usize),
    DecodeError,
> {
    match r {
        Ok(h) => Ok(h@),
        Err(e) => Err(e),
    }
}

pub open spec fn request_result_view(r: Result<CgiRequest, DecodeError>) -> Result<
    (Seq<char>, Seq<char>, Seq<u8>),
    DecodeError,
> {
    match r {
        Ok(q) => Ok(q@),
        Err(e) => Err(e),
    }
}

/// Reads the length, the method and the path from the CGI variables.
pub fn decode_head(env: &CgiEnv) -> (r: Result<RequestHead, DecodeError>)
    ensures
        head_result_view(r) == head_of(env@),
{
    let content_length: usize = match &env.content_length {
        None => 0,
        Some(v) => match parse_usize(v.as_str()) {
            None => {
                return Err(DecodeError::InvalidContentLength);
            },
            Some(n) => n,
        },
    };
    let method = match &env.request_method {
        None => {
            return Err(DecodeError::MissingMethod);
        },
        Some(m) => m.clone(),
    };
    let path = match &env.path_info {
        Some(p) => p.clone(),
        None => "/".to_owned(),
    };
    Ok(RequestHead { method, path, content_length })
}

/// Completes a request with the bytes read from standard input, which stop
/// at the declared length or where the stream ended.
pub fn decode_body(head: RequestHead, received: Vec<u8>) -> (r: Result<CgiRequest, DecodeError>)
    requires
        received@.len() <= head.content_length,
    ensures
        received@.len() < head.content_length ==> r == Err::<CgiRequest, DecodeError>(
            DecodeError::TruncatedBody,
        ),
        received@.len() == head.content_length ==> request_result_view(r) == Ok::<
            (Seq<char>, Seq<char>, Seq<u8>),
            DecodeError,
        >((head.method@, head.path@, received@)),
{
    if received.len() < head.content_length {
        return Err(DecodeError::TruncatedBody);
    }
    Ok(CgiRequest { method: head.method, path: head.path, content: received })
}

/// Decodes the request from the CGI variables and the whole input stream,
/// of which it takes no more than the declared length.
pub fn decode(env: &CgiEnv, input: &[u8]) -> (r: Result<CgiRequest, DecodeError>)
    ensures
        request_result_view(r) == request_of(env@, input@),
{
    let head = match decode_head(env) {
        Err(e) => {
            return Err(e);
        },
        Ok(h) => h,
    };
    let mut received: Vec<u8> = Vec::new();
    let mut i: usize = 0;
    while i < input.len() && i < head.content_length
        invariant
            i <= input@.len(),
            i <= head.content_length,
            received@ == input@.take(i as int),
        decreases input@.len() - i,
    {
        received.push(input[i]);
        assert(input@.take(i + 1) =~= input@.take(i as int).push(input@[i as int]));
        i = i + 1;
    }
    decode_body(head, received)
}

} // verus!
