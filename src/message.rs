use vstd::prelude::*;

verus! {

/// One header line of a response: `attribute: value`.
pub struct HttpHeaderEntry {
    pub attribute: String,
    pub value: String,
}

impl View for HttpHeaderEntry {
    type V = (Seq<char>, Seq<char>);

    open spec fn view(&self) -> (Seq<char>, Seq<char>) {
        (self.attribute@, self.value@)
    }
}

/// A decoded request: method, path and the body of exactly the declared length.
pub struct CgiRequest {
    pub method: String,
    pub path: String,
    pub content: Vec<u8>,
}

impl View for CgiRequest {
    type V = (Seq<char>, Seq<char>, Seq<u8>);

    open spec fn view(&self) -> (Seq<char>, Seq<char>, Seq<u8>) {
        (self.method@, self.path@, self.content@)
    }
}

/// A response: headers in the order they are emitted, then the raw body.
pub struct CgiResponse {
    pub headers: Vec<HttpHeaderEntry>,
    pub content: Vec<u8>,
}

impl View for CgiResponse {
    type V = (Seq<(Seq<char>, Seq<char>)>, Seq<u8>);

    open spec fn view(&self) -> (Seq<(Seq<char>, Seq<char>)>, Seq<u8>) {
        (self.headers@.map_values(|e: HttpHeaderEntry| e@), self.content@)
    }
}

/// The CGI variables that the decoder reads, as the environment gave them
/// (`None` where a variable is unset).
pub struct CgiEnv {
    pub content_length: Option<String>,
    pub request_method: Option<String>,
    pub path_info: Option<String>,
}

pub open spec fn text_view(v: Option<String>) -> Option<Seq<char>> {
    match v {
        Some(s) => Some(s@),
        None => None,
    }
}

impl View for CgiEnv {
    type V = (Option<Seq<char>>, Option<Seq<char>>, Option<Seq<char>>);

    open spec fn view(&self) -> (Option<Seq<char>>, Option<Seq<char>>, Option<Seq<char>>) {
        (text_view(self.content_length), text_view(self.request_method), text_view(self.path_info))
    }
}

/// Why a request could not be decoded.
#[derive(Clone, Copy, Debug, PartialEq, Eq, Structural)]
pub enum DecodeError {
    /// `CONTENT_LENGTH` is set but is not a non-negative integer.
    InvalidContentLength,
    /// `REQUEST_METHOD` is unset.
    MissingMethod,
    /// Standard input ended before the declared length was read.
    TruncatedBody,
}

pub open spec fn error_text(e: DecodeError) -> Seq<char> {
    match e {
        DecodeError::InvalidContentLength => "Invalid CONTENT_LENGTH"@,
        DecodeError::MissingMethod => "No REQUEST_METHOD"@,
        DecodeError::TruncatedBody => "Could not read stdin"@,
    }
}

impl DecodeError {
    /// The human-readable message of the error.
    pub fn message(&self) -> (r: String)
        ensures
            r@ == error_text(*self),
    {
        match self {
            DecodeError::InvalidContentLength => "Invalid CONTENT_LENGTH".to_owned(),
            DecodeError::MissingMethod => "No REQUEST_METHOD".to_owned(),
            DecodeError::TruncatedBody => "Could not read stdin".to_owned(),
        }
    }
}

} // verus!
