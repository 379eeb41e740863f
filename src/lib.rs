//! A CGI request/response adapter: decodes the request that a web server
//! hands over in environment variables and standard input, and encodes a
//! response in the CGI wire format.

pub mod decimal;
pub mod decode;
pub mod driver;
pub mod encode;
pub mod handler;
pub mod laws;
pub mod message;
pub mod response;

pub use decimal::{format_usize, parse_usize};
pub use decode::{decode, decode_body, decode_head, RequestHead};
pub use driver::{respond, serve};
pub use encode::{build_header, encode};
pub use handler::{process_request, respond_cgi_json};
pub use message::{CgiEnv, CgiRequest, CgiResponse, DecodeError, HttpHeaderEntry};
pub use response::{respond_cgi_plain_text, respond_json_text};
