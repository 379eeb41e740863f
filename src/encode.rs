use vstd::prelude::*;
use vstd::string::*;
use vstd::utf8::encode_utf8;
use crate::message::{CgiResponse, HttpHeaderEntry};

verus! {

/// The header lines `name: value\r\n`, in order.
pub open spec fn header_lines(hs: Seq<(Seq<char>, Seq<char>)>) -> Seq<char>
    decreases hs.len(),
{
    if hs.len() == 0 {
        Seq::empty()
    } else {
        header_lines(hs.drop_last()) + hs.last().0 + ": "@ + hs.last().1 + "\r\n"@
    }
}

/// The header block: every header line, then the blank line that ends it.
pub open spec fn header_block(hs: Seq<(Seq<char>, Seq<char>)>) -> Seq<char> {
    header_lines(hs) + "\r\n"@
}

/// The bytes of a response on the wire: the UTF-8 header block, then the raw body.
pub open spec fn wire_bytes(r: (Seq<(Seq<char>, Seq<char>)>, Seq<u8>)) -> Seq<u8> {
    encode_utf8(header_block(r.0)) + r.1
}

/// The header block of a response, blank line included.
pub fn build_header(response: &CgiResponse) -> (r: String)
    ensures
        r@ == header_block(response@.0),
{
    let ghost hs = response@.0;
    let mut header = String::new();
    let mut i: usize = 0;
    while i < response.headers.len()
        invariant
            i <= response.headers@.len(),
            hs == response@.0,
            hs.len() == response.headers@.len(),
            header@ == header_lines(hs.take(i as int)),
        decreases response.headers@.len() - i,
    {
        let entry: &HttpHeaderEntry = &response.headers[i];
        header.append(entry.attribute.as_str());
        header.append(": ");
        header.append(entry.value.as_str());
        header.append("\r\n");
        proof {
            let next = hs.take(i + 1);
            assert(next.drop_last() =~= hs.take(i as int));
            assert(next.last() == entry@);
        }
        i = i + 1;
    }
    header.append("\r\n");
    assert(hs.take(i as int) =~= hs);
    header
}

/// Appends the bytes of `src` to `dst`.
fn push_all(dst: &mut Vec<u8>, src: &[u8])
    ensures
        final(dst)@ == old(dst)@ + src@,
{
    let ghost start = dst@;
    let mut i: usize = 0;
    while i < src.len()
        invariant
            i <= src@.len(),
            dst@ == start + src@.take(i as int),
        decreases src@.len() - i,
    {
        dst.push(src[i]);
        assert(src@.take(i + 1) =~= src@.take(i as int).push(src@[i as int]));
        i = i + 1;
    }
    assert(src@.take(i as int) =~= src@);
}

/// The UTF-8 bytes of a string.
pub fn utf8_bytes(s: &str) -> (r: Vec<u8>)
    ensures
        r@ == encode_utf8(s@),
{
    let mut out: Vec<u8> = Vec::new();
    push_all(&mut out, s.as_bytes());
    assert(out@ =~= encode_utf8(s@));
    out
}

/// The whole response as written to the output stream: header lines ending
/// in CRLF, a blank line, then the body bytes unchanged.
pub fn encode(response: &CgiResponse) -> (r: Vec<u8>)
    ensures
        r@ == wire_bytes(response@),
{
    let header = build_header(response);
    let mut out = utf8_bytes(header.as_str());
    push_all(&mut out, response.content.as_slice());
    out
}

} // verus!
