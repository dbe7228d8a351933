//! HTTP responses and their framing on the wire.

use vstd::prelude::*;
use crate::bytes::append_bytes;
use crate::words::{
    allow_origin_header, allow_origin_header_bytes, binary_type_header, binary_type_header_bytes,
    disposition_end, disposition_end_bytes, disposition_start, disposition_start_bytes, head_end,
    head_end_bytes, html_type_header, html_type_header_bytes, json_type_header,
    json_type_header_bytes, length_key, length_key_bytes, status_bad_request,
    status_bad_request_bytes, status_not_found, status_not_found_bytes, status_ok, status_ok_bytes,
    status_server_error, status_server_error_bytes, text_type_header, text_type_header_bytes,
};

verus! {

/// The decimal digits of `n`, most significant first.
pub open spec fn decimal(n: nat) -> Seq<u8>
    decreases n,
{
    if n < 10 {
        seq![(48 + n) as u8]
    } else {
        decimal(n / 10).push((48 + n % 10) as u8)
    }
}

/// The number that a string of decimal digits denotes.
pub open spec fn decimal_value(s: Seq<u8>) -> int
    decreases s.len(),
{
    if s.len() == 0 {
        0
    } else {
        decimal_value(s.drop_last()) * 10 + (s.last() - 48)
    }
}

/// Reading back the digits that [`decimal`] writes gives the number.
pub proof fn lemma_decimal_value(n: nat)
    ensures
        decimal_value(decimal(n)) == n,
    decreases n,
{
    let d = decimal(n);
    if n >= 10 {
        lemma_decimal_value(n / 10);
        assert(d.drop_last() =~= decimal(n / 10));
        assert(d.last() == (48 + n % 10) as u8);
        assert(((48 + n % 10) as u8) == 48 + n % 10);
        assert(n == (n / 10) * 10 + n % 10);
    } else {
        assert(d.drop_last() =~= Seq::<u8>::empty());
        assert(decimal_value(Seq::<u8>::empty()) == 0);
        assert(d.last() == (48 + n) as u8);
        assert(((48 + n) as u8) == 48 + n);
    }
    assert(decimal_value(d) == decimal_value(d.drop_last()) * 10 + (d.last() - 48));
}

/// Appends the decimal digits of `n` to `out`.
pub fn push_decimal(out: &mut Vec<u8>, n: usize)
    ensures
        final(out)@ == old(out)@ + decimal(n as nat),
    decreases n,
{
    if n >= 10 {
        push_decimal(out, n / 10);
    }
    let digit: u8 = (n % 10) as u8;
    out.push(48 + digit);
    proof {
        if n < 10 {
            assert(final(out)@ =~= old(out)@ + decimal(n as nat));
        } else {
            assert(final(out)@ =~= old(out)@ + decimal(n as nat));
        }
    }
}

/// The status of a response.
#[derive(PartialEq, Eq, Structural, Clone, Copy, Debug)]
pub enum Status {
    Success,
    BadRequest,
    NotFound,
    ServerError,
}

/// The content type of a response body.
#[derive(PartialEq, Eq, Structural, Clone, Copy, Debug)]
pub enum ContentType {
    Html,
    Binary,
    Json,
    Text,
}

/// A response: status, content type, the name of the file it carries as an
/// attachment (if any), and the body.
pub struct Response {
    pub status: Status,
    pub content_type: ContentType,
    pub attachment: Option<Vec<u8>>,
    pub body: Vec<u8>,
}

/// The mathematical form of a [`Response`].
pub struct ResponseModel {
    pub status: Status,
    pub content_type: ContentType,
    pub attachment: Option<Seq<u8>>,
    pub body: Seq<u8>,
}

impl View for Response {
    type V = ResponseModel;

    open spec fn view(&self) -> ResponseModel {
        ResponseModel {
            status: self.status,
            content_type: self.content_type,
            attachment: match self.attachment {
                Some(name) => Some(name@),
                None => None,
            },
            body: self.body@,
        }
    }
}

pub open spec fn status_line(s: Status) -> Seq<u8> {
    match s {
        Status::Success => status_ok(),
        Status::BadRequest => status_bad_request(),
        Status::NotFound => status_not_found(),
        Status::ServerError => status_server_error(),
    }
}

pub open spec fn type_line(t: ContentType) -> Seq<u8> {
    match t {
        ContentType::Html => html_type_header(),
        ContentType::Binary => binary_type_header(),
        ContentType::Json => json_type_header(),
        ContentType::Text => text_type_header(),
    }
}

pub open spec fn disposition_line(a: Option<Seq<u8>>) -> Seq<u8> {
    match a {
        Some(name) => disposition_start() + name + disposition_end(),
        None => Seq::empty(),
    }
}

/// Every header line before `Content-Length`.
pub open spec fn leading_headers(r: ResponseModel) -> Seq<u8> {
    status_line(r.status) + allow_origin_header() + type_line(r.content_type) + disposition_line(
        r.attachment,
    )
}

/// The bytes of a response on the wire: status line, the
/// `Access-Control-Allow-Origin`, `Content-Type` and (for an attachment)
/// `Content-Disposition` headers, `Content-Length` with the body's length in
/// decimal, a blank line, and the body.
pub open spec fn encoded(r: ResponseModel) -> Seq<u8> {
    leading_headers(r) + length_key() + decimal(r.body.len()) + head_end() + r.body
}

/// Every response names its body's exact length: the bytes on the wire are
/// the header lines, then `Content-Length: ` with digits that read back as
/// the body's length, then the blank line and the body itself.
pub proof fn content_length_matches_body(r: ResponseModel)
    ensures
        exists|digits: Seq<u8>|
            decimal_value(digits) == r.body.len() && encoded(r) == leading_headers(r)
                + length_key() + digits + head_end() + r.body,
{
    lemma_decimal_value(r.body.len());
    assert(encoded(r) == leading_headers(r) + length_key() + decimal(r.body.len()) + head_end()
        + r.body);
}

impl Response {
    /// The bytes of this response on the wire.
    pub fn encode(&self) -> (r: Vec<u8>)
        ensures
            r@ == encoded(self@),
    {
        let mut out: Vec<u8> = match self.status {
            Status::Success => status_ok_bytes(),
            Status::BadRequest => status_bad_request_bytes(),
            Status::NotFound => status_not_found_bytes(),
            Status::ServerError => status_server_error_bytes(),
        };
        append_bytes(&mut out, allow_origin_header_bytes().as_slice());
        let t = match self.content_type {
            ContentType::Html => html_type_header_bytes(),
            ContentType::Binary => binary_type_header_bytes(),
            ContentType::Json => json_type_header_bytes(),
            ContentType::Text => text_type_header_bytes(),
        };
        append_bytes(&mut out, t.as_slice());
        match &self.attachment {
            Some(name) => {
                append_bytes(&mut out, disposition_start_bytes().as_slice());
                append_bytes(&mut out, name.as_slice());
                append_bytes(&mut out, disposition_end_bytes().as_slice());
            },
            None => {},
        }
        assert(out@ =~= leading_headers(self@));
        append_bytes(&mut out, length_key_bytes().as_slice());
        push_decimal(&mut out, self.body.len());
        append_bytes(&mut out, head_end_bytes().as_slice());
        append_bytes(&mut out, self.body.as_slice());
        assert(out@ =~= encoded(self@));
        out
    }
}

} // verus!
