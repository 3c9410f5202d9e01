//! A response: protocol, status code, header fields and body, and its wire text.

use vstd::prelude::*;
use crate::http_header::{dateable, fresh_header, render_fields, HttpHeader, FIELD_COUNT};
use crate::text::{decimal, decimal_string};

verus! {

pub struct HttpResponse {
    pub protocol: String,
    pub status_code: u16,
    pub header: HttpHeader,
    pub content: String,
}

/// The mathematical value of an `HttpResponse`.
pub struct ResponseView {
    pub protocol: Seq<char>,
    pub status_code: u16,
    pub header: Seq<Option<Seq<char>>>,
    pub content: Seq<char>,
}

impl View for HttpResponse {
    type V = ResponseView;

    open spec fn view(&self) -> ResponseView {
        ResponseView {
            protocol: self.protocol@,
            status_code: self.status_code,
            header: self.header@,
            content: self.content@,
        }
    }
}

/// The wire text of a response: the status line, the header lines (each ending
/// in CRLF), two more CRLFs, and the body.
pub open spec fn response_text(r: ResponseView) -> Seq<char> {
    r.protocol + " "@ + decimal(r.status_code as nat) + "\r\n"@ + render_fields(
        r.header,
        FIELD_COUNT as int,
    ) + "\r\n\r\n"@ + r.content
}

impl HttpResponse {
    /// An empty `HTTP/1.1` 200 response made at `unix_secs`, whose header holds
    /// only its date.
    pub fn new(unix_secs: i64) -> (r: HttpResponse)
        requires
            dateable(unix_secs),
        ensures
            r@ == (ResponseView {
                protocol: "HTTP/1.1"@,
                status_code: 200,
                header: fresh_header(unix_secs),
                content: Seq::empty(),
            }),
    {
        HttpResponse {
            protocol: String::from_str("HTTP/1.1"),
            status_code: 200,
            header: HttpHeader::new(unix_secs),
            content: String::new(),
        }
    }

    pub fn with_content(self, content: String) -> (r: HttpResponse)
        ensures
            r@ == (ResponseView { content: content@, ..self@ }),
    {
        HttpResponse { content, ..self }
    }

    pub fn with_status_code(self, status_code: u16) -> (r: HttpResponse)
        ensures
            r@ == (ResponseView { status_code, ..self@ }),
    {
        HttpResponse { status_code, ..self }
    }

    pub fn with_protocol(self, protocol: String) -> (r: HttpResponse)
        ensures
            r@ == (ResponseView { protocol: protocol@, ..self@ }),
    {
        HttpResponse { protocol, ..self }
    }

    pub fn with_header(self, header: HttpHeader) -> (r: HttpResponse)
        ensures
            r@ == (ResponseView { header: header@, ..self@ }),
    {
        HttpResponse { header, ..self }
    }

    /// The wire text of this response.
    pub fn to_string(&self) -> (r: String)
        ensures
            r@ == response_text(self@),
    {
        proof {
            reveal_strlit(" ");
            reveal_strlit("\r\n");
            reveal_strlit("\r\n\r\n");
        }
        let mut out = self.protocol.clone();
        out.append(" ");
        out.append(decimal_string(self.status_code as u128).as_str());
        out.append("\r\n");
        out.append(self.header.to_string().as_str());
        out.append("\r\n\r\n");
        out.append(self.content.as_str());
        out
    }
}

} // verus!
