//! Request framing: where one HTTP request ends in the bytes read so far.
//!
//! The framer is a pure function of the bytes buffered from a connection. The
//! caller reads a first chunk, asks the framer, and reads exactly as many more
//! bytes as it is told before asking again.

use vstd::prelude::*;
use crate::text::{
    ascii, ascii_bytes, bytes_equal, copy_field_until, copy_range, field_until, find, find_bytes,
    lemma_find_from, parse_usize, parse_usize_spec, strip_nul, without_nul,
};

verus! {

/// The single space that separates the fields of the start line.
pub open spec fn space() -> Seq<u8> {
    ascii(" "@)
}

/// The line break of the protocol.
pub open spec fn crlf() -> Seq<u8> {
    ascii("\r\n"@)
}

/// The empty line that ends the header block.
pub open spec fn blank_line() -> Seq<u8> {
    ascii("\r\n\r\n"@)
}

/// The header that declares the length of the body.
pub open spec fn length_key() -> Seq<u8> {
    ascii("Content-Length: "@)
}

/// The method that may come without a body.
pub open spec fn get_method() -> Seq<u8> {
    ascii("GET"@)
}

/// A framed request: method, path, header block and body, as raw bytes.
pub struct Request {
    pub method: Vec<u8>,
    pub path: Vec<u8>,
    pub header: Vec<u8>,
    pub body: Vec<u8>,
}

/// The mathematical value of a `Request`.
pub struct RequestView {
    pub method: Seq<u8>,
    pub path: Seq<u8>,
    pub header: Seq<u8>,
    pub body: Seq<u8>,
}

impl View for Request {
    type V = RequestView;

    open spec fn view(&self) -> RequestView {
        RequestView {
            method: self.method@,
            path: self.path@,
            header: self.header@,
            body: self.body@,
        }
    }
}

/// Why a request was refused with Bad Request.
#[derive(PartialEq, Eq, Structural, Clone, Copy, Debug)]
pub enum FrameError {
    /// A request that needs a body declares no `Content-Length`.
    MissingLength,
    /// The `Content-Length` value is not an unsigned number.
    InvalidLength,
    /// The `Content-Length` value is zero.
    EmptyBody,
}

/// What the framer makes of the bytes buffered so far.
pub enum Frame {
    /// No method token can be found: the connection is closed without a response.
    Unreadable,
    /// The request is refused with Bad Request before any body is read.
    Rejected(FrameError),
    /// The body is incomplete: this many more bytes are to be read.
    NeedMore(usize),
    /// One whole request.
    Complete(Request),
}

/// The mathematical value of a `Frame`.
pub enum FrameView {
    Unreadable,
    Rejected(FrameError),
    NeedMore(nat),
    Complete(RequestView),
}

impl View for Frame {
    type V = FrameView;

    open spec fn view(&self) -> FrameView {
        match self {
            Frame::Unreadable => FrameView::Unreadable,
            Frame::Rejected(e) => FrameView::Rejected(*e),
            Frame::NeedMore(n) => FrameView::NeedMore(*n as nat),
            Frame::Complete(r) => FrameView::Complete(r@),
        }
    }
}

/// The length of the part of `c` before the empty line, or all of `c` where
/// it has none yet.
pub open spec fn head_len(c: Seq<u8>) -> int {
    match find(c, blank_line()) {
        Some(h) => h,
        None => c.len() as int,
    }
}

/// The header block: the lines between the start line and the empty line.
pub open spec fn header_of(c: Seq<u8>) -> Seq<u8> {
    let head = c.subrange(0, head_len(c));
    match find(head, crlf()) {
        Some(k) => head.subrange(k + 2, head.len() as int),
        None => Seq::empty(),
    }
}

/// The bytes after the empty line; none while it has not arrived.
pub open spec fn rest_of(c: Seq<u8>) -> Seq<u8> {
    match find(c, blank_line()) {
        Some(h) => c.subrange(h + 4, c.len() as int),
        None => Seq::empty(),
    }
}

/// The value that follows the first `key` in a header block, up to the end of
/// its line.
pub open spec fn field_value(header: Seq<u8>, key: Seq<u8>) -> Option<Seq<u8>> {
    match find(header, key) {
        Some(p) => Some(field_until(header, p + key.len(), crlf())),
        None => None,
    }
}

/// The value of the `Content-Length` header.
pub open spec fn length_field(header: Seq<u8>) -> Option<Seq<u8>> {
    field_value(header, length_key())
}

/// The value that follows the first `key` in `header`, up to the end of its line.
pub fn value_of(header: &[u8], key: &[u8]) -> (r: Option<Vec<u8>>)
    ensures
        match r {
            Some(v) => field_value(header@, key@) == Some(v@),
            None => field_value(header@, key@) is None,
        },
{
    proof {
        reveal_strlit("\r\n");
        lemma_find_from(header@, key@, 0);
    }
    match find_bytes(header, key, 0) {
        Some(p) => {
            assert(p + key@.len() <= header@.len());
            assert(header@.len() == header.len());
            Some(copy_field_until(header, p + key.len(), ascii_bytes("\r\n")))
        },
        None => None,
    }
}

/// The method token of the NUL-free text `c`: the bytes before the first space,
/// where there is a space and something before it.
pub open spec fn method_of(c: Seq<u8>) -> Option<Seq<u8>> {
    match find(c, space()) {
        Some(e) => if e > 0 {
            Some(c.subrange(0, e))
        } else {
            None
        },
        None => None,
    }
}

/// The path token of `c`: the second space-delimited field.
pub open spec fn path_of(c: Seq<u8>) -> Seq<u8> {
    match find(c, space()) {
        Some(e) => field_until(c, e + 1, space()),
        None => Seq::empty(),
    }
}

/// The framing of the bytes `b` buffered from one connection.
pub open spec fn frame_spec(b: Seq<u8>) -> FrameView {
    let c = without_nul(b);
    match method_of(c) {
        None => FrameView::Unreadable,
        Some(method) => {
            let rest = rest_of(c);
            let request = |body: Seq<u8>|
                RequestView { method, path: path_of(c), header: header_of(c), body };
            match length_field(header_of(c)) {
                None => if method == get_method() {
                    FrameView::Complete(request(rest))
                } else {
                    FrameView::Rejected(FrameError::MissingLength)
                },
                Some(v) => match parse_usize_spec(v) {
                    None => FrameView::Rejected(FrameError::InvalidLength),
                    Some(n) => if n == 0 {
                        FrameView::Rejected(FrameError::EmptyBody)
                    } else if rest.len() < n {
                        FrameView::NeedMore((n - rest.len()) as nat)
                    } else {
                        FrameView::Complete(request(rest.subrange(0, n as int)))
                    },
                },
            }
        },
    }
}

/// Frames the bytes read so far from one connection.
///
/// A request whose method is not `GET` and which declares no length is refused
/// at once: no body is ever asked for.
pub fn frame(buffered: &[u8]) -> (r: Frame)
    ensures
        r@ == frame_spec(buffered@),
        ({
            let c = without_nul(buffered@);
            method_of(c) matches Some(m) && m != get_method() && length_field(header_of(c)) is None
                ==> r@ == FrameView::Rejected(FrameError::MissingLength)
        }),
{
    proof {
        reveal_strlit(" ");
        reveal_strlit("\r\n");
        reveal_strlit("\r\n\r\n");
        reveal_strlit("Content-Length: ");
        reveal_strlit("GET");
    }
    let clean = strip_nul(buffered);
    let c = clean.as_slice();
    let ghost cs = c@;
    let sp = ascii_bytes(" ");
    let line_end = ascii_bytes("\r\n");
    let blank = ascii_bytes("\r\n\r\n");
    proof {
        lemma_find_from(cs, space(), 0);
        lemma_find_from(cs, blank_line(), 0);
    }
    let e = match find_bytes(c, sp, 0) {
        None => return Frame::Unreadable,
        Some(e) => e,
    };
    if e == 0 {
        return Frame::Unreadable;
    }
    assert(e + 1 <= cs.len());
    assert(cs.len() == c.len());
    let method = copy_range(c, 0, e);
    let path = copy_field_until(c, e + 1, sp);
    let sep = find_bytes(c, blank, 0);
    let head_end = match sep {
        Some(h) => h,
        None => c.len(),
    };
    let head = copy_range(c, 0, head_end);
    proof {
        lemma_find_from(head@, crlf(), 0);
    }
    let header = match find_bytes(head.as_slice(), line_end, 0) {
        Some(k) => copy_range(head.as_slice(), k + 2, head.len()),
        None => Vec::new(),
    };
    let rest = match sep {
        Some(h) => copy_range(c, h + 4, c.len()),
        None => Vec::new(),
    };
    assert(header@ =~= header_of(cs));
    assert(rest@ =~= rest_of(cs));
    match value_of(header.as_slice(), ascii_bytes("Content-Length: ")) {
        None => {
            if bytes_equal(method.as_slice(), ascii_bytes("GET")) {
                Frame::Complete(Request { method, path, header, body: rest })
            } else {
                Frame::Rejected(FrameError::MissingLength)
            }
        },
        Some(value) => {
            match parse_usize(value.as_slice()) {
                None => Frame::Rejected(FrameError::InvalidLength),
                Some(n) => {
                    if n == 0 {
                        Frame::Rejected(FrameError::EmptyBody)
                    } else if rest.len() < n {
                        Frame::NeedMore(n - rest.len())
                    } else {
                        let body = copy_range(rest.as_slice(), 0, n);
                        Frame::Complete(Request { method, path, header, body })
                    }
                },
            }
        },
    }
}

} // verus!
