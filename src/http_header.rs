//! The header fields of a response: a mapping from field to value, written out
//! in one fixed order.

use vstd::prelude::*;

verus! {

/// The number of header fields a response can carry.
pub const FIELD_COUNT: usize = 41;

/// The position of `Content-Type` in the fixed order.
pub const CONTENT_TYPE: usize = 14;

/// The position of `Date` in the fixed order.
pub const DATE: usize = 16;

/// The name of the field at position `i` of the fixed order.
pub open spec fn field_name(i: int) -> Seq<char> {
    if i == 0 {
        "A-IM"@
    } else if i == 1 {
        "Accept"@
    } else if i == 2 {
        "Accept-Charset"@
    } else if i == 3 {
        "Accept-Datetime"@
    } else if i == 4 {
        "Accept-Encoding"@
    } else if i == 5 {
        "Accept-Language"@
    } else if i == 6 {
        "Accept-Control-Request-Headers"@
    } else if i == 7 {
        "Accept-Control-Request-Method"@
    } else if i == 8 {
        "Authorization"@
    } else if i == 9 {
        "Cache-Control"@
    } else if i == 10 {
        "Connection"@
    } else if i == 11 {
        "Content-Encoding"@
    } else if i == 12 {
        "Content-Length"@
    } else if i == 13 {
        "Content-MD5"@
    } else if i == 14 {
        "Content-Type"@
    } else if i == 15 {
        "Cookie"@
    } else if i == 16 {
        "Date"@
    } else if i == 17 {
        "Expect"@
    } else if i == 18 {
        "Forwarded"@
    } else if i == 19 {
        "From"@
    } else if i == 20 {
        "Host"@
    } else if i == 21 {
        "HTTP2-Settings"@
    } else if i == 22 {
        "If-Match"@
    } else if i == 23 {
        "If-Modified-Since"@
    } else if i == 24 {
        "If-None-Match"@
    } else if i == 25 {
        "If-Range"@
    } else if i == 26 {
        "If-Unmodified-Since"@
    } else if i == 27 {
        "Max-Forwards"@
    } else if i == 28 {
        "Origin"@
    } else if i == 29 {
        "Pragma"@
    } else if i == 30 {
        "Prefer"@
    } else if i == 31 {
        "Proxy-Authorization"@
    } else if i == 32 {
        "Range"@
    } else if i == 33 {
        "Referer"@
    } else if i == 34 {
        "TE"@
    } else if i == 35 {
        "Trailer"@
    } else if i == 36 {
        "Transfer-Encoding"@
    } else if i == 37 {
        "Upgrade"@
    } else if i == 38 {
        "User-Agent"@
    } else if i == 39 {
        "Via"@
    } else {
        "Warning"@
    }
}

/// The name of the field at position `i` of the fixed order.
pub fn field_name_at(i: usize) -> (r: &'static str)
    requires
        i < FIELD_COUNT,
    ensures
        r@ == field_name(i as int),
{
    if i == 0 {
        "A-IM"
    } else if i == 1 {
        "Accept"
    } else if i == 2 {
        "Accept-Charset"
    } else if i == 3 {
        "Accept-Datetime"
    } else if i == 4 {
        "Accept-Encoding"
    } else if i == 5 {
        "Accept-Language"
    } else if i == 6 {
        "Accept-Control-Request-Headers"
    } else if i == 7 {
        "Accept-Control-Request-Method"
    } else if i == 8 {
        "Authorization"
    } else if i == 9 {
        "Cache-Control"
    } else if i == 10 {
        "Connection"
    } else if i == 11 {
        "Content-Encoding"
    } else if i == 12 {
        "Content-Length"
    } else if i == 13 {
        "Content-MD5"
    } else if i == 14 {
        "Content-Type"
    } else if i == 15 {
        "Cookie"
    } else if i == 16 {
        "Date"
    } else if i == 17 {
        "Expect"
    } else if i == 18 {
        "Forwarded"
    } else if i == 19 {
        "From"
    } else if i == 20 {
        "Host"
    } else if i == 21 {
        "HTTP2-Settings"
    } else if i == 22 {
        "If-Match"
    } else if i == 23 {
        "If-Modified-Since"
    } else if i == 24 {
        "If-None-Match"
    } else if i == 25 {
        "If-Range"
    } else if i == 26 {
        "If-Unmodified-Since"
    } else if i == 27 {
        "Max-Forwards"
    } else if i == 28 {
        "Origin"
    } else if i == 29 {
        "Pragma"
    } else if i == 30 {
        "Prefer"
    } else if i == 31 {
        "Proxy-Authorization"
    } else if i == 32 {
        "Range"
    } else if i == 33 {
        "Referer"
    } else if i == 34 {
        "TE"
    } else if i == 35 {
        "Trailer"
    } else if i == 36 {
        "Transfer-Encoding"
    } else if i == 37 {
        "Upgrade"
    } else if i == 38 {
        "User-Agent"
    } else if i == 39 {
        "Via"
    } else {
        "Warning"
    }
}

/// One header line.
pub open spec fn header_line(name: Seq<char>, value: Seq<char>) -> Seq<char> {
    name + ": "@ + value + "\r\n"@
}

/// The lines of the first `n` fields of `values` that are set, in order.
pub open spec fn render_fields(values: Seq<Option<Seq<char>>>, n: int) -> Seq<char>
    decreases n,
{
    if n <= 0 {
        Seq::empty()
    } else {
        render_fields(values, n - 1) + match values[n - 1] {
            Some(v) => header_line(field_name(n - 1), v),
            None => Seq::empty(),
        }
    }
}

/// The header fields of a response. Each field is set at most once.
pub struct HttpHeader {
    values: Vec<Option<String>>,
}

impl View for HttpHeader {
    type V = Seq<Option<Seq<char>>>;

    /// The value of each field, by its position in the fixed order.
    closed spec fn view(&self) -> Seq<Option<Seq<char>>> {
        self.values@.map_values(|v: Option<String>|
            match v {
                Some(s) => Some(s@),
                None => None,
            })
    }
}

/// The HTTP date of a Unix time, as chrono writes it.
pub uninterp spec fn http_date_text(unix_secs: i64) -> Seq<char>;

/// Relies on chrono's `DateTime::format`: the HTTP date
/// (`%a, %d %b %Y %H:%M:%S GMT`) of a Unix time, which `DateTime::from_timestamp`
/// turns into a UTC date. Chrono dates every time from 1970 to the end of 9999.
#[verifier::external_body]
fn http_date(unix_secs: i64) -> (r: Option<String>)
    ensures
        r matches Some(t) ==> t@ == http_date_text(unix_secs),
        dateable(unix_secs) ==> r is Some,
{
    chrono::DateTime::from_timestamp(unix_secs, 0).map(
        |t| t.format("%a, %d %b %Y %H:%M:%S GMT").to_string(),
    )
}

/// The last second of the year 9999.
pub const LAST_DATEABLE: i64 = 253402300799;

/// A Unix time from the epoch to the end of the year 9999, which every date
/// header can carry.
pub open spec fn dateable(unix_secs: i64) -> bool {
    0 <= unix_secs <= LAST_DATEABLE
}

/// The fields of a new header made at `unix_secs`: only `Date` is set.
pub open spec fn fresh_header(unix_secs: i64) -> Seq<Option<Seq<char>>> {
    Seq::new(FIELD_COUNT as nat, |i: int| None::<Seq<char>>).update(
        DATE as int,
        Some(http_date_text(unix_secs)),
    )
}

impl HttpHeader {
    #[verifier::type_invariant]
    spec fn inv(&self) -> bool {
        self.values.len() == FIELD_COUNT
    }

    /// A header made at `unix_secs`: `Date` holds its HTTP date, and no other
    /// field is set.
    pub fn new(unix_secs: i64) -> (r: HttpHeader)
        requires
            dateable(unix_secs),
        ensures
            r@ == fresh_header(unix_secs),
    {
        let mut values: Vec<Option<String>> = Vec::new();
        let mut i: usize = 0;
        while i < FIELD_COUNT
            invariant
                i <= FIELD_COUNT,
                values.len() == i,
                forall|k: int| 0 <= k < i ==> values@[k] is None,
            decreases FIELD_COUNT - i,
        {
            values.push(None);
            i += 1;
        }
        let empty = HttpHeader { values };
        assert(empty@ =~= Seq::new(FIELD_COUNT as nat, |i: int| None::<Seq<char>>));
        match http_date(unix_secs) {
            Some(d) => empty.with_field(DATE, d),
            None => empty,
        }
    }

    /// This header with the field at position `i` set to `value`.
    pub fn with_field(self, i: usize, value: String) -> (r: HttpHeader)
        requires
            i < FIELD_COUNT,
        ensures
            r@ == self@.update(i as int, Some(value@)),
            r@.len() == FIELD_COUNT,
    {
        proof {
            use_type_invariant(&self);
        }
        let mut values = self.values;
        values.set(i, Some(value));
        let r = HttpHeader { values };
        assert(r@ =~= self@.update(i as int, Some(value@)));
        r
    }

    /// This header with `Content-Type` set.
    pub fn with_content_type(self, content_type: String) -> (r: HttpHeader)
        ensures
            r@ == self@.update(CONTENT_TYPE as int, Some(content_type@)),
            r@.len() == FIELD_COUNT,
    {
        self.with_field(CONTENT_TYPE, content_type)
    }

    /// The value of the field at position `i`, if it is set.
    pub fn get(&self, i: usize) -> (r: Option<&String>)
        requires
            i < FIELD_COUNT,
        ensures
            match r {
                Some(v) => self@[i as int] == Some(v@),
                None => self@[i as int] is None,
            },
    {
        proof {
            use_type_invariant(self);
        }
        match &self.values[i] {
            Some(v) => Some(v),
            None => None,
        }
    }

    /// The header lines of the fields that are set, each ending in CRLF, in the
    /// fixed order.
    pub fn to_string(&self) -> (r: String)
        ensures
            r@ == render_fields(self@, FIELD_COUNT as int),
    {
        proof {
            use_type_invariant(self);
            reveal_strlit(": ");
            reveal_strlit("\r\n");
        }
        let mut out = String::new();
        let mut i: usize = 0;
        while i < FIELD_COUNT
            invariant
                i <= FIELD_COUNT,
                self.values.len() == FIELD_COUNT,
                out@ == render_fields(self@, i as int),
            decreases FIELD_COUNT - i,
        {
            if let Some(v) = &self.values[i] {
                out.append(field_name_at(i));
                out.append(": ");
                out.append(v.as_str());
                out.append("\r\n");
            }
            i += 1;
        }
        out
    }
}

} // verus!
