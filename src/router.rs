//! Routing: what a framed request asks for, and the responses that answer it.
//!
//! `route` answers the static routes itself and turns a `/sql` request into a
//! read or a write for the store; `query_response` shapes the store's outcome.

use vstd::prelude::*;
use crate::framer::{field_value, value_of, FrameError, Request, RequestView};
use crate::http_header::{dateable, fresh_header, HttpHeader, CONTENT_TYPE};
use crate::http_response::{HttpResponse, ResponseView};
use crate::store::{Query, QueryResult, QueryResultType, QueryView, QueryResultView};
use crate::text::{find, ascii, ascii_bytes, bytes_equal, decimal, decimal_string, lossy_text, text_of};

verus! {

/// What a request asks of the server.
pub enum Route {
    /// A response that needs no store.
    Respond(HttpResponse),
    /// A read of the table the query names.
    Read(Query),
    /// A write of the query's content to the table it names.
    Write(Query),
}

/// The mathematical value of a `Route`.
pub enum RouteView {
    Respond(ResponseView),
    Read(QueryView),
    Write(QueryView),
}

impl View for Route {
    type V = RouteView;

    open spec fn view(&self) -> RouteView {
        match self {
            Route::Respond(r) => RouteView::Respond(r@),
            Route::Read(q) => RouteView::Read(q@),
            Route::Write(q) => RouteView::Write(q@),
        }
    }
}

/// An `HTTP/1.1` response made at `now`, whose header fields are its date and its
/// content type.
pub open spec fn page(now: i64, status_code: u16, content_type: Seq<char>, content: Seq<char>) -> ResponseView {
    ResponseView {
        protocol: "HTTP/1.1"@,
        status_code,
        header: fresh_header(now).update(CONTENT_TYPE as int, Some(content_type)),
        content,
    }
}

fn make_page(now: i64, status_code: u16, content_type: &str, content: String) -> (r: HttpResponse)
    requires
        dateable(now),
    ensures
        r@ == page(now, status_code, content_type@, content@),
{
    let header = HttpHeader::new(now).with_content_type(String::from_str(content_type));
    HttpResponse::new(now).with_status_code(status_code).with_header(header).with_content(content)
}

/// The body of the informational page at `/`.
pub open spec fn index_text() -> Seq<char> {
    "<h1> AlveusDB </h1> <p> A simple database server written in Rust </p> <p> The corresponding <a href=\"https://github.com/youarebamboozled/AlveusDB\">Github</a> </p>"@
}

/// The body of the answer to a `/sql` request without both table headers.
pub open spec fn missing_header_text() -> Seq<char> {
    "{\"error\": \"Bad Request. Missing or malformed DB or TABLE header\"}"@
}

/// The static informational page.
pub fn index(now: i64) -> (r: HttpResponse)
    requires
        dateable(now),
    ensures
        r@ == page(now, 200, "text/html"@, index_text()),
{
    make_page(
        now,
        200,
        "text/html",
        String::from_str(
            "<h1> AlveusDB </h1> <p> A simple database server written in Rust </p> <p> The corresponding <a href=\"https://github.com/youarebamboozled/AlveusDB\">Github</a> </p>",
        ),
    )
}

/// The answer for a path that is not served.
pub fn unknown_path(now: i64) -> (r: HttpResponse)
    requires
        dateable(now),
    ensures
        r@ == page(now, 404, "text/html"@, "<h1>404 - Not Found</h1>"@),
{
    make_page(now, 404, "text/html", String::from_str("<h1>404 - Not Found</h1>"))
}

/// The answer for a method that `/sql` does not take.
pub fn unsupported_method(now: i64) -> (r: HttpResponse)
    requires
        dateable(now),
    ensures
        r@ == page(now, 405, "text/html"@, "<h1>405 - Method Not Allowed</h1>"@),
{
    make_page(now, 405, "text/html", String::from_str("<h1>405 - Method Not Allowed</h1>"))
}

/// An empty icon.
pub fn favicon(now: i64) -> (r: HttpResponse)
    requires
        dateable(now),
    ensures
        r@ == page(now, 200, "image/x-icon"@, Seq::empty()),
{
    make_page(now, 200, "image/x-icon", String::new())
}

/// A page that echoes a path and a method, for trying routes out.
pub fn dummy_response(path: &str, method: &str, now: i64) -> (r: HttpResponse)
    requires
        dateable(now),
    ensures
        r@ == page(now, 200, "text/html"@, path@ + " - "@ + method@ + " - "@ + "200"@),
{
    let mut content = String::from_str(path);
    content.append(" - ");
    content.append(method);
    content.append(" - ");
    content.append("200");
    make_page(now, 200, "text/html", content)
}

/// The message of a framing error.
pub open spec fn frame_error_text(e: FrameError) -> Seq<char> {
    match e {
        FrameError::MissingLength => "Content-Length header not found"@,
        FrameError::InvalidLength => "Error while trying to parse the content length"@,
        FrameError::EmptyBody => "No content found"@,
    }
}

/// The Bad Request answer to a request that the framer refused.
pub fn bad_request(e: FrameError, now: i64) -> (r: HttpResponse)
    requires
        dateable(now),
    ensures
        r@ == page(
            now,
            400,
            "application/json"@,
            "{\"error\": \""@ + frame_error_text(e) + "\"}"@,
        ),
{
    let message = match e {
        FrameError::MissingLength => "Content-Length header not found",
        FrameError::InvalidLength => "Error while trying to parse the content length",
        FrameError::EmptyBody => "No content found",
    };
    let mut content = String::from_str("{\"error\": \"");
    content.append(message);
    content.append("\"}");
    make_page(now, 400, "application/json", content)
}

/// The header that names the database.
pub open spec fn database_key() -> Seq<u8> {
    ascii("DB: "@)
}

/// The header that names the table.
pub open spec fn table_key() -> Seq<u8> {
    ascii("TABLE: "@)
}

/// The query a `/sql` request makes with `content`, or `None` where its header
/// block lacks the database or the table.
pub open spec fn sql_query(header: Seq<u8>, content: Option<Seq<char>>) -> Option<QueryView> {
    match (field_value(header, database_key()), field_value(header, table_key())) {
        (Some(d), Some(t)) => Some(
            QueryView { database: lossy_text(d), table: lossy_text(t), content },
        ),
        _ => None,
    }
}

/// What a `/sql` request with `content` asks for: a read or, where `write`
/// holds, a write of its query; Bad Request where a table header is missing.
pub open spec fn sql_route(header: Seq<u8>, content: Option<Seq<char>>, write: bool, now: i64) -> RouteView {
    match sql_query(header, content) {
        Some(q) => if write {
            RouteView::Write(q)
        } else {
            RouteView::Read(q)
        },
        None => RouteView::Respond(page(now, 400, "application/json"@, missing_header_text())),
    }
}

/// The view of an optional text.
pub open spec fn text_view(c: Option<String>) -> Option<Seq<char>> {
    match c {
        Some(s) => Some(s@),
        None => None,
    }
}

fn table_query(header: &[u8], content: Option<String>) -> (r: Option<Query>)
    ensures
        match r {
            Some(q) => sql_query(header@, text_view(content)) == Some(q@),
            None => sql_query(header@, text_view(content)) is None,
        },
{
    proof {
        reveal_strlit("DB: ");
        reveal_strlit("TABLE: ");
    }
    let database = value_of(header, ascii_bytes("DB: "));
    let table = value_of(header, ascii_bytes("TABLE: "));
    match (database, table) {
        (Some(d), Some(t)) => {
            let q = Query { database: text_of(d.as_slice()), table: text_of(t.as_slice()), content };
            assert(q@.content == text_view(content));
            Some(q)
        },
        _ => None,
    }
}

fn missing_table_header(now: i64) -> (r: HttpResponse)
    requires
        dateable(now),
    ensures
        r@ == page(now, 400, "application/json"@, missing_header_text()),
{
    make_page(
        now,
        400,
        "application/json",
        String::from_str("{\"error\": \"Bad Request. Missing or malformed DB or TABLE header\"}"),
    )
}

/// A read of the table that the `DB: ` and `TABLE: ` headers name.
pub fn db_get_handler(header: &[u8], now: i64) -> (r: Route)
    requires
        dateable(now),
    ensures
        r@ == sql_route(header@, None, false, now),
{
    match table_query(header, None) {
        Some(q) => Route::Read(q),
        None => Route::Respond(missing_table_header(now)),
    }
}

/// A write of the body to the table that the `DB: ` and `TABLE: ` headers name.
pub fn db_post_handler(body: &[u8], header: &[u8], now: i64) -> (r: Route)
    requires
        dateable(now),
    ensures
        r@ == sql_route(header@, Some(lossy_text(body@)), true, now),
{
    let content = text_of(body);
    match table_query(header, Some(content)) {
        Some(q) => Route::Write(q),
        None => Route::Respond(missing_table_header(now)),
    }
}

/// What a request on `/sql` asks for.
pub open spec fn db_route(req: RequestView, now: i64) -> RouteView {
    if req.method == ascii("GET"@) {
        sql_route(req.header, None, false, now)
    } else if req.method == ascii("POST"@) {
        sql_route(req.header, Some(lossy_text(req.body)), true, now)
    } else {
        RouteView::Respond(page(now, 405, "text/html"@, "<h1>405 - Method Not Allowed</h1>"@))
    }
}

/// Dispatches a request on `/sql` by its method.
pub fn db_handler(request: &Request, now: i64) -> (r: Route)
    requires
        dateable(now),
    ensures
        r@ == db_route(request@, now),
{
    proof {
        reveal_strlit("GET");
        reveal_strlit("POST");
    }
    if bytes_equal(request.method.as_slice(), ascii_bytes("GET")) {
        db_get_handler(request.header.as_slice(), now)
    } else if bytes_equal(request.method.as_slice(), ascii_bytes("POST")) {
        db_post_handler(request.body.as_slice(), request.header.as_slice(), now)
    } else {
        Route::Respond(unsupported_method(now))
    }
}

/// What a request asks for, by its path.
pub open spec fn route_spec(req: RequestView, now: i64) -> RouteView {
    if req.path == ascii("/"@) {
        RouteView::Respond(page(now, 200, "text/html"@, index_text()))
    } else if req.path == ascii("/sql"@) {
        db_route(req, now)
    } else {
        RouteView::Respond(page(now, 404, "text/html"@, "<h1>404 - Not Found</h1>"@))
    }
}

/// Routes a framed request.
pub fn route(request: &Request, now: i64) -> (r: Route)
    requires
        dateable(now),
    ensures
        r@ == route_spec(request@, now),
{
    proof {
        reveal_strlit("/");
        reveal_strlit("/sql");
    }
    if bytes_equal(request.path.as_slice(), ascii_bytes("/")) {
        Route::Respond(index(now))
    } else if bytes_equal(request.path.as_slice(), ascii_bytes("/sql")) {
        db_handler(request, now)
    } else {
        Route::Respond(unknown_path(now))
    }
}

/// The body of the answer to a successful store operation that took `micros`
/// microseconds and returned `data`.
pub open spec fn success_text(micros: nat, data: Seq<char>) -> Seq<char> {
    "{\"time\": \""@ + decimal(micros) + "μs\", \"data\": "@ + data + "}"@
}

/// The answer to a store operation: 200 with the elapsed time and the document on
/// success, 500 with the message on failure.
pub open spec fn query_response_spec(result: QueryResultView, micros: nat, now: i64) -> ResponseView {
    match result.status {
        QueryResultType::Success => page(
            now,
            200,
            "application/json"@,
            success_text(
                micros,
                match result.query.content {
                    Some(c) => c,
                    None => Seq::empty(),
                },
            ),
        ),
        QueryResultType::Error => page(
            now,
            500,
            "application/json"@,
            "{\"error\": \""@ + result.message + "\"}"@,
        ),
    }
}

/// Shapes the outcome of a store operation that took `micros` microseconds.
pub fn query_response(result: &QueryResult, micros: u128, now: i64) -> (r: HttpResponse)
    requires
        dateable(now),
    ensures
        r@ == query_response_spec(result@, micros as nat, now),
{
    match result.status {
        QueryResultType::Success => {
            let mut content = String::from_str("{\"time\": \"");
            content.append(decimal_string(micros).as_str());
            content.append("μs\", \"data\": ");
            match &result.query.content {
                Some(c) => content.append(c.as_str()),
                None => {},
            }
            content.append("}");
            assert(content@ =~= success_text(
                micros as nat,
                match result.query.content {
                    Some(c) => c@,
                    None => Seq::empty(),
                },
            ));
            make_page(now, 200, "application/json", content)
        },
        QueryResultType::Error => {
            let mut content = String::from_str("{\"error\": \"");
            content.append(result.message.as_str());
            content.append("\"}");
            make_page(now, 500, "application/json", content)
        },
    }
}

/// A `/sql` read or write whose header block lacks `DB: ` or `TABLE: ` is
/// answered with Bad Request and a JSON error body, whatever else it holds.
pub proof fn lemma_table_headers_required(req: RequestView, now: i64)
    requires
        req.path == ascii("/sql"@),
        req.method == ascii("GET"@) || req.method == ascii("POST"@),
        find(req.header, database_key()) is None || find(req.header, table_key()) is None,
    ensures
        route_spec(req, now) == RouteView::Respond(
            page(now, 400, "application/json"@, missing_header_text()),
        ),
{
    reveal_strlit("/sql");
    reveal_strlit("/");
    assert(ascii("/sql"@).len() != ascii("/"@).len());
}

} // verus!
