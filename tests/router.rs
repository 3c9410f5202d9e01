use alveus::framer::{frame, Frame, FrameError, Request};
use alveus::http_header::{HttpHeader, CONTENT_TYPE, DATE};

const NOW: i64 = 1431648000;
const NOW_DATE: &str = "Fri, 15 May 2015 00:00:00 GMT";
use alveus::http_response::HttpResponse;
use alveus::router::{
    bad_request, db_get_handler, db_post_handler, dummy_response, favicon, index, query_response,
    route, unknown_path, unsupported_method, Route,
};
use alveus::store::{read, Query, QueryResult, QueryResultType, TableLookup};

fn request(bytes: &[u8]) -> Request {
    match frame(bytes) {
        Frame::Complete(r) => r,
        _ => panic!("request not complete"),
    }
}

fn respond(route: Route) -> HttpResponse {
    match route {
        Route::Respond(r) => r,
        _ => panic!("expected a direct response"),
    }
}

fn content_type(r: &HttpResponse) -> Option<String> {
    r.header.get(CONTENT_TYPE).cloned()
}

#[test]
fn root_serves_static_page() {
    let r = respond(route(&request(b"GET / HTTP/1.1\r\n\r\n"), NOW));
    assert_eq!(r.status_code, 200);
    assert_eq!(content_type(&r), Some("text/html".to_string()));
    assert!(r.content.starts_with("<h1> AlveusDB </h1>"));
    let r = respond(route(&request(b"POST / HTTP/1.1\r\nContent-Length: 2\r\n\r\nhi"), NOW));
    assert_eq!(r.status_code, 200);
}

#[test]
fn unknown_path_is_not_found() {
    let r = respond(route(&request(b"GET /unknown HTTP/1.1\r\n\r\n"), NOW));
    assert_eq!(r.status_code, 404);
    assert_eq!(r.content, "<h1>404 - Not Found</h1>");
    assert_eq!(content_type(&r), Some("text/html".to_string()));
}

#[test]
fn other_method_on_sql_is_not_allowed() {
    let r = respond(route(&request(
        b"PUT /sql HTTP/1.1\r\nContent-Length: 8\r\nDB: shop\r\nTABLE: orders\r\n\r\n{\"id\":1}",
    ), NOW));
    assert_eq!(r.status_code, 405);
    assert_eq!(r.content, "<h1>405 - Method Not Allowed</h1>");
}

#[test]
fn sql_without_table_headers_is_bad_request() {
    let expected = r#"{"error": "Bad Request. Missing or malformed DB or TABLE header"}"#;
    let r = respond(route(&request(b"GET /sql HTTP/1.1\r\nDB: shop\r\n\r\n"), NOW));
    assert_eq!(r.status_code, 400);
    assert_eq!(r.content, expected);
    assert_eq!(content_type(&r), Some("application/json".to_string()));
    let r = respond(route(&request(b"POST /sql HTTP/1.1\r\nContent-Length: 2\r\nTABLE: t\r\n\r\n{}"), NOW));
    assert_eq!(r.status_code, 400);
    assert_eq!(r.content, expected);
    let r = respond(db_get_handler(b"Host: x", NOW));
    assert_eq!(r.content, expected);
}

#[test]
fn table_headers_make_the_query() {
    match db_get_handler(b"Host: x\r\nDB: shop\r\nTABLE: orders\r\nAccept: */*", NOW) {
        Route::Read(q) => {
            assert_eq!(q.database, "shop");
            assert_eq!(q.table, "orders");
            assert_eq!(q.content, None);
        }
        _ => panic!("expected a read"),
    }
    match db_post_handler(b"[1]", b"TABLE: t\r\nDB: d", NOW) {
        Route::Write(q) => {
            assert_eq!(q.database, "d");
            assert_eq!(q.table, "t");
            assert_eq!(q.content, Some("[1]".to_string()));
        }
        _ => panic!("expected a write"),
    }
}

#[test]
fn invalid_utf8_body_is_replaced() {
    match db_post_handler(&[0x22, 0xff, 0x22], b"DB: d\r\nTABLE: t", NOW) {
        Route::Write(q) => assert_eq!(q.content, Some("\"\u{fffd}\"".to_string())),
        _ => panic!("expected a write"),
    }
}

#[test]
fn end_to_end_write_then_read() {
    let post = request(b"POST /sql HTTP/1.1\r\nContent-Length: 8\r\nDB: shop\r\nTABLE: orders\r\n\r\n{\"id\":1}");
    let query = match route(&post, NOW) {
        Route::Write(q) => q,
        _ => panic!("expected a write"),
    };
    let written = alveus::store::write(&query);
    assert_eq!(written.status, QueryResultType::Success);
    let response = query_response(&written, 42, NOW);
    assert_eq!(response.status_code, 200);
    assert_eq!(content_type(&response), Some("application/json".to_string()));
    assert_eq!(response.content, "{\"time\": \"42μs\", \"data\": {\"id\":1}}");
    let stored = written.query.content.clone().unwrap();

    let get = request(b"GET /sql HTTP/1.1\r\nDB: shop\r\nTABLE: orders\r\n\r\n");
    let query = match route(&get, NOW) {
        Route::Read(q) => q,
        _ => panic!("expected a read"),
    };
    assert_eq!(query.database, "shop");
    assert_eq!(query.table, "orders");
    let result = read(&query, TableLookup::Found(stored));
    let response = query_response(&result, 7, NOW);
    assert_eq!(response.status_code, 200);
    assert!(response.content.contains("\"time\": \"7μs\""));
    assert!(response.content.contains("\"data\": {\"id\":1}"));
}

#[test]
fn store_error_is_internal_server_error() {
    let result = QueryResult {
        status: QueryResultType::Error,
        message: "table does not exist".to_string(),
        query: Query::new("a".to_string(), "b".to_string(), None),
    };
    let r = query_response(&result, 0, NOW);
    assert_eq!(r.status_code, 500);
    assert_eq!(r.content, "{\"error\": \"table does not exist\"}");
}

#[test]
fn success_without_content_has_empty_data() {
    let result = QueryResult {
        status: QueryResultType::Success,
        message: "query processed successfully".to_string(),
        query: Query::new("a".to_string(), "b".to_string(), None),
    };
    assert_eq!(query_response(&result, 1234567, NOW).content, "{\"time\": \"1234567μs\", \"data\": }");
}

#[test]
fn framing_errors_answer_bad_request() {
    let r = bad_request(FrameError::MissingLength, NOW);
    assert_eq!(r.status_code, 400);
    assert_eq!(r.content, "{\"error\": \"Content-Length header not found\"}");
    assert_eq!(bad_request(FrameError::InvalidLength, NOW).content, "{\"error\": \"Error while trying to parse the content length\"}");
    assert_eq!(bad_request(FrameError::EmptyBody, NOW).content, "{\"error\": \"No content found\"}");
}

#[test]
fn static_pages() {
    assert_eq!(index(NOW).status_code, 200);
    assert_eq!(unknown_path(NOW).status_code, 404);
    assert_eq!(unsupported_method(NOW).status_code, 405);
    let f = favicon(NOW);
    assert_eq!(f.status_code, 200);
    assert_eq!(content_type(&f), Some("image/x-icon".to_string()));
    assert_eq!(f.content, "");
    assert_eq!(dummy_response("/x", "GET", NOW).content, "/x - GET - 200");
}

#[test]
fn response_wire_text() {
    let r = unknown_path(NOW);
    assert_eq!(
        r.to_string(),
        format!(
            "HTTP/1.1 404\r\nContent-Type: text/html\r\nDate: {}\r\n\r\n\r\n<h1>404 - Not Found</h1>",
            NOW_DATE
        )
    );
    let r = HttpResponse::new(0)
        .with_protocol("HTTP/1.0".to_string())
        .with_status_code(500)
        .with_content("x".to_string());
    assert_eq!(r.to_string(), "HTTP/1.0 500\r\nDate: Thu, 01 Jan 1970 00:00:00 GMT\r\n\r\n\r\nx");
}

#[test]
fn header_fields_keep_fixed_order() {
    let h = HttpHeader::new(0).with_content_type("text/plain".to_string());
    assert_eq!(h.get(DATE), Some(&"Thu, 01 Jan 1970 00:00:00 GMT".to_string()));
    assert_eq!(
        h.to_string(),
        "Content-Type: text/plain\r\nDate: Thu, 01 Jan 1970 00:00:00 GMT\r\n"
    );
    let h = HttpHeader::new(0).with_field(0, "v".to_string()).with_field(40, "w".to_string());
    assert_eq!(h.to_string(), "A-IM: v\r\nDate: Thu, 01 Jan 1970 00:00:00 GMT\r\nWarning: w\r\n");
}

#[test]
fn new_header_carries_only_its_date() {
    let h = HttpHeader::new(NOW);
    assert_eq!(h.get(DATE), Some(&NOW_DATE.to_string()));
    for i in 0..41 {
        if i != DATE {
            assert_eq!(h.get(i), None);
        }
    }
    let last = HttpHeader::new(alveus::http_header::LAST_DATEABLE);
    assert_eq!(last.get(DATE), Some(&"Fri, 31 Dec 9999 23:59:59 GMT".to_string()));
}

#[test]
fn pages_carry_the_date_of_their_time() {
    let r = index(NOW);
    assert_eq!(r.header.get(DATE), Some(&NOW_DATE.to_string()));
}
