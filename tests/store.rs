use alveus::store::{read, Query, QueryResultType, TableLookup};

fn users_query(content: Option<&str>) -> Query {
    Query::new("test".to_string(), "users".to_string(), content.map(|c| c.to_string()))
}

#[test]
fn test_write() {
    let query = Query {
        database: "test".to_string(),
        table: "users".to_string(),
        content: Some(r#"{"first_name": "John","last_name": "Doe","age": 25}"#.to_string()),
    };

    let result = alveus::store::write(&query);

    assert_eq!(result.status, QueryResultType::Success);
    assert_eq!(result.message, "query processed successfully");
    assert_eq!(result.query.database, "test");
    assert_eq!(result.query.table, "users");
}

#[test]
fn test_read() {
    // The table holds what a write of the document stored.
    let written = alveus::store::write(&users_query(Some(r#"{"first_name": "John","last_name": "Doe","age": 25}"#)));
    let stored = written.query.content.clone().unwrap();

    let query = Query {
        database: "test".to_string(),
        table: "users".to_string(),
        content: None,
    };

    let result = read(&query, TableLookup::Found(stored));

    assert_eq!(result.status, QueryResultType::Success);
    assert_eq!(result.message, "query processed successfully");
    assert_eq!(result.query.database, "test");
    assert_eq!(result.query.table, "users");
    assert_eq!(result.query.content, Some(r#"{"age":25,"first_name":"John","last_name":"Doe"}"#.to_string()));

    let query = Query {
        database: "test".to_string(),
        table: "users2".to_string(),
        content: None,
    };

    let result = read(&query, TableLookup::NoTable);

    assert_eq!(result.status, QueryResultType::Error);
    assert_eq!(result.message, "table does not exist");
    assert_eq!(result.query.database, "test");
    assert_eq!(result.query.table, "users2");
    assert_eq!(result.query.content, None);
}

#[test]
fn write_echoes_canonical_text() {
    let result = alveus::store::write(&users_query(Some("{ \"b\" : [1, 2,  3],\n \"a\": null }")));
    assert_eq!(result.status, QueryResultType::Success);
    assert_eq!(result.query.content, Some(r#"{"a":null,"b":[1,2,3]}"#.to_string()));
}

#[test]
fn read_after_write_returns_same_document() {
    let document = r#"{"name": "widget", "tags": ["a", "b"], "price": 12}"#;
    let written = alveus::store::write(&users_query(Some(document)));
    assert_eq!(written.status, QueryResultType::Success);
    let stored = written.query.content.clone().unwrap();
    let result = read(&users_query(None), TableLookup::Found(stored.clone()));
    assert_eq!(result.status, QueryResultType::Success);
    let back = result.query.content.unwrap();
    assert_eq!(back, stored);
    let written_value: serde_json::Value = serde_json::from_str(document).unwrap();
    let reread: serde_json::Value = serde_json::from_str(&back).unwrap();
    assert_eq!(written_value, reread);
}

#[test]
fn writing_twice_stores_the_same_text() {
    let document = r#"[1, {"x": true}]"#;
    let first = alveus::store::write(&users_query(Some(document)));
    let stored_once = first.query.content.clone().unwrap();
    let second = alveus::store::write(&users_query(Some(document)));
    assert_eq!(second.query.content.unwrap(), stored_once);
}

#[test]
fn missing_table_read() {
    let query = Query::new("x".to_string(), "nonexistent".to_string(), None);
    let result = read(&query, TableLookup::NoTable);
    assert_eq!(result.status, QueryResultType::Error);
    assert_eq!(result.message, "table does not exist");
}

#[test]
fn missing_database_read() {
    let query = Query::new("nonexistent".to_string(), "t".to_string(), None);
    let result = read(&query, TableLookup::NoDatabase);
    assert_eq!(result.status, QueryResultType::Error);
    assert_eq!(result.message, "database does not exist");
    assert_eq!(result.query.database, "nonexistent");
    assert_eq!(result.query.table, "t");
}

#[test]
fn malformed_write_is_refused() {
    let result = alveus::store::write(&users_query(Some("not-json")));
    assert_eq!(result.status, QueryResultType::Error);
    assert!(result.message.starts_with("query content is not valid json: "));
    assert!(result.message.contains("not valid json"));
    assert!(result.message.len() > "query content is not valid json: ".len());
    assert_eq!(result.query.content, Some("not-json".to_string()));
}

#[test]
fn write_without_content_is_refused() {
    let result = alveus::store::write(&users_query(None));
    assert_eq!(result.status, QueryResultType::Error);
    assert_eq!(result.message, "query content is empty");
}

#[test]
fn read_reports_file_errors() {
    let opened = read(&users_query(None), TableLookup::OpenFailed("permission denied".to_string()));
    assert_eq!(opened.status, QueryResultType::Error);
    assert_eq!(opened.message, "error opening file: permission denied");
    let read_back = read(&users_query(None), TableLookup::ReadFailed("stream did not contain valid UTF-8".to_string()));
    assert_eq!(read_back.message, "error reading file: stream did not contain valid UTF-8");
}

#[test]
fn read_returns_stored_text_unvalidated() {
    let result = read(&users_query(None), TableLookup::Found(String::new()));
    assert_eq!(result.status, QueryResultType::Success);
    assert_eq!(result.query.content, Some(String::new()));
}

#[test]
fn query_copy_keeps_fields() {
    let q = users_query(Some("1"));
    let c = q.copy();
    assert_eq!(c.database, "test");
    assert_eq!(c.table, "users");
    assert_eq!(c.content, Some("1".to_string()));
}

#[test]
fn table_files_live_under_their_database() {
    let q = Query::new("shop".to_string(), "orders".to_string(), None);
    assert_eq!(q.database_dir(), "db/shop");
    assert_eq!(q.table_file(), "db/shop/orders.json");
}

#[test]
fn io_failure_carries_the_platform_message() {
    let q = Query::new("shop".to_string(), "orders".to_string(), Some("{}".to_string()));
    let r = alveus::store::failed(&q, "No space left on device".to_string());
    assert_eq!(r.status, QueryResultType::Error);
    assert_eq!(r.message, "No space left on device");
    assert_eq!(r.query.content, Some("{}".to_string()));
}
