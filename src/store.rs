//! The table store: one JSON document per (database, table).
//!
//! The file system is the caller's: it tells `read` what it found for a table,
//! and after `write` it makes the database directory and the table file where
//! they are absent and, on success, replaces the file with the canonical text
//! that the result carries. `after_write` states that effect.

use vstd::prelude::*;

verus! {

#[verifier::external_type_specification]
#[verifier::external_body]
pub struct ExJsonValue(serde_json::Value);

#[verifier::external_type_specification]
#[verifier::external_body]
pub struct ExJsonError(serde_json::Error);

/// What `serde_json::from_str::<Value>` returns for a text.
pub uninterp spec fn json_parse(text: Seq<char>) -> Result<serde_json::Value, serde_json::Error>;

/// The compact text that `serde_json::to_string` writes for a value.
pub uninterp spec fn json_text(value: serde_json::Value) -> Seq<char>;

/// The message of a `serde_json` error.
pub uninterp spec fn json_error_text(error: serde_json::Error) -> Seq<char>;

/// Relies on `serde_json::from_str`: the value, or the error, depends on the
/// text alone.
#[verifier::external_body]
fn parse_json(text: &str) -> (r: Result<serde_json::Value, serde_json::Error>)
    ensures
        r == json_parse(text@),
{
    serde_json::from_str(text)
}

/// Relies on `serde_json::to_string`: the compact text of a value depends on the
/// value alone, and writing a `Value` to a `Vec` never fails (its map keys are
/// strings and non-finite numbers are written as `null`).
#[verifier::external_body]
fn serialize_json(value: &serde_json::Value) -> (r: Result<String, serde_json::Error>)
    ensures
        r is Ok,
        r matches Ok(t) ==> t@ == json_text(*value),
{
    serde_json::to_string(value)
}

/// Relies on the `Display` impl of `serde_json::Error`: the message depends on
/// the error alone.
#[verifier::external_body]
fn json_error_message(error: &serde_json::Error) -> (r: String)
    ensures
        r@ == json_error_text(*error),
{
    error.to_string()
}

/// The canonical form of a JSON text: the text parsed and written out again, or
/// `None` where it does not parse.
pub open spec fn canonical_json(text: Seq<char>) -> Option<Seq<char>> {
    match json_parse(text) {
        Ok(v) => Some(json_text(v)),
        Err(_) => None,
    }
}

/// The outcome of a store operation.
#[derive(PartialEq, Eq, Structural, Clone, Copy, Debug)]
pub enum QueryResultType {
    Success,
    Error,
}

/// A read or write intent on one table. `content` is the document to write;
/// it is `None` for a read.
pub struct Query {
    pub database: String,
    pub table: String,
    pub content: Option<String>,
}

/// The mathematical value of a `Query`.
pub struct QueryView {
    pub database: Seq<char>,
    pub table: Seq<char>,
    pub content: Option<Seq<char>>,
}

impl View for Query {
    type V = QueryView;

    open spec fn view(&self) -> QueryView {
        QueryView {
            database: self.database@,
            table: self.table@,
            content: match self.content {
                Some(c) => Some(c@),
                None => None,
            },
        }
    }
}

impl Query {
    pub fn new(database: String, table: String, content: Option<String>) -> (r: Query)
        ensures
            r.database == database,
            r.table == table,
            r.content == content,
    {
        Query { database, table, content }
    }

    /// A copy of this query.
    pub fn copy(&self) -> (r: Query)
        ensures
            r@ == self@,
    {
        let content = match &self.content {
            Some(c) => Some(c.clone()),
            None => None,
        };
        Query { database: self.database.clone(), table: self.table.clone(), content }
    }
}

/// The outcome of a store operation, its message, and the query it resolved;
/// a successful read carries the stored document as the query's content.
pub struct QueryResult {
    pub status: QueryResultType,
    pub message: String,
    pub query: Query,
}

/// The mathematical value of a `QueryResult`.
pub struct QueryResultView {
    pub status: QueryResultType,
    pub message: Seq<char>,
    pub query: QueryView,
}

impl View for QueryResult {
    type V = QueryResultView;

    open spec fn view(&self) -> QueryResultView {
        QueryResultView { status: self.status, message: self.message@, query: self.query@ }
    }
}

/// The message of every successful operation.
pub open spec fn success_message() -> Seq<char> {
    "query processed successfully"@
}

/// The prefix of the message of a write whose content is not JSON.
pub open spec fn invalid_json_prefix() -> Seq<char> {
    "query content is not valid json: "@
}

/// A failed operation on `query`.
pub open spec fn failure(query: QueryView, message: Seq<char>) -> QueryResultView {
    QueryResultView { status: QueryResultType::Error, message, query }
}

/// A successful operation, echoing `query`.
pub open spec fn success(query: QueryView) -> QueryResultView {
    QueryResultView { status: QueryResultType::Success, message: success_message(), query }
}

/// The outcome of writing `query`.
pub open spec fn write_spec(query: QueryView) -> QueryResultView {
    match query.content {
        None => failure(query, "query content is empty"@),
        Some(c) => match json_parse(c) {
            Err(e) => failure(query, invalid_json_prefix() + json_error_text(e)),
            Ok(v) => success(QueryView { content: Some(json_text(v)), ..query }),
        },
    }
}

/// The failure of an operation on `query` for a reason the file system gives.
pub fn failed(query: &Query, message: String) -> (r: QueryResult)
    ensures
        r@ == failure(query@, message@),
{
    QueryResult { status: QueryResultType::Error, message, query: query.copy() }
}

fn invalid_json(query: &Query, error: &serde_json::Error) -> (r: QueryResult)
    ensures
        r@ == failure(query@, invalid_json_prefix() + json_error_text(*error)),
{
    let message = String::from_str("query content is not valid json: ");
    failed(query, message.concat(json_error_message(error).as_str()))
}

/// Checks and canonicalises the document of a write. On success the result
/// carries the canonical text, which the store puts in place of the table's
/// content; a write without content, or with content that is not JSON, fails.
pub fn write(query: &Query) -> (r: QueryResult)
    ensures
        r@ == write_spec(query@),
{
    match &query.content {
        None => failed(query, String::from_str("query content is empty")),
        Some(content) => match parse_json(content.as_str()) {
            Err(e) => invalid_json(query, &e),
            Ok(v) => match serialize_json(&v) {
                Err(e) => invalid_json(query, &e),
                Ok(t) => QueryResult {
                    status: QueryResultType::Success,
                    message: String::from_str("query processed successfully"),
                    query: Query {
                        database: query.database.clone(),
                        table: query.table.clone(),
                        content: Some(t),
                    },
                },
            },
        },
    }
}

/// The directory that holds the tables of `database`.
pub open spec fn database_path(database: Seq<char>) -> Seq<char> {
    "db/"@ + database
}

/// The file that holds `table` of `database`.
pub open spec fn table_path(database: Seq<char>, table: Seq<char>) -> Seq<char> {
    database_path(database) + "/"@ + table + ".json"@
}

impl Query {
    /// The directory of the database this query names.
    pub fn database_dir(&self) -> (r: String)
        ensures
            r@ == database_path(self.database@),
    {
        String::from_str("db/").concat(self.database.as_str())
    }

    /// The file of the table this query names.
    pub fn table_file(&self) -> (r: String)
        ensures
            r@ == table_path(self.database@, self.table@),
    {
        let mut out = self.database_dir();
        out.append("/");
        out.append(self.table.as_str());
        out.append(".json");
        out
    }
}

/// What the store found for the table a read names.
pub enum TableLookup {
    /// The database directory is absent.
    NoDatabase,
    /// The database exists, the table file does not.
    NoTable,
    /// The table file could not be opened; the platform's message.
    OpenFailed(String),
    /// The table file could not be read; the platform's message.
    ReadFailed(String),
    /// The whole content of the table file.
    Found(String),
}

/// The mathematical value of a `TableLookup`.
pub enum LookupView {
    NoDatabase,
    NoTable,
    OpenFailed(Seq<char>),
    ReadFailed(Seq<char>),
    Found(Seq<char>),
}

impl View for TableLookup {
    type V = LookupView;

    open spec fn view(&self) -> LookupView {
        match self {
            TableLookup::NoDatabase => LookupView::NoDatabase,
            TableLookup::NoTable => LookupView::NoTable,
            TableLookup::OpenFailed(m) => LookupView::OpenFailed(m@),
            TableLookup::ReadFailed(m) => LookupView::ReadFailed(m@),
            TableLookup::Found(c) => LookupView::Found(c@),
        }
    }
}

/// The outcome of reading `query` from a table found as `table`.
pub open spec fn read_spec(query: QueryView, table: LookupView) -> QueryResultView {
    match table {
        LookupView::NoDatabase => failure(query, "database does not exist"@),
        LookupView::NoTable => failure(query, "table does not exist"@),
        LookupView::OpenFailed(m) => failure(query, "error opening file: "@ + m),
        LookupView::ReadFailed(m) => failure(query, "error reading file: "@ + m),
        LookupView::Found(c) => success(QueryView { content: Some(c), ..query }),
    }
}

/// Reads the table that `query` names, as the store found it: the stored text
/// as it stands, or the reason there is none.
pub fn read(query: &Query, table: TableLookup) -> (r: QueryResult)
    ensures
        r@ == read_spec(query@, table@),
{
    match table {
        TableLookup::NoDatabase => failed(query, String::from_str("database does not exist")),
        TableLookup::NoTable => failed(query, String::from_str("table does not exist")),
        TableLookup::OpenFailed(m) => {
            let message = String::from_str("error opening file: ");
            failed(query, message.concat(m.as_str()))
        },
        TableLookup::ReadFailed(m) => {
            let message = String::from_str("error reading file: ");
            failed(query, message.concat(m.as_str()))
        },
        TableLookup::Found(c) => QueryResult {
            status: QueryResultType::Success,
            message: String::from_str("query processed successfully"),
            query: Query {
                database: query.database.clone(),
                table: query.table.clone(),
                content: Some(c),
            },
        },
    }
}

/// What a table holds after a write with outcome `r`: the database directory and
/// the table file exist (an absent file is made empty), and a successful write
/// replaces the file's content with the canonical text it carries.
pub open spec fn after_write(table: LookupView, r: QueryResultView) -> LookupView {
    match r.status {
        QueryResultType::Success => LookupView::Found(
            match r.query.content {
                Some(t) => t,
                None => Seq::empty(),
            },
        ),
        QueryResultType::Error => match table {
            LookupView::NoDatabase => LookupView::Found(Seq::empty()),
            LookupView::NoTable => LookupView::Found(Seq::empty()),
            _ => table,
        },
    }
}

/// Writing a valid JSON document succeeds and stores its canonical text, and a
/// read that follows it on the same table returns that text.
pub proof fn lemma_read_after_write(
    table: LookupView,
    database: Seq<char>,
    name: Seq<char>,
    document: Seq<char>,
)
    requires
        json_parse(document) is Ok,
    ensures
        ({
            let w = write_spec(QueryView { database, table: name, content: Some(document) });
            let q = QueryView { database, table: name, content: None };
            &&& w.status == QueryResultType::Success
            &&& canonical_json(document) is Some
            &&& w.query.content == canonical_json(document)
            &&& after_write(table, w) == LookupView::Found(canonical_json(document)->Some_0)
            &&& read_spec(q, after_write(table, w)) == success(
                QueryView { content: canonical_json(document), ..q },
            )
        }),
{
}

/// Writing the same document twice leaves the table as writing it once does; for
/// a valid JSON document both writes succeed and the table holds its canonical
/// text.
pub proof fn lemma_write_idempotent(table: LookupView, query: QueryView)
    ensures
        after_write(after_write(table, write_spec(query)), write_spec(query)) == after_write(
            table,
            write_spec(query),
        ),
        query.content is Some && json_parse(query.content->Some_0) is Ok ==> {
            &&& write_spec(query).status == QueryResultType::Success
            &&& after_write(after_write(table, write_spec(query)), write_spec(query))
                == LookupView::Found(canonical_json(query.content->Some_0)->Some_0)
        },
{
}

/// A write whose content is not JSON fails with a message that says so, and
/// leaves a stored document as it was.
pub proof fn lemma_malformed_write(table: LookupView, query: QueryView)
    requires
        query.content matches Some(c) && json_parse(c) is Err,
    ensures
        write_spec(query).status == QueryResultType::Error,
        write_spec(query).message.subrange(0, invalid_json_prefix().len() as int)
            == invalid_json_prefix(),
        table is Found ==> after_write(table, write_spec(query)) == table,
{
    let c = query.content->Some_0;
    let e = json_parse(c)->Err_0;
    assert((invalid_json_prefix() + json_error_text(e)).subrange(
        0,
        invalid_json_prefix().len() as int,
    ) =~= invalid_json_prefix());
}

} // verus!
