//! The store: a table of file paths and a vector index over embeddings, held
//! by one SQLite connection and joined by row identity.
//!
//! The engine answers every statement, and what it answers is not known here.
//! Each operation therefore comes in two parts. One function talks to the
//! engine and says what holds whatever came back. The decisions stand in
//! functions that take the engine's reply as an argument and say exactly what
//! follows from it.

use crate::codec::{decoded, from_byte_array, to_byte_array};
use crate::decimal::{digits, push_digits};
use crate::embed::Embedding;
use crate::error::IndexError;
use crate::protocol::InsertStep;
use rusqlite::Connection;
use vstd::prelude::*;
use vstd::string::*;

verus! {

/// `rusqlite::Connection`, carried through as it is: nothing inside it is
/// seen here.
#[verifier::external_type_specification]
#[verifier::external_body]
pub struct ExConnection(rusqlite::Connection);

/// `rusqlite::Error`, carried from the statement that failed to the two
/// functions that read its kind and its text.
#[verifier::external_type_specification]
#[verifier::external_body]
pub struct ExSqlError(rusqlite::Error);

/// The kinds of failure that are told apart; the rest are `Other`.
#[derive(Debug, Clone, Copy, PartialEq, Eq)]
pub enum SqlFailureKind {
    SqlInputError,
    SqliteFailure,
    ToSqlConversionFailure,
    InvalidQuery,
    QueryReturnedNoRows,
    Other,
}

/// A failed statement: its kind, and the engine's own words.
#[derive(Debug, PartialEq, Eq)]
pub struct SqlFailure {
    pub kind: SqlFailureKind,
    pub message: String,
}

/// What the engine answered to a statement. `Ok` carries the identity of the
/// row that was last inserted on the connection.
pub type Reply = Result<i64, SqlFailure>;

/// The extension that the vector index needs loaded before it: its file
/// name without the ending, which the engine adds as the platform has it.
pub const VECTOR_EXTENSION: &'static str = "vector0";

/// The extension of the vector index, named as `VECTOR_EXTENSION` is.
pub const INDEX_EXTENSION: &'static str = "vss0";

/// Creates the table of file paths.
pub const CREATE_FILES: &'static str = "create table if not exists files (file_path text);";

/// Writes a path; the engine assigns the row identity.
pub const INSERT_FILE: &'static str = "insert into files (file_path) values (?1)";

/// Writes a vector under a given row identity.
pub const INSERT_VECTOR: &'static str =
    "insert into vss_files (rowid, file_embedding) values (?1, ?2)";

/// Asks for the highest row identity in use, zero where there is none.
pub const NEWEST_ROW: &'static str = "select coalesce(max(rowid), 0) from files";

/// Asks the index for the row nearest to a vector, and the table of paths for
/// the path of that row.
pub const NEAREST_PATH: &'static str =
    "select f.file_path from files as f join (select rowid from vss_files where vss_search(file_embedding, ?1) limit 1) as v on v.rowid = f.rowid;";

/// Asks the index for the row nearest to a vector, and for the vector of that
/// row.
pub const NEAREST_VECTOR: &'static str =
    "select files.file_embedding from vss_files as files join (select rowid from vss_files where vss_search(file_embedding, ?1) limit 1) as v on v.rowid = files.rowid;";

/// Opens a transaction.
pub const BEGIN: &'static str = "begin";

/// Makes what the open transaction wrote visible.
pub const COMMIT: &'static str = "commit";

/// Undoes what the open transaction wrote.
pub const ROLLBACK: &'static str = "rollback";

/// The statement that creates the vector index for embeddings of `dim`
/// components.
pub open spec fn create_vectors_text(dim: nat) -> Seq<char> {
    "create virtual table if not exists vss_files using vss0 (file_embedding("@ + digits(dim)
        + "));"@
}

pub fn create_vectors(dim: usize) -> (sql: String)
    ensures
        sql@ == create_vectors_text(dim as nat),
{
    let mut sql = "create virtual table if not exists vss_files using vss0 (file_embedding(".to_owned();
    push_digits(&mut sql, dim as u64);
    sql.append("));");
    sql
}

/// What is said of an embedding whose length is not the store's dimension.
pub open spec fn dimension_mismatch_text(found: nat, dim: nat) -> Seq<char> {
    "embedding has "@ + digits(found) + " components, the store holds vectors of "@ + digits(dim)
}

fn dimension_mismatch(found: usize, dim: usize) -> (e: IndexError)
    ensures
        e matches IndexError::StoreError(m) && m@ == dimension_mismatch_text(found as nat, dim as nat),
{
    let mut text = "embedding has ".to_owned();
    push_digits(&mut text, found as u64);
    text.append(" components, the store holds vectors of ");
    push_digits(&mut text, dim as u64);
    IndexError::StoreError(text)
}

/// Any failed statement as a store error that carries the engine's words.
pub fn store_error(failure: SqlFailure) -> (e: IndexError)
    ensures
        e == IndexError::StoreError(failure.message),
{
    IndexError::StoreError(failure.message)
}

/// The error a failed statement ends a call with: `NotFound` where a query
/// had no row to give, else a store error that carries the engine's words.
pub open spec fn failure_error(failure: SqlFailure) -> IndexError {
    if failure.kind == SqlFailureKind::QueryReturnedNoRows {
        IndexError::NotFound
    } else {
        IndexError::StoreError(failure.message)
    }
}

pub fn check_err(err: SqlFailure) -> (e: IndexError)
    ensures
        e == failure_error(err),
{
    match err.kind {
        SqlFailureKind::QueryReturnedNoRows => IndexError::NotFound,
        _ => IndexError::StoreError(err.message),
    }
}

/// `rusqlite::Connection::execute` with no parameter. Nothing is claimed of
/// the result: the engine decides it.
#[verifier::external_body]
fn run_plain(conn: &Connection, sql: &str) -> (ran: Result<usize, rusqlite::Error>) {
    conn.execute(sql, ())
}

/// `rusqlite::Connection::execute` with one text parameter. Nothing is
/// claimed of the result.
#[verifier::external_body]
fn run_with_text(conn: &Connection, sql: &str, text: &str) -> (ran: Result<usize, rusqlite::Error>) {
    conn.execute(sql, [text])
}

/// `rusqlite::Connection::execute` with a row identity and a blob. Nothing is
/// claimed of the result.
#[verifier::external_body]
fn run_with_row_and_blob(conn: &Connection, sql: &str, row: i64, blob: &Vec<u8>) -> (ran: Result<
    usize,
    rusqlite::Error,
>) {
    conn.execute(sql, (row, blob))
}

/// `rusqlite::Connection::last_insert_rowid`. Nothing is claimed of the
/// result.
#[verifier::external_body]
fn last_row(conn: &Connection) -> (row: i64) {
    conn.last_insert_rowid()
}

/// `rusqlite::Connection::query_row` with no parameter, for the first column
/// of the first row as an integer. Nothing is claimed of the result.
#[verifier::external_body]
fn ask_integer(conn: &Connection, sql: &str) -> (found: Result<i64, rusqlite::Error>) {
    conn.query_row(sql, (), |row| row.get(0))
}

/// `rusqlite::Connection::query_row` with one blob parameter, for the first
/// column of the first row as text. Nothing is claimed of the result.
#[verifier::external_body]
fn ask_text(conn: &Connection, sql: &str, blob: &Vec<u8>) -> (found: Result<String, rusqlite::Error>) {
    conn.query_row(sql, [blob], |row| row.get(0))
}

/// `rusqlite::Connection::query_row` with one blob parameter, for the first
/// column of the first row as a blob. Nothing is claimed of the result.
#[verifier::external_body]
fn ask_blob(conn: &Connection, sql: &str, blob: &Vec<u8>) -> (found: Result<Vec<u8>, rusqlite::Error>) {
    conn.query_row(sql, [blob], |row| row.get(0))
}

/// Tells the variants of `rusqlite::Error` apart. Nothing is claimed of the
/// result.
#[verifier::external_body]
fn failure_kind(err: &rusqlite::Error) -> (kind: SqlFailureKind) {
    match err {
        rusqlite::Error::SqlInputError { .. } => SqlFailureKind::SqlInputError,
        rusqlite::Error::SqliteFailure(..) => SqlFailureKind::SqliteFailure,
        rusqlite::Error::ToSqlConversionFailure(..) => SqlFailureKind::ToSqlConversionFailure,
        rusqlite::Error::InvalidQuery => SqlFailureKind::InvalidQuery,
        rusqlite::Error::QueryReturnedNoRows => SqlFailureKind::QueryReturnedNoRows,
        _ => SqlFailureKind::Other,
    }
}

/// The text that `rusqlite::Error` displays. Nothing is claimed of the
/// result.
#[verifier::external_body]
fn failure_text(err: &rusqlite::Error) -> (text: String) {
    err.to_string()
}

fn failure_of(err: rusqlite::Error) -> SqlFailure {
    SqlFailure { kind: failure_kind(&err), message: failure_text(&err) }
}

/// A store: the connection, the dimension of its vectors, and the highest
/// row identity it has handed out (zero while it holds no file).
pub struct Store {
    conn: Connection,
    dim: usize,
    newest: i64,
}

/// What a store knows of itself.
pub struct StoreView {
    /// The number of components of every vector in the index.
    pub dim: nat,
    /// The highest row identity handed out so far; zero for an empty store.
    pub newest_row: int,
}

impl View for Store {
    type V = StoreView;

    closed spec fn view(&self) -> StoreView {
        StoreView { dim: self.dim as nat, newest_row: self.newest as int }
    }
}

impl Store {
    #[verifier::type_invariant]
    spec fn well_formed(self) -> bool {
        self.dim > 0 && self.newest >= 0
    }

    /// The number of components of every vector in the index; never zero.
    pub fn dimension(&self) -> (dim: usize)
        ensures
            dim == self@.dim,
            dim > 0,
    {
        proof {
            use_type_invariant(self);
        }
        self.dim
    }

    /// The highest row identity handed out so far; zero for an empty store.
    pub fn newest_row(&self) -> (row: i64)
        ensures
            row == self@.newest_row,
            row >= 0,
    {
        proof {
            use_type_invariant(self);
        }
        self.newest
    }

    /// Whether the store holds no file.
    pub fn is_empty(&self) -> (empty: bool)
        ensures
            empty == (self@.newest_row == 0),
    {
        self.newest == 0
    }

    /// The connection the store holds: the one it was made of.
    pub closed spec fn held_connection(&self) -> Connection {
        self.conn
    }

    /// The connection, for statements of the caller's own. The store does
    /// not learn of rows that are written through it.
    pub fn connection(&self) -> (conn: &Connection)
        ensures
            *conn == self.held_connection(),
    {
        &self.conn
    }

    /// Gives the connection back and ends the store.
    pub fn into_connection(self) -> (conn: Connection)
        ensures
            conn == self.held_connection(),
    {
        self.conn
    }
}

/// What is said of a store that was asked for vectors of no component.
pub const NO_DIMENSION: &'static str = "the embedding dimension must not be zero";

/// What is said when the engine reports a negative row identity.
pub const NEGATIVE_ROW: &'static str = "the engine reported a negative row identity";

/// What is said of a stored vector that does not end on a whole component.
pub const BROKEN_VECTOR: &'static str = "a stored vector does not end on a whole component";

/// The highest row identity of a store, from what the engine answered when
/// asked for it: the number itself if it is not negative.
pub fn newest_row_of(reply: Reply) -> (newest: Result<i64, IndexError>)
    ensures
        match reply {
            Ok(row) => if row >= 0 {
                newest == Ok::<i64, IndexError>(row)
            } else {
                newest matches Err(IndexError::StoreError(m)) && m@ == NEGATIVE_ROW@
            },
            Err(failure) => newest == Err::<i64, IndexError>(IndexError::StoreError(failure.message)),
        },
{
    match reply {
        Ok(row) => if row >= 0 {
            Ok(row)
        } else {
            Err(IndexError::StoreError(NEGATIVE_ROW.to_owned()))
        },
        Err(failure) => Err(store_error(failure)),
    }
}

/// Makes a store of a connection, which the store then holds: creates the
/// two tables where they are missing, and learns the highest row identity in
/// use. Tables that are
/// there already are left as they are, so a store may be made again of a
/// database that held one before. The vector index comes from an extension
/// that the caller has loaded into the connection.
///
/// A dimension of zero is refused before the engine is asked. Otherwise the
/// engine decides: every failed statement ends the call with a store error.
pub fn init_db(conn: Connection, dim: usize) -> (store: Result<Store, IndexError>)
    ensures
        dim == 0 ==> (store matches Err(IndexError::StoreError(m)) && m@ == NO_DIMENSION@),
        store matches Ok(s) ==> s@.dim == dim && s@.newest_row >= 0 && s.held_connection() == conn,
        store matches Err(e) ==> e is StoreError,
{
    if dim == 0 {
        return Err(IndexError::StoreError(NO_DIMENSION.to_owned()));
    }
    match run_plain(&conn, CREATE_FILES) {
        Ok(_) => {},
        Err(err) => {
            return Err(store_error(failure_of(err)));
        },
    }
    let create = create_vectors(dim);
    match run_plain(&conn, create.as_str()) {
        Ok(_) => {},
        Err(err) => {
            return Err(store_error(failure_of(err)));
        },
    }
    let reply: Reply = match ask_integer(&conn, NEWEST_ROW) {
        Ok(row) => Ok(row),
        Err(err) => Err(failure_of(err)),
    };
    match newest_row_of(reply) {
        Ok(newest) => Ok(Store { conn, dim, newest }),
        Err(e) => Err(e),
    }
}

/// Runs the statement of one step of an insert, which `InsertStep::statement`
/// names, with the path or the row identity and the vector bytes where the
/// statement takes them, and reports the engine's answer.
fn perform(conn: &Connection, step: &InsertStep, path: &str, blob: &Vec<u8>) -> (reply: Reply)
    requires
        !step@.ended(),
{
    let sql = step.statement();
    let ran = match step {
        InsertStep::WriteFile => run_with_text(conn, sql, path),
        InsertStep::WriteVector { row } => run_with_row_and_blob(conn, sql, *row, blob),
        _ => run_plain(conn, sql),
    };
    match ran {
        Ok(_) => Ok(last_row(conn)),
        Err(err) => Err(failure_of(err)),
    }
}

/// Stores a file: its path in one table, its embedding in the other, under
/// one new row identity, which is returned.
///
/// An embedding whose length is not the store's dimension is refused before
/// the engine is asked. Otherwise the insert follows `InsertStep::advance`
/// from `Begin` until it has ended, one statement for each step. It ends in
/// `Ok` only where the engine accepted every statement and gave a row
/// identity above all earlier ones; the store then remembers that identity.
/// However else it ends, the call fails with a store error and the store
/// knows what it knew before.
pub fn add_embedding(store: &mut Store, path: &str, embedding: &Embedding) -> (result: Result<
    i64,
    IndexError,
>)
    requires
        path@.len() > 0,
    ensures
        final(store)@.dim == old(store)@.dim,
        final(store).held_connection() == old(store).held_connection(),
        embedding@.len() != old(store)@.dim ==> (result matches Err(IndexError::StoreError(m)) && m@
            == dimension_mismatch_text(embedding@.len(), old(store)@.dim)),
        match result {
            Ok(row) => {
                &&& embedding@.len() == old(store)@.dim
                &&& row > old(store)@.newest_row
                &&& final(store)@.newest_row == row
            },
            Err(e) => e is StoreError && final(store)@ == old(store)@,
        },
{
    proof {
        use_type_invariant(&*store);
    }
    if embedding.len() != store.dim {
        return Err(dimension_mismatch(embedding.len(), store.dim));
    }
    let blob = to_byte_array(embedding);
    let mut step = InsertStep::Begin;
    while !step.ended()
        invariant
            *store == *old(store),
            step@.row_above(store.newest as int),
        decreases step@.statements_left(),
    {
        let reply = perform(&store.conn, &step, path, &blob);
        step = step.advance(reply, store.newest);
    }
    match step {
        InsertStep::Stored { row } => {
            store.newest = row;
            Ok(row)
        },
        InsertStep::Failed { cause } => Err(IndexError::StoreError(cause)),
        _ => unreached(),
    }
}

/// What a search returns, from what the engine answered to the query: the
/// path it found; `NotFound` where it had no row to give; a store error for
/// any other failure.
pub open spec fn path_found(reply: Result<String, SqlFailure>) -> Result<String, IndexError> {
    match reply {
        Ok(path) => Ok(path),
        Err(failure) => Err(failure_error(failure)),
    }
}

pub fn found_path(reply: Result<String, SqlFailure>) -> (result: Result<String, IndexError>)
    ensures
        result == path_found(reply),
{
    match reply {
        Ok(path) => Ok(path),
        Err(failure) => Err(check_err(failure)),
    }
}

/// The path of the file whose embedding is nearest to `embedding`.
///
/// An empty store has no nearest file: the call fails with `NotFound`,
/// whatever is asked, and the engine is not troubled. On any other store an
/// embedding whose length is not the store's dimension is refused with a
/// store error. Otherwise the engine is asked, and `found_path` says what
/// the call returns for each of its answers.
pub fn semantic_file_search(store: &Store, embedding: &Embedding) -> (result: Result<
    String,
    IndexError,
>)
    ensures
        store@.newest_row == 0 ==> result == Err::<String, IndexError>(IndexError::NotFound),
        store@.newest_row != 0 && embedding@.len() != store@.dim ==> (result matches Err(
            IndexError::StoreError(m),
        ) && m@ == dimension_mismatch_text(embedding@.len(), store@.dim)),
        result matches Err(e) ==> e is NotFound || e is StoreError,
{
    if store.newest == 0 {
        return Err(IndexError::NotFound);
    }
    if embedding.len() != store.dim {
        return Err(dimension_mismatch(embedding.len(), store.dim));
    }
    let blob = to_byte_array(embedding);
    let reply = match ask_text(&store.conn, NEAREST_PATH, &blob) {
        Ok(path) => Ok(path),
        Err(err) => Err(failure_of(err)),
    };
    found_path(reply)
}

/// What a lookup of the nearest vector returns, from what the engine
/// answered: the vector that the stored bytes spell; a store error where
/// they do not end on a whole component; else as `found_path`.
pub fn found_vector(reply: Result<Vec<u8>, SqlFailure>) -> (result: Result<Embedding, IndexError>)
    ensures
        match reply {
            Ok(bytes) => if bytes@.len() % 4 == 0 {
                result matches Ok(e) && e@ == decoded(bytes@)
            } else {
                result matches Err(IndexError::StoreError(m)) && m@ == BROKEN_VECTOR@
            },
            Err(failure) => result matches Err(e) && e == failure_error(failure),
        },
{
    match reply {
        Ok(bytes) => match from_byte_array(bytes.as_slice()) {
            Some(e) => Ok(e),
            None => Err(IndexError::StoreError(BROKEN_VECTOR.to_owned())),
        },
        Err(failure) => Err(check_err(failure)),
    }
}

/// The stored embedding that is nearest to `embedding`, on the same terms as
/// `semantic_file_search`; `found_vector` says what is returned for each
/// answer of the engine.
pub fn get_file_vector(store: &Store, embedding: &Embedding) -> (result: Result<
    Embedding,
    IndexError,
>)
    ensures
        store@.newest_row == 0 ==> result matches Err(IndexError::NotFound),
        store@.newest_row != 0 && embedding@.len() != store@.dim ==> (result matches Err(
            IndexError::StoreError(m),
        ) && m@ == dimension_mismatch_text(embedding@.len(), store@.dim)),
        result matches Err(e) ==> e is NotFound || e is StoreError,
{
    if store.newest == 0 {
        return Err(IndexError::NotFound);
    }
    if embedding.len() != store.dim {
        return Err(dimension_mismatch(embedding.len(), store.dim));
    }
    let blob = to_byte_array(embedding);
    let reply = match ask_blob(&store.conn, NEAREST_VECTOR, &blob) {
        Ok(bytes) => Ok(bytes),
        Err(err) => Err(failure_of(err)),
    };
    found_vector(reply)
}

} // verus!
