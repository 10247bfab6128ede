//! The statements that the store runs on its SQLite connection.
//!
//! Nothing in this file is proved. Each function runs one fixed statement
//! through `rusqlite`, and its contract says what SQLite documents for that
//! statement under the schema: primary keys, the unique path of a book, and
//! foreign keys that are enforced and cascade on delete.
//!
//! A connection is a handle; the rows lie in the database that it is open
//! on. What is said of the rows is therefore said only of a connection that
//! `owns_schema`: its database is reached by no other connection and has
//! the relations that the schema declares. A database in memory on which
//! `create_schema` has succeeded is such a one. Of a database that was
//! opened from a path nothing is known: another connection may write it,
//! and a relation in it may have been declared by another program.

use vstd::prelude::*;
use rusqlite::OptionalExtension;
use crate::model::{enumerates, Tables};
use crate::records::{
    AnnotationRecord, AnnotationRow, BookRecord, BookRow, PositionRecord, PositionRow,
};

verus! {

/// Switches on the enforcement of foreign keys and creates what is absent
/// of the three relations and the index.
///
/// A position within a book is stored as an integer, the bit pattern of
/// the double that holds the percentage: the columns `start_percent`,
/// `end_percent` and `percent` are `INTEGER`. A database whose relations
/// were declared with `REAL` in these columns is not one of this schema:
/// the positions that it holds are not read back, and an integer written
/// to such a column is turned into a floating-point number by the column.
const SCHEMA: &'static str = "PRAGMA foreign_keys = ON;
    CREATE TABLE IF NOT EXISTS books (
        id TEXT PRIMARY KEY,
        title TEXT NOT NULL,
        author TEXT,
        file_path TEXT NOT NULL UNIQUE,
        file_type TEXT NOT NULL,
        cover_data BLOB,
        added_at INTEGER NOT NULL,
        last_read_at INTEGER,
        total_pages INTEGER NOT NULL DEFAULT 0
    );
    CREATE TABLE IF NOT EXISTS annotations (
        id TEXT PRIMARY KEY,
        book_id TEXT NOT NULL REFERENCES books(id) ON DELETE CASCADE,
        annotation_type TEXT NOT NULL,
        start_percent INTEGER NOT NULL,
        end_percent INTEGER NOT NULL,
        page_number INTEGER NOT NULL,
        color TEXT NOT NULL,
        selected_text TEXT,
        note_text TEXT,
        created_at INTEGER NOT NULL
    );
    CREATE TABLE IF NOT EXISTS reading_positions (
        book_id TEXT PRIMARY KEY REFERENCES books(id) ON DELETE CASCADE,
        percent INTEGER NOT NULL,
        page_number INTEGER NOT NULL,
        updated_at INTEGER NOT NULL
    );
    CREATE INDEX IF NOT EXISTS idx_annotations_book_id ON annotations(book_id);";

const INSERT_BOOK: &'static str = "INSERT INTO books (id, title, author, file_path, file_type, \
    cover_data, added_at, last_read_at, total_pages) \
    VALUES (?1, ?2, ?3, ?4, ?5, ?6, ?7, ?8, ?9)";

const SELECT_ALL_BOOKS: &'static str = "SELECT id, title, author, file_path, file_type, \
    cover_data, added_at, last_read_at, total_pages FROM books ORDER BY added_at DESC";

const SELECT_BOOK: &'static str = "SELECT id, title, author, file_path, file_type, \
    cover_data, added_at, last_read_at, total_pages FROM books WHERE id = ?1";

const COUNT_BOOKS_AT_PATH: &'static str = "SELECT COUNT(*) FROM books WHERE file_path = ?1";

const DELETE_BOOK: &'static str = "DELETE FROM books WHERE id = ?1";

const SET_LAST_READ: &'static str = "UPDATE books SET last_read_at = ?1 WHERE id = ?2";

const INSERT_ANNOTATION: &'static str = "INSERT INTO annotations (id, book_id, annotation_type, \
    start_percent, end_percent, page_number, color, selected_text, note_text, created_at) \
    VALUES (?1, ?2, ?3, ?4, ?5, ?6, ?7, ?8, ?9, ?10)";

const SELECT_ANNOTATIONS: &'static str = "SELECT id, book_id, annotation_type, start_percent, \
    end_percent, page_number, color, selected_text, note_text, created_at \
    FROM annotations WHERE book_id = ?1 ORDER BY start_percent";

const DELETE_ANNOTATION: &'static str = "DELETE FROM annotations WHERE id = ?1";

const UPSERT_POSITION: &'static str = "INSERT INTO reading_positions \
    (book_id, percent, page_number, updated_at) VALUES (?1, ?2, ?3, ?4) \
    ON CONFLICT(book_id) DO UPDATE SET percent = excluded.percent, \
    page_number = excluded.page_number, updated_at = excluded.updated_at";

const SELECT_POSITION: &'static str = "SELECT book_id, percent, page_number, updated_at \
    FROM reading_positions WHERE book_id = ?1";

/// `rusqlite::Connection`, an open database.
#[verifier::external_type_specification]
#[verifier::external_body]
pub struct ExConnection(rusqlite::Connection);

/// `rusqlite::Error`, the failure of a call.
#[verifier::external_type_specification]
#[verifier::external_body]
pub struct ExError(rusqlite::Error);

/// The rows of the relation `books`, by their `id`.
pub uninterp spec fn stored_books(conn: rusqlite::Connection) -> Map<Seq<char>, BookRecord>;

/// The rows of the relation `annotations`, by their `id`.
pub uninterp spec fn stored_annotations(conn: rusqlite::Connection) -> Map<
    Seq<char>,
    AnnotationRecord,
>;

/// The rows of the relation `reading_positions`, by their `book_id`.
pub uninterp spec fn stored_positions(conn: rusqlite::Connection) -> Map<
    Seq<char>,
    PositionRecord,
>;

/// Whether the database of the connection is new and private: it has no
/// relation yet, and no other connection reaches it.
pub uninterp spec fn is_new(conn: rusqlite::Connection) -> bool;

/// Whether the connection owns a database of the schema: no other
/// connection reaches the database, its relations and its index are the
/// ones that the schema declares, and the connection enforces the foreign
/// keys. What the `stored_` names say is said of such a connection only.
pub uninterp spec fn owns_schema(conn: rusqlite::Connection) -> bool;

/// What the database of a connection holds.
pub open spec fn tables_of(conn: rusqlite::Connection) -> Tables {
    Tables {
        books: stored_books(conn),
        annotations: stored_annotations(conn),
        positions: stored_positions(conn),
    }
}

/// `rows` are the rows of all books, each once, the newest first.
pub open spec fn all_book_rows(rows: Seq<BookRow>, t: Tables) -> bool {
    &&& enumerates(Seq::new(rows.len(), |i: int| rows[i]@.id), t.books.dom())
    &&& forall|i: int| 0 <= i < rows.len() ==> (#[trigger] rows[i])@ == t.books[rows[i]@.id]
    &&& forall|i: int, j: int|
        0 <= i < j < rows.len() ==> (#[trigger] rows[i]).added_at >= (#[trigger] rows[j]).added_at
}

/// `rows` are the rows of the annotations of one book, each once, in the
/// order of their start.
pub open spec fn annotation_rows_of(
    rows: Seq<AnnotationRow>,
    t: Tables,
    book_id: Seq<char>,
) -> bool {
    &&& enumerates(Seq::new(rows.len(), |i: int| rows[i]@.id), t.annotations_of(book_id))
    &&& forall|i: int|
        0 <= i < rows.len() ==> (#[trigger] rows[i])@ == t.annotations[rows[i]@.id]
    &&& forall|i: int, j: int|
        0 <= i < j < rows.len() ==> (#[trigger] rows[i]).start_percent
            <= (#[trigger] rows[j]).start_percent
}

/// Calls `Connection::open` on the path. The database may be one that
/// other connections have open and that another program has made, so
/// nothing is said of it. A path that holds the character NUL cannot be
/// handed to SQLite and is refused.
#[verifier::external_body]
pub(crate) fn open_file(path: &str) -> (r: Result<rusqlite::Connection, rusqlite::Error>)
    ensures
        path@.contains('\0') ==> r is Err,
{
    rusqlite::Connection::open(path)
}

/// Calls `Connection::open_in_memory`. A database in memory is new and
/// private to its connection: it has no relation and holds no row, and no
/// other connection reaches it.
#[verifier::external_body]
pub(crate) fn open_memory() -> (r: Result<rusqlite::Connection, rusqlite::Error>)
    ensures
        r matches Ok(conn) ==> is_new(conn),
        r matches Ok(conn) ==> stored_books(conn) == Tables::empty().books,
        r matches Ok(conn) ==> stored_annotations(conn) == Tables::empty().annotations,
        r matches Ok(conn) ==> stored_positions(conn) == Tables::empty().positions,
{
    rusqlite::Connection::open_in_memory()
}

/// Calls `Connection::execute_batch` to switch on the enforcement of
/// foreign keys and to create the three relations and the index, each only
/// if it is absent. After a success on a new and private database the
/// relations are those of the schema; a database that had them keeps them.
/// No row of such a database is added, changed or removed. A relation that
/// was there under one of the three names is left as it was declared, so
/// of any other database nothing is said.
#[verifier::external_body]
pub(crate) fn create_schema(conn: &mut rusqlite::Connection) -> (r: Result<(), rusqlite::Error>)
    ensures
        is_new(*old(conn)) && r is Ok ==> owns_schema(*final(conn)),
        owns_schema(*old(conn)) ==> owns_schema(*final(conn)),
        is_new(*old(conn)) || owns_schema(*old(conn)) ==> stored_books(*final(conn))
            == stored_books(*old(conn)),
        is_new(*old(conn)) || owns_schema(*old(conn)) ==> stored_annotations(*final(conn))
            == stored_annotations(*old(conn)),
        is_new(*old(conn)) || owns_schema(*old(conn)) ==> stored_positions(*final(conn))
            == stored_positions(*old(conn)),
{
    conn.execute_batch(SCHEMA)
}

/// Calls `Connection::execute` with an `INSERT` into `books`. In a
/// database of the schema that the connection owns, the row is added, and
/// only where no book has its `id` or its `file_path`; a statement that
/// fails changes nothing.
#[verifier::external_body]
pub(crate) fn insert_book_row(conn: &mut rusqlite::Connection, row: &BookRow) -> (r: Result<
    usize,
    rusqlite::Error,
>)
    ensures
        owns_schema(*old(conn)) ==> owns_schema(*final(conn)),
        owns_schema(*old(conn)) && r is Ok ==> tables_of(*old(conn)).accepts_book(row@),
        owns_schema(*old(conn)) && r is Ok ==> tables_of(*final(conn)) == tables_of(
            *old(conn),
        ).with_book(row@),
        owns_schema(*old(conn)) && r is Err ==> tables_of(*final(conn)) == tables_of(*old(conn)),
{
    conn.execute(
        INSERT_BOOK,
        (&row.id, &row.title, &row.author, &row.file_path, &row.file_type, &row.cover_data,
            row.added_at, row.last_read_at, row.total_pages),
    )
}

/// Calls `Connection::prepare` and `Statement::query_map` with a `SELECT`
/// of all of `books`, ordered by `added_at` from the latest down, and
/// collects the rows. In a database of the schema that the connection owns
/// these are the rows of all books, each once.
#[verifier::external_body]
pub(crate) fn select_book_rows(conn: &rusqlite::Connection) -> (r: Result<
    Vec<BookRow>,
    rusqlite::Error,
>)
    ensures
        owns_schema(*conn) ==> (r matches Ok(rows) ==> all_book_rows(rows@, tables_of(*conn))),
{
    let mut stmt = conn.prepare(SELECT_ALL_BOOKS)?;
    let rows = stmt.query_map((), |row| Ok(BookRow {
        id: row.get(0)?, title: row.get(1)?, author: row.get(2)?,
        file_path: row.get(3)?, file_type: row.get(4)?, cover_data: row.get(5)?,
        added_at: row.get(6)?, last_read_at: row.get(7)?, total_pages: row.get(8)?,
    }))?;
    rows.collect()
}

/// Calls `Connection::query_row` with a `SELECT` of the book whose `id` is
/// given, and `OptionalExtension::optional`, which turns the answer "no
/// row" into `None`. In a database of the schema that the connection owns
/// the row is the one stored under that `id`, and there is none exactly
/// when no book has it.
#[verifier::external_body]
pub(crate) fn select_book_row(conn: &rusqlite::Connection, id: &str) -> (r: Result<
    Option<BookRow>,
    rusqlite::Error,
>)
    ensures
        owns_schema(*conn) ==> (r matches Ok(Some(row)) ==> row@.id == id@),
        owns_schema(*conn) ==> (r matches Ok(Some(row)) ==> tables_of(*conn).has_book(id@)),
        owns_schema(*conn) ==> (r matches Ok(Some(row)) ==> row@ == tables_of(*conn).books[id@]),
        owns_schema(*conn) ==> (r matches Ok(None) ==> !tables_of(*conn).has_book(id@)),
{
    conn.query_row(
        SELECT_BOOK,
        (id,),
        |row| Ok(BookRow {
            id: row.get(0)?, title: row.get(1)?, author: row.get(2)?,
            file_path: row.get(3)?, file_type: row.get(4)?, cover_data: row.get(5)?,
            added_at: row.get(6)?, last_read_at: row.get(7)?, total_pages: row.get(8)?,
        }),
    ).optional()
}

/// Calls `Connection::query_row` with a `SELECT COUNT(*)` of the books at
/// a path. In a database of the schema that the connection owns the count
/// is positive exactly when a book lies there.
#[verifier::external_body]
pub(crate) fn count_books_at(conn: &rusqlite::Connection, file_path: &str) -> (r: Result<
    i64,
    rusqlite::Error,
>)
    ensures
        owns_schema(*conn) ==> (r matches Ok(count) ==> 0 <= count),
        owns_schema(*conn) ==> (r matches Ok(count) ==> (0 < count <==> tables_of(
            *conn,
        ).has_path(file_path@))),
{
    conn.query_row(COUNT_BOOKS_AT_PATH, (file_path,), |row| row.get(0))
}

/// Calls `Connection::execute` with a `DELETE` of the book whose `id` is
/// given. In a database of the schema that the connection owns, with the
/// book go its annotations and its reading position; where there is no
/// such book, or the statement fails, nothing changes.
#[verifier::external_body]
pub(crate) fn delete_book_row(conn: &mut rusqlite::Connection, id: &str) -> (r: Result<
    usize,
    rusqlite::Error,
>)
    ensures
        owns_schema(*old(conn)) ==> owns_schema(*final(conn)),
        owns_schema(*old(conn)) && r is Ok ==> tables_of(*final(conn)) == tables_of(
            *old(conn),
        ).without_book(id@),
        owns_schema(*old(conn)) && r is Err ==> tables_of(*final(conn)) == tables_of(*old(conn)),
{
    conn.execute(DELETE_BOOK, (id,))
}

/// Calls `Connection::execute` with an `UPDATE` that sets `last_read_at`
/// of the book whose `id` is given. In a database of the schema that the
/// connection owns nothing else changes; where there is no such book, or
/// the statement fails, nothing changes at all.
#[verifier::external_body]
pub(crate) fn mark_book_read(conn: &mut rusqlite::Connection, id: &str, at: i64) -> (r: Result<
    usize,
    rusqlite::Error,
>)
    ensures
        owns_schema(*old(conn)) ==> owns_schema(*final(conn)),
        owns_schema(*old(conn)) && r is Ok ==> tables_of(*final(conn)) == tables_of(
            *old(conn),
        ).with_last_read(id@, at),
        owns_schema(*old(conn)) && r is Err ==> tables_of(*final(conn)) == tables_of(*old(conn)),
{
    conn.execute(SET_LAST_READ, (at, id))
}

/// Calls `Connection::execute` with an `INSERT` into `annotations`. In a
/// database of the schema that the connection owns, the row is added, and
/// only where no annotation has its `id` and a book has its `book_id`; a
/// statement that fails changes nothing.
#[verifier::external_body]
pub(crate) fn insert_annotation_row(conn: &mut rusqlite::Connection, row: &AnnotationRow) -> (r:
    Result<usize, rusqlite::Error>)
    ensures
        owns_schema(*old(conn)) ==> owns_schema(*final(conn)),
        owns_schema(*old(conn)) && r is Ok ==> tables_of(*old(conn)).accepts_annotation(row@),
        owns_schema(*old(conn)) && r is Ok ==> tables_of(*final(conn)) == tables_of(
            *old(conn),
        ).with_annotation(row@),
        owns_schema(*old(conn)) && r is Err ==> tables_of(*final(conn)) == tables_of(*old(conn)),
{
    conn.execute(
        INSERT_ANNOTATION,
        (&row.id, &row.book_id, &row.annotation_type, row.start_percent, row.end_percent,
            row.page_number, &row.color, &row.selected_text, &row.note_text, row.created_at),
    )
}

/// Calls `Connection::prepare` and `Statement::query_map` with a `SELECT`
/// of the annotations whose `book_id` is given, ordered by `start_percent`
/// from the least up, and collects the rows. In a database of the schema
/// that the connection owns these are the rows of the annotations of that
/// book, each once.
#[verifier::external_body]
pub(crate) fn select_annotation_rows(conn: &rusqlite::Connection, book_id: &str) -> (r: Result<
    Vec<AnnotationRow>,
    rusqlite::Error,
>)
    ensures
        owns_schema(*conn) ==> (r matches Ok(rows) ==> annotation_rows_of(
            rows@,
            tables_of(*conn),
            book_id@,
        )),
{
    let mut stmt = conn.prepare(SELECT_ANNOTATIONS)?;
    let rows = stmt.query_map((book_id,), |row| Ok(AnnotationRow {
        id: row.get(0)?, book_id: row.get(1)?, annotation_type: row.get(2)?,
        start_percent: row.get(3)?, end_percent: row.get(4)?, page_number: row.get(5)?,
        color: row.get(6)?, selected_text: row.get(7)?, note_text: row.get(8)?,
        created_at: row.get(9)?,
    }))?;
    rows.collect()
}

/// Calls `Connection::execute` with a `DELETE` of the annotation whose
/// `id` is given. In a database of the schema that the connection owns
/// nothing else changes; where there is no such annotation, or the
/// statement fails, nothing changes at all.
#[verifier::external_body]
pub(crate) fn delete_annotation_row(conn: &mut rusqlite::Connection, id: &str) -> (r: Result<
    usize,
    rusqlite::Error,
>)
    ensures
        owns_schema(*old(conn)) ==> owns_schema(*final(conn)),
        owns_schema(*old(conn)) && r is Ok ==> tables_of(*final(conn)) == tables_of(
            *old(conn),
        ).without_annotation(id@),
        owns_schema(*old(conn)) && r is Err ==> tables_of(*final(conn)) == tables_of(*old(conn)),
{
    conn.execute(DELETE_ANNOTATION, (id,))
}

/// Calls `Connection::execute` with an `INSERT` into `reading_positions`
/// that, on a conflict over `book_id`, overwrites the other columns of the
/// row that is there. In a database of the schema that the connection
/// owns, the row is then the position of its book, and only where a book
/// has its `book_id` or a position was there to overwrite; a statement
/// that fails changes nothing.
#[verifier::external_body]
pub(crate) fn upsert_position_row(conn: &mut rusqlite::Connection, row: &PositionRow) -> (r:
    Result<usize, rusqlite::Error>)
    ensures
        owns_schema(*old(conn)) ==> owns_schema(*final(conn)),
        owns_schema(*old(conn)) && r is Ok ==> tables_of(*old(conn)).accepts_position(row@),
        owns_schema(*old(conn)) && r is Ok ==> tables_of(*final(conn)) == tables_of(
            *old(conn),
        ).with_position(row@),
        owns_schema(*old(conn)) && r is Err ==> tables_of(*final(conn)) == tables_of(*old(conn)),
{
    conn.execute(
        UPSERT_POSITION,
        (&row.book_id, row.percent, row.page_number, row.updated_at),
    )
}

/// Calls `Connection::query_row` with a `SELECT` of the reading position
/// whose `book_id` is given, and `OptionalExtension::optional`, which
/// turns the answer "no row" into `None`. In a database of the schema that
/// the connection owns the row is the one stored under that `book_id`, and
/// there is none exactly when no position has it.
#[verifier::external_body]
pub(crate) fn select_position_row(conn: &rusqlite::Connection, book_id: &str) -> (r: Result<
    Option<PositionRow>,
    rusqlite::Error,
>)
    ensures
        owns_schema(*conn) ==> (r matches Ok(Some(row)) ==> row@.book_id == book_id@),
        owns_schema(*conn) ==> (r matches Ok(Some(row)) ==> tables_of(
            *conn,
        ).positions.dom().contains(book_id@)),
        owns_schema(*conn) ==> (r matches Ok(Some(row)) ==> row@ == tables_of(
            *conn,
        ).positions[book_id@]),
        owns_schema(*conn) ==> (r matches Ok(None) ==> !tables_of(
            *conn,
        ).positions.dom().contains(book_id@)),
{
    conn.query_row(
        SELECT_POSITION,
        (book_id,),
        |row| Ok(PositionRow {
            book_id: row.get(0)?, percent: row.get(1)?,
            page_number: row.get(2)?, updated_at: row.get(3)?,
        }),
    ).optional()
}

/// Calls `to_string` on the error: the words in which `rusqlite` describes
/// the failure.
#[verifier::external_body]
pub(crate) fn error_text(e: &rusqlite::Error) -> (s: String) {
    e.to_string()
}

} // verus!
