//! The store: a library of books, their annotations and reading positions
//! in one SQLite database.
//!
//! A `Database` owns its connection, and every operation that changes the
//! store takes it by `&mut`: at most one operation runs on a store at a
//! time, and each one is a single statement, which SQLite carries out whole
//! or not at all. Values that the store hands out are copies.
//!
//! The view of a `Database` is what its database holds. What an operation
//! reads and changes is stated of a store that `owns_schema`: one whose
//! database no other connection reaches and whose relations are those of
//! the schema. A store in memory is such a one. A store that was opened
//! from a path may share its database with another connection or another
//! program, and its relations may be another program's; of such a store
//! the contracts state the kind of every failure and nothing of the rows.

use vstd::prelude::*;
use crate::annotation::{Annotation, AnnotationView, ReadingPosition};
use crate::book::{Book, BookView};
use crate::error::OmniReaderError;
use crate::fresh::current_time;
use crate::model::{
    by_start, law_with_annotation_keeps_consistent, law_with_book_keeps_consistent,
    law_with_last_read_keeps_consistent, law_with_position_keeps_consistent,
    law_without_annotation_keeps_consistent, law_without_book_keeps_consistent,
    lists_annotations, lists_books, newest_first, Tables,
};
use crate::records::{
    decode_annotation, decode_book, encode_annotation, encode_book, encode_position,
    AnnotationRow, BookRow, PositionRow,
};
use crate::sqlite::{
    count_books_at, create_schema, delete_annotation_row, delete_book_row, error_text, is_new,
    insert_annotation_row, insert_book_row, mark_book_read, open_file, open_memory,
    select_annotation_rows, select_book_row, select_book_rows, select_position_row, tables_of,
    upsert_position_row,
};

verus! {

/// The views of a vector of books.
pub open spec fn book_views(books: Seq<Book>) -> Seq<BookView> {
    Seq::new(books.len(), |i: int| books[i]@)
}

/// The views of a vector of annotations.
pub open spec fn annotation_views(annotations: Seq<Annotation>) -> Seq<AnnotationView> {
    Seq::new(annotations.len(), |i: int| annotations[i]@)
}

/// The annotations that a vector of rows stores, in the order of the rows.
pub fn annotations_from_rows(rows: Vec<AnnotationRow>) -> (annotations: Vec<Annotation>)
    ensures
        annotations@.len() == rows@.len(),
        forall|i: int|
            0 <= i < rows@.len() ==> (#[trigger] annotations@[i])@ == decode_annotation(
                rows@[i]@,
            ),
{
    let mut annotations: Vec<Annotation> = Vec::new();
    let ghost all = rows@;
    for row in iter: rows.into_iter()
        invariant
            iter.seq() == all,
            annotations@.len() == iter.index(),
            forall|k: int|
                0 <= k < annotations@.len() ==> (#[trigger] annotations@[k])@
                    == decode_annotation(all[k]@),
    {
        annotations.push(row.into_annotation());
    }
    annotations
}

/// The failure that the caller sees when the storage layer fails.
pub fn storage_failure(e: &rusqlite::Error) -> (failure: OmniReaderError)
    ensures
        failure is Database,
{
    OmniReaderError::database(error_text(e))
}

/// What the caller sees of a statement that changes the store: success as
/// success, and a failure of the storage layer as a storage failure.
pub fn written(outcome: Result<usize, rusqlite::Error>) -> (r: Result<(), OmniReaderError>)
    ensures
        r is Ok <==> outcome is Ok,
        r matches Err(e) ==> e is Database,
{
    match outcome {
        Ok(_) => Ok(()),
        Err(e) => Err(storage_failure(&e)),
    }
}

/// The books that a vector of rows stores, in the order of the rows.
pub fn books_from_rows(rows: Vec<BookRow>) -> (books: Vec<Book>)
    ensures
        books@.len() == rows@.len(),
        forall|i: int| 0 <= i < rows@.len() ==> (#[trigger] books@[i])@ == decode_book(rows@[i]@),
{
    let mut books: Vec<Book> = Vec::new();
    let ghost all = rows@;
    for row in iter: rows.into_iter()
        invariant
            iter.seq() == all,
            books@.len() == iter.index(),
            forall|k: int|
                0 <= k < books@.len() ==> (#[trigger] books@[k])@ == decode_book(all[k]@),
    {
        books.push(row.into_book());
    }
    books
}

/// A library in a SQLite database.
pub struct Database {
    conn: rusqlite::Connection,
}

impl View for Database {
    type V = Tables;

    closed spec fn view(&self) -> Tables {
        tables_of(self.conn)
    }
}

impl Database {
    /// Whether the store owns a database of the schema: no other
    /// connection reaches the database, and its relations are the ones
    /// that the schema declares, with their foreign keys enforced. Of such
    /// a store the operations say what they read and what they change, and
    /// every operation leaves it such a store.
    pub closed spec fn owns_schema(&self) -> bool {
        crate::sqlite::owns_schema(self.conn)
    }

    /// Opens the store at `path`, which is created if it is absent, and
    /// creates the relations that it lacks. A path that holds the
    /// character NUL is refused. The database may be shared and may hold
    /// relations that another program has declared, so the store is not
    /// known to own a database of the schema.
    pub fn open(path: String) -> (r: Result<Database, OmniReaderError>)
        ensures
            path@.contains('\0') ==> r is Err,
            r matches Err(e) ==> e is Database,
    {
        match open_file(path.as_str()) {
            Ok(conn) => Self::with_schema(conn),
            Err(e) => Err(storage_failure(&e)),
        }
    }

    /// Opens a store in memory. It owns a database of the schema, which
    /// holds nothing.
    pub fn open_in_memory() -> (r: Result<Database, OmniReaderError>)
        ensures
            r matches Ok(db) ==> db.owns_schema(),
            r matches Ok(db) ==> db@ == Tables::empty(),
            r matches Ok(db) ==> db@.consistent(),
            r matches Err(e) ==> e is Database,
    {
        match open_memory() {
            Ok(conn) => Self::with_schema(conn),
            Err(e) => Err(storage_failure(&e)),
        }
    }

    /// Creates the relations and the index that are absent and switches on
    /// the enforcement of foreign keys. A new and private database is
    /// after a success a database of the schema, which the store owns. No
    /// row of it is touched, so that a store may be opened any number of
    /// times.
    fn initialize_schema(&mut self) -> (r: Result<(), OmniReaderError>)
        ensures
            is_new(old(self).conn) && r is Ok ==> final(self).owns_schema(),
            old(self).owns_schema() ==> final(self).owns_schema(),
            is_new(old(self).conn) || old(self).owns_schema() ==> final(self)@ == old(self)@,
            r matches Err(e) ==> e is Database,
    {
        match create_schema(&mut self.conn) {
            Ok(()) => Ok(()),
            Err(e) => Err(storage_failure(&e)),
        }
    }

    /// The store on a connection, once its relations are there.
    fn with_schema(conn: rusqlite::Connection) -> (r: Result<Database, OmniReaderError>)
        ensures
            is_new(conn) ==> (r matches Ok(db) ==> db.owns_schema() && db@ == tables_of(conn)),
            r matches Err(e) ==> e is Database,
    {
        let mut db = Database { conn };
        match db.initialize_schema() {
            Ok(()) => Ok(db),
            Err(e) => Err(e),
        }
    }

    /// Adds a book. A book whose identifier or whose path is in use is
    /// refused; a refusal, like every failure, leaves the store as it was.
    pub fn insert_book(&mut self, book: &Book) -> (r: Result<(), OmniReaderError>)
        ensures
            r matches Err(e) ==> e is Database,
            old(self).owns_schema() ==> final(self).owns_schema(),
            old(self).owns_schema() && r is Ok ==> final(self)@ == old(self)@.with_book(
                encode_book(book@),
            ),
            old(self).owns_schema() && r is Err ==> final(self)@ == old(self)@,
            old(self).owns_schema() && !old(self)@.accepts_book(encode_book(book@)) ==> r is Err,
            old(self).owns_schema() && old(self)@.consistent() ==> final(self)@.consistent(),
    {
        let row = BookRow::of(book);
        let outcome = insert_book_row(&mut self.conn, &row);
        proof {
            if outcome is Ok && old(self).owns_schema() && old(self)@.consistent() {
                law_with_book_keeps_consistent(old(self)@, row@);
            }
        }
        written(outcome)
    }

    /// All books, the one added last first.
    pub fn get_all_books(&self) -> (r: Result<Vec<Book>, OmniReaderError>)
        ensures
            r matches Err(e) ==> e is Database,
            self.owns_schema() ==> (r matches Ok(books) ==> lists_books(book_views(books@), self@)),
            self.owns_schema() ==> (r matches Ok(books) ==> newest_first(book_views(books@))),
    {
        match select_book_rows(&self.conn) {
            Ok(rows) => {
                let ghost stored = rows@;
                let books = books_from_rows(rows);
                proof {
                    if self.owns_schema() {
                        let found = book_views(books@);
                        let ids = Seq::new(found.len(), |i: int| found[i].id);
                        let row_ids = Seq::new(stored.len(), |i: int| stored[i]@.id);
                        assert(ids =~= row_ids);
                        assert forall|i: int| 0 <= i < found.len() implies self@.find_book(
                            found[i].id,
                        ) == Some(#[trigger] found[i]) by {
                            assert(self@.books.dom().contains(row_ids[i]));
                        }
                    }
                }
                Ok(books)
            },
            Err(e) => Err(storage_failure(&e)),
        }
    }

    /// The book with the identifier `id`, or `None` where there is none.
    pub fn get_book(&self, id: &str) -> (r: Result<Option<Book>, OmniReaderError>)
        ensures
            r matches Err(e) ==> e is Database,
            self.owns_schema() ==> (r matches Ok(Some(book)) ==> book@.id == id@),
            self.owns_schema() ==> (r matches Ok(Some(book)) ==> self@.find_book(id@) == Some(
                book@,
            )),
            self.owns_schema() ==> (r matches Ok(None) ==> self@.find_book(id@) is None),
    {
        match select_book_row(&self.conn, id) {
            Ok(Some(row)) => Ok(Some(row.into_book())),
            Ok(None) => Ok(None),
            Err(e) => Err(storage_failure(&e)),
        }
    }

    /// Whether a book lies at `file_path`.
    pub fn book_exists_by_path(&self, file_path: &str) -> (r: Result<bool, OmniReaderError>)
        ensures
            r matches Err(e) ==> e is Database,
            self.owns_schema() ==> (r matches Ok(found) ==> found == self@.has_path(file_path@)),
    {
        match count_books_at(&self.conn, file_path) {
            Ok(count) => Ok(count > 0),
            Err(e) => Err(storage_failure(&e)),
        }
    }

    /// Deletes a book, and with it its annotations and its reading
    /// position. Where no book has the identifier nothing changes.
    pub fn delete_book(&mut self, id: &str) -> (r: Result<(), OmniReaderError>)
        ensures
            r matches Err(e) ==> e is Database,
            old(self).owns_schema() ==> final(self).owns_schema(),
            old(self).owns_schema() && r is Ok ==> final(self)@ == old(self)@.without_book(id@),
            old(self).owns_schema() && r is Err ==> final(self)@ == old(self)@,
            old(self).owns_schema() && old(self)@.consistent() ==> final(self)@.consistent(),
    {
        let outcome = delete_book_row(&mut self.conn, id);
        proof {
            if outcome is Ok && old(self).owns_schema() && old(self)@.consistent() {
                law_without_book_keeps_consistent(old(self)@, id@);
            }
        }
        written(outcome)
    }

    /// Records that a book was read at `at`. Where no book has the
    /// identifier nothing changes.
    pub fn update_last_read_at(&mut self, id: &str, at: i64) -> (r: Result<(), OmniReaderError>)
        ensures
            r matches Err(e) ==> e is Database,
            old(self).owns_schema() ==> final(self).owns_schema(),
            old(self).owns_schema() && r is Ok ==> final(self)@ == old(self)@.with_last_read(
                id@,
                at,
            ),
            old(self).owns_schema() && r is Err ==> final(self)@ == old(self)@,
            old(self).owns_schema() && old(self)@.consistent() ==> final(self)@.consistent(),
    {
        let outcome = mark_book_read(&mut self.conn, id, at);
        proof {
            if outcome is Ok && old(self).owns_schema() && old(self)@.consistent() {
                law_with_last_read_keeps_consistent(old(self)@, id@, at);
            }
        }
        written(outcome)
    }

    /// Records that a book was read now. Where no book has the identifier
    /// nothing changes.
    pub fn update_last_read(&mut self, id: &str) -> (r: Result<(), OmniReaderError>)
        ensures
            r matches Err(e) ==> e is Database,
            old(self).owns_schema() ==> final(self).owns_schema(),
            old(self).owns_schema() && r is Ok ==> exists|at: i64|
                0 <= at && final(self)@ == #[trigger] old(self)@.with_last_read(id@, at),
            old(self).owns_schema() && r is Err ==> final(self)@ == old(self)@,
            old(self).owns_schema() && old(self)@.consistent() ==> final(self)@.consistent(),
    {
        let now = current_time();
        self.update_last_read_at(id, now)
    }

    /// Adds an annotation. One whose identifier is in use, or whose book
    /// is not in the store, is refused; a refusal, like every failure,
    /// leaves the store as it was.
    pub fn insert_annotation(&mut self, annotation: &Annotation) -> (r: Result<
        (),
        OmniReaderError,
    >)
        ensures
            r matches Err(e) ==> e is Database,
            old(self).owns_schema() ==> final(self).owns_schema(),
            old(self).owns_schema() && r is Ok ==> final(self)@ == old(self)@.with_annotation(
                encode_annotation(annotation@),
            ),
            old(self).owns_schema() && r is Err ==> final(self)@ == old(self)@,
            old(self).owns_schema() && !old(self)@.accepts_annotation(
                encode_annotation(annotation@),
            ) ==> r is Err,
            old(self).owns_schema() && old(self)@.consistent() ==> final(self)@.consistent(),
    {
        let row = AnnotationRow::of(annotation);
        let outcome = insert_annotation_row(&mut self.conn, &row);
        proof {
            if outcome is Ok && old(self).owns_schema() && old(self)@.consistent() {
                law_with_annotation_keeps_consistent(old(self)@, row@);
            }
        }
        written(outcome)
    }

    /// The annotations of a book in the order of their start; none where
    /// the book has none.
    pub fn get_annotations(&self, book_id: &str) -> (r: Result<Vec<Annotation>, OmniReaderError>)
        ensures
            r matches Err(e) ==> e is Database,
            self.owns_schema() ==> (r matches Ok(found) ==> lists_annotations(
                annotation_views(found@),
                self@,
                book_id@,
            )),
            self.owns_schema() ==> (r matches Ok(found) ==> by_start(annotation_views(found@))),
    {
        match select_annotation_rows(&self.conn, book_id) {
            Ok(rows) => {
                let ghost stored = rows@;
                let annotations = annotations_from_rows(rows);
                proof {
                    if self.owns_schema() {
                        let found = annotation_views(annotations@);
                        let ids = Seq::new(found.len(), |i: int| found[i].id);
                        let row_ids = Seq::new(stored.len(), |i: int| stored[i]@.id);
                        assert(ids =~= row_ids);
                    }
                }
                Ok(annotations)
            },
            Err(e) => Err(storage_failure(&e)),
        }
    }

    /// Deletes an annotation. Where none has the identifier nothing
    /// changes.
    pub fn delete_annotation(&mut self, id: &str) -> (r: Result<(), OmniReaderError>)
        ensures
            r matches Err(e) ==> e is Database,
            old(self).owns_schema() ==> final(self).owns_schema(),
            old(self).owns_schema() && r is Ok ==> final(self)@ == old(self)@.without_annotation(
                id@,
            ),
            old(self).owns_schema() && r is Err ==> final(self)@ == old(self)@,
            old(self).owns_schema() && old(self)@.consistent() ==> final(self)@.consistent(),
    {
        let outcome = delete_annotation_row(&mut self.conn, id);
        proof {
            if outcome is Ok && old(self).owns_schema() && old(self)@.consistent() {
                law_without_annotation_keeps_consistent(old(self)@, id@);
            }
        }
        written(outcome)
    }

    /// Saves the reading position of a book in place of the one that the
    /// store has for that book, if it has one. A position of a book that
    /// is not in the store is refused; a refusal, like every failure,
    /// leaves the store as it was.
    pub fn save_reading_position(&mut self, position: &ReadingPosition) -> (r: Result<
        (),
        OmniReaderError,
    >)
        ensures
            r matches Err(e) ==> e is Database,
            old(self).owns_schema() ==> final(self).owns_schema(),
            old(self).owns_schema() && r is Ok ==> final(self)@ == old(self)@.with_position(
                encode_position(position@),
            ),
            old(self).owns_schema() && r is Err ==> final(self)@ == old(self)@,
            old(self).owns_schema() && !old(self)@.accepts_position(encode_position(position@))
                ==> r is Err,
            old(self).owns_schema() && old(self)@.consistent() ==> final(self)@.consistent(),
    {
        let row = PositionRow::of(position);
        let outcome = upsert_position_row(&mut self.conn, &row);
        proof {
            if outcome is Ok && old(self).owns_schema() && old(self)@.consistent() {
                law_with_position_keeps_consistent(old(self)@, row@);
            }
        }
        written(outcome)
    }

    /// The reading position of a book, or `None` where the store has none.
    pub fn get_reading_position(&self, book_id: &str) -> (r: Result<
        Option<ReadingPosition>,
        OmniReaderError,
    >)
        ensures
            r matches Err(e) ==> e is Database,
            self.owns_schema() ==> (r matches Ok(Some(position)) ==> position@.book_id
                == book_id@),
            self.owns_schema() ==> (r matches Ok(Some(position)) ==> self@.find_position(book_id@)
                == Some(position@)),
            self.owns_schema() ==> (r matches Ok(None) ==> self@.find_position(book_id@) is None),
    {
        match select_position_row(&self.conn, book_id) {
            Ok(Some(row)) => Ok(Some(row.into_position())),
            Ok(None) => Ok(None),
            Err(e) => Err(storage_failure(&e)),
        }
    }
}

} // verus!
