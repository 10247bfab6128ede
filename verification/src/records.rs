//! The rows of the three relations, and how entities are written to rows
//! and read back from them.
//!
//! A row holds what the store keeps on disk: the kind of a book and the
//! kind of an annotation stand there as their lower-case tokens, so that a
//! stored file can be read without this library.

use vstd::prelude::*;
use crate::annotation::{
    Annotation, AnnotationType, AnnotationView, ReadingPosition, ReadingPositionView,
};
use crate::book::{Book, BookType, BookView};
use crate::text::{bytes_of, copy_blob, copy_text, text_of};

verus! {

/// A row of the relation of books, as mathematical values.
pub struct BookRecord {
    pub id: Seq<char>,
    pub title: Seq<char>,
    pub author: Option<Seq<char>>,
    pub file_path: Seq<char>,
    pub file_type: Seq<char>,
    pub cover_data: Option<Seq<u8>>,
    pub added_at: i64,
    pub last_read_at: Option<i64>,
    pub total_pages: u32,
}

/// A row of the relation of annotations, as mathematical values.
pub struct AnnotationRecord {
    pub id: Seq<char>,
    pub book_id: Seq<char>,
    pub annotation_type: Seq<char>,
    pub start_percent: i64,
    pub end_percent: i64,
    pub page_number: u32,
    pub color: Seq<char>,
    pub selected_text: Option<Seq<char>>,
    pub note_text: Option<Seq<char>>,
    pub created_at: i64,
}

/// A row of the relation of reading positions, as mathematical values.
pub struct PositionRecord {
    pub book_id: Seq<char>,
    pub percent: i64,
    pub page_number: u32,
    pub updated_at: i64,
}

/// The row that stores a book.
pub open spec fn encode_book(book: BookView) -> BookRecord {
    BookRecord {
        id: book.id,
        title: book.title,
        author: book.author,
        file_path: book.file_path,
        file_type: book.file_type.spec_extension(),
        cover_data: book.cover_data,
        added_at: book.added_at,
        last_read_at: book.last_read_at,
        total_pages: book.total_pages,
    }
}

/// The book that a row stores.
pub open spec fn decode_book(row: BookRecord) -> BookView {
    BookView {
        id: row.id,
        title: row.title,
        author: row.author,
        file_path: row.file_path,
        file_type: BookType::spec_from_token(row.file_type),
        cover_data: row.cover_data,
        added_at: row.added_at,
        last_read_at: row.last_read_at,
        total_pages: row.total_pages,
    }
}

/// The row that stores an annotation.
pub open spec fn encode_annotation(annotation: AnnotationView) -> AnnotationRecord {
    AnnotationRecord {
        id: annotation.id,
        book_id: annotation.book_id,
        annotation_type: annotation.annotation_type.spec_token(),
        start_percent: annotation.start_percent,
        end_percent: annotation.end_percent,
        page_number: annotation.page_number,
        color: annotation.color,
        selected_text: annotation.selected_text,
        note_text: annotation.note_text,
        created_at: annotation.created_at,
    }
}

/// The annotation that a row stores.
pub open spec fn decode_annotation(row: AnnotationRecord) -> AnnotationView {
    AnnotationView {
        id: row.id,
        book_id: row.book_id,
        annotation_type: AnnotationType::spec_from_token(row.annotation_type),
        start_percent: row.start_percent,
        end_percent: row.end_percent,
        page_number: row.page_number,
        color: row.color,
        selected_text: row.selected_text,
        note_text: row.note_text,
        created_at: row.created_at,
    }
}

/// The row that stores a reading position.
pub open spec fn encode_position(position: ReadingPositionView) -> PositionRecord {
    PositionRecord {
        book_id: position.book_id,
        percent: position.percent,
        page_number: position.page_number,
        updated_at: position.updated_at,
    }
}

/// The reading position that a row stores.
pub open spec fn decode_position(row: PositionRecord) -> ReadingPositionView {
    ReadingPositionView {
        book_id: row.book_id,
        percent: row.percent,
        page_number: row.page_number,
        updated_at: row.updated_at,
    }
}

/// A book is read back from its row as it was written.
pub proof fn law_book_round_trip(book: BookView)
    ensures
        decode_book(encode_book(book)) == book,
{
    BookType::law_extension_round_trip(book.file_type);
}

/// An annotation is read back from its row as it was written.
pub proof fn law_annotation_round_trip(annotation: AnnotationView)
    ensures
        decode_annotation(encode_annotation(annotation)) == annotation,
{
    AnnotationType::law_token_round_trip(annotation.annotation_type);
}

/// A reading position is read back from its row as it was written.
pub proof fn law_position_round_trip(position: ReadingPositionView)
    ensures
        decode_position(encode_position(position)) == position,
{
}

/// A row of the relation of books.
#[derive(Debug, Clone)]
pub struct BookRow {
    pub id: String,
    pub title: String,
    pub author: Option<String>,
    pub file_path: String,
    pub file_type: String,
    pub cover_data: Option<Vec<u8>>,
    pub added_at: i64,
    pub last_read_at: Option<i64>,
    pub total_pages: u32,
}

impl View for BookRow {
    type V = BookRecord;

    open spec fn view(&self) -> BookRecord {
        BookRecord {
            id: self.id@,
            title: self.title@,
            author: text_of(self.author),
            file_path: self.file_path@,
            file_type: self.file_type@,
            cover_data: bytes_of(self.cover_data),
            added_at: self.added_at,
            last_read_at: self.last_read_at,
            total_pages: self.total_pages,
        }
    }
}

impl BookRow {
    /// The row that stores `book`.
    pub fn of(book: &Book) -> (row: BookRow)
        ensures
            row@ == encode_book(book@),
    {
        BookRow {
            id: book.id.clone(),
            title: book.title.clone(),
            author: copy_text(&book.author),
            file_path: book.file_path.clone(),
            file_type: book.file_type.extension().to_owned(),
            cover_data: copy_blob(&book.cover_data),
            added_at: book.added_at,
            last_read_at: book.last_read_at,
            total_pages: book.total_pages,
        }
    }

    /// The book that the row stores. A kind of file that the row names by
    /// an unknown token is read as a PDF.
    pub fn into_book(self) -> (book: Book)
        ensures
            book@ == decode_book(self@),
    {
        let file_type = BookType::from_token(self.file_type.as_str());
        Book {
            id: self.id,
            title: self.title,
            author: self.author,
            file_path: self.file_path,
            file_type,
            cover_data: self.cover_data,
            added_at: self.added_at,
            last_read_at: self.last_read_at,
            total_pages: self.total_pages,
        }
    }
}

/// A row of the relation of annotations.
#[derive(Debug, Clone)]
pub struct AnnotationRow {
    pub id: String,
    pub book_id: String,
    pub annotation_type: String,
    pub start_percent: i64,
    pub end_percent: i64,
    pub page_number: u32,
    pub color: String,
    pub selected_text: Option<String>,
    pub note_text: Option<String>,
    pub created_at: i64,
}

impl View for AnnotationRow {
    type V = AnnotationRecord;

    open spec fn view(&self) -> AnnotationRecord {
        AnnotationRecord {
            id: self.id@,
            book_id: self.book_id@,
            annotation_type: self.annotation_type@,
            start_percent: self.start_percent,
            end_percent: self.end_percent,
            page_number: self.page_number,
            color: self.color@,
            selected_text: text_of(self.selected_text),
            note_text: text_of(self.note_text),
            created_at: self.created_at,
        }
    }
}

impl AnnotationRow {
    /// The row that stores `annotation`.
    pub fn of(annotation: &Annotation) -> (row: AnnotationRow)
        ensures
            row@ == encode_annotation(annotation@),
    {
        AnnotationRow {
            id: annotation.id.clone(),
            book_id: annotation.book_id.clone(),
            annotation_type: annotation.annotation_type.token().to_owned(),
            start_percent: annotation.start_percent,
            end_percent: annotation.end_percent,
            page_number: annotation.page_number,
            color: annotation.color.clone(),
            selected_text: copy_text(&annotation.selected_text),
            note_text: copy_text(&annotation.note_text),
            created_at: annotation.created_at,
        }
    }

    /// The annotation that the row stores. A kind that the row names by an
    /// unknown token is read as a highlight.
    pub fn into_annotation(self) -> (annotation: Annotation)
        ensures
            annotation@ == decode_annotation(self@),
    {
        let annotation_type = AnnotationType::from_token(self.annotation_type.as_str());
        Annotation {
            id: self.id,
            book_id: self.book_id,
            annotation_type,
            start_percent: self.start_percent,
            end_percent: self.end_percent,
            page_number: self.page_number,
            color: self.color,
            selected_text: self.selected_text,
            note_text: self.note_text,
            created_at: self.created_at,
        }
    }
}

/// A row of the relation of reading positions.
#[derive(Debug, Clone)]
pub struct PositionRow {
    pub book_id: String,
    pub percent: i64,
    pub page_number: u32,
    pub updated_at: i64,
}

impl View for PositionRow {
    type V = PositionRecord;

    open spec fn view(&self) -> PositionRecord {
        PositionRecord {
            book_id: self.book_id@,
            percent: self.percent,
            page_number: self.page_number,
            updated_at: self.updated_at,
        }
    }
}

impl PositionRow {
    /// The row that stores `position`.
    pub fn of(position: &ReadingPosition) -> (row: PositionRow)
        ensures
            row@ == encode_position(position@),
    {
        PositionRow {
            book_id: position.book_id.clone(),
            percent: position.percent,
            page_number: position.page_number,
            updated_at: position.updated_at,
        }
    }

    /// The reading position that the row stores.
    pub fn into_position(self) -> (position: ReadingPosition)
        ensures
            position@ == decode_position(self@),
    {
        ReadingPosition {
            book_id: self.book_id,
            percent: self.percent,
            page_number: self.page_number,
            updated_at: self.updated_at,
        }
    }
}

} // verus!
