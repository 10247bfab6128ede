//! Books and the kinds of file they come from.

use vstd::prelude::*;
use crate::fresh::{current_time, fresh_id, is_id_text};
use crate::text::{all_ascii, ascii_lower, bytes_of, lower_case, same_text, text_of, to_lower};

verus! {

/// Kind of ebook file.
#[derive(Debug, Clone, Copy, PartialEq, Eq, Structural)]
pub enum BookType {
    Pdf,
    Epub,
}

impl BookType {
    /// The canonical lower-case file extension of each kind.
    pub open spec fn spec_extension(self) -> Seq<char> {
        match self {
            BookType::Pdf => "pdf"@,
            BookType::Epub => "epub"@,
        }
    }

    /// The kind whose canonical extension is exactly `s`, if any.
    pub open spec fn with_extension(s: Seq<char>) -> Option<BookType> {
        if s == "pdf"@ {
            Some(BookType::Pdf)
        } else if s == "epub"@ {
            Some(BookType::Epub)
        } else {
            None
        }
    }

    /// The kind that an extension names when letter case is ignored.
    pub open spec fn spec_from_extension(ext: Seq<char>) -> Option<BookType> {
        Self::with_extension(lower_case(ext))
    }

    /// The kind that a stored token stands for: a token that names no kind
    /// is read as `Pdf`.
    pub open spec fn spec_from_token(token: Seq<char>) -> BookType {
        match Self::spec_from_extension(token) {
            Some(t) => t,
            None => BookType::Pdf,
        }
    }

    /// File extension for this kind of book.
    pub fn extension(&self) -> (ext: &'static str)
        ensures
            ext@ == self.spec_extension(),
    {
        match self {
            BookType::Pdf => "pdf",
            BookType::Epub => "epub",
        }
    }

    /// Parses a file extension, ignoring letter case. An extension that
    /// names no kind gives `None`.
    pub fn from_extension(ext: &str) -> (r: Option<BookType>)
        ensures
            r == Self::spec_from_extension(ext@),
    {
        let lower = to_lower(ext);
        if same_text(lower.as_str(), "pdf") {
            Some(BookType::Pdf)
        } else if same_text(lower.as_str(), "epub") {
            Some(BookType::Epub)
        } else {
            None
        }
    }

    /// Reads a stored token: as `from_extension`, with `Pdf` for a token
    /// that names no kind.
    pub fn from_token(token: &str) -> (t: BookType)
        ensures
            t == Self::spec_from_token(token@),
    {
        match Self::from_extension(token) {
            Some(t) => t,
            None => BookType::Pdf,
        }
    }

    /// The two extensions are lower-case ASCII and differ.
    pub proof fn lemma_extensions(t: BookType)
        ensures
            all_ascii(t.spec_extension()),
            ascii_lower(t.spec_extension()) == t.spec_extension(),
            Self::with_extension(t.spec_extension()) == Some(t),
    {
        reveal_strlit("pdf");
        reveal_strlit("epub");
    }

    /// The kinds and their extensions stand one to one: a text is the
    /// extension of a kind exactly when it names that kind.
    pub proof fn law_extensions_are_one_to_one(t: BookType, s: Seq<char>)
        ensures
            Self::with_extension(s) == Some(t) <==> s == t.spec_extension(),
    {
        Self::lemma_extensions(t);
    }

    /// Parsing undoes `extension`: each kind is found again from its own
    /// extension, and a stored token is read back as the kind it was
    /// written for.
    pub proof fn law_extension_round_trip(t: BookType)
        ensures
            Self::spec_from_extension(t.spec_extension()) == Some(t),
            Self::spec_from_token(t.spec_extension()) == t,
    {
        Self::lemma_extensions(t);
    }

    /// Parsing ignores letter case: an ASCII text that is the extension of
    /// a kind but for the case of its letters names that kind.
    pub proof fn law_extension_ignores_case(t: BookType, ext: Seq<char>)
        requires
            all_ascii(ext),
            ascii_lower(ext) == t.spec_extension(),
        ensures
            Self::spec_from_extension(ext) == Some(t),
    {
        Self::lemma_extensions(t);
    }
}

/// A book of the library.
#[derive(Debug, Clone)]
pub struct Book {
    /// Unique identifier, given at creation.
    pub id: String,
    /// Title shown to the reader.
    pub title: String,
    /// Author, where known.
    pub author: Option<String>,
    /// Absolute path of the file; no two books of a library share one.
    pub file_path: String,
    /// Kind of file.
    pub file_type: BookType,
    /// Cover image bytes, where known.
    pub cover_data: Option<Vec<u8>>,
    /// Seconds since the epoch at which the book was added.
    pub added_at: i64,
    /// Seconds since the epoch at which the book was last opened.
    pub last_read_at: Option<i64>,
    /// Pages of a PDF, chapters of an EPUB.
    pub total_pages: u32,
}

/// What a `Book` holds, as mathematical values.
pub struct BookView {
    pub id: Seq<char>,
    pub title: Seq<char>,
    pub author: Option<Seq<char>>,
    pub file_path: Seq<char>,
    pub file_type: BookType,
    pub cover_data: Option<Seq<u8>>,
    pub added_at: i64,
    pub last_read_at: Option<i64>,
    pub total_pages: u32,
}

impl View for Book {
    type V = BookView;

    open spec fn view(&self) -> BookView {
        BookView {
            id: self.id@,
            title: self.title@,
            author: text_of(self.author),
            file_path: self.file_path@,
            file_type: self.file_type,
            cover_data: bytes_of(self.cover_data),
            added_at: self.added_at,
            last_read_at: self.last_read_at,
            total_pages: self.total_pages,
        }
    }
}

impl Book {
    /// The book that was added at `added_at` under the identifier `id`,
    /// with no cover and never read.
    pub open spec fn spec_new(
        id: Seq<char>,
        added_at: i64,
        title: Seq<char>,
        author: Option<Seq<char>>,
        file_path: Seq<char>,
        file_type: BookType,
        total_pages: u32,
    ) -> BookView {
        BookView {
            id,
            title,
            author,
            file_path,
            file_type,
            cover_data: None,
            added_at,
            last_read_at: None,
            total_pages,
        }
    }

    /// A book that was added at `added_at` under the identifier `id`, with
    /// no cover and never read.
    pub fn with_identity(
        id: String,
        added_at: i64,
        title: String,
        author: Option<String>,
        file_path: String,
        file_type: BookType,
        total_pages: u32,
    ) -> (book: Book)
        ensures
            book@ == Self::spec_new(
                id@,
                added_at,
                title@,
                text_of(author),
                file_path@,
                file_type,
                total_pages,
            ),
    {
        Book {
            id,
            title,
            author,
            file_path,
            file_type,
            cover_data: None,
            added_at,
            last_read_at: None,
            total_pages,
        }
    }

    /// A new book, with a fresh identifier and the current time; it has no
    /// cover and was never read.
    pub fn new(
        title: String,
        author: Option<String>,
        file_path: String,
        file_type: BookType,
        total_pages: u32,
    ) -> (book: Book)
        ensures
            book@ == Self::spec_new(
                book@.id,
                book@.added_at,
                title@,
                text_of(author),
                file_path@,
                file_type,
                total_pages,
            ),
            is_id_text(book@.id),
            0 <= book@.added_at,
    {
        let id = fresh_id();
        let added_at = current_time();
        Self::with_identity(id, added_at, title, author, file_path, file_type, total_pages)
    }
}

/// What a parser hands over to seed a new book.
#[derive(Debug, Clone)]
pub struct BookMetadata {
    /// Title, where one was found.
    pub title: Option<String>,
    /// Author, where one was found.
    pub author: Option<String>,
    /// Cover image bytes, where one was found.
    pub cover_data: Option<Vec<u8>>,
    /// Pages of a PDF, chapters of an EPUB.
    pub total_pages: u32,
}

/// What a `BookMetadata` holds, as mathematical values.
pub struct BookMetadataView {
    pub title: Option<Seq<char>>,
    pub author: Option<Seq<char>>,
    pub cover_data: Option<Seq<u8>>,
    pub total_pages: u32,
}

impl View for BookMetadata {
    type V = BookMetadataView;

    open spec fn view(&self) -> BookMetadataView {
        BookMetadataView {
            title: text_of(self.title),
            author: text_of(self.author),
            cover_data: bytes_of(self.cover_data),
            total_pages: self.total_pages,
        }
    }
}

impl BookMetadata {
    /// The metadata of a document: the title that the document gives, or,
    /// where it gives none, the name of its file.
    pub fn with_title_or(
        title: Option<String>,
        file_name: Option<String>,
        author: Option<String>,
        cover_data: Option<Vec<u8>>,
        total_pages: u32,
    ) -> (metadata: BookMetadata)
        ensures
            metadata@ == (BookMetadataView {
                title: if title is Some {
                    text_of(title)
                } else {
                    text_of(file_name)
                },
                author: text_of(author),
                cover_data: bytes_of(cover_data),
                total_pages,
            }),
    {
        let title = match title {
            Some(t) => Some(t),
            None => file_name,
        };
        BookMetadata { title, author, cover_data, total_pages }
    }
}

} // verus!
