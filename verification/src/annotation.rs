//! Annotations, highlight colours and reading positions.
//!
//! A position within a book is a percentage from 0 to 100. It is carried as
//! the bit pattern of the IEEE 754 double that holds the percentage, read
//! as a signed integer. The pattern keeps the value exactly, and on
//! percentages from 0 to 100 the order of the integers is the order of the
//! percentages, which is all that the library asks of a position.

use vstd::prelude::*;
use crate::fresh::{current_time, fresh_id, is_id_text};
use crate::text::{all_ascii, ascii_upper, same_text, text_of, to_upper, upper_case};

verus! {

/// The position 100 percent, the largest that is in range.
pub const MAX_PERCENT: i64 = 0x4059_0000_0000_0000;

/// True of the positions from 0 to 100 percent.
pub open spec fn spec_percent_in_range(percent: i64) -> bool {
    0 <= percent <= MAX_PERCENT
}

/// Whether a position lies between 0 and 100 percent.
pub fn percent_in_range(percent: i64) -> (r: bool)
    ensures
        r == spec_percent_in_range(percent),
{
    0 <= percent && percent <= MAX_PERCENT
}

/// Kind of annotation.
#[derive(Debug, Clone, Copy, PartialEq, Eq, Structural)]
pub enum AnnotationType {
    Highlight,
    Note,
}

impl AnnotationType {
    /// The token under which each kind is stored.
    pub open spec fn spec_token(self) -> Seq<char> {
        match self {
            AnnotationType::Highlight => "highlight"@,
            AnnotationType::Note => "note"@,
        }
    }

    /// The kind that a stored token stands for: `note` is a note, every
    /// other token a highlight.
    pub open spec fn spec_from_token(token: Seq<char>) -> AnnotationType {
        if token == "note"@ {
            AnnotationType::Note
        } else {
            AnnotationType::Highlight
        }
    }

    /// The token under which this kind is stored.
    pub fn token(&self) -> (s: &'static str)
        ensures
            s@ == self.spec_token(),
    {
        match self {
            AnnotationType::Highlight => "highlight",
            AnnotationType::Note => "note",
        }
    }

    /// Reads a stored token.
    pub fn from_token(token: &str) -> (t: AnnotationType)
        ensures
            t == Self::spec_from_token(token@),
    {
        if same_text(token, "note") {
            AnnotationType::Note
        } else {
            AnnotationType::Highlight
        }
    }

    /// Each kind is read back from its own token.
    pub proof fn law_token_round_trip(t: AnnotationType)
        ensures
            Self::spec_from_token(t.spec_token()) == t,
    {
        reveal_strlit("highlight");
        reveal_strlit("note");
        assert("highlight"@.len() != "note"@.len());
    }
}

/// The fixed palette of highlight colours.
#[derive(Debug, Clone, Copy, PartialEq, Eq, Structural)]
pub enum HighlightColor {
    Yellow,
    Green,
    Blue,
    Pink,
    Orange,
}

impl HighlightColor {
    /// The canonical hex string of each palette entry.
    pub open spec fn spec_hex(self) -> Seq<char> {
        match self {
            HighlightColor::Yellow => "#FFEB3B"@,
            HighlightColor::Green => "#4CAF50"@,
            HighlightColor::Blue => "#2196F3"@,
            HighlightColor::Pink => "#E91E63"@,
            HighlightColor::Orange => "#FF9800"@,
        }
    }

    /// The palette entry whose canonical hex string is exactly `s`, if any.
    pub open spec fn with_hex(s: Seq<char>) -> Option<HighlightColor> {
        if s == "#FFEB3B"@ {
            Some(HighlightColor::Yellow)
        } else if s == "#4CAF50"@ {
            Some(HighlightColor::Green)
        } else if s == "#2196F3"@ {
            Some(HighlightColor::Blue)
        } else if s == "#E91E63"@ {
            Some(HighlightColor::Pink)
        } else if s == "#FF9800"@ {
            Some(HighlightColor::Orange)
        } else {
            None
        }
    }

    /// The palette entry that a hex string names when letter case is
    /// ignored.
    pub open spec fn spec_from_hex(hex: Seq<char>) -> Option<HighlightColor> {
        Self::with_hex(upper_case(hex))
    }

    /// Hex string of this colour.
    pub fn hex(&self) -> (s: &'static str)
        ensures
            s@ == self.spec_hex(),
    {
        match self {
            HighlightColor::Yellow => "#FFEB3B",
            HighlightColor::Green => "#4CAF50",
            HighlightColor::Blue => "#2196F3",
            HighlightColor::Pink => "#E91E63",
            HighlightColor::Orange => "#FF9800",
        }
    }

    /// Parses a hex string, ignoring letter case. A string that is no
    /// palette entry gives `None`.
    pub fn from_hex(hex: &str) -> (r: Option<HighlightColor>)
        ensures
            r == Self::spec_from_hex(hex@),
    {
        let upper = to_upper(hex);
        if same_text(upper.as_str(), "#FFEB3B") {
            Some(HighlightColor::Yellow)
        } else if same_text(upper.as_str(), "#4CAF50") {
            Some(HighlightColor::Green)
        } else if same_text(upper.as_str(), "#2196F3") {
            Some(HighlightColor::Blue)
        } else if same_text(upper.as_str(), "#E91E63") {
            Some(HighlightColor::Pink)
        } else if same_text(upper.as_str(), "#FF9800") {
            Some(HighlightColor::Orange)
        } else {
            None
        }
    }

    /// The five hex strings are upper-case ASCII and differ from each
    /// other.
    pub proof fn lemma_palette(c: HighlightColor)
        ensures
            all_ascii(c.spec_hex()),
            ascii_upper(c.spec_hex()) == c.spec_hex(),
            Self::with_hex(c.spec_hex()) == Some(c),
    {
        reveal_strlit("#FFEB3B");
        reveal_strlit("#4CAF50");
        reveal_strlit("#2196F3");
        reveal_strlit("#E91E63");
        reveal_strlit("#FF9800");
        assert("#FFEB3B"@[1] == 'F' && "#4CAF50"@[1] == '4' && "#2196F3"@[1] == '2');
        assert("#FFEB3B"@[3] == 'E' && "#FF9800"@[3] == '9');
    }

    /// The palette and its hex strings stand one to one: a text is the hex
    /// string of a palette entry exactly when it names that entry.
    pub proof fn law_palette_is_one_to_one(c: HighlightColor, s: Seq<char>)
        ensures
            Self::with_hex(s) == Some(c) <==> s == c.spec_hex(),
    {
        Self::lemma_palette(c);
    }

    /// Parsing undoes `hex`: every palette entry is found again from its
    /// own hex string.
    pub proof fn law_hex_round_trip(c: HighlightColor)
        ensures
            Self::spec_from_hex(c.spec_hex()) == Some(c),
    {
        Self::lemma_palette(c);
    }

    /// Parsing ignores letter case: an ASCII text that is the hex string
    /// of a palette entry but for the case of its letters names that entry.
    pub proof fn law_hex_ignores_case(c: HighlightColor, hex: Seq<char>)
        requires
            all_ascii(hex),
            ascii_upper(hex) == c.spec_hex(),
        ensures
            Self::spec_from_hex(hex) == Some(c),
    {
        Self::lemma_palette(c);
    }
}

/// A highlight or a note on a book.
#[derive(Debug, Clone)]
pub struct Annotation {
    /// Unique identifier, given at creation.
    pub id: String,
    /// Identifier of the book that the annotation belongs to.
    pub book_id: String,
    /// Highlight or note.
    pub annotation_type: AnnotationType,
    /// Where the annotation starts.
    pub start_percent: i64,
    /// Where the annotation ends; for a note, where it starts.
    pub end_percent: i64,
    /// Page on which to show the annotation.
    pub page_number: u32,
    /// Hex string of the colour.
    pub color: String,
    /// The highlighted text.
    pub selected_text: Option<String>,
    /// The text of the note.
    pub note_text: Option<String>,
    /// Seconds since the epoch at which the annotation was made.
    pub created_at: i64,
}

/// What an `Annotation` holds, as mathematical values.
pub struct AnnotationView {
    pub id: Seq<char>,
    pub book_id: Seq<char>,
    pub annotation_type: AnnotationType,
    pub start_percent: i64,
    pub end_percent: i64,
    pub page_number: u32,
    pub color: Seq<char>,
    pub selected_text: Option<Seq<char>>,
    pub note_text: Option<Seq<char>>,
    pub created_at: i64,
}

impl AnnotationView {
    /// The rules of an annotation: both positions lie between 0 and 100
    /// percent, the colour is a palette entry, a highlight carries no note
    /// text, and a note is a point that carries no selection.
    pub open spec fn well_formed(self) -> bool {
        &&& spec_percent_in_range(self.start_percent)
        &&& spec_percent_in_range(self.end_percent)
        &&& HighlightColor::with_hex(self.color) is Some
        &&& match self.annotation_type {
            AnnotationType::Highlight => self.note_text is None,
            AnnotationType::Note => {
                &&& self.end_percent == self.start_percent
                &&& self.selected_text is None
                &&& self.note_text is Some
            },
        }
    }
}

impl View for Annotation {
    type V = AnnotationView;

    open spec fn view(&self) -> AnnotationView {
        AnnotationView {
            id: self.id@,
            book_id: self.book_id@,
            annotation_type: self.annotation_type,
            start_percent: self.start_percent,
            end_percent: self.end_percent,
            page_number: self.page_number,
            color: self.color@,
            selected_text: text_of(self.selected_text),
            note_text: text_of(self.note_text),
            created_at: self.created_at,
        }
    }
}

impl Annotation {
    /// The highlight with the given identifier and time of creation.
    pub open spec fn spec_highlight(
        id: Seq<char>,
        created_at: i64,
        book_id: Seq<char>,
        start_percent: i64,
        end_percent: i64,
        page_number: u32,
        color: HighlightColor,
        selected_text: Option<Seq<char>>,
    ) -> AnnotationView {
        AnnotationView {
            id,
            book_id,
            annotation_type: AnnotationType::Highlight,
            start_percent,
            end_percent,
            page_number,
            color: color.spec_hex(),
            selected_text,
            note_text: None,
            created_at,
        }
    }

    /// The note with the given identifier and time of creation: a point at
    /// `start_percent`, in the first colour of the palette.
    pub open spec fn spec_note(
        id: Seq<char>,
        created_at: i64,
        book_id: Seq<char>,
        start_percent: i64,
        page_number: u32,
        note_text: Seq<char>,
    ) -> AnnotationView {
        AnnotationView {
            id,
            book_id,
            annotation_type: AnnotationType::Note,
            start_percent,
            end_percent: start_percent,
            page_number,
            color: HighlightColor::Yellow.spec_hex(),
            selected_text: None,
            note_text: Some(note_text),
            created_at,
        }
    }

    /// A highlight made at `created_at` under the identifier `id`.
    pub fn highlight_with_identity(
        id: String,
        created_at: i64,
        book_id: String,
        start_percent: i64,
        end_percent: i64,
        page_number: u32,
        color: HighlightColor,
        selected_text: Option<String>,
    ) -> (a: Annotation)
        ensures
            a@ == Self::spec_highlight(
                id@,
                created_at,
                book_id@,
                start_percent,
                end_percent,
                page_number,
                color,
                text_of(selected_text),
            ),
            spec_percent_in_range(start_percent) && spec_percent_in_range(end_percent)
                ==> a@.well_formed(),
    {
        proof {
            HighlightColor::lemma_palette(color);
        }
        Annotation {
            id,
            book_id,
            annotation_type: AnnotationType::Highlight,
            start_percent,
            end_percent,
            page_number,
            color: color.hex().to_owned(),
            selected_text,
            note_text: None,
            created_at,
        }
    }

    /// A note made at `created_at` under the identifier `id`.
    pub fn note_with_identity(
        id: String,
        created_at: i64,
        book_id: String,
        start_percent: i64,
        page_number: u32,
        note_text: String,
    ) -> (a: Annotation)
        ensures
            a@ == Self::spec_note(
                id@,
                created_at,
                book_id@,
                start_percent,
                page_number,
                note_text@,
            ),
            spec_percent_in_range(start_percent) ==> a@.well_formed(),
    {
        proof {
            HighlightColor::lemma_palette(HighlightColor::Yellow);
        }
        Annotation {
            id,
            book_id,
            annotation_type: AnnotationType::Note,
            start_percent,
            end_percent: start_percent,
            page_number,
            color: HighlightColor::Yellow.hex().to_owned(),
            selected_text: None,
            note_text: Some(note_text),
            created_at,
        }
    }

    /// A new highlight, with a fresh identifier and the current time.
    pub fn new_highlight(
        book_id: String,
        start_percent: i64,
        end_percent: i64,
        page_number: u32,
        color: HighlightColor,
        selected_text: Option<String>,
    ) -> (a: Annotation)
        ensures
            a@ == Self::spec_highlight(
                a@.id,
                a@.created_at,
                book_id@,
                start_percent,
                end_percent,
                page_number,
                color,
                text_of(selected_text),
            ),
            is_id_text(a@.id),
            0 <= a@.created_at,
            spec_percent_in_range(start_percent) && spec_percent_in_range(end_percent)
                ==> a@.well_formed(),
    {
        let id = fresh_id();
        let created_at = current_time();
        Self::highlight_with_identity(
            id,
            created_at,
            book_id,
            start_percent,
            end_percent,
            page_number,
            color,
            selected_text,
        )
    }

    /// A new note, with a fresh identifier and the current time.
    pub fn new_note(book_id: String, start_percent: i64, page_number: u32, note_text: String) -> (a:
        Annotation)
        ensures
            a@ == Self::spec_note(
                a@.id,
                a@.created_at,
                book_id@,
                start_percent,
                page_number,
                note_text@,
            ),
            is_id_text(a@.id),
            0 <= a@.created_at,
            spec_percent_in_range(start_percent) ==> a@.well_formed(),
    {
        let id = fresh_id();
        let created_at = current_time();
        Self::note_with_identity(id, created_at, book_id, start_percent, page_number, note_text)
    }
}

/// The reader's place in a book.
#[derive(Debug, Clone)]
pub struct ReadingPosition {
    /// Identifier of the book.
    pub book_id: String,
    /// Where the reader is.
    pub percent: i64,
    /// Page on which the reader is.
    pub page_number: u32,
    /// Seconds since the epoch at which the position was taken.
    pub updated_at: i64,
}

/// What a `ReadingPosition` holds, as mathematical values.
pub struct ReadingPositionView {
    pub book_id: Seq<char>,
    pub percent: i64,
    pub page_number: u32,
    pub updated_at: i64,
}

impl View for ReadingPosition {
    type V = ReadingPositionView;

    open spec fn view(&self) -> ReadingPositionView {
        ReadingPositionView {
            book_id: self.book_id@,
            percent: self.percent,
            page_number: self.page_number,
            updated_at: self.updated_at,
        }
    }
}

impl ReadingPosition {
    /// The position taken at `updated_at`.
    pub fn at(updated_at: i64, book_id: String, percent: i64, page_number: u32) -> (p:
        ReadingPosition)
        ensures
            p@ == (ReadingPositionView { book_id: book_id@, percent, page_number, updated_at }),
    {
        ReadingPosition { book_id, percent, page_number, updated_at }
    }

    /// A position taken now.
    pub fn new(book_id: String, percent: i64, page_number: u32) -> (p: ReadingPosition)
        ensures
            p@ == (ReadingPositionView {
                book_id: book_id@,
                percent,
                page_number,
                updated_at: p@.updated_at,
            }),
            0 <= p@.updated_at,
    {
        let updated_at = current_time();
        Self::at(updated_at, book_id, percent, page_number)
    }
}

} // verus!
