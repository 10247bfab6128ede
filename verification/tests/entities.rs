use omnireader_core::annotation::{
    percent_in_range, Annotation, AnnotationType, HighlightColor, ReadingPosition, MAX_PERCENT,
};
use omnireader_core::book::{Book, BookMetadata, BookType};
use omnireader_core::epub::{assemble_chapter, chapter_title, check_chapter_index, toc_entries};
use omnireader_core::error::OmniReaderError;
use omnireader_core::pdf::check_page_number;
use omnireader_core::records::{AnnotationRow, BookRow, PositionRow};
use omnireader_core::text::{decimal_text, same_text};

fn parse_message(e: &OmniReaderError) -> &str {
    match e {
        OmniReaderError::ParseError { message } => message,
        other => panic!("not a parse error: {:?}", other),
    }
}

fn is_id(s: &str) -> bool {
    let chars: Vec<char> = s.chars().collect();
    chars.len() == 36
        && chars.iter().enumerate().all(|(i, c)| match i {
            8 | 13 | 18 | 23 => *c == '-',
            _ => matches!(*c, '0'..='9' | 'a'..='f'),
        })
}

#[test]
fn hex_of_each_palette_entry() {
    assert_eq!(HighlightColor::Yellow.hex(), "#FFEB3B");
    assert_eq!(HighlightColor::Green.hex(), "#4CAF50");
    assert_eq!(HighlightColor::Blue.hex(), "#2196F3");
    assert_eq!(HighlightColor::Pink.hex(), "#E91E63");
    assert_eq!(HighlightColor::Orange.hex(), "#FF9800");
}

#[test]
fn from_hex_round_trips_every_palette_entry() {
    let palette = [
        HighlightColor::Yellow,
        HighlightColor::Green,
        HighlightColor::Blue,
        HighlightColor::Pink,
        HighlightColor::Orange,
    ];
    for c in palette {
        assert_eq!(HighlightColor::from_hex(c.hex()), Some(c));
        assert_eq!(HighlightColor::from_hex(&c.hex().to_lowercase()), Some(c));
    }
}

#[test]
fn from_hex_ignores_case() {
    assert_eq!(HighlightColor::from_hex("#ffeb3b"), Some(HighlightColor::Yellow));
    assert_eq!(HighlightColor::from_hex("#FfEb3b"), Some(HighlightColor::Yellow));
    assert_eq!(HighlightColor::from_hex("#4caf50"), Some(HighlightColor::Green));
    assert_eq!(HighlightColor::from_hex("#2196f3"), Some(HighlightColor::Blue));
    assert_eq!(HighlightColor::from_hex("#e91e63"), Some(HighlightColor::Pink));
    assert_eq!(HighlightColor::from_hex("#ff9800"), Some(HighlightColor::Orange));
}

#[test]
fn from_hex_of_unknown_string_is_none() {
    assert_eq!(HighlightColor::from_hex(""), None);
    assert_eq!(HighlightColor::from_hex("#000000"), None);
    assert_eq!(HighlightColor::from_hex("FFEB3B"), None);
    assert_eq!(HighlightColor::from_hex("#FFEB3B "), None);
    assert_eq!(HighlightColor::from_hex("#FFEB3"), None);
    assert_eq!(HighlightColor::from_hex("yellow"), None);
}

#[test]
fn from_hex_folds_text_beyond_ascii_by_the_unicode_mapping() {
    // The ligature U+FB00 is written FF in upper case.
    assert_eq!(HighlightColor::from_hex("#\u{fb00}EB3B"), Some(HighlightColor::Yellow));
    assert_eq!(HighlightColor::from_hex("#\u{fb00}eb3b"), Some(HighlightColor::Yellow));
    assert_eq!(HighlightColor::from_hex("#\u{fb00}9800"), Some(HighlightColor::Orange));
    // Text that no mapping turns into a palette entry names none.
    assert_eq!(HighlightColor::from_hex("#FFEB3\u{df}"), None);
    assert_eq!(HighlightColor::from_hex("#\u{ff26}FEB3B"), None);
    assert_eq!(HighlightColor::from_hex("#4CAF5\u{660}"), None);
    assert_eq!(HighlightColor::from_hex("\u{ff03}FFEB3B"), None);
    assert_eq!(HighlightColor::from_hex("#FFEB3B\u{301}"), None);
}

#[test]
fn from_extension_folds_text_beyond_ascii_by_the_unicode_mapping() {
    assert_eq!(BookType::from_extension("\u{c9}PUB"), None);
    assert_eq!(BookType::from_extension("pdf\u{e9}"), None);
    assert_eq!(BookType::from_extension("\u{ff30}DF"), None);
    assert_eq!(BookType::from_extension("EPU\u{392}"), None);
    assert_eq!(BookType::from_extension("p\u{10f}f"), None);
    assert_eq!(BookType::from_token("\u{c9}PUB"), BookType::Pdf);
    // A letter beyond ASCII beside the name does not hide the name's case.
    assert_eq!(BookType::from_extension("PDF"), Some(BookType::Pdf));
    assert_eq!(BookType::from_extension("PDF\u{130}"), None);
}

#[test]
fn extension_of_each_kind() {
    assert_eq!(BookType::Pdf.extension(), "pdf");
    assert_eq!(BookType::Epub.extension(), "epub");
}

#[test]
fn from_extension_ignores_case() {
    assert_eq!(BookType::from_extension("pdf"), Some(BookType::Pdf));
    assert_eq!(BookType::from_extension("PDF"), Some(BookType::Pdf));
    assert_eq!(BookType::from_extension("Pdf"), Some(BookType::Pdf));
    assert_eq!(BookType::from_extension("epub"), Some(BookType::Epub));
    assert_eq!(BookType::from_extension("EPUB"), Some(BookType::Epub));
    assert_eq!(BookType::from_extension("ePuB"), Some(BookType::Epub));
}

#[test]
fn from_extension_of_unknown_extension_is_none() {
    assert_eq!(BookType::from_extension(""), None);
    assert_eq!(BookType::from_extension("mobi"), None);
    assert_eq!(BookType::from_extension(".pdf"), None);
    assert_eq!(BookType::from_extension("pdf "), None);
    assert_eq!(BookType::from_extension("txt"), None);
}

#[test]
fn from_extension_round_trips_every_kind() {
    for t in [BookType::Pdf, BookType::Epub] {
        assert_eq!(BookType::from_extension(t.extension()), Some(t));
        assert_eq!(BookType::from_token(t.extension()), t);
    }
}

#[test]
fn unknown_token_of_a_book_is_a_pdf() {
    assert_eq!(BookType::from_token("mobi"), BookType::Pdf);
    assert_eq!(BookType::from_token(""), BookType::Pdf);
    assert_eq!(BookType::from_token("EPUB"), BookType::Epub);
}

#[test]
fn tokens_of_annotation_kinds() {
    assert_eq!(AnnotationType::Highlight.token(), "highlight");
    assert_eq!(AnnotationType::Note.token(), "note");
    assert_eq!(AnnotationType::from_token("note"), AnnotationType::Note);
    assert_eq!(AnnotationType::from_token("highlight"), AnnotationType::Highlight);
    assert_eq!(AnnotationType::from_token("Note"), AnnotationType::Highlight);
    assert_eq!(AnnotationType::from_token(""), AnnotationType::Highlight);
    assert_eq!(AnnotationType::from_token("bookmark"), AnnotationType::Highlight);
}

#[test]
fn new_book_fills_identity_and_time() {
    let book = Book::new(
        "Test Book".to_string(),
        Some("Test Author".to_string()),
        "/path/to/book.pdf".to_string(),
        BookType::Pdf,
        100,
    );
    assert!(is_id(&book.id));
    assert!(book.added_at >= 1_600_000_000);
    assert_eq!(book.title, "Test Book");
    assert_eq!(book.author, Some("Test Author".to_string()));
    assert_eq!(book.file_path, "/path/to/book.pdf");
    assert_eq!(book.file_type, BookType::Pdf);
    assert_eq!(book.cover_data, None);
    assert_eq!(book.last_read_at, None);
    assert_eq!(book.total_pages, 100);

    let other = Book::new("T".to_string(), None, "/x".to_string(), BookType::Epub, 0);
    assert!(is_id(&other.id));
    assert_ne!(book.id, other.id);
}

#[test]
fn book_with_identity_takes_what_it_is_given() {
    let book = Book::with_identity(
        "id-1".to_string(),
        42,
        "T".to_string(),
        None,
        "/x.epub".to_string(),
        BookType::Epub,
        7,
    );
    assert_eq!(book.id, "id-1");
    assert_eq!(book.added_at, 42);
    assert_eq!(book.title, "T");
    assert_eq!(book.author, None);
    assert_eq!(book.file_path, "/x.epub");
    assert_eq!(book.file_type, BookType::Epub);
    assert_eq!(book.cover_data, None);
    assert_eq!(book.last_read_at, None);
    assert_eq!(book.total_pages, 7);
}

#[test]
fn new_highlight_resolves_the_colour() {
    let a = Annotation::new_highlight(
        "b-1".to_string(),
        10.0f64.to_bits() as i64,
        15.0f64.to_bits() as i64,
        1,
        HighlightColor::Pink,
        Some("Selected text".to_string()),
    );
    assert!(is_id(&a.id));
    assert!(a.created_at >= 1_600_000_000);
    assert_eq!(a.book_id, "b-1");
    assert_eq!(a.annotation_type, AnnotationType::Highlight);
    assert_eq!(f64::from_bits(a.start_percent as u64), 10.0);
    assert_eq!(f64::from_bits(a.end_percent as u64), 15.0);
    assert_eq!(a.page_number, 1);
    assert_eq!(a.color, "#E91E63");
    assert_eq!(a.selected_text, Some("Selected text".to_string()));
    assert_eq!(a.note_text, None);
}

#[test]
fn new_note_is_a_point_in_the_first_colour() {
    let a = Annotation::new_note(
        "b-1".to_string(),
        33.5f64.to_bits() as i64,
        4,
        "Remember".to_string(),
    );
    assert!(is_id(&a.id));
    assert!(a.created_at >= 1_600_000_000);
    assert_eq!(a.book_id, "b-1");
    assert_eq!(a.annotation_type, AnnotationType::Note);
    assert_eq!(f64::from_bits(a.start_percent as u64), 33.5);
    assert_eq!(a.end_percent, a.start_percent);
    assert_eq!(a.page_number, 4);
    assert_eq!(a.color, "#FFEB3B");
    assert_eq!(a.color, HighlightColor::Yellow.hex());
    assert_eq!(a.selected_text, None);
    assert_eq!(a.note_text, Some("Remember".to_string()));
}

#[test]
fn new_reading_position_stamps_the_time() {
    let p = ReadingPosition::new("b-1".to_string(), 25.5f64.to_bits() as i64, 13);
    assert_eq!(p.book_id, "b-1");
    assert_eq!(f64::from_bits(p.percent as u64), 25.5);
    assert_eq!(p.page_number, 13);
    assert!(p.updated_at >= 1_600_000_000);

    let q = ReadingPosition::at(9, "b-2".to_string(), 0, 1);
    assert_eq!(q.updated_at, 9);
    assert_eq!(q.book_id, "b-2");
    assert_eq!(q.percent, 0);
    assert_eq!(q.page_number, 1);
}

#[test]
fn percent_range_is_zero_to_one_hundred() {
    assert_eq!(MAX_PERCENT, 100.0f64.to_bits() as i64);
    assert!(percent_in_range(0.0f64.to_bits() as i64));
    assert!(percent_in_range(0.000001f64.to_bits() as i64));
    assert!(percent_in_range(50.0f64.to_bits() as i64));
    assert!(percent_in_range(100.0f64.to_bits() as i64));
    assert!(!percent_in_range(100.00000000000001f64.to_bits() as i64));
    assert!(!percent_in_range(150.0f64.to_bits() as i64));
    assert!(!percent_in_range((-1.0f64).to_bits() as i64));
    assert!(!percent_in_range((-0.0f64).to_bits() as i64));
    assert!(!percent_in_range(f64::NAN.to_bits() as i64));
    assert!(!percent_in_range(f64::INFINITY.to_bits() as i64));
}

#[test]
fn order_of_positions_is_order_of_percentages() {
    let values = [0.0f64, 0.25, 0.5, 1.0, 9.0, 10.0, 33.333, 50.0, 99.999, 100.0];
    for w in values.windows(2) {
        assert!((w[0].to_bits() as i64) < (w[1].to_bits() as i64));
    }
}

#[test]
fn description_of_each_failure() {
    let e = OmniReaderError::Database { message: "disk full".to_string() };
    assert_eq!(e.description(), "Database error: disk full");
    let e = OmniReaderError::FileNotFound { path: "/no/such.pdf".to_string() };
    assert_eq!(e.description(), "File not found: /no/such.pdf");
    let e = OmniReaderError::UnsupportedFormat { extension: "mobi".to_string() };
    assert_eq!(e.description(), "Unsupported format: mobi");
    let e = OmniReaderError::ParseError { message: "broken".to_string() };
    assert_eq!(e.description(), "Parse error: broken");
    let e = OmniReaderError::IoError { message: "denied".to_string() };
    assert_eq!(e.description(), "IO error: denied");
    let e = OmniReaderError::database(String::new());
    assert_eq!(e.description(), "Database error: ");
}

#[test]
fn parse_failure_joins_attempt_and_cause() {
    let e = OmniReaderError::parse_failure("Failed to open EPUB", "not a zip");
    assert_eq!(parse_message(&e), "Failed to open EPUB: not a zip");
    assert_eq!(e.description(), "Parse error: Failed to open EPUB: not a zip");
}

#[test]
fn decimal_text_writes_numbers() {
    assert_eq!(decimal_text(0), "0");
    assert_eq!(decimal_text(7), "7");
    assert_eq!(decimal_text(10), "10");
    assert_eq!(decimal_text(1905), "1905");
    assert_eq!(decimal_text(4294967295), "4294967295");
    assert_eq!(decimal_text(u64::MAX), "18446744073709551615");
}

#[test]
fn same_text_compares_characters() {
    assert!(same_text("", ""));
    assert!(same_text("note", "note"));
    assert!(!same_text("note", "Note"));
    assert!(!same_text("note", "notes"));
}

#[test]
fn chapter_index_is_checked_against_the_count() {
    assert!(check_chapter_index(0, 1).is_ok());
    assert!(check_chapter_index(4, 5).is_ok());
    let e = check_chapter_index(5, 5).unwrap_err();
    assert_eq!(parse_message(&e), "Chapter 5 out of range (total: 5)");
    let e = check_chapter_index(0, 0).unwrap_err();
    assert_eq!(parse_message(&e), "Chapter 0 out of range (total: 0)");
    let e = check_chapter_index(12, 3).unwrap_err();
    assert_eq!(e.description(), "Parse error: Chapter 12 out of range (total: 3)");
}

#[test]
fn chapter_count_is_taken_as_a_32_bit_number() {
    let count = (u32::MAX as usize) + 6;
    assert!(check_chapter_index(4, count).is_ok());
    let e = check_chapter_index(5, count).unwrap_err();
    assert_eq!(parse_message(&e), "Chapter 5 out of range (total: 4294967301)");
    assert!(check_chapter_index(u32::MAX - 1, u32::MAX as usize).is_ok());
    assert!(check_chapter_index(u32::MAX, u32::MAX as usize).is_err());
}

#[test]
fn chapter_title_falls_back_to_its_number() {
    assert_eq!(chapter_title(Some("Prologue".to_string()), 0), "Prologue");
    assert_eq!(chapter_title(Some(String::new()), 3), "");
    assert_eq!(chapter_title(None, 0), "Chapter 1");
    assert_eq!(chapter_title(None, 9), "Chapter 10");
    assert_eq!(chapter_title(None, u32::MAX), "Chapter 4294967296");
}

#[test]
fn assembled_chapter_holds_index_title_and_content() {
    let c = assemble_chapter(2, None, "<p>text</p>".to_string());
    assert_eq!(c.index, 2);
    assert_eq!(c.title, "Chapter 3");
    assert_eq!(c.content, "<p>text</p>");
    let c = assemble_chapter(0, Some("One".to_string()), String::new());
    assert_eq!(c.index, 0);
    assert_eq!(c.title, "One");
    assert_eq!(c.content, "");
}

#[test]
fn toc_entries_are_numbered_in_order() {
    assert!(toc_entries(Vec::new()).is_empty());
    let toc = toc_entries(vec![
        ("One".to_string(), "a.xhtml".to_string()),
        ("Two".to_string(), "b.xhtml".to_string()),
        ("Three".to_string(), "c.xhtml#x".to_string()),
    ]);
    assert_eq!(toc.len(), 3);
    assert_eq!((toc[0].index, toc[0].title.as_str(), toc[0].path.as_str()), (0, "One", "a.xhtml"));
    assert_eq!((toc[1].index, toc[1].title.as_str(), toc[1].path.as_str()), (1, "Two", "b.xhtml"));
    assert_eq!(
        (toc[2].index, toc[2].title.as_str(), toc[2].path.as_str()),
        (2, "Three", "c.xhtml#x")
    );
}

#[test]
fn page_number_is_checked_against_the_count() {
    assert_eq!(check_page_number(0, 1).unwrap(), 0);
    assert_eq!(check_page_number(41, 42).unwrap(), 41);
    assert_eq!(check_page_number(65534, 65535).unwrap(), 65534);
    let e = check_page_number(42, 42).unwrap_err();
    assert_eq!(parse_message(&e), "Page 42 out of range (total: 42)");
    let e = check_page_number(70000, 65535).unwrap_err();
    assert_eq!(parse_message(&e), "Page 70000 out of range (total: 65535)");
    assert!(check_page_number(0, 0).is_err());
}

#[test]
fn metadata_title_falls_back_to_the_file_name() {
    let m = BookMetadata::with_title_or(
        Some("Real Title".to_string()),
        Some("book".to_string()),
        Some("Author".to_string()),
        Some(vec![1, 2, 3]),
        12,
    );
    assert_eq!(m.title, Some("Real Title".to_string()));
    assert_eq!(m.author, Some("Author".to_string()));
    assert_eq!(m.cover_data, Some(vec![1, 2, 3]));
    assert_eq!(m.total_pages, 12);
    let m = BookMetadata::with_title_or(None, Some("book".to_string()), None, None, 0);
    assert_eq!(m.title, Some("book".to_string()));
    assert_eq!(m.author, None);
    assert_eq!(m.cover_data, None);
    let m = BookMetadata::with_title_or(None, None, None, None, 3);
    assert_eq!(m.title, None);
    assert_eq!(m.total_pages, 3);
}

#[test]
fn rows_store_kinds_as_tokens() {
    let mut book = Book::with_identity(
        "b-1".to_string(),
        5,
        "T".to_string(),
        Some("A".to_string()),
        "/x.epub".to_string(),
        BookType::Epub,
        3,
    );
    book.cover_data = Some(vec![9, 8]);
    book.last_read_at = Some(6);
    let row = BookRow::of(&book);
    assert_eq!(row.id, "b-1");
    assert_eq!(row.title, "T");
    assert_eq!(row.author, Some("A".to_string()));
    assert_eq!(row.file_path, "/x.epub");
    assert_eq!(row.file_type, "epub");
    assert_eq!(row.cover_data, Some(vec![9, 8]));
    assert_eq!(row.added_at, 5);
    assert_eq!(row.last_read_at, Some(6));
    assert_eq!(row.total_pages, 3);
    let back = row.into_book();
    assert_eq!(back.file_type, BookType::Epub);
    assert_eq!(back.cover_data, Some(vec![9, 8]));

    let note = Annotation::note_with_identity(
        "n-1".to_string(),
        1,
        "b-1".to_string(),
        7,
        2,
        "N".to_string(),
    );
    let row = AnnotationRow::of(&note);
    assert_eq!(row.annotation_type, "note");
    assert_eq!(row.color, "#FFEB3B");
    assert_eq!(row.start_percent, 7);
    assert_eq!(row.end_percent, 7);
    assert_eq!(row.note_text, Some("N".to_string()));
    assert_eq!(row.into_annotation().annotation_type, AnnotationType::Note);

    let highlight = Annotation::highlight_with_identity(
        "h-1".to_string(),
        1,
        "b-1".to_string(),
        7,
        8,
        2,
        HighlightColor::Blue,
        None,
    );
    let row = AnnotationRow::of(&highlight);
    assert_eq!(row.annotation_type, "highlight");
    assert_eq!(row.color, "#2196F3");
    assert_eq!(row.into_annotation().annotation_type, AnnotationType::Highlight);

    let position = ReadingPosition::at(4, "b-1".to_string(), 11, 12);
    let row = PositionRow::of(&position);
    assert_eq!(row.book_id, "b-1");
    assert_eq!((row.percent, row.page_number, row.updated_at), (11, 12, 4));
    let back = row.into_position();
    assert_eq!(back.book_id, "b-1");
    assert_eq!((back.percent, back.page_number, back.updated_at), (11, 12, 4));
}
