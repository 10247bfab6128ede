//! What is read out of an EPUB: chapters and the table of contents.
//!
//! Opening and reading the file is left to the caller; here are the rules
//! that say which chapter may be asked for and what it is called.

use vstd::prelude::*;
use vstd::string::StringExecFns;
use crate::error::OmniReaderError;
use crate::text::{decimal, decimal_text, text_of};

verus! {

/// A chapter of an EPUB.
#[derive(Debug, Clone)]
pub struct EpubChapter {
    /// Position of the chapter in the spine, from 0.
    pub index: u32,
    /// Title of the chapter.
    pub title: String,
    /// The chapter as HTML.
    pub content: String,
}

/// What an `EpubChapter` holds, as mathematical values.
pub struct EpubChapterView {
    pub index: u32,
    pub title: Seq<char>,
    pub content: Seq<char>,
}

impl View for EpubChapter {
    type V = EpubChapterView;

    open spec fn view(&self) -> EpubChapterView {
        EpubChapterView { index: self.index, title: self.title@, content: self.content@ }
    }
}

/// An entry of the table of contents.
#[derive(Debug, Clone)]
pub struct TocEntry {
    /// Position of the entry in the table, from 0.
    pub index: u32,
    /// Label of the entry.
    pub title: String,
    /// Path of the document that the entry points to.
    pub path: String,
}

/// What a `TocEntry` holds, as mathematical values.
pub struct TocEntryView {
    pub index: u32,
    pub title: Seq<char>,
    pub path: Seq<char>,
}

impl View for TocEntry {
    type V = TocEntryView;

    open spec fn view(&self) -> TocEntryView {
        TocEntryView { index: self.index, title: self.title@, path: self.path@ }
    }
}

/// The title of chapter `chapter_index`: its label in the table of
/// contents, or, where the table has none, the word `Chapter` and the
/// number of the chapter counted from 1.
pub open spec fn spec_chapter_title(label: Option<Seq<char>>, chapter_index: u32) -> Seq<char> {
    match label {
        Some(l) => l,
        None => "Chapter "@ + decimal((chapter_index + 1) as nat),
    }
}

/// The title of chapter `chapter_index`, whose label in the table of
/// contents is `label`.
pub fn chapter_title(label: Option<String>, chapter_index: u32) -> (title: String)
    ensures
        title@ == spec_chapter_title(text_of(label), chapter_index),
{
    match label {
        Some(l) => l,
        None => {
            let number: u64 = chapter_index as u64 + 1;
            let mut title = String::from_str("Chapter ");
            title.append(decimal_text(number).as_str());
            title
        },
    }
}

/// Whether a book of `num_chapters` chapters has the chapter
/// `chapter_index`. The count is taken as a 32-bit number.
pub open spec fn spec_has_chapter(chapter_index: u32, num_chapters: usize) -> bool {
    chapter_index < (num_chapters as u32)
}

/// Accepts the chapters that the book has, and refuses every other index
/// with a parse error that names the index and the number of chapters.
pub fn check_chapter_index(chapter_index: u32, num_chapters: usize) -> (r: Result<
    (),
    OmniReaderError,
>)
    ensures
        r is Ok <==> spec_has_chapter(chapter_index, num_chapters),
        r matches Err(e) ==> e is ParseError && e.detail()
            == OmniReaderError::out_of_range_text(
            "Chapter"@,
            chapter_index as nat,
            num_chapters as nat,
        ),
{
    let count: u32 = #[verifier::truncate] (num_chapters as u32);
    if chapter_index >= count {
        Err(OmniReaderError::out_of_range("Chapter", chapter_index as u64, num_chapters as u64))
    } else {
        Ok(())
    }
}

/// The chapter `chapter_index` with its content and its title.
pub fn assemble_chapter(chapter_index: u32, label: Option<String>, content: String) -> (chapter:
    EpubChapter)
    ensures
        chapter@ == (EpubChapterView {
            index: chapter_index,
            title: spec_chapter_title(text_of(label), chapter_index),
            content: content@,
        }),
{
    let title = chapter_title(label, chapter_index);
    EpubChapter { index: chapter_index, title, content }
}

/// The table of contents made of the labels and paths of its entries in
/// their order: each entry gets its position as index, taken as a 32-bit
/// number.
pub fn toc_entries(points: Vec<(String, String)>) -> (entries: Vec<TocEntry>)
    ensures
        entries@.len() == points@.len(),
        forall|i: int|
            0 <= i < points@.len() ==> (#[trigger] entries@[i])@ == (TocEntryView {
                index: i as u32,
                title: points@[i].0@,
                path: points@[i].1@,
            }),
{
    let mut entries: Vec<TocEntry> = Vec::new();
    let ghost all = points@;
    for point in iter: points.into_iter()
        invariant
            iter.seq() == all,
            entries@.len() == iter.index(),
            forall|k: int|
                0 <= k < entries@.len() ==> (#[trigger] entries@[k])@ == (TocEntryView {
                    index: k as u32,
                    title: all[k].0@,
                    path: all[k].1@,
                }),
    {
        let position: usize = entries.len();
        let index: u32 = #[verifier::truncate] (position as u32);
        entries.push(TocEntry { index, title: point.0, path: point.1 });
    }
    entries
}

} // verus!
