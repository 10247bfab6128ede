//! The three relations as mathematical maps, the changes that the store
//! makes to them, and the laws that follow.
//!
//! Books and annotations are keyed by their identifier, reading positions
//! by the identifier of their book. Every change is the change that one
//! statement of the store makes when it succeeds.

use vstd::prelude::*;
use crate::annotation::{AnnotationView, ReadingPositionView};
use crate::book::BookView;
use crate::records::{
    decode_annotation, decode_book, decode_position, encode_book, encode_position,
    law_book_round_trip, law_position_round_trip, AnnotationRecord, BookRecord, PositionRecord,
};

verus! {

/// What a store holds.
pub struct Tables {
    /// The books, by identifier.
    pub books: Map<Seq<char>, BookRecord>,
    /// The annotations, by identifier.
    pub annotations: Map<Seq<char>, AnnotationRecord>,
    /// The reading positions, by the identifier of their book.
    pub positions: Map<Seq<char>, PositionRecord>,
}

impl Tables {
    /// A store that holds nothing.
    pub open spec fn empty() -> Tables {
        Tables { books: Map::empty(), annotations: Map::empty(), positions: Map::empty() }
    }

    /// Whether a book has the identifier `id`.
    pub open spec fn has_book(self, id: Seq<char>) -> bool {
        self.books.dom().contains(id)
    }

    /// Whether a book lies at `path`.
    pub open spec fn has_path(self, path: Seq<char>) -> bool {
        exists|id: Seq<char>| #[trigger] self.has_book(id) && self.books[id].file_path == path
    }

    /// The book with the identifier `id`, as it is read back.
    pub open spec fn find_book(self, id: Seq<char>) -> Option<BookView> {
        if self.has_book(id) {
            Some(decode_book(self.books[id]))
        } else {
            None
        }
    }

    /// The identifiers of the annotations of one book.
    pub open spec fn annotations_of(self, book_id: Seq<char>) -> Set<Seq<char>> {
        Set::new(
            |a: Seq<char>|
                self.annotations.dom().contains(a) && self.annotations[a].book_id == book_id,
        )
    }

    /// The reading position of a book, as it is read back.
    pub open spec fn find_position(self, book_id: Seq<char>) -> Option<ReadingPositionView> {
        if self.positions.dom().contains(book_id) {
            Some(decode_position(self.positions[book_id]))
        } else {
            None
        }
    }

    /// A new book is taken when neither its identifier nor its path is in
    /// use.
    pub open spec fn accepts_book(self, row: BookRecord) -> bool {
        !self.has_book(row.id) && !self.has_path(row.file_path)
    }

    /// The store with one more book.
    pub open spec fn with_book(self, row: BookRecord) -> Tables {
        Tables { books: self.books.insert(row.id, row), ..self }
    }

    /// The store without the book `id`, its annotations and its reading
    /// position. Where no book has that identifier nothing changes.
    pub open spec fn without_book(self, id: Seq<char>) -> Tables {
        if self.has_book(id) {
            Tables {
                books: self.books.remove(id),
                annotations: Map::new(
                    |a: Seq<char>|
                        self.annotations.dom().contains(a) && self.annotations[a].book_id != id,
                    |a: Seq<char>| self.annotations[a],
                ),
                positions: self.positions.remove(id),
            }
        } else {
            self
        }
    }

    /// The store in which the book `id` was last read at `at`. Where no
    /// book has that identifier nothing changes.
    pub open spec fn with_last_read(self, id: Seq<char>, at: i64) -> Tables {
        if self.has_book(id) {
            Tables {
                books: self.books.insert(
                    id,
                    BookRecord { last_read_at: Some(at), ..self.books[id] },
                ),
                ..self
            }
        } else {
            self
        }
    }

    /// A new annotation is taken when its identifier is not in use and its
    /// book is in the store.
    pub open spec fn accepts_annotation(self, row: AnnotationRecord) -> bool {
        !self.annotations.dom().contains(row.id) && self.has_book(row.book_id)
    }

    /// The store with one more annotation.
    pub open spec fn with_annotation(self, row: AnnotationRecord) -> Tables {
        Tables { annotations: self.annotations.insert(row.id, row), ..self }
    }

    /// The store without the annotation `id`.
    pub open spec fn without_annotation(self, id: Seq<char>) -> Tables {
        Tables { annotations: self.annotations.remove(id), ..self }
    }

    /// A reading position is taken when its book is in the store, or when
    /// it replaces the position that the store has for that book.
    pub open spec fn accepts_position(self, row: PositionRecord) -> bool {
        self.has_book(row.book_id) || self.positions.dom().contains(row.book_id)
    }

    /// The store in which `row` is the reading position of its book.
    pub open spec fn with_position(self, row: PositionRecord) -> Tables {
        Tables { positions: self.positions.insert(row.book_id, row), ..self }
    }

    /// The invariants of a library: each row stands under its own key, no
    /// two books share a path, and every annotation and every reading
    /// position belongs to a book of the store.
    pub open spec fn consistent(self) -> bool {
        &&& books_keyed(self.books)
        &&& paths_unique(self.books)
        &&& annotations_belong(self.annotations, self.books)
        &&& positions_belong(self.positions, self.books)
    }
}

/// Each book stands under its own identifier.
pub open spec fn books_keyed(books: Map<Seq<char>, BookRecord>) -> bool {
    forall|id: Seq<char>| #[trigger] books.dom().contains(id) ==> books[id].id == id
}

/// No two books share a path.
pub open spec fn paths_unique(books: Map<Seq<char>, BookRecord>) -> bool {
    forall|x: Seq<char>, y: Seq<char>|
        #![trigger books.dom().contains(x), books.dom().contains(y)]
        books.dom().contains(x) && books.dom().contains(y) && books[x].file_path
            == books[y].file_path ==> x == y
}

/// Each annotation stands under its own identifier and belongs to a book.
pub open spec fn annotations_belong(
    annotations: Map<Seq<char>, AnnotationRecord>,
    books: Map<Seq<char>, BookRecord>,
) -> bool {
    forall|a: Seq<char>| #[trigger]
        annotations.dom().contains(a) ==> {
            &&& annotations[a].id == a
            &&& books.dom().contains(annotations[a].book_id)
        }
}

/// Each reading position stands under the identifier of its book, which is
/// a book of the store.
pub open spec fn positions_belong(
    positions: Map<Seq<char>, PositionRecord>,
    books: Map<Seq<char>, BookRecord>,
) -> bool {
    forall|b: Seq<char>| #[trigger]
        positions.dom().contains(b) ==> {
            &&& positions[b].book_id == b
            &&& books.dom().contains(b)
        }
}

/// `ids` names every key of `keys` once and nothing else.
pub open spec fn enumerates(ids: Seq<Seq<char>>, keys: Set<Seq<char>>) -> bool {
    &&& forall|i: int| 0 <= i < ids.len() ==> keys.contains(#[trigger] ids[i])
    &&& forall|i: int, j: int| 0 <= i < j < ids.len() ==> #[trigger] ids[i] != #[trigger] ids[j]
    &&& forall|k: Seq<char>| #[trigger]
        keys.contains(k) ==> exists|i: int| 0 <= i < ids.len() && #[trigger] ids[i] == k
}

/// `found` is the whole library: every book of the store once, each as it
/// is read back.
pub open spec fn lists_books(found: Seq<BookView>, t: Tables) -> bool {
    &&& enumerates(Seq::new(found.len(), |i: int| found[i].id), t.books.dom())
    &&& forall|i: int|
        0 <= i < found.len() ==> t.find_book(found[i].id) == Some(#[trigger] found[i])
}

/// Books that were added later come first.
pub open spec fn newest_first(found: Seq<BookView>) -> bool {
    forall|i: int, j: int|
        0 <= i < j < found.len() ==> #[trigger] found[i].added_at >= #[trigger] found[j].added_at
}

/// `found` holds the annotations of the book `book_id`: every one of them
/// once, each as it is read back.
pub open spec fn lists_annotations(
    found: Seq<AnnotationView>,
    t: Tables,
    book_id: Seq<char>,
) -> bool {
    &&& enumerates(Seq::new(found.len(), |i: int| found[i].id), t.annotations_of(book_id))
    &&& forall|i: int|
        0 <= i < found.len() ==> #[trigger] found[i] == decode_annotation(
            t.annotations[found[i].id],
        )
}

/// Annotations that start earlier come first.
pub open spec fn by_start(found: Seq<AnnotationView>) -> bool {
    forall|i: int, j: int|
        0 <= i < j < found.len() ==> #[trigger] found[i].start_percent
            <= #[trigger] found[j].start_percent
}

/// A book that the store takes is then in the library, once and as it was
/// given, and is read back unchanged under its identifier. In a store that
/// held nothing it is the whole library.
pub proof fn law_inserted_book_is_found(t: Tables, book: BookView, found: Seq<BookView>)
    requires
        t.accepts_book(encode_book(book)),
        lists_books(found, t.with_book(encode_book(book))),
    ensures
        t.with_book(encode_book(book)).find_book(book.id) == Some(book),
        exists|i: int|
            0 <= i < found.len() && found[i] == book && forall|j: int|
                0 <= j < found.len() && found[j].id == book.id ==> j == i,
        t == Tables::empty() ==> found == seq![book],
{
    law_book_round_trip(book);
    let ids = Seq::new(found.len(), |i: int| found[i].id);
    let i = choose|i: int| 0 <= i < ids.len() && ids[i] == book.id;
    assert forall|j: int| 0 <= j < found.len() && found[j].id == book.id implies j == i by {
        assert(ids[j] == found[j].id);
    }
    if t == Tables::empty() && found.len() > 1 {
        assert(found[0].id == book.id && found[1].id == book.id);
    }
}

/// A sequence that names every key of a set once is as long as the set is
/// large.
pub proof fn lemma_enumerates_counts(ids: Seq<Seq<char>>, keys: Set<Seq<char>>)
    requires
        enumerates(ids, keys),
    ensures
        keys.finite(),
        keys.len() == ids.len(),
{
    assert(ids.no_duplicates());
    ids.unique_seq_to_set();
    vstd::seq_lib::seq_to_set_is_finite(ids);
    assert(ids.to_set() =~= keys);
}

/// The library of a store that has taken a book is longer by one than it
/// was.
pub proof fn law_inserted_book_lengthens_listing(
    t: Tables,
    book: BookView,
    before: Seq<BookView>,
    found: Seq<BookView>,
)
    requires
        t.accepts_book(encode_book(book)),
        lists_books(before, t),
        lists_books(found, t.with_book(encode_book(book))),
    ensures
        found.len() == before.len() + 1,
{
    let u = t.with_book(encode_book(book));
    lemma_enumerates_counts(Seq::new(before.len(), |i: int| before[i].id), t.books.dom());
    lemma_enumerates_counts(Seq::new(found.len(), |i: int| found[i].id), u.books.dom());
    assert(u.books.dom() == t.books.dom().insert(book.id));
}

/// A store that has taken a book refuses every other book at the same
/// path.
pub proof fn law_duplicate_path_is_refused(t: Tables, first: BookRecord, second: BookRecord)
    requires
        second.file_path == first.file_path,
    ensures
        !t.with_book(first).accepts_book(second),
{
    let u = t.with_book(first);
    assert(u.has_book(first.id) && u.books[first.id].file_path == second.file_path);
}

/// Deleting a book leaves no book, no annotation and no reading position
/// under its identifier: the book is not found, its annotations are listed
/// as none, and its position is not found. What belongs to another book is
/// untouched.
pub proof fn law_delete_cascades(t: Tables, id: Seq<char>, found: Seq<AnnotationView>)
    requires
        t.has_book(id),
        lists_annotations(found, t.without_book(id), id),
    ensures
        t.without_book(id).find_book(id) is None,
        t.without_book(id).annotations_of(id) == Set::<Seq<char>>::empty(),
        found.len() == 0,
        t.without_book(id).find_position(id) is None,
        forall|other: Seq<char>|
            other != id ==> {
                &&& #[trigger] t.without_book(id).find_book(other) == t.find_book(other)
                &&& t.without_book(id).annotations_of(other) == t.annotations_of(other)
                &&& t.without_book(id).find_position(other) == t.find_position(other)
            },
{
    let u = t.without_book(id);
    if found.len() > 0 {
        let ids = Seq::new(found.len(), |i: int| found[i].id);
        assert(u.annotations_of(id).contains(ids[0]));
    }
    assert forall|other: Seq<char>| other != id implies u.annotations_of(other)
        =~= t.annotations_of(other) by {}
}

/// Of two reading positions saved for one book the second is kept, and it
/// is the only one: the store has a position for that book and for the
/// books that had one before, and no other.
pub proof fn law_last_position_wins(
    t: Tables,
    first: ReadingPositionView,
    second: ReadingPositionView,
)
    requires
        first.book_id == second.book_id,
    ensures
        t.with_position(encode_position(first)).with_position(encode_position(second))
            == t.with_position(encode_position(second)),
        t.with_position(encode_position(first)).with_position(
            encode_position(second),
        ).find_position(second.book_id) == Some(second),
        t.with_position(encode_position(first)).with_position(
            encode_position(second),
        ).positions.dom() == t.positions.dom().insert(second.book_id),
{
    law_position_round_trip(second);
    let one = t.with_position(encode_position(first));
    let two = one.with_position(encode_position(second));
    assert(two.positions =~= t.with_position(encode_position(second)).positions);
}

/// A store that holds nothing meets the invariants.
pub proof fn law_empty_is_consistent()
    ensures
        Tables::empty().consistent(),
{
}

/// Taking a book keeps the invariants.
pub proof fn law_with_book_keeps_consistent(t: Tables, row: BookRecord)
    requires
        t.consistent(),
        t.accepts_book(row),
    ensures
        t.with_book(row).consistent(),
{
    let u = t.with_book(row);
    assert forall|x: Seq<char>, y: Seq<char>|
        u.books.dom().contains(x) && u.books.dom().contains(y) && u.books[x].file_path
            == u.books[y].file_path implies x == y by {
        if x != y {
            if x == row.id {
                assert(t.has_book(y) && t.books[y].file_path == row.file_path);
            } else if y == row.id {
                assert(t.has_book(x) && t.books[x].file_path == row.file_path);
            }
        }
    }
}

/// Deleting a book keeps the invariants.
pub proof fn law_without_book_keeps_consistent(t: Tables, id: Seq<char>)
    requires
        t.consistent(),
    ensures
        t.without_book(id).consistent(),
{
}

/// Marking a book as read keeps the invariants.
pub proof fn law_with_last_read_keeps_consistent(t: Tables, id: Seq<char>, at: i64)
    requires
        t.consistent(),
    ensures
        t.with_last_read(id, at).consistent(),
{
}

/// Taking an annotation keeps the invariants.
pub proof fn law_with_annotation_keeps_consistent(t: Tables, row: AnnotationRecord)
    requires
        t.consistent(),
        t.accepts_annotation(row),
    ensures
        t.with_annotation(row).consistent(),
{
}

/// Deleting an annotation keeps the invariants.
pub proof fn law_without_annotation_keeps_consistent(t: Tables, id: Seq<char>)
    requires
        t.consistent(),
    ensures
        t.without_annotation(id).consistent(),
{
}

/// Saving a reading position keeps the invariants.
pub proof fn law_with_position_keeps_consistent(t: Tables, row: PositionRecord)
    requires
        t.consistent(),
        t.accepts_position(row),
    ensures
        t.with_position(row).consistent(),
{
}

} // verus!
