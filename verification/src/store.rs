//! The record store: the one owner of the collection and of every rule that
//! changes it.

use vstd::prelude::*;
use crate::ident::{assigned_id, is_least_unused, lemma_least_unused_is, lemma_prefix_fits, random_id};
use crate::record::{clone_books, ids, views, Book, BookView};

verus! {

/// The index of the record with identifier `id`, if there is one.
pub open spec fn position(records: Seq<BookView>, id: u128) -> Option<int> {
    ids(records).index_of_first(id)
}

/// Whether no identifier occurs twice in `records`.
pub open spec fn unique_ids(records: Seq<BookView>) -> bool {
    ids(records).no_duplicates()
}

/// The record that an update or an add writes: the given identifier with the
/// three submitted fields.
pub open spec fn record_of(id: u128, title: Seq<char>, author: Seq<char>, year: Seq<char>) -> BookView {
    BookView { id, title, author, year }
}

/// The collection after an update of `id`: the matching record is replaced in
/// place, and a collection without a match stays as it is.
pub open spec fn updated(
    records: Seq<BookView>,
    id: u128,
    title: Seq<char>,
    author: Seq<char>,
    year: Seq<char>,
) -> Seq<BookView> {
    match position(records, id) {
        Some(i) => records.update(i, record_of(id, title, author, year)),
        None => records,
    }
}

/// The collection after a delete of `id`: the matching record is taken out,
/// and a collection without a match stays as it is.
pub open spec fn deleted(records: Seq<BookView>, id: u128) -> Seq<BookView> {
    match position(records, id) {
        Some(i) => records.remove(i),
        None => records,
    }
}

/// `position` finds exactly the first index that holds `id`.
pub proof fn lemma_position(records: Seq<BookView>, id: u128)
    ensures
        match position(records, id) {
            Some(i) => {
                &&& 0 <= i < records.len()
                &&& records[i].id == id
                &&& forall|j: int| 0 <= j < i ==> records[j].id != id
            },
            None => forall|j: int| 0 <= j < records.len() ==> records[j].id != id,
        },
{
    let keys = ids(records);
    keys.index_of_first_ensures(id);
    match keys.index_of_first(id) {
        Some(i) => {
            assert forall|j: int| 0 <= j < i implies records[j].id != id by {
                assert(keys[j] != id);
            }
        },
        None => {
            assert forall|j: int| 0 <= j < records.len() implies records[j].id != id by {
                assert(keys[j] == records[j].id);
            }
        },
    }
}

/// An index that holds `id` with no earlier match is the position of `id`.
pub proof fn lemma_position_is(records: Seq<BookView>, id: u128, i: int)
    requires
        0 <= i < records.len(),
        records[i].id == id,
        forall|j: int| 0 <= j < i ==> records[j].id != id,
    ensures
        position(records, id) == Some(i),
{
    lemma_position(records, id);
    assert(ids(records)[i] == id);
}

/// A collection in which no index holds `id` has no position for it.
pub proof fn lemma_position_none(records: Seq<BookView>, id: u128)
    requires
        forall|j: int| 0 <= j < records.len() ==> records[j].id != id,
    ensures
        position(records, id) is None,
{
    lemma_position(records, id);
}

/// The collection of records, in insertion order, with distinct identifiers.
pub struct RecordStore {
    books: Vec<Book>,
}

impl View for RecordStore {
    type V = Seq<BookView>;

    closed spec fn view(&self) -> Seq<BookView> {
        views(self.books@)
    }
}

impl RecordStore {
    /// The invariant of the store: no identifier occurs twice.
    pub open spec fn wf(&self) -> bool {
        unique_ids(self@)
    }

    /// An empty store.
    pub fn new() -> (store: Self)
        ensures
            store@ == Seq::<BookView>::empty(),
            store.wf(),
    {
        let store = RecordStore { books: Vec::new() };
        assert(store@ =~= Seq::<BookView>::empty());
        store
    }

    /// The number of records.
    pub fn len(&self) -> (n: usize)
        ensures
            n == self@.len(),
    {
        self.books.len()
    }

    /// A snapshot of the collection in insertion order.
    pub fn list(&self) -> (books: Vec<Book>)
        ensures
            views(books@) == self@,
    {
        clone_books(&self.books)
    }

    /// The index of the record with identifier `id`.
    fn find(&self, id: u128) -> (at: Option<usize>)
        ensures
            match at {
                Some(i) => position(self@, id) == Some(i as int) && i < self@.len(),
                None => position(self@, id) is None,
            },
    {
        let mut i: usize = 0;
        while i < self.books.len()
            invariant
                i <= self.books.len(),
                forall|j: int| 0 <= j < i ==> self@[j].id != id,
            decreases self.books.len() - i,
        {
            if self.books[i].id == id {
                proof {
                    lemma_position_is(self@, id, i as int);
                }
                return Some(i);
            }
            i += 1;
        }
        proof {
            lemma_position_none(self@, id);
        }
        None
    }

    /// The record with identifier `id`, or `None` where the collection holds
    /// no such record.
    pub fn get(&self, id: u128) -> (found: Option<Book>)
        ensures
            match position(self@, id) {
                Some(i) => found matches Some(book) && book@ == self@[i],
                None => found is None,
            },
    {
        match self.find(id) {
            Some(i) => Some(self.books[i].clone()),
            None => None,
        }
    }

    /// Whether a record with identifier `id` is in the collection.
    pub fn contains(&self, id: u128) -> (found: bool)
        ensures
            found == ids(self@).contains(id),
    {
        proof {
            lemma_position(self@, id);
            ids(self@).index_of_first_ensures(id);
        }
        self.find(id).is_some()
    }

    /// The least identifier that no record of the collection has.
    fn least_unused(&self) -> (id: u128)
        ensures
            is_least_unused(ids(self@), id),
    {
        let count: usize = self.books.len();
        let mut id: u128 = 0;
        while self.contains(id)
            invariant
                count == ids(self@).len(),
                forall|k: u128| k < id ==> ids(self@).contains(k),
            decreases self@.len() - id,
        {
            proof {
                lemma_prefix_fits(ids(self@), id);
                let next: u128 = (id + 1) as u128;
                assert forall|k: u128| k < next implies ids(self@).contains(k) by {}
                lemma_prefix_fits(ids(self@), next);
            }
            id += 1;
        }
        id
    }

    /// Appends a record for which `candidate` was drawn as its identifier.
    ///
    /// The record gets `candidate` unless a record of the collection has it
    /// already; then it gets the least identifier that is free.
    pub fn add_with_id(&mut self, candidate: u128, title: String, author: String, year: String) -> (book: Book)
        requires
            old(self).wf(),
        ensures
            final(self).wf(),
            book.id == assigned_id(ids(old(self)@), candidate),
            !ids(old(self)@).contains(book.id),
            book@ == record_of(book.id, title@, author@, year@),
            final(self)@ == old(self)@.push(book@),
    {
        let id: u128 = if self.contains(candidate) {
            let free = self.least_unused();
            proof {
                lemma_least_unused_is(ids(self@), free);
            }
            free
        } else {
            candidate
        };
        let book = Book { id, title, author, year };
        let copy = book.clone();
        self.books.push(book);
        proof {
            let before = old(self)@;
            let after = self@;
            assert(after =~= before.push(copy@));
            assert(ids(after) =~= ids(before).push(id));
            assert forall|i: int, j: int|
                0 <= i < ids(after).len() && 0 <= j < ids(after).len() && i != j implies ids(after)[i]
                != ids(after)[j] by {
                if i < before.len() && j < before.len() {
                    assert(ids(before)[i] != ids(before)[j]);
                } else if i < before.len() {
                    assert(ids(before)[i] == ids(after)[i]);
                } else {
                    assert(ids(before)[j] == ids(after)[j]);
                }
            }
        }
        copy
    }

    /// Appends a new record with the three submitted fields under an
    /// identifier that no record of the collection has, and returns it.
    ///
    /// The identifier is drawn at random; see [`RecordStore::add_with_id`]
    /// for what the record gets for each value drawn.
    pub fn add(&mut self, title: String, author: String, year: String) -> (book: Book)
        requires
            old(self).wf(),
        ensures
            final(self).wf(),
            !ids(old(self)@).contains(book.id),
            book@ == record_of(book.id, title@, author@, year@),
            final(self)@ == old(self)@.push(book@),
    {
        let candidate = random_id();
        self.add_with_id(candidate, title, author, year)
    }

    /// Replaces the three fields of the record with identifier `id` in place
    /// and returns the record as it now is, or returns `None` and changes
    /// nothing where the collection holds no such record.
    pub fn update(&mut self, id: u128, title: String, author: String, year: String) -> (changed: Option<Book>)
        requires
            old(self).wf(),
        ensures
            final(self).wf(),
            final(self)@ == updated(old(self)@, id, title@, author@, year@),
            match position(old(self)@, id) {
                Some(i) => changed matches Some(book) && book@ == record_of(id, title@, author@, year@),
                None => changed is None,
            },
    {
        match self.find(id) {
            Some(i) => {
                let book = Book { id, title, author, year };
                let copy = book.clone();
                self.books.set(i, book);
                proof {
                    let before = old(self)@;
                    let after = self@;
                    lemma_position(before, id);
                    assert(after =~= before.update(i as int, copy@));
                    assert(ids(after) =~= ids(before));
                }
                Some(copy)
            },
            None => None,
        }
    }

    /// Removes the record with identifier `id` and says whether there was
    /// one; a collection without such a record stays as it is.
    pub fn delete(&mut self, id: u128) -> (removed: bool)
        requires
            old(self).wf(),
        ensures
            final(self).wf(),
            final(self)@ == deleted(old(self)@, id),
            removed == position(old(self)@, id).is_some(),
    {
        match self.find(id) {
            Some(i) => {
                self.books.remove(i);
                proof {
                    let before = old(self)@;
                    let after = self@;
                    assert(after =~= before.remove(i as int));
                    assert(ids(after) =~= ids(before).remove(i as int));
                    assert forall|a: int, b: int|
                        0 <= a < ids(after).len() && 0 <= b < ids(after).len() && a != b implies ids(
                        after,
                    )[a] != ids(after)[b] by {
                        let a0 = if a < i { a } else { a + 1 };
                        let b0 = if b < i { b } else { b + 1 };
                        assert(ids(before)[a0] != ids(before)[b0]);
                    }
                }
                true
            },
            None => false,
        }
    }
}

} // verus!
