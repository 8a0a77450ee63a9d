//! One catalog entry and its mathematical model.

use vstd::prelude::*;

verus! {

/// One catalog entry. The identifier is assigned by the catalog when the
/// record is created and never changes afterwards.
#[derive(Debug, PartialEq, Eq)]
pub struct Book {
    pub id: u128,
    pub title: String,
    pub author: String,
    pub year: String,
}

/// The model of a [`Book`]: its identifier and the characters of its fields.
pub struct BookView {
    pub id: u128,
    pub title: Seq<char>,
    pub author: Seq<char>,
    pub year: Seq<char>,
}

impl View for Book {
    type V = BookView;

    open spec fn view(&self) -> BookView {
        BookView { id: self.id, title: self.title@, author: self.author@, year: self.year@ }
    }
}

impl Clone for Book {
    fn clone(&self) -> (res: Self)
        ensures
            res@ == self@,
    {
        Book {
            id: self.id,
            title: self.title.clone(),
            author: self.author.clone(),
            year: self.year.clone(),
        }
    }
}

/// The models of a sequence of books, in order.
pub open spec fn views(books: Seq<Book>) -> Seq<BookView> {
    Seq::new(books.len(), |i: int| books[i]@)
}

/// The identifiers of a sequence of records, in order.
pub open spec fn ids(records: Seq<BookView>) -> Seq<u128> {
    Seq::new(records.len(), |i: int| records[i].id)
}

/// Copies a list of books, field for field.
pub fn clone_books(books: &Vec<Book>) -> (res: Vec<Book>)
    ensures
        views(res@) == views(books@),
{
    let mut res: Vec<Book> = Vec::new();
    let mut i: usize = 0;
    while i < books.len()
        invariant
            i <= books.len(),
            res.len() == i,
            forall|k: int| 0 <= k < i ==> res@[k]@ == books@[k]@,
        decreases books.len() - i,
    {
        res.push(books[i].clone());
        i += 1;
    }
    assert(views(res@) =~= views(books@));
    res
}

} // verus!
