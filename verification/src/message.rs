//! What travels between sessions and the catalog: commands on the way in,
//! payloads on the way out.

use vstd::prelude::*;
use crate::record::{clone_books, views, Book, BookView};

verus! {

/// Status of the envelope that acknowledges a created record.
pub const STATUS_CREATED: u16 = 201;

/// Status of the envelope that acknowledges an update or a delete.
pub const STATUS_DONE: u16 = 200;

/// Status of the envelope that reports an absent identifier.
pub const STATUS_NOT_FOUND: u16 = 204;

/// Status of the envelope that reports a command that could not be decoded.
pub const STATUS_MALFORMED: u16 = 405;

/// A text frame on its way to one session.
#[derive(Debug, PartialEq, Eq)]
pub struct BroadcastMessage(pub String);

/// The status envelope: a numeric status and a message for people.
#[derive(Debug, PartialEq, Eq)]
pub struct ApiResponse {
    pub status: u16,
    pub message: String,
}

/// The model of an [`ApiResponse`].
pub struct ApiResponseView {
    pub status: u16,
    pub message: Seq<char>,
}

impl View for ApiResponse {
    type V = ApiResponseView;

    open spec fn view(&self) -> ApiResponseView {
        ApiResponseView { status: self.status, message: self.message@ }
    }
}

impl Clone for ApiResponse {
    fn clone(&self) -> (res: Self)
        ensures
            res@ == self@,
    {
        ApiResponse { status: self.status, message: self.message.clone() }
    }
}

/// The envelope for a record that was added.
pub open spec fn created_view() -> ApiResponseView {
    ApiResponseView { status: STATUS_CREATED, message: "The book was added successfully"@ }
}

/// The envelope for a record that was updated.
pub open spec fn updated_view() -> ApiResponseView {
    ApiResponseView { status: STATUS_DONE, message: "The book was updated"@ }
}

/// The envelope for a record that was deleted.
pub open spec fn deleted_view() -> ApiResponseView {
    ApiResponseView { status: STATUS_DONE, message: "The book was successfully deleted"@ }
}

/// The envelope for an identifier that no record has.
pub open spec fn not_found_view() -> ApiResponseView {
    ApiResponseView { status: STATUS_NOT_FOUND, message: "The book was not found"@ }
}

/// The envelope for a command that could not be decoded.
pub open spec fn malformed_view() -> ApiResponseView {
    ApiResponseView { status: STATUS_MALFORMED, message: "Incorrect Request"@ }
}

impl ApiResponse {
    /// The envelope for a record that was added.
    pub fn created() -> (res: Self)
        ensures
            res@ == created_view(),
    {
        ApiResponse { status: STATUS_CREATED, message: "The book was added successfully".to_owned() }
    }

    /// The envelope for a record that was updated.
    pub fn updated() -> (res: Self)
        ensures
            res@ == updated_view(),
    {
        ApiResponse { status: STATUS_DONE, message: "The book was updated".to_owned() }
    }

    /// The envelope for a record that was deleted.
    pub fn deleted() -> (res: Self)
        ensures
            res@ == deleted_view(),
    {
        ApiResponse { status: STATUS_DONE, message: "The book was successfully deleted".to_owned() }
    }

    /// The envelope for an identifier that no record has.
    pub fn not_found() -> (res: Self)
        ensures
            res@ == not_found_view(),
    {
        ApiResponse { status: STATUS_NOT_FOUND, message: "The book was not found".to_owned() }
    }

    /// The envelope for a command that could not be decoded.
    pub fn malformed() -> (res: Self)
        ensures
            res@ == malformed_view(),
    {
        ApiResponse { status: STATUS_MALFORMED, message: "Incorrect Request".to_owned() }
    }
}

/// A request decoded from one text frame.
///
/// The `book` of an add or an update carries the three submitted fields; its
/// identifier is whatever the decoder left there and is never read.
#[derive(Debug, PartialEq, Eq)]
pub enum Command {
    GetBooks,
    GetBook { id: u128 },
    AddBook { book: Book },
    UpdateBook { id: u128, book: Book },
    DeleteBook { id: u128 },
}

/// The model of a [`Command`]: what the catalog reads of it.
pub enum CommandView {
    GetBooks,
    GetBook { id: u128 },
    AddBook { title: Seq<char>, author: Seq<char>, year: Seq<char> },
    UpdateBook { id: u128, title: Seq<char>, author: Seq<char>, year: Seq<char> },
    DeleteBook { id: u128 },
}

impl View for Command {
    type V = CommandView;

    open spec fn view(&self) -> CommandView {
        match *self {
            Command::GetBooks => CommandView::GetBooks,
            Command::GetBook { id } => CommandView::GetBook { id },
            Command::AddBook { book } => CommandView::AddBook {
                title: book.title@,
                author: book.author@,
                year: book.year@,
            },
            Command::UpdateBook { id, book } => CommandView::UpdateBook {
                id,
                title: book.title@,
                author: book.author@,
                year: book.year@,
            },
            Command::DeleteBook { id } => CommandView::DeleteBook { id },
        }
    }
}

/// What one outbound frame carries, before it is encoded.
#[derive(Debug, PartialEq, Eq)]
pub enum Payload {
    /// The whole collection, in insertion order.
    Collection(Vec<Book>),
    /// One record.
    Record(Book),
    /// A status envelope.
    Status(ApiResponse),
}

/// The model of a [`Payload`].
pub enum PayloadView {
    Collection(Seq<BookView>),
    Record(BookView),
    Status(ApiResponseView),
}

impl View for Payload {
    type V = PayloadView;

    open spec fn view(&self) -> PayloadView {
        match *self {
            Payload::Collection(books) => PayloadView::Collection(views(books@)),
            Payload::Record(book) => PayloadView::Record(book@),
            Payload::Status(response) => PayloadView::Status(response@),
        }
    }
}

impl Clone for Payload {
    fn clone(&self) -> (res: Self)
        ensures
            res@ == self@,
    {
        match self {
            Payload::Collection(books) => Payload::Collection(clone_books(books)),
            Payload::Record(book) => Payload::Record(book.clone()),
            Payload::Status(response) => Payload::Status(response.clone()),
        }
    }
}

/// One payload addressed to one session.
#[derive(Debug, PartialEq, Eq)]
pub struct Outbound {
    pub to: u64,
    pub payload: Payload,
}

/// The model of an [`Outbound`].
pub struct OutboundView {
    pub to: u64,
    pub payload: PayloadView,
}

impl View for Outbound {
    type V = OutboundView;

    open spec fn view(&self) -> OutboundView {
        OutboundView { to: self.to, payload: self.payload@ }
    }
}

/// The models of a list of outbound payloads, in order.
pub open spec fn outbound_views(items: Seq<Outbound>) -> Seq<OutboundView> {
    Seq::new(items.len(), |i: int| items[i]@)
}

} // verus!
