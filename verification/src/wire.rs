//! The wire format: commands arrive as JSON objects tagged by `action`,
//! payloads leave as JSON text.

use vstd::prelude::*;
use vstd::string::StringExecFns;
use crate::ident::{format_uuid, parse_uuid, uuid_parsed, uuid_text};
use crate::json::{json_member, json_parsed, json_quoted, json_text, json_texts, parse_json, quote_json, text_at};
use crate::message::{ApiResponse, ApiResponseView, BroadcastMessage, Command, CommandView, Payload, PayloadView};
use crate::record::{views, Book, BookView};

verus! {

/// Why a text frame is no command.
#[derive(Debug, Clone, Copy, PartialEq, Eq, Structural)]
pub enum DecodeError {
    /// The text is not one JSON document.
    NotJson,
    /// The `action` names no command.
    UnknownAction,
    /// A field that the command needs is absent or is no string.
    MissingField,
    /// The `id` spells no identifier.
    InvalidId,
}

/// The identifier that the text of an `id` field stands for.
pub open spec fn identifier_of(id: Option<Seq<char>>) -> Result<u128, DecodeError> {
    match id {
        None => Err(DecodeError::MissingField),
        Some(text) => match uuid_parsed(text) {
            Some(number) => Ok(number),
            None => Err(DecodeError::InvalidId),
        },
    }
}

/// The command that the fields of a frame make up: `action` selects it, and
/// each command asks for its own fields and ignores the others.
pub open spec fn command_of(
    action: Option<Seq<char>>,
    id: Result<u128, DecodeError>,
    title: Option<Seq<char>>,
    author: Option<Seq<char>>,
    year: Option<Seq<char>>,
) -> Result<CommandView, DecodeError> {
    match action {
        None => Err(DecodeError::MissingField),
        Some(name) => if name == "get_books"@ {
            Ok(CommandView::GetBooks)
        } else if name == "get_book"@ {
            match id {
                Ok(id) => Ok(CommandView::GetBook { id }),
                Err(e) => Err(e),
            }
        } else if name == "add_book"@ {
            match (title, author, year) {
                (Some(title), Some(author), Some(year)) => Ok(CommandView::AddBook { title, author, year }),
                _ => Err(DecodeError::MissingField),
            }
        } else if name == "update_book"@ {
            match (id, title, author, year) {
                (Ok(id), Some(title), Some(author), Some(year)) => Ok(
                    CommandView::UpdateBook { id, title, author, year },
                ),
                (Err(e), _, _, _) => Err(e),
                _ => Err(DecodeError::MissingField),
            }
        } else if name == "delete_book"@ {
            match id {
                Ok(id) => Ok(CommandView::DeleteBook { id }),
                Err(e) => Err(e),
            }
        } else {
            Err(DecodeError::UnknownAction)
        },
    }
}

/// The command that the text of a frame encodes: a JSON object with the
/// strings `action` and, as the command asks, `id` and the `title`, `author`
/// and `year` of the object `book`.
pub open spec fn decoded(text: Seq<char>) -> Result<CommandView, DecodeError> {
    match json_parsed(text) {
        None => Err(DecodeError::NotJson),
        Some(texts) => command_of(
            text_at(texts, seq!["action"@]),
            identifier_of(text_at(texts, seq!["id"@])),
            text_at(texts, seq!["book"@, "title"@]),
            text_at(texts, seq!["book"@, "author"@]),
            text_at(texts, seq!["book"@, "year"@]),
        ),
    }
}

/// Whether `found` is the outcome `expected` of decoding.
pub open spec fn decodes_to(found: Result<Command, DecodeError>, expected: Result<CommandView, DecodeError>) -> bool {
    match found {
        Ok(command) => expected == Ok::<CommandView, DecodeError>(command@),
        Err(e) => expected == Err::<CommandView, DecodeError>(e),
    }
}

/// The characters of a field of a frame, where the frame has the field.
pub open spec fn text_of(field: Option<String>) -> Option<Seq<char>> {
    match field {
        Some(text) => Some(text@),
        None => None,
    }
}

/// Whether `text` is the literal `literal`.
fn is_literal(text: &String, literal: &str) -> (same: bool)
    ensures
        same == (text@ == literal@),
{
    let other = literal.to_owned();
    *text == other
}

/// The payload of an add or an update. Its identifier is never read; it is
/// left at zero.
fn submitted(title: String, author: String, year: String) -> (book: Book)
    ensures
        book.id == 0,
        book.title == title,
        book.author == author,
        book.year == year,
{
    Book { id: 0, title, author, year }
}

/// Makes up the command from the fields of a frame.
pub fn command_from(
    action: Option<String>,
    id: Result<u128, DecodeError>,
    title: Option<String>,
    author: Option<String>,
    year: Option<String>,
) -> (res: Result<Command, DecodeError>)
    ensures
        decodes_to(res, command_of(text_of(action), id, text_of(title), text_of(author), text_of(year))),
        res matches Ok(Command::AddBook { book }) ==> book.id == 0,
        res matches Ok(Command::UpdateBook { book, .. }) ==> book.id == 0,
{
    let name = match action {
        Some(name) => name,
        None => {
            return Err(DecodeError::MissingField);
        },
    };
    if is_literal(&name, "get_books") {
        Ok(Command::GetBooks)
    } else if is_literal(&name, "get_book") {
        match id {
            Ok(id) => Ok(Command::GetBook { id }),
            Err(e) => Err(e),
        }
    } else if is_literal(&name, "add_book") {
        match (title, author, year) {
            (Some(title), Some(author), Some(year)) => Ok(Command::AddBook { book: submitted(title, author, year) }),
            _ => Err(DecodeError::MissingField),
        }
    } else if is_literal(&name, "update_book") {
        match (id, title, author, year) {
            (Ok(id), Some(title), Some(author), Some(year)) => Ok(
                Command::UpdateBook { id, book: submitted(title, author, year) },
            ),
            (Err(e), _, _, _) => Err(e),
            _ => Err(DecodeError::MissingField),
        }
    } else if is_literal(&name, "delete_book") {
        match id {
            Ok(id) => Ok(Command::DeleteBook { id }),
            Err(e) => Err(e),
        }
    } else {
        Err(DecodeError::UnknownAction)
    }
}

/// The identifier that the text of an `id` field stands for.
pub fn identifier(id: Option<String>) -> (res: Result<u128, DecodeError>)
    ensures
        res == identifier_of(text_of(id)),
{
    match id {
        None => Err(DecodeError::MissingField),
        Some(text) => match parse_uuid(text.as_str()) {
            Some(number) => Ok(number),
            None => Err(DecodeError::InvalidId),
        },
    }
}

/// The string member `key` of the object `value`.
fn string_member(value: &serde_json::Value, key: &str) -> (res: Option<String>)
    ensures
        match res {
            Some(text) => text_at(json_texts(*value), seq![key@]) == Some(text@),
            None => text_at(json_texts(*value), seq![key@]) is None,
        },
{
    assert(seq![key@] + Seq::<Seq<char>>::empty() =~= seq![key@]);
    match json_member(value, key) {
        Some(member) => {
            assert(text_at(json_texts(*member), Seq::empty()) == text_at(
                json_texts(*value),
                seq![key@] + Seq::<Seq<char>>::empty(),
            ));
            json_text(member)
        },
        None => {
            assert(text_at(json_texts(*value), seq![key@] + Seq::<Seq<char>>::empty()) is None);
            None
        },
    }
}

/// The string member `key` of the object member `outer` of `value`.
fn nested_member(value: &serde_json::Value, outer: &str, key: &str) -> (res: Option<String>)
    ensures
        match res {
            Some(text) => text_at(json_texts(*value), seq![outer@, key@]) == Some(text@),
            None => text_at(json_texts(*value), seq![outer@, key@]) is None,
        },
{
    assert(seq![outer@] + seq![key@] =~= seq![outer@, key@]);
    match json_member(value, outer) {
        Some(member) => {
            assert(text_at(json_texts(*member), seq![key@]) == text_at(
                json_texts(*value),
                seq![outer@] + seq![key@],
            ));
            string_member(member, key)
        },
        None => {
            assert(text_at(json_texts(*value), seq![outer@] + seq![key@]) is None);
            None
        },
    }
}

/// Decodes the text of one frame.
///
/// The frame is a JSON object. Its string `action` names the command:
/// `get_books`, `get_book`, `add_book`, `update_book` or `delete_book`.
/// `get_book`, `update_book` and `delete_book` need the string `id`,
/// `add_book` and `update_book` the strings `title`, `author` and `year` of
/// the object `book`. Whatever else the object holds is ignored.
pub fn decode(text: &str) -> (res: Result<Command, DecodeError>)
    ensures
        decodes_to(res, decoded(text@)),
        res matches Ok(Command::AddBook { book }) ==> book.id == 0,
        res matches Ok(Command::UpdateBook { book, .. }) ==> book.id == 0,
{
    let value = match parse_json(text) {
        Ok(value) => value,
        Err(_) => {
            return Err(DecodeError::NotJson);
        },
    };
    let action = string_member(&value, "action");
    let id = identifier(string_member(&value, "id"));
    let title = nested_member(&value, "book", "title");
    let author = nested_member(&value, "book", "author");
    let year = nested_member(&value, "book", "year");
    command_from(action, id, title, author, year)
}

/// The decimal digit `d`.
pub open spec fn digit_text(d: nat) -> Seq<char> {
    if d == 0 {
        "0"@
    } else if d == 1 {
        "1"@
    } else if d == 2 {
        "2"@
    } else if d == 3 {
        "3"@
    } else if d == 4 {
        "4"@
    } else if d == 5 {
        "5"@
    } else if d == 6 {
        "6"@
    } else if d == 7 {
        "7"@
    } else if d == 8 {
        "8"@
    } else {
        "9"@
    }
}

/// The decimal spelling of `n`, without leading zeros.
pub open spec fn decimal(n: nat) -> Seq<char>
    decreases n,
{
    if n < 10 {
        digit_text(n)
    } else {
        decimal(n / 10) + digit_text(n % 10)
    }
}

/// The JSON object of one record.
pub open spec fn book_json(book: BookView) -> Seq<char> {
    "{\"id\":"@ + json_quoted(uuid_text(book.id)) + ",\"title\":"@ + json_quoted(book.title)
        + ",\"author\":"@ + json_quoted(book.author) + ",\"year\":"@ + json_quoted(book.year) + "}"@
}

/// The JSON objects of the records, separated by commas.
pub open spec fn books_json(records: Seq<BookView>) -> Seq<char>
    decreases records.len(),
{
    if records.len() == 0 {
        Seq::empty()
    } else if records.len() == 1 {
        book_json(records[0])
    } else {
        books_json(records.drop_last()) + ","@ + book_json(records.last())
    }
}

/// The JSON object of a status envelope.
pub open spec fn response_json(response: ApiResponseView) -> Seq<char> {
    "{\"status\":"@ + decimal(response.status as nat) + ",\"message\":"@ + json_quoted(response.message)
        + "}"@
}

/// The JSON text of a payload: an array of records, one record, or an
/// envelope.
pub open spec fn payload_json(payload: PayloadView) -> Seq<char> {
    match payload {
        PayloadView::Collection(records) => "["@ + books_json(records) + "]"@,
        PayloadView::Record(book) => book_json(book),
        PayloadView::Status(response) => response_json(response),
    }
}

/// The decimal digit `d`.
fn digit(d: u16) -> (text: &'static str)
    requires
        d < 10,
    ensures
        text@ == digit_text(d as nat),
{
    if d == 0 {
        "0"
    } else if d == 1 {
        "1"
    } else if d == 2 {
        "2"
    } else if d == 3 {
        "3"
    } else if d == 4 {
        "4"
    } else if d == 5 {
        "5"
    } else if d == 6 {
        "6"
    } else if d == 7 {
        "7"
    } else if d == 8 {
        "8"
    } else {
        "9"
    }
}

/// Spells `n` in decimal.
pub fn decimal_text(n: u16) -> (text: String)
    ensures
        text@ == decimal(n as nat),
    decreases n,
{
    if n < 10 {
        digit(n).to_owned()
    } else {
        let mut text = decimal_text(n / 10);
        text.append(digit(n % 10));
        text
    }
}

/// Writes one record as a JSON object.
pub fn encode_book(book: &Book) -> (text: String)
    ensures
        text@ == book_json(book@),
{
    let mut text = "{\"id\":".to_owned();
    text.append(quote_json(format_uuid(book.id).as_str()).as_str());
    text.append(",\"title\":");
    text.append(quote_json(book.title.as_str()).as_str());
    text.append(",\"author\":");
    text.append(quote_json(book.author.as_str()).as_str());
    text.append(",\"year\":");
    text.append(quote_json(book.year.as_str()).as_str());
    text.append("}");
    text
}

/// Writes a status envelope as a JSON object.
pub fn encode_response(response: &ApiResponse) -> (text: String)
    ensures
        text@ == response_json(response@),
{
    let mut text = "{\"status\":".to_owned();
    text.append(decimal_text(response.status).as_str());
    text.append(",\"message\":");
    text.append(quote_json(response.message.as_str()).as_str());
    text.append("}");
    text
}

/// Writes a list of records as a JSON array.
pub fn encode_books(books: &Vec<Book>) -> (text: String)
    ensures
        text@ == "["@ + books_json(views(books@)) + "]"@,
{
    let mut text = "[".to_owned();
    let mut i: usize = 0;
    while i < books.len()
        invariant
            i <= books.len(),
            text@ == "["@ + books_json(views(books@).take(i as int)),
        decreases books.len() - i,
    {
        let ghost done = views(books@).take(i as int);
        let ghost next = views(books@).take(i + 1);
        assert(next.drop_last() =~= done);
        assert(next.last() == books@[i as int]@);
        if i > 0 {
            text.append(",");
        }
        text.append(encode_book(&books[i]).as_str());
        assert(text@ =~= "["@ + books_json(next));
        i += 1;
    }
    assert(views(books@).take(i as int) =~= views(books@));
    text.append("]");
    text
}

/// Writes a payload as the text of a frame.
pub fn encode(payload: &Payload) -> (text: String)
    ensures
        text@ == payload_json(payload@),
{
    match payload {
        Payload::Collection(books) => encode_books(books),
        Payload::Record(book) => encode_book(book),
        Payload::Status(response) => encode_response(response),
    }
}

/// The text frame that carries `payload`.
pub fn message_for(payload: &Payload) -> (message: BroadcastMessage)
    ensures
        message.0@ == payload_json(payload@),
{
    BroadcastMessage(encode(payload))
}

} // verus!
