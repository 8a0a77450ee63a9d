use book_catalog::message::{ApiResponse, BroadcastMessage, Command, Payload};
use book_catalog::record::Book;
use book_catalog::wire::{
    command_from, decimal_text, decode, encode, encode_book, encode_books, encode_response, identifier,
    message_for, DecodeError,
};

const ID_TEXT: &str = "67e55044-10b1-426f-9247-bb680e5fe0c8";
const ID: u128 = 0x67e5504410b1426f9247bb680e5fe0c8;

fn book(id: u128, title: &str, author: &str, year: &str) -> Book {
    Book { id, title: title.to_owned(), author: author.to_owned(), year: year.to_owned() }
}

fn some(text: &str) -> Option<String> {
    Some(text.to_owned())
}

#[test]
fn decode_get_books() {
    assert_eq!(decode("{\"action\":\"get_books\"}"), Ok(Command::GetBooks));
    assert_eq!(decode("  { \"action\" : \"get_books\" }\n"), Ok(Command::GetBooks));
}

#[test]
fn decode_get_book() {
    let text = format!("{{\"action\":\"get_book\",\"id\":\"{}\"}}", ID_TEXT);
    assert_eq!(decode(&text), Ok(Command::GetBook { id: ID }));
}

#[test]
fn decode_add_book() {
    let text = "{\"action\":\"add_book\",\"book\":{\"title\":\"Dune\",\"author\":\"Herbert\",\"year\":\"1965\"}}";
    assert_eq!(decode(text), Ok(Command::AddBook { book: book(0, "Dune", "Herbert", "1965") }));
}

#[test]
fn decode_update_book() {
    let text = format!(
        "{{\"action\":\"update_book\",\"id\":\"{}\",\"book\":{{\"title\":\"Dune\",\"author\":\"Herbert\",\"year\":\"1965\"}}}}",
        ID_TEXT
    );
    assert_eq!(decode(&text), Ok(Command::UpdateBook { id: ID, book: book(0, "Dune", "Herbert", "1965") }));
}

#[test]
fn decode_delete_book() {
    let text = format!("{{\"action\":\"delete_book\",\"id\":\"{}\"}}", ID_TEXT);
    assert_eq!(decode(&text), Ok(Command::DeleteBook { id: ID }));
}

#[test]
fn decode_never_reads_the_identifier_of_the_payload() {
    let text = format!(
        "{{\"action\":\"add_book\",\"book\":{{\"id\":\"{}\",\"title\":\"Dune\",\"author\":\"Herbert\",\"year\":\"1965\"}}}}",
        ID_TEXT
    );
    assert_eq!(decode(&text), Ok(Command::AddBook { book: book(0, "Dune", "Herbert", "1965") }));
}

#[test]
fn decode_ignores_what_a_command_does_not_need() {
    assert_eq!(decode("{\"action\":\"get_books\",\"id\":\"nope\",\"extra\":[1,2,{\"a\":null}]}"), Ok(Command::GetBooks));
    let text = format!("{{\"id\":\"{}\",\"book\":7,\"action\":\"delete_book\"}}", ID_TEXT);
    assert_eq!(decode(&text), Ok(Command::DeleteBook { id: ID }));
}

#[test]
fn decode_unescapes_strings() {
    let text = "{\"action\":\"add_book\",\"book\":{\"title\":\"a\\\"b\\\\c\\n\\u00e9\",\"author\":\"\",\"year\":\"\\t\"}}";
    assert_eq!(decode(text), Ok(Command::AddBook { book: book(0, "a\"b\\c\n\u{e9}", "", "\t") }));
}

#[test]
fn decode_accepts_the_other_spellings_of_an_identifier() {
    for spelling in [
        "67e5504410b1426f9247bb680e5fe0c8",
        "67E55044-10B1-426F-9247-BB680E5FE0C8",
        "urn:uuid:67e55044-10b1-426f-9247-bb680e5fe0c8",
        "{67e55044-10b1-426f-9247-bb680e5fe0c8}",
    ] {
        let text = format!("{{\"action\":\"get_book\",\"id\":\"{}\"}}", spelling);
        assert_eq!(decode(&text), Ok(Command::GetBook { id: ID }));
    }
}

#[test]
fn decode_rejects_what_is_not_json() {
    assert_eq!(decode(""), Err(DecodeError::NotJson));
    assert_eq!(decode("{\"action\":"), Err(DecodeError::NotJson));
    assert_eq!(decode("{\"action\":\"get_books\"} trailing"), Err(DecodeError::NotJson));
    assert_eq!(decode("{'action':'get_books'}"), Err(DecodeError::NotJson));
}

#[test]
fn decode_rejects_an_unknown_action() {
    assert_eq!(decode("{\"action\":\"unknown\"}"), Err(DecodeError::UnknownAction));
    assert_eq!(decode("{\"action\":\"GetBooks\"}"), Err(DecodeError::UnknownAction));
    assert_eq!(decode("{\"action\":\"get_books \"}"), Err(DecodeError::UnknownAction));
    assert_eq!(decode("{\"action\":\"\"}"), Err(DecodeError::UnknownAction));
}

#[test]
fn decode_rejects_a_missing_field() {
    assert_eq!(decode("{}"), Err(DecodeError::MissingField));
    assert_eq!(decode("[]"), Err(DecodeError::MissingField));
    assert_eq!(decode("\"get_books\""), Err(DecodeError::MissingField));
    assert_eq!(decode("{\"action\":7}"), Err(DecodeError::MissingField));
    assert_eq!(decode("{\"action\":\"get_book\"}"), Err(DecodeError::MissingField));
    assert_eq!(decode("{\"action\":\"delete_book\",\"id\":12}"), Err(DecodeError::MissingField));
    assert_eq!(decode("{\"action\":\"add_book\"}"), Err(DecodeError::MissingField));
    assert_eq!(decode("{\"action\":\"add_book\",\"book\":\"Dune\"}"), Err(DecodeError::MissingField));
    assert_eq!(
        decode("{\"action\":\"add_book\",\"book\":{\"title\":\"Dune\",\"author\":\"Herbert\"}}"),
        Err(DecodeError::MissingField)
    );
    assert_eq!(
        decode("{\"action\":\"add_book\",\"book\":{\"title\":\"Dune\",\"author\":\"Herbert\",\"year\":1965}}"),
        Err(DecodeError::MissingField)
    );
    assert_eq!(
        decode("{\"action\":\"add_book\",\"title\":\"Dune\",\"author\":\"Herbert\",\"year\":\"1965\"}"),
        Err(DecodeError::MissingField)
    );
    let text = format!("{{\"action\":\"update_book\",\"id\":\"{}\"}}", ID_TEXT);
    assert_eq!(decode(&text), Err(DecodeError::MissingField));
    assert_eq!(
        decode("{\"action\":\"update_book\",\"book\":{\"title\":\"Dune\",\"author\":\"Herbert\",\"year\":\"1965\"}}"),
        Err(DecodeError::MissingField)
    );
}

#[test]
fn decode_rejects_an_identifier_that_is_none() {
    assert_eq!(decode("{\"action\":\"get_book\",\"id\":\"nope\"}"), Err(DecodeError::InvalidId));
    assert_eq!(decode("{\"action\":\"delete_book\",\"id\":\"\"}"), Err(DecodeError::InvalidId));
    assert_eq!(
        decode("{\"action\":\"get_book\",\"id\":\"67e55044-10b1-426f-9247-bb680e5fe0c\"}"),
        Err(DecodeError::InvalidId)
    );
    assert_eq!(
        decode("{\"action\":\"update_book\",\"id\":\"zz\",\"book\":{\"title\":\"a\",\"author\":\"b\",\"year\":\"c\"}}"),
        Err(DecodeError::InvalidId)
    );
}

#[test]
fn identifier_reads_the_text_of_an_id() {
    assert_eq!(identifier(some(ID_TEXT)), Ok(ID));
    assert_eq!(identifier(some("00000000-0000-0000-0000-000000000000")), Ok(0));
    assert_eq!(identifier(some("ffffffff-ffff-ffff-ffff-ffffffffffff")), Ok(u128::MAX));
    assert_eq!(identifier(None), Err(DecodeError::MissingField));
    assert_eq!(identifier(some("12")), Err(DecodeError::InvalidId));
}

#[test]
fn command_from_selects_by_action() {
    assert_eq!(command_from(some("get_books"), Err(DecodeError::MissingField), None, None, None), Ok(Command::GetBooks));
    assert_eq!(command_from(some("get_book"), Ok(5), None, None, None), Ok(Command::GetBook { id: 5 }));
    assert_eq!(command_from(some("delete_book"), Ok(5), some("t"), None, None), Ok(Command::DeleteBook { id: 5 }));
    assert_eq!(
        command_from(some("add_book"), Err(DecodeError::InvalidId), some("t"), some("a"), some("y")),
        Ok(Command::AddBook { book: book(0, "t", "a", "y") })
    );
    assert_eq!(
        command_from(some("update_book"), Ok(5), some("t"), some("a"), some("y")),
        Ok(Command::UpdateBook { id: 5, book: book(0, "t", "a", "y") })
    );
    assert_eq!(command_from(None, Ok(5), some("t"), some("a"), some("y")), Err(DecodeError::MissingField));
    assert_eq!(command_from(some("list"), Ok(5), some("t"), some("a"), some("y")), Err(DecodeError::UnknownAction));
    assert_eq!(
        command_from(some("get_book"), Err(DecodeError::InvalidId), None, None, None),
        Err(DecodeError::InvalidId)
    );
    assert_eq!(
        command_from(some("update_book"), Err(DecodeError::InvalidId), None, None, None),
        Err(DecodeError::InvalidId)
    );
    assert_eq!(command_from(some("update_book"), Ok(5), some("t"), None, some("y")), Err(DecodeError::MissingField));
    assert_eq!(command_from(some("add_book"), Ok(5), None, some("a"), some("y")), Err(DecodeError::MissingField));
}

#[test]
fn decimal_text_spells_numbers() {
    assert_eq!(decimal_text(0), "0");
    assert_eq!(decimal_text(7), "7");
    assert_eq!(decimal_text(9), "9");
    assert_eq!(decimal_text(10), "10");
    assert_eq!(decimal_text(204), "204");
    assert_eq!(decimal_text(405), "405");
    assert_eq!(decimal_text(1000), "1000");
    assert_eq!(decimal_text(65535), "65535");
    for n in 0..=u16::MAX {
        assert_eq!(decimal_text(n), n.to_string());
    }
}

#[test]
fn encode_book_writes_the_four_fields_in_order() {
    assert_eq!(
        encode_book(&book(ID, "Dune", "Herbert", "1965")),
        "{\"id\":\"67e55044-10b1-426f-9247-bb680e5fe0c8\",\"title\":\"Dune\",\"author\":\"Herbert\",\"year\":\"1965\"}"
    );
    assert_eq!(
        encode_book(&book(0, "", "", "")),
        "{\"id\":\"00000000-0000-0000-0000-000000000000\",\"title\":\"\",\"author\":\"\",\"year\":\"\"}"
    );
}

#[test]
fn encode_escapes_strings() {
    assert_eq!(
        encode_book(&book(1, "a\"b", "c\\d", "\n\t\u{1}\u{e9}")),
        "{\"id\":\"00000000-0000-0000-0000-000000000001\",\"title\":\"a\\\"b\",\"author\":\"c\\\\d\",\"year\":\"\\n\\t\\u0001\u{e9}\"}"
    );
}

#[test]
fn encode_books_writes_an_array() {
    assert_eq!(encode_books(&Vec::new()), "[]");
    assert_eq!(
        encode_books(&vec![book(1, "a", "b", "c")]),
        "[{\"id\":\"00000000-0000-0000-0000-000000000001\",\"title\":\"a\",\"author\":\"b\",\"year\":\"c\"}]"
    );
    assert_eq!(
        encode_books(&vec![book(1, "a", "b", "c"), book(2, "d", "e", "f"), book(3, "g", "h", "i")]),
        "[{\"id\":\"00000000-0000-0000-0000-000000000001\",\"title\":\"a\",\"author\":\"b\",\"year\":\"c\"},\
         {\"id\":\"00000000-0000-0000-0000-000000000002\",\"title\":\"d\",\"author\":\"e\",\"year\":\"f\"},\
         {\"id\":\"00000000-0000-0000-0000-000000000003\",\"title\":\"g\",\"author\":\"h\",\"year\":\"i\"}]"
    );
}

#[test]
fn encode_response_writes_status_and_message() {
    assert_eq!(encode_response(&ApiResponse::created()), "{\"status\":201,\"message\":\"The book was added successfully\"}");
    assert_eq!(encode_response(&ApiResponse::updated()), "{\"status\":200,\"message\":\"The book was updated\"}");
    assert_eq!(encode_response(&ApiResponse::deleted()), "{\"status\":200,\"message\":\"The book was successfully deleted\"}");
    assert_eq!(encode_response(&ApiResponse::not_found()), "{\"status\":204,\"message\":\"The book was not found\"}");
    assert_eq!(encode_response(&ApiResponse::malformed()), "{\"status\":405,\"message\":\"Incorrect Request\"}");
    assert_eq!(
        encode_response(&ApiResponse { status: 0, message: "say \"no\"".to_owned() }),
        "{\"status\":0,\"message\":\"say \\\"no\\\"\"}"
    );
}

#[test]
fn encode_writes_each_kind_of_payload() {
    assert_eq!(encode(&Payload::Collection(Vec::new())), "[]");
    assert_eq!(
        encode(&Payload::Record(book(2, "d", "e", "f"))),
        "{\"id\":\"00000000-0000-0000-0000-000000000002\",\"title\":\"d\",\"author\":\"e\",\"year\":\"f\"}"
    );
    assert_eq!(
        encode(&Payload::Status(ApiResponse::not_found())),
        "{\"status\":204,\"message\":\"The book was not found\"}"
    );
    assert_eq!(
        message_for(&Payload::Status(ApiResponse::malformed())),
        BroadcastMessage("{\"status\":405,\"message\":\"Incorrect Request\"}".to_owned())
    );
}

#[test]
fn what_encode_writes_is_what_a_json_reader_reads() {
    let written = book(ID, "a\"b\\c\n", "\u{1f600}", "</script>");
    let value: serde_json::Value = serde_json::from_str(&encode_book(&written)).unwrap();
    assert_eq!(value["id"].as_str(), Some(ID_TEXT));
    assert_eq!(value["title"].as_str(), Some("a\"b\\c\n"));
    assert_eq!(value["author"].as_str(), Some("\u{1f600}"));
    assert_eq!(value["year"].as_str(), Some("</script>"));
    let list: serde_json::Value = serde_json::from_str(&encode_books(&vec![written.clone(), written])).unwrap();
    assert_eq!(list.as_array().map(|a| a.len()), Some(2));
}

#[test]
fn an_encoded_identifier_decodes_to_itself() {
    for id in [0u128, 1, ID, u128::MAX, 1 << 64] {
        let encoded = encode_book(&book(id, "", "", ""));
        let value: serde_json::Value = serde_json::from_str(&encoded).unwrap();
        let text = format!("{{\"action\":\"get_book\",\"id\":\"{}\"}}", value["id"].as_str().unwrap());
        assert_eq!(decode(&text), Ok(Command::GetBook { id }));
    }
}
