use book_catalog::message::{ApiResponse, BroadcastMessage, Outbound, Payload};
use book_catalog::record::Book;
use book_catalog::registry::SessionRegistry;
use book_catalog::service::{frames, serve, Envelope};
use book_catalog::store::RecordStore;

fn registry_with(handles: &[u64]) -> SessionRegistry {
    let mut registry = SessionRegistry::new();
    for h in handles {
        registry.register(*h);
    }
    registry
}

fn served(text: &str, addr: u64, books: &mut RecordStore, sessions: &SessionRegistry) -> Vec<(u64, String)> {
    serve(text, addr, books, sessions).into_iter().map(|envelope| (envelope.to, envelope.message.0)).collect()
}

#[test]
fn frames_encodes_each_payload_for_its_session() {
    let book = Book { id: 1, title: "a".to_owned(), author: "b".to_owned(), year: "c".to_owned() };
    let sent = vec![
        Outbound { to: 4, payload: Payload::Collection(vec![book.clone()]) },
        Outbound { to: 9, payload: Payload::Record(book) },
        Outbound { to: 4, payload: Payload::Status(ApiResponse::updated()) },
    ];
    let record = "{\"id\":\"00000000-0000-0000-0000-000000000001\",\"title\":\"a\",\"author\":\"b\",\"year\":\"c\"}";
    assert_eq!(
        frames(&sent),
        vec![
            Envelope { to: 4, message: BroadcastMessage(format!("[{}]", record)) },
            Envelope { to: 9, message: BroadcastMessage(record.to_owned()) },
            Envelope { to: 4, message: BroadcastMessage("{\"status\":200,\"message\":\"The book was updated\"}".to_owned()) },
        ]
    );
    assert_eq!(frames(&Vec::new()), Vec::<Envelope>::new());
}

#[test]
fn unknown_action_yields_one_private_405_and_nothing_else() {
    let mut books = RecordStore::new();
    books.add_with_id(1, "a".to_owned(), "b".to_owned(), "c".to_owned());
    let before = books.list();
    let sessions = registry_with(&[10, 11, 12]);
    let out = serve("{\"action\":\"unknown\"}", 11, &mut books, &sessions);
    assert_eq!(
        out,
        vec![Envelope {
            to: 11,
            message: BroadcastMessage("{\"status\":405,\"message\":\"Incorrect Request\"}".to_owned()),
        }]
    );
    assert_eq!(books.list(), before);
}

#[test]
fn every_decode_failure_is_answered_with_405() {
    let mut books = RecordStore::new();
    let sessions = registry_with(&[10, 11]);
    let frames = [
        "",
        "not json",
        "{\"action\":\"unknown\"}",
        "{\"action\":\"get_book\"}",
        "{\"action\":\"get_book\",\"id\":\"nope\"}",
        "{\"action\":\"add_book\",\"book\":{\"title\":\"Dune\"}}",
        "{\"id\":\"67e55044-10b1-426f-9247-bb680e5fe0c8\"}",
    ];
    for frame in frames {
        let sent = served(frame, 11, &mut books, &sessions);
        assert_eq!(sent, vec![(11, "{\"status\":405,\"message\":\"Incorrect Request\"}".to_owned())]);
        assert_eq!(books.len(), 0);
    }
}

#[test]
fn dune_travels_as_text() {
    let mut books = RecordStore::new();
    let sessions = registry_with(&[1, 2]);

    let added = served(
        "{\"action\":\"add_book\",\"book\":{\"title\":\"Dune\",\"author\":\"Herbert\",\"year\":\"1965\"}}",
        2,
        &mut books,
        &sessions,
    );
    let listed = books.list();
    assert_eq!(listed.len(), 1);
    let id = uuid::Uuid::from_u128(listed[0].id).to_string();
    let record = format!("{{\"id\":\"{}\",\"title\":\"Dune\",\"author\":\"Herbert\",\"year\":\"1965\"}}", id);
    assert_eq!(
        added,
        vec![
            (1, format!("[{}]", record)),
            (2, format!("[{}]", record)),
            (2, "{\"status\":201,\"message\":\"The book was added successfully\"}".to_owned()),
        ]
    );

    let got = served(&format!("{{\"action\":\"get_book\",\"id\":\"{}\"}}", id), 1, &mut books, &sessions);
    assert_eq!(got, vec![(1, record.clone())]);

    let all = served("{\"action\":\"get_books\"}", 1, &mut books, &sessions);
    assert_eq!(all, vec![(1, format!("[{}]", record))]);

    let update = format!(
        "{{\"action\":\"update_book\",\"id\":\"{}\",\"book\":{{\"title\":\"Dune\",\"author\":\"Frank Herbert\",\"year\":\"1965\"}}}}",
        id
    );
    let updated = served(&update, 1, &mut books, &sessions);
    let rewritten =
        format!("{{\"id\":\"{}\",\"title\":\"Dune\",\"author\":\"Frank Herbert\",\"year\":\"1965\"}}", id);
    assert_eq!(
        updated,
        vec![
            (1, format!("[{}]", rewritten)),
            (2, format!("[{}]", rewritten)),
            (1, "{\"status\":200,\"message\":\"The book was updated\"}".to_owned()),
        ]
    );

    let delete = format!("{{\"action\":\"delete_book\",\"id\":\"{}\"}}", id);
    let gone = served(&delete, 1, &mut books, &sessions);
    assert_eq!(
        gone,
        vec![
            (1, "[]".to_owned()),
            (2, "[]".to_owned()),
            (1, "{\"status\":200,\"message\":\"The book was successfully deleted\"}".to_owned()),
        ]
    );

    let again = served(&delete, 1, &mut books, &sessions);
    assert_eq!(again, vec![(1, "{\"status\":204,\"message\":\"The book was not found\"}".to_owned())]);
    assert_eq!(books.len(), 0);
}
