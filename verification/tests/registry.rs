use book_catalog::message::{ApiResponse, Outbound, Payload};
use book_catalog::record::Book;
use book_catalog::registry::SessionRegistry;

#[test]
fn new_registry_is_empty() {
    let registry = SessionRegistry::new();
    assert_eq!(registry.len(), 0);
    assert_eq!(registry.handles(), Vec::<u64>::new());
    assert!(!registry.contains(1));
}

#[test]
fn register_appends_in_order() {
    let mut registry = SessionRegistry::new();
    registry.register(7);
    registry.register(3);
    registry.register(9);
    assert_eq!(registry.handles(), vec![7, 3, 9]);
    assert!(registry.contains(3));
    assert_eq!(registry.len(), 3);
}

#[test]
fn register_twice_lists_the_session_once() {
    let mut registry = SessionRegistry::new();
    registry.register(7);
    registry.register(3);
    registry.register(7);
    assert_eq!(registry.handles(), vec![7, 3]);
}

#[test]
fn deregister_removes_the_handle() {
    let mut registry = SessionRegistry::new();
    registry.register(7);
    registry.register(3);
    registry.register(9);
    registry.deregister(3);
    assert_eq!(registry.handles(), vec![7, 9]);
    assert!(!registry.contains(3));
}

#[test]
fn deregister_of_an_absent_handle_is_a_no_op() {
    let mut registry = SessionRegistry::new();
    registry.register(7);
    registry.deregister(3);
    assert_eq!(registry.handles(), vec![7]);
    registry.deregister(7);
    registry.deregister(7);
    assert_eq!(registry.handles(), Vec::<u64>::new());
}

#[test]
fn broadcast_addresses_every_registered_session() {
    let mut registry = SessionRegistry::new();
    registry.register(7);
    registry.register(3);
    let book = Book { id: 1, title: "Dune".to_owned(), author: "Herbert".to_owned(), year: "1965".to_owned() };
    let sent = registry.broadcast(&Payload::Collection(vec![book.clone()]));
    assert_eq!(
        sent,
        vec![
            Outbound { to: 7, payload: Payload::Collection(vec![book.clone()]) },
            Outbound { to: 3, payload: Payload::Collection(vec![book.clone()]) },
        ]
    );
}

#[test]
fn broadcast_over_an_empty_registry_addresses_nobody() {
    let registry = SessionRegistry::new();
    let sent = registry.broadcast(&Payload::Status(ApiResponse::created()));
    assert_eq!(sent, Vec::<Outbound>::new());
}

#[test]
fn broadcast_skips_a_deregistered_session() {
    let mut registry = SessionRegistry::new();
    registry.register(1);
    registry.register(2);
    registry.register(3);
    registry.deregister(2);
    let sent = registry.broadcast(&Payload::Status(ApiResponse::not_found()));
    let to: Vec<u64> = sent.iter().map(|o| o.to).collect();
    assert_eq!(to, vec![1, 3]);
}
