//! The command dispatcher: one decoded command against the record store, and
//! the routing of what comes of it.

use vstd::prelude::*;
use crate::ident::{assigned_id, random_id};
use crate::message::{
    created_view, deleted_view, malformed_view, not_found_view, outbound_views, updated_view,
    ApiResponse, Command, CommandView, Outbound, OutboundView, Payload, PayloadView,
};
use crate::record::{ids, views, Book, BookView};
use crate::registry::{fan_out, SessionRegistry};
use crate::store::{deleted, position, record_of, updated, RecordStore};
use crate::wire::DecodeError;

verus! {

/// What a decoded frame asks for: the command, or nothing where decoding
/// failed.
pub open spec fn request(cmd: Result<Command, DecodeError>) -> Option<CommandView> {
    match cmd {
        Ok(command) => Some(command@),
        Err(_) => None,
    }
}

/// The collection after `cmd`, where `new_id` is the identifier that a new
/// record gets.
pub open spec fn applied(records: Seq<BookView>, cmd: Option<CommandView>, new_id: u128) -> Seq<BookView> {
    match cmd {
        Some(CommandView::AddBook { title, author, year }) => records.push(
            record_of(new_id, title, author, year),
        ),
        Some(CommandView::UpdateBook { id, title, author, year }) => updated(records, id, title, author, year),
        Some(CommandView::DeleteBook { id }) => deleted(records, id),
        _ => records,
    }
}

/// Whether `cmd` changes the collection `records`: an add always, an update
/// or a delete where the identifier is present.
pub open spec fn mutates(records: Seq<BookView>, cmd: Option<CommandView>) -> bool {
    match cmd {
        Some(CommandView::AddBook { .. }) => true,
        Some(CommandView::UpdateBook { id, .. }) => position(records, id).is_some(),
        Some(CommandView::DeleteBook { id }) => position(records, id).is_some(),
        _ => false,
    }
}

/// The private reply to `cmd` issued against the collection `records`.
pub open spec fn reply_for(records: Seq<BookView>, cmd: Option<CommandView>) -> PayloadView {
    match cmd {
        Some(CommandView::GetBooks) => PayloadView::Collection(records),
        Some(CommandView::GetBook { id }) => match position(records, id) {
            Some(i) => PayloadView::Record(records[i]),
            None => PayloadView::Status(not_found_view()),
        },
        Some(CommandView::AddBook { .. }) => PayloadView::Status(created_view()),
        Some(CommandView::UpdateBook { id, .. }) => if position(records, id).is_some() {
            PayloadView::Status(updated_view())
        } else {
            PayloadView::Status(not_found_view())
        },
        Some(CommandView::DeleteBook { id }) => if position(records, id).is_some() {
            PayloadView::Status(deleted_view())
        } else {
            PayloadView::Status(not_found_view())
        },
        None => PayloadView::Status(malformed_view()),
    }
}

/// What one dispatch yields: the snapshot to broadcast, where the command
/// changed the collection, and the private reply.
#[derive(Debug, PartialEq, Eq)]
pub struct Outcome {
    pub broadcast: Option<Vec<Book>>,
    pub reply: Payload,
}

/// The model of an [`Outcome`].
pub struct OutcomeView {
    pub broadcast: Option<Seq<BookView>>,
    pub reply: PayloadView,
}

impl View for Outcome {
    type V = OutcomeView;

    open spec fn view(&self) -> OutcomeView {
        OutcomeView {
            broadcast: match self.broadcast {
                Some(books) => Some(views(books@)),
                None => None,
            },
            reply: self.reply@,
        }
    }
}

/// The outcome of `cmd` issued against `before`, which left `after`: the
/// collection as it is after the change goes to everyone, the reply speaks
/// of the collection as the command found it.
pub open spec fn outcome_for(before: Seq<BookView>, cmd: Option<CommandView>, after: Seq<BookView>) -> OutcomeView {
    OutcomeView {
        broadcast: if mutates(before, cmd) {
            Some(after)
        } else {
            None
        },
        reply: reply_for(before, cmd),
    }
}

/// The frames that an outcome turns into: first the snapshot to every
/// registered session, where there is one, then the reply to `origin`.
pub open spec fn routed(outcome: OutcomeView, origin: u64, handles: Seq<u64>) -> Seq<OutboundView> {
    let shared = match outcome.broadcast {
        Some(snapshot) => fan_out(handles, PayloadView::Collection(snapshot)),
        None => Seq::<OutboundView>::empty(),
    };
    shared.push(OutboundView { to: origin, payload: outcome.reply })
}

/// Applies one decoded command to the store, with `candidate` as the
/// identifier drawn for a record that an add creates.
///
/// A frame that failed to decode changes nothing and is answered with the
/// malformed-command envelope.
pub fn apply_with_id(cmd: Result<Command, DecodeError>, candidate: u128, books: &mut RecordStore) -> (outcome:
    Outcome)
    requires
        old(books).wf(),
    ensures
        final(books).wf(),
        final(books)@ == applied(old(books)@, request(cmd), assigned_id(ids(old(books)@), candidate)),
        request(cmd) matches Some(CommandView::AddBook { .. }) ==> !ids(old(books)@).contains(
            assigned_id(ids(old(books)@), candidate),
        ),
        outcome@ == outcome_for(old(books)@, request(cmd), final(books)@),
{
    match cmd {
        Ok(Command::GetBooks) => Outcome { broadcast: None, reply: Payload::Collection(books.list()) },
        Ok(Command::GetBook { id }) => {
            let reply = match books.get(id) {
                Some(book) => Payload::Record(book),
                None => Payload::Status(ApiResponse::not_found()),
            };
            Outcome { broadcast: None, reply }
        },
        Ok(Command::AddBook { book }) => {
            books.add_with_id(candidate, book.title, book.author, book.year);
            Outcome { broadcast: Some(books.list()), reply: Payload::Status(ApiResponse::created()) }
        },
        Ok(Command::UpdateBook { id, book }) => {
            match books.update(id, book.title, book.author, book.year) {
                Some(_) => Outcome {
                    broadcast: Some(books.list()),
                    reply: Payload::Status(ApiResponse::updated()),
                },
                None => Outcome { broadcast: None, reply: Payload::Status(ApiResponse::not_found()) },
            }
        },
        Ok(Command::DeleteBook { id }) => {
            if books.delete(id) {
                Outcome { broadcast: Some(books.list()), reply: Payload::Status(ApiResponse::deleted()) }
            } else {
                Outcome { broadcast: None, reply: Payload::Status(ApiResponse::not_found()) }
            }
        },
        Err(_) => Outcome { broadcast: None, reply: Payload::Status(ApiResponse::malformed()) },
    }
}

/// Applies one decoded command to the store. Only the store is touched, so
/// a caller that guards store and registry separately holds one of them at
/// a time: the store here, the registry in [`route`].
///
/// The identifier of a record that an add creates is drawn at random; see
/// [`apply_with_id`] for the outcome for each value drawn.
pub fn apply(cmd: Result<Command, DecodeError>, books: &mut RecordStore) -> (outcome: Outcome)
    requires
        old(books).wf(),
    ensures
        final(books).wf(),
        final(books)@ == applied(old(books)@, request(cmd), final(books)@.last().id),
        request(cmd) matches Some(CommandView::AddBook { .. }) ==> !ids(old(books)@).contains(
            final(books)@.last().id,
        ),
        outcome@ == outcome_for(old(books)@, request(cmd), final(books)@),
{
    let candidate: u128 = match &cmd {
        Ok(Command::AddBook { .. }) => random_id(),
        _ => 0,
    };
    apply_with_id(cmd, candidate, books)
}

/// Addresses an outcome: the snapshot, where there is one, to every
/// registered session, then the reply to `origin`.
pub fn route(outcome: Outcome, origin: u64, sessions: &SessionRegistry) -> (sent: Vec<Outbound>)
    ensures
        outbound_views(sent@) == routed(outcome@, origin, sessions@),
{
    let mut sent: Vec<Outbound> = match outcome.broadcast {
        Some(snapshot) => sessions.broadcast(&Payload::Collection(snapshot)),
        None => Vec::new(),
    };
    let ghost shared = outbound_views(sent@);
    sent.push(Outbound { to: origin, payload: outcome.reply });
    assert(outbound_views(sent@) =~= shared.push(
        OutboundView { to: origin, payload: outcome.reply@ },
    ));
    sent
}

/// Dispatches one decoded frame of the session `addr`: applies it to the
/// store, then addresses the outcome. A change is applied in full before
/// anything is addressed, every registered session gets the collection as
/// the change left it, and the issuing session gets exactly one reply, last.
pub fn obtain(
    cmd: Result<Command, DecodeError>,
    addr: u64,
    books: &mut RecordStore,
    sessions: &SessionRegistry,
) -> (sent: Vec<Outbound>)
    requires
        old(books).wf(),
    ensures
        final(books).wf(),
        final(books)@ == applied(old(books)@, request(cmd), final(books)@.last().id),
        request(cmd) matches Some(CommandView::AddBook { .. }) ==> !ids(old(books)@).contains(
            final(books)@.last().id,
        ),
        outbound_views(sent@) == routed(
            outcome_for(old(books)@, request(cmd), final(books)@),
            addr,
            sessions@,
        ),
{
    let outcome = apply(cmd, books);
    route(outcome, addr, sessions)
}

} // verus!
