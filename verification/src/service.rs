//! The path of one text frame through the catalog: decoded, dispatched,
//! and what comes of it encoded for each session it is addressed to.

use vstd::prelude::*;
use crate::message::{outbound_views, BroadcastMessage, CommandView, Outbound, OutboundView};
use crate::record::ids;
use crate::registry::SessionRegistry;
use crate::router::{applied, obtain, outcome_for, routed};
use crate::store::RecordStore;
use crate::wire::{decode, decoded, message_for, payload_json};

verus! {

/// One text frame addressed to one session.
#[derive(Debug, PartialEq, Eq)]
pub struct Envelope {
    pub to: u64,
    pub message: BroadcastMessage,
}

/// The model of an [`Envelope`]: the session and the text.
pub struct EnvelopeView {
    pub to: u64,
    pub text: Seq<char>,
}

impl View for Envelope {
    type V = EnvelopeView;

    open spec fn view(&self) -> EnvelopeView {
        EnvelopeView { to: self.to, text: self.message.0@ }
    }
}

/// The models of a list of envelopes, in order.
pub open spec fn envelope_views(items: Seq<Envelope>) -> Seq<EnvelopeView> {
    Seq::new(items.len(), |i: int| items[i]@)
}

/// The frames that carry `sent`: each payload encoded, to the session it is
/// addressed to, in the same order.
pub open spec fn framed(sent: Seq<OutboundView>) -> Seq<EnvelopeView> {
    Seq::new(sent.len(), |i: int| EnvelopeView { to: sent[i].to, text: payload_json(sent[i].payload) })
}

/// What the text of a frame asks for: the command it encodes, or nothing
/// where it encodes none.
pub open spec fn requested(text: Seq<char>) -> Option<CommandView> {
    match decoded(text) {
        Ok(command) => Some(command),
        Err(_) => None,
    }
}

/// Encodes every payload of `sent` for the session it is addressed to.
pub fn frames(sent: &Vec<Outbound>) -> (out: Vec<Envelope>)
    ensures
        envelope_views(out@) == framed(outbound_views(sent@)),
{
    let mut out: Vec<Envelope> = Vec::new();
    let mut i: usize = 0;
    while i < sent.len()
        invariant
            i <= sent.len(),
            out.len() == i,
            forall|k: int|
                0 <= k < i ==> out@[k]@ == (EnvelopeView {
                    to: sent@[k].to,
                    text: payload_json(sent@[k].payload@),
                }),
        decreases sent.len() - i,
    {
        out.push(Envelope { to: sent[i].to, message: message_for(&sent[i].payload) });
        i += 1;
    }
    assert(envelope_views(out@) =~= framed(outbound_views(sent@)));
    out
}

/// Serves one text frame of the session `addr`.
///
/// The text is decoded and the command applied to the store. A command that
/// changed the collection has the collection, as the change left it, sent
/// to every registered session; then the session `addr` gets its one reply.
/// A text that is no command changes nothing and is answered with the
/// malformed-command envelope alone.
pub fn serve(text: &str, addr: u64, books: &mut RecordStore, sessions: &SessionRegistry) -> (out: Vec<Envelope>)
    requires
        old(books).wf(),
    ensures
        final(books).wf(),
        final(books)@ == applied(old(books)@, requested(text@), final(books)@.last().id),
        requested(text@) matches Some(CommandView::AddBook { .. }) ==> !ids(old(books)@).contains(
            final(books)@.last().id,
        ),
        envelope_views(out@) == framed(
            routed(outcome_for(old(books)@, requested(text@), final(books)@), addr, sessions@),
        ),
{
    let sent = obtain(decode(text), addr, books, sessions);
    frames(&sent)
}

} // verus!
