//! What holds of the catalog as a whole, stated over the models that the
//! contracts of the operations use.

use vstd::prelude::*;
use crate::ident::{assigned_id, lemma_assigned_id_is_free};
use crate::message::{malformed_view, not_found_view, BroadcastMessage, CommandView, OutboundView, PayloadView};
use crate::record::{ids, BookView};
use crate::registry::{deregistered, fan_out};
use crate::router::{applied, mutates, outcome_for, reply_for, routed};
use crate::service::{framed, requested, EnvelopeView};
use crate::session::{Action, Inbound, Phase, WsSession};
use crate::store::{deleted, lemma_position, lemma_position_is, lemma_position_none, position, record_of, unique_ids, updated};
use crate::wire::{decoded, response_json};

verus! {

/// Whether `cmd` is an add.
pub open spec fn is_add(cmd: Option<CommandView>) -> bool {
    cmd matches Some(CommandView::AddBook { .. })
}

/// Identifiers stay unique and stable under every command: whatever the
/// command, no identifier occurs twice afterwards, an add appends one
/// identifier and leaves the others where they are, a delete takes one out,
/// and nothing else touches them. In particular an update never alters the
/// identifier of the record it rewrites.
pub proof fn law_identifiers_unique_and_stable(records: Seq<BookView>, cmd: Option<CommandView>, new_id: u128)
    requires
        unique_ids(records),
        is_add(cmd) ==> !ids(records).contains(new_id),
    ensures
        unique_ids(applied(records, cmd, new_id)),
        ids(applied(records, cmd, new_id)) == match cmd {
            Some(CommandView::AddBook { .. }) => ids(records).push(new_id),
            Some(CommandView::DeleteBook { id }) => match position(records, id) {
                Some(i) => ids(records).remove(i),
                None => ids(records),
            },
            _ => ids(records),
        },
{
    let after = applied(records, cmd, new_id);
    let keys = ids(records);
    match cmd {
        Some(CommandView::AddBook { .. }) => {
            assert(ids(after) =~= keys.push(new_id));
            assert forall|i: int, j: int|
                0 <= i < ids(after).len() && 0 <= j < ids(after).len() && i != j implies ids(after)[i]
                != ids(after)[j] by {
                if i < keys.len() && j < keys.len() {
                    assert(keys[i] != keys[j]);
                } else if i < keys.len() {
                    assert(keys[i] == ids(after)[i]);
                } else {
                    assert(keys[j] == ids(after)[j]);
                }
            }
        },
        Some(CommandView::UpdateBook { id, .. }) => {
            lemma_position(records, id);
            assert(ids(after) =~= keys);
        },
        Some(CommandView::DeleteBook { id }) => {
            lemma_position(records, id);
            match position(records, id) {
                Some(at) => {
                    assert(ids(after) =~= keys.remove(at));
                    assert forall|i: int, j: int|
                        0 <= i < ids(after).len() && 0 <= j < ids(after).len() && i != j implies ids(
                        after,
                    )[i] != ids(after)[j] by {
                        let i0 = if i < at { i } else { i + 1 };
                        let j0 = if j < at { j } else { j + 1 };
                        assert(keys[i0] != keys[j0]);
                    }
                },
                None => {},
            }
        },
        _ => {},
    }
}

/// Every add yields an identifier that no record has: whatever value was
/// drawn for it, the identifier that the new record gets is free, so a
/// collection with distinct identifiers keeps them distinct through any run
/// of adds.
pub proof fn law_add_assigns_fresh_id(
    records: Seq<BookView>,
    candidate: u128,
    title: Seq<char>,
    author: Seq<char>,
    year: Seq<char>,
)
    requires
        unique_ids(records),
        records.len() <= usize::MAX,
    ensures
        !ids(records).contains(assigned_id(ids(records), candidate)),
        unique_ids(
            applied(
                records,
                Some(CommandView::AddBook { title, author, year }),
                assigned_id(ids(records), candidate),
            ),
        ),
{
    lemma_assigned_id_is_free(ids(records), candidate);
    law_identifiers_unique_and_stable(
        records,
        Some(CommandView::AddBook { title, author, year }),
        assigned_id(ids(records), candidate),
    );
}

/// A get of the identifier that an add has just assigned finds the record,
/// with the fields as they were submitted.
pub proof fn law_get_after_add(
    records: Seq<BookView>,
    new_id: u128,
    title: Seq<char>,
    author: Seq<char>,
    year: Seq<char>,
)
    requires
        !ids(records).contains(new_id),
    ensures
        ({
            let after = applied(records, Some(CommandView::AddBook { title, author, year }), new_id);
            &&& position(after, new_id) == Some(records.len() as int)
            &&& reply_for(after, Some(CommandView::GetBook { id: new_id })) == PayloadView::Record(
                record_of(new_id, title, author, year),
            )
        }),
{
    let after = applied(records, Some(CommandView::AddBook { title, author, year }), new_id);
    assert forall|j: int| 0 <= j < records.len() implies after[j].id != new_id by {
        assert(ids(records)[j] == records[j].id);
    }
    lemma_position_is(after, new_id, records.len() as int);
}

/// An update of an identifier that no record has changes nothing, is
/// answered with the not-found envelope, and is not broadcast.
pub proof fn law_update_of_absent_id(
    records: Seq<BookView>,
    id: u128,
    title: Seq<char>,
    author: Seq<char>,
    year: Seq<char>,
)
    requires
        !ids(records).contains(id),
    ensures
        ({
            let cmd = Some(CommandView::UpdateBook { id, title, author, year });
            &&& updated(records, id, title, author, year) == records
            &&& applied(records, cmd, 0) == records
            &&& !mutates(records, cmd)
            &&& reply_for(records, cmd) == PayloadView::Status(not_found_view())
        }),
{
    ids(records).index_of_first_ensures(id);
}

/// A delete is idempotent in effect: once an identifier was deleted, a
/// second delete of it leaves the collection as the first left it, is
/// answered with the not-found envelope, and is not broadcast.
pub proof fn law_delete_is_idempotent(records: Seq<BookView>, id: u128)
    requires
        unique_ids(records),
    ensures
        ({
            let once = deleted(records, id);
            let cmd = Some(CommandView::DeleteBook { id });
            &&& !ids(once).contains(id)
            &&& deleted(once, id) == once
            &&& !mutates(once, cmd)
            &&& reply_for(once, cmd) == PayloadView::Status(not_found_view())
        }),
{
    let once = deleted(records, id);
    lemma_position(records, id);
    assert forall|j: int| 0 <= j < once.len() implies once[j].id != id by {
        match position(records, id) {
            Some(at) => {
                let j0 = if j < at { j } else { j + 1 };
                assert(ids(records)[j0] != ids(records)[at]);
            },
            None => {},
        }
    }
    lemma_position_none(once, id);
    ids(once).index_of_first_ensures(id);
}

/// A delete of an identifier that no record has changes nothing and is
/// answered with the not-found envelope.
pub proof fn law_delete_of_absent_id(records: Seq<BookView>, id: u128)
    requires
        !ids(records).contains(id),
    ensures
        deleted(records, id) == records,
        !mutates(records, Some(CommandView::DeleteBook { id })),
        reply_for(records, Some(CommandView::DeleteBook { id })) == PayloadView::Status(not_found_view()),
{
    ids(records).index_of_first_ensures(id);
}

/// After a command that changed the collection, every registered session is
/// addressed the collection exactly as the change left it, each once and in
/// the order of registration, and the issuing session is addressed its reply
/// after all of them.
pub proof fn law_change_reaches_every_session(
    before: Seq<BookView>,
    cmd: Option<CommandView>,
    after: Seq<BookView>,
    origin: u64,
    handles: Seq<u64>,
)
    requires
        mutates(before, cmd),
    ensures
        ({
            let sent = routed(outcome_for(before, cmd, after), origin, handles);
            &&& sent.len() == handles.len() + 1
            &&& forall|i: int|
                0 <= i < handles.len() ==> #[trigger] sent[i] == (OutboundView {
                    to: handles[i],
                    payload: PayloadView::Collection(after),
                })
            &&& sent.last() == (OutboundView { to: origin, payload: reply_for(before, cmd) })
        }),
{
}

/// A command that left the collection as it was is answered privately and
/// reaches nobody else.
pub proof fn law_no_change_no_broadcast(
    before: Seq<BookView>,
    cmd: Option<CommandView>,
    after: Seq<BookView>,
    origin: u64,
    handles: Seq<u64>,
)
    requires
        !mutates(before, cmd),
    ensures
        applied(before, cmd, 0) == before,
        routed(outcome_for(before, cmd, after), origin, handles) == seq![
            OutboundView { to: origin, payload: reply_for(before, cmd) },
        ],
{
    match cmd {
        Some(CommandView::UpdateBook { id, .. }) => {
            lemma_position(before, id);
        },
        Some(CommandView::DeleteBook { id }) => {
            lemma_position(before, id);
        },
        _ => {},
    }
    assert(routed(outcome_for(before, cmd, after), origin, handles) =~= seq![
        OutboundView { to: origin, payload: reply_for(before, cmd) },
    ]);
}

/// A frame that could not be decoded changes nothing and yields exactly one
/// frame: the malformed-command envelope, to the session that sent it.
pub proof fn law_malformed_frame(records: Seq<BookView>, origin: u64, handles: Seq<u64>)
    ensures
        applied(records, None, 0) == records,
        routed(outcome_for(records, None, records), origin, handles) == seq![
            OutboundView { to: origin, payload: PayloadView::Status(malformed_view()) },
        ],
{
    law_no_change_no_broadcast(records, None, records, origin, handles);
}

/// A text frame that encodes no command changes nothing and yields exactly
/// one frame: the malformed-command envelope, to the session that sent it.
pub proof fn law_undecodable_text(text: Seq<char>, records: Seq<BookView>, origin: u64, handles: Seq<u64>)
    requires
        decoded(text) is Err,
    ensures
        applied(records, requested(text), 0) == records,
        framed(routed(outcome_for(records, requested(text), records), origin, handles)) == seq![
            EnvelopeView { to: origin, text: response_json(malformed_view()) },
        ],
{
    law_malformed_frame(records, origin, handles);
    assert(framed(routed(outcome_for(records, requested(text), records), origin, handles)) =~= seq![
        EnvelopeView { to: origin, text: response_json(malformed_view()) },
    ]);
}

/// The number of ticks after which a silent peer has outstayed its timeout.
pub open spec fn silent_limit(session: WsSession) -> nat {
    (session.timeout / session.period) as nat + 1
}

/// The session after `ticks` ticks of the liveness monitor, one every
/// period from the last probe response on, with no inbound event between
/// them.
pub open spec fn after_silent_ticks(session: WsSession, ticks: nat) -> WsSession
    decreases ticks,
{
    if ticks == 0 {
        session
    } else {
        after_silent_ticks(session, (ticks - 1) as nat).after_tick((session.hb + ticks * session.period) as u64)
    }
}

/// Silent ticks leave an open session open or closing, and closing once the
/// timeout has passed.
proof fn lemma_silent_ticks(session: WsSession, ticks: nat)
    requires
        session.phase == Phase::Open,
        session.hb + ticks * session.period <= u64::MAX,
    ensures
        ({
            let then = after_silent_ticks(session, ticks);
            &&& then.hb == session.hb
            &&& then.addr == session.addr
            &&& then.timeout == session.timeout
            &&& then.period == session.period
            &&& then.phase == Phase::Open || then.phase == Phase::Closing
            &&& ticks * session.period > session.timeout ==> then.phase == Phase::Closing
        }),
    decreases ticks,
{
    if ticks == 0 {
        assert(ticks * session.period == 0) by (nonlinear_arith)
            requires
                ticks == 0,
        ;
    } else {
        let earlier = (ticks - 1) as nat;
        assert(earlier * session.period <= ticks * session.period) by (nonlinear_arith)
            requires
                earlier <= ticks,
                session.period >= 0,
        ;
        lemma_silent_ticks(session, earlier);
        let now = (session.hb + ticks * session.period) as u64;
        assert(now - session.hb == ticks * session.period);
        assert(after_silent_ticks(session, ticks) == after_silent_ticks(session, earlier).after_tick(now));
    }
}

/// A session whose peer never answers a probe is closing after a bounded
/// number of ticks: the timeout in periods, and one more.
pub proof fn law_silent_session_times_out(session: WsSession)
    requires
        session.phase == Phase::Open,
        session.period > 0,
        session.hb + silent_limit(session) * session.period <= u64::MAX,
    ensures
        after_silent_ticks(session, silent_limit(session)).phase == Phase::Closing,
{
    let ticks = silent_limit(session);
    let timeout = session.timeout as int;
    let period = session.period as int;
    assert((timeout / period + 1) * period > timeout) by (nonlinear_arith)
        requires
            period > 0,
            timeout >= 0,
    ;
    lemma_silent_ticks(session, ticks);
}

/// A session that went away leaves the registry exactly once and is never
/// addressed again: it deregisters when it stops, not a second time, no
/// broadcast over the registry without it addresses it, and it does nothing
/// with what still arrives.
pub proof fn law_stopped_session_is_left_alone(
    session: WsSession,
    handles: Seq<u64>,
    payload: PayloadView,
    msg: Inbound,
    text: BroadcastMessage,
    now: u64,
)
    requires
        session.registered(),
        handles.no_duplicates(),
    ensures
        session.stop_action() == Action::Deregister(session.addr),
        session.after_stopped().phase == Phase::Closed,
        session.after_stopped().stop_action() == Action::Nothing,
        session.after_stopped().after_stopped() == session.after_stopped(),
        session.after_stopped().frame_action(msg) == Action::Nothing,
        session.after_stopped().after_frame(msg, now) == session.after_stopped(),
        session.after_stopped().tick_action(now) == Action::Nothing,
        session.after_stopped().delivery(text) == Action::Nothing,
        !deregistered(handles, session.addr).contains(session.addr),
        forall|i: int|
            0 <= i < deregistered(handles, session.addr).len() ==> (#[trigger] fan_out(
                deregistered(handles, session.addr),
                payload,
            )[i]).to != session.addr,
{
    let left = deregistered(handles, session.addr);
    handles.index_of_first_ensures(session.addr);
    assert forall|j: int| 0 <= j < left.len() implies left[j] != session.addr by {
        match handles.index_of_first(session.addr) {
            Some(at) => {
                let j0 = if j < at { j } else { j + 1 };
                assert(handles[j0] != handles[at]);
            },
            None => {
                assert(handles.contains(left[j]));
            },
        }
    }
}

} // verus!
