//! Record identifiers: where they come from, how they are spelled, and
//! which one a new record gets.

use vstd::prelude::*;

verus! {

/// The bits that mark an identifier as a randomly generated one.
pub const RANDOM_FORM_MASK: u128 = 0x0000_0000_0000_F000_C000_0000_0000_0000u128;

/// The value of the marked bits in a randomly generated identifier.
pub const RANDOM_FORM_BITS: u128 = 0x0000_0000_0000_4000_8000_0000_0000_0000u128;

/// Whether `id` has the layout of a randomly generated identifier.
pub open spec fn is_random_form(id: u128) -> bool {
    id & RANDOM_FORM_MASK == RANDOM_FORM_BITS
}

/// Draws a random identifier with `uuid::Uuid::new_v4` and returns it as the
/// 128-bit number that `uuid::Uuid::as_u128` gives.
///
/// Trusted: the value is random, so all that is claimed is the layout that
/// `new_v4` forces on every value it returns (version 4, RFC variant).
/// `new_v4` panics when the operating system cannot supply random bytes.
#[verifier::external_body]
pub(crate) fn random_id() -> (id: u128)
    ensures
        is_random_form(id),
{
    uuid::Uuid::new_v4().as_u128()
}

/// The number of the UUID that `text` spells, or `None` where it spells
/// none.
pub uninterp spec fn uuid_parsed(text: Seq<char>) -> Option<u128>;

/// The hyphenated lower-case spelling of the UUID with the number `id`.
pub uninterp spec fn uuid_text(id: u128) -> Seq<char>;

/// Parses `text` with `uuid::Uuid::parse_str` and returns the number that
/// `uuid::Uuid::as_u128` gives.
///
/// Trusted: the result is a function of the text alone.
#[verifier::external_body]
pub(crate) fn parse_uuid(text: &str) -> (res: Option<u128>)
    ensures
        res == uuid_parsed(text@),
{
    match uuid::Uuid::parse_str(text) {
        Ok(id) => Some(id.as_u128()),
        Err(_) => None,
    }
}

/// Spells the UUID with the number `id` with `uuid::Uuid::hyphenated`.
///
/// Trusted: the result is a function of the number alone.
#[verifier::external_body]
pub(crate) fn format_uuid(id: u128) -> (res: String)
    ensures
        res@ == uuid_text(id),
{
    uuid::Uuid::from_u128(id).hyphenated().to_string()
}

/// Whether `id` is the least identifier that does not occur in `taken`.
pub open spec fn is_least_unused(taken: Seq<u128>, id: u128) -> bool {
    &&& !taken.contains(id)
    &&& forall|k: u128| k < id ==> taken.contains(k)
}

/// The least identifier that does not occur in `taken`.
pub open spec fn least_unused(taken: Seq<u128>) -> u128 {
    choose|id: u128| is_least_unused(taken, id)
}

/// The identifier that a new record gets when `candidate` was drawn for it
/// and the identifiers in `taken` are in use: the candidate itself unless it
/// is taken, else the least identifier that is free.
pub open spec fn assigned_id(taken: Seq<u128>, candidate: u128) -> u128 {
    if taken.contains(candidate) {
        least_unused(taken)
    } else {
        candidate
    }
}

/// An identifier that is the least unused one is what `least_unused` names.
pub proof fn lemma_least_unused_is(taken: Seq<u128>, id: u128)
    requires
        is_least_unused(taken, id),
    ensures
        least_unused(taken) == id,
{
    let other = least_unused(taken);
    assert(is_least_unused(taken, other));
    if other < id {
        assert(taken.contains(other));
    } else if id < other {
        assert(taken.contains(id));
    }
}

/// A sequence that holds every identifier below `bound` has at least `bound`
/// members.
pub proof fn lemma_prefix_fits(taken: Seq<u128>, bound: u128)
    requires
        forall|k: u128| k < bound ==> taken.contains(k),
    ensures
        bound <= taken.len(),
    decreases bound,
{
    if bound > 0 {
        let top: u128 = (bound - 1) as u128;
        assert(taken.contains(top));
        let at = choose|i: int| 0 <= i < taken.len() && taken[i] == top;
        let rest = taken.remove(at);
        assert forall|k: u128| k < top implies rest.contains(k) by {
            assert(taken.contains(k));
            let j = choose|j: int| 0 <= j < taken.len() && taken[j] == k;
            if j < at {
                assert(rest[j] == k);
            } else {
                assert(rest[j - 1] == k);
            }
        }
        lemma_prefix_fits(rest, top);
    }
}

/// Scans upwards from `from` for an identifier that is free.
proof fn lemma_free_from(taken: Seq<u128>, from: u128)
    requires
        taken.len() <= usize::MAX,
        forall|k: u128| k < from ==> taken.contains(k),
    ensures
        exists|id: u128| is_least_unused(taken, id),
    decreases taken.len() - from,
{
    lemma_prefix_fits(taken, from);
    if taken.contains(from) {
        let next: u128 = (from + 1) as u128;
        assert forall|k: u128| k < next implies taken.contains(k) by {}
        lemma_prefix_fits(taken, next);
        lemma_free_from(taken, next);
    } else {
        assert(is_least_unused(taken, from));
    }
}

/// A collection that fits in memory leaves an identifier free, so a new
/// record always gets one that no other record has.
pub proof fn lemma_assigned_id_is_free(taken: Seq<u128>, candidate: u128)
    requires
        taken.len() <= usize::MAX,
    ensures
        !taken.contains(assigned_id(taken, candidate)),
{
    lemma_free_from(taken, 0);
}

} // verus!
