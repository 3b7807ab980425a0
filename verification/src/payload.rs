//! The payload renderer: turning a dynamically-typed failure payload into
//! text by trying an ordered list of candidate types.
//!
//! A payload is modelled by the identifier of its concrete type together
//! with its display text (used when a candidate type matches) and its
//! generic debug text (the fallback).  Because every matching candidate
//! yields the same value's display text, the rendering depends only on
//! whether the payload's type is among the candidates at all -- which is
//! the dispatch law proved below.

use vstd::prelude::*;
use crate::text::copy_bytes;

verus! {

/// Type identifier for a borrowed string slice payload.
pub const STR_TYPE_ID: u64 = 1;

/// Type identifier for an owned string payload.
pub const STRING_TYPE_ID: u64 = 2;

/// Type identifier for a payload of a type the handler does not know.
pub const UNKNOWN_TYPE_ID: u64 = 0;

/// A dynamically-typed failure payload, reduced to what rendering reads:
/// the identifier of its concrete type, the display text it would show if
/// down-cast to a known textual type, and its generic debug text.
pub struct Payload {
    /// Identifies the payload's concrete type.
    pub type_id: u64,
    /// The payload's display text, meaningful when its type matches a
    /// candidate.
    pub display: Vec<u8>,
    /// The payload's generic debug representation, used when no candidate
    /// matches.
    pub debug: Vec<u8>,
}

/// The text the payload renderer produces: the display text when the
/// payload's type is among the candidates, its debug text otherwise.
pub open spec fn payload_text(p: Payload, candidates: Seq<u64>) -> Seq<u8> {
    if candidates.contains(p.type_id) {
        p.display@
    } else {
        p.debug@
    }
}

/// The candidate type list used by the shipped profiles: a borrowed string
/// slice, then an owned string.
pub open spec fn standard_type_ids() -> Seq<u64> {
    seq![STR_TYPE_ID, STRING_TYPE_ID]
}

/// The candidate type list used by the shipped profiles, as a value.
pub fn standard_types() -> (v: Vec<u64>)
    ensures
        v@ == standard_type_ids(),
{
    let mut v: Vec<u64> = Vec::new();
    v.push(STR_TYPE_ID);
    v.push(STRING_TYPE_ID);
    proof {
        assert(v@ =~= standard_type_ids());
    }
    v
}

/// Renders the payload by trying each candidate type in the given order;
/// the first match yields the payload's display text, and when no
/// candidate matches the generic debug text is produced instead.  A
/// candidate list is fixed when a payload policy is authored and holds at
/// least one type.
pub fn render_payload(p: &Payload, candidates: &Vec<u64>) -> (out: Vec<u8>)
    requires
        candidates@.len() >= 1,
    ensures
        out@ == payload_text(*p, candidates@),
{
    let mut i: usize = 0;
    while i < candidates.len()
        invariant
            i <= candidates@.len(),
            forall|j: int| 0 <= j < i ==> candidates@[j] != p.type_id,
        decreases candidates@.len() - i,
    {
        if candidates[i] == p.type_id {
            proof {
                assert(candidates@.contains(p.type_id));
            }
            return copy_bytes(&p.display);
        }
        i += 1;
    }
    proof {
        assert(!candidates@.contains(p.type_id));
    }
    copy_bytes(&p.debug)
}

/// Law: the rendered payload text depends only on whether the payload's
/// type is among the candidates.  Any list containing it yields the display
/// text, any list omitting it yields the debug text, independent of where
/// in the list it stands or what else the list holds.
pub proof fn lemma_payload_dispatch(p: Payload, candidates: Seq<u64>)
    ensures
        candidates.contains(p.type_id) ==> payload_text(p, candidates) == p.display@,
        !candidates.contains(p.type_id) ==> payload_text(p, candidates) == p.debug@,
{
}

/// Law: two candidate lists that agree on whether they hold the payload's
/// type render the payload identically.
pub proof fn lemma_payload_order_irrelevant(p: Payload, first: Seq<u64>, second: Seq<u64>)
    requires
        first.contains(p.type_id) == second.contains(p.type_id),
    ensures
        payload_text(p, first) == payload_text(p, second),
{
}

} // verus!
