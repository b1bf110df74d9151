//! The allocator laws. Every create operation ensures that the entity it
//! stores carries the id `next_id` held before the call and that the counter
//! advances by one; the lemmas here close the argument that the ids the
//! allocator issues are strictly increasing and globally unique across the
//! three stores.

use vstd::prelude::*;

use crate::state::StateView;

verus! {

/// Law: every id stored in any of the three stores lies strictly below the
/// allocator counter. Since a create operation stores its new entity under
/// the counter's value and then advances the counter, the id issued next is
/// strictly greater than every id issued before — issued ids strictly
/// increase and are never reused, even across entity types.
pub proof fn lemma_stored_ids_below_counter(s: StateView, id: u64)
    requires
        s.wf(),
        s.contains_id(id),
    ensures
        id < s.next_id,
{
}

/// Law: across the three stores together, no two positions carry the same
/// id — ids are globally unique over users, tickets and assets.
pub proof fn lemma_stored_ids_globally_unique(s: StateView)
    requires
        s.wf(),
    ensures
        forall|i: int, j: int|
            0 <= i < j < s.all_ids().len() ==> #[trigger] s.all_ids()[i] != #[trigger] s.all_ids()[j],
{
    let ul = s.user_ids().len() as int;
    let tl = s.ticket_ids().len() as int;
    let al = s.asset_ids().len() as int;
    assert forall|i: int, j: int|
        0 <= i < j < s.all_ids().len() implies #[trigger] s.all_ids()[i] != #[trigger] s.all_ids()[j] by {
        if i < ul {
            assert(s.all_ids()[i] == s.users[i].id);
        } else if i < ul + tl {
            assert(s.all_ids()[i] == s.tickets[i - ul].id);
        } else {
            assert(s.all_ids()[i] == s.assets[i - ul - tl].id);
        }
        if j < ul {
            assert(s.all_ids()[j] == s.users[j].id);
        } else if j < ul + tl {
            assert(s.all_ids()[j] == s.tickets[j - ul].id);
        } else {
            assert(s.all_ids()[j] == s.assets[j - ul - tl].id);
        }
    }
}

} // verus!
