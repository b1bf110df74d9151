//! The storage context: the monotonic id allocator and the three entity
//! stores, owned together and passed explicitly to every operation. The
//! well-formedness invariant ties them: every stored id lies below the
//! counter, ids grow strictly within each store and never collide across
//! stores, and no two users share a username.

use vstd::prelude::*;

use crate::types::{ITAsset, ITAssetView, Ticket, TicketView, User, UserRole, UserView};

verus! {

/// The allocator counter and the three entity stores. Entities stand in
/// allocation order, so a store's sequence order is also its key order.
pub struct HelpdeskState {
    pub next_id: u64,
    pub users: Vec<User>,
    pub tickets: Vec<Ticket>,
    pub assets: Vec<ITAsset>,
}

/// The mathematical image of a `HelpdeskState`.
pub struct StateView {
    pub next_id: u64,
    pub users: Seq<UserView>,
    pub tickets: Seq<TicketView>,
    pub assets: Seq<ITAssetView>,
}

impl View for HelpdeskState {
    type V = StateView;

    open spec fn view(&self) -> StateView {
        StateView {
            next_id: self.next_id,
            users: self.users@.map_values(|u: User| u@),
            tickets: self.tickets@.map_values(|t: Ticket| t@),
            assets: self.assets@.map_values(|a: ITAsset| a@),
        }
    }
}

impl StateView {
    /// Some stored user carries this id.
    pub open spec fn contains_user_id(self, id: u64) -> bool {
        exists|i: int| 0 <= i < self.users.len() && #[trigger] self.users[i].id == id
    }

    /// Some stored ticket carries this id.
    pub open spec fn contains_ticket_id(self, id: u64) -> bool {
        exists|i: int| 0 <= i < self.tickets.len() && #[trigger] self.tickets[i].id == id
    }

    /// Some stored asset carries this id.
    pub open spec fn contains_asset_id(self, id: u64) -> bool {
        exists|i: int| 0 <= i < self.assets.len() && #[trigger] self.assets[i].id == id
    }

    /// Some stored entity of any kind carries this id.
    pub open spec fn contains_id(self, id: u64) -> bool {
        self.contains_user_id(id) || self.contains_ticket_id(id) || self.contains_asset_id(id)
    }

    /// Some stored user carries this username.
    pub open spec fn username_taken(self, name: Seq<char>) -> bool {
        exists|i: int| 0 <= i < self.users.len() && #[trigger] self.users[i].username == name
    }

    /// Some stored user carries exactly this username and this role: the
    /// condition under which authentication of the pair succeeds.
    pub open spec fn auth_match(self, name: Seq<char>, role: UserRole) -> bool {
        exists|i: int|
            0 <= i < self.users.len() && (#[trigger] self.users[i]).username == name
                && self.users[i].role == role
    }

    /// The ids of the stored users, in store order.
    pub open spec fn user_ids(self) -> Seq<u64> {
        self.users.map_values(|u: UserView| u.id)
    }

    /// The ids of the stored tickets, in store order.
    pub open spec fn ticket_ids(self) -> Seq<u64> {
        self.tickets.map_values(|t: TicketView| t.id)
    }

    /// The ids of the stored assets, in store order.
    pub open spec fn asset_ids(self) -> Seq<u64> {
        self.assets.map_values(|a: ITAssetView| a.id)
    }

    /// Every id ever issued, across all three stores, in store-by-store order.
    pub open spec fn all_ids(self) -> Seq<u64> {
        self.user_ids() + self.ticket_ids() + self.asset_ids()
    }

    /// The well-formedness invariant of the storage context: constructors
    /// establish it and every operation preserves it.
    pub open spec fn wf(self) -> bool {
        &&& forall|i: int|
            0 <= i < self.users.len() ==> (#[trigger] self.users[i]).id < self.next_id
        &&& forall|i: int|
            0 <= i < self.tickets.len() ==> (#[trigger] self.tickets[i]).id < self.next_id
        &&& forall|i: int|
            0 <= i < self.assets.len() ==> (#[trigger] self.assets[i]).id < self.next_id
        &&& forall|i: int, j: int|
            0 <= i < j < self.users.len() ==> (#[trigger] self.users[i]).id < (
            #[trigger] self.users[j]).id
        &&& forall|i: int, j: int|
            0 <= i < j < self.tickets.len() ==> (#[trigger] self.tickets[i]).id < (
            #[trigger] self.tickets[j]).id
        &&& forall|i: int, j: int|
            0 <= i < j < self.assets.len() ==> (#[trigger] self.assets[i]).id < (
            #[trigger] self.assets[j]).id
        &&& forall|i: int, j: int|
            0 <= i < self.users.len() && 0 <= j < self.tickets.len() ==> (
            #[trigger] self.users[i]).id != (#[trigger] self.tickets[j]).id
        &&& forall|i: int, j: int|
            0 <= i < self.users.len() && 0 <= j < self.assets.len() ==> (
            #[trigger] self.users[i]).id != (#[trigger] self.assets[j]).id
        &&& forall|i: int, j: int|
            0 <= i < self.tickets.len() && 0 <= j < self.assets.len() ==> (
            #[trigger] self.tickets[i]).id != (#[trigger] self.assets[j]).id
        &&& forall|i: int, j: int|
            0 <= i < j < self.users.len() ==> (#[trigger] self.users[i]).username != (
            #[trigger] self.users[j]).username
    }
}

impl HelpdeskState {
    /// An empty storage context. The counter starts at zero, so the first
    /// issued id is zero.
    pub fn new() -> (s: Self)
        ensures
            s@.wf(),
            s@.next_id == 0,
            s@.users == Seq::<UserView>::empty(),
            s@.tickets == Seq::<TicketView>::empty(),
            s@.assets == Seq::<ITAssetView>::empty(),
    {
        let s = HelpdeskState { next_id: 0, users: Vec::new(), tickets: Vec::new(), assets: Vec::new() };
        proof {
            assert(s@.users =~= Seq::<UserView>::empty());
            assert(s@.tickets =~= Seq::<TicketView>::empty());
            assert(s@.assets =~= Seq::<ITAssetView>::empty());
        }
        s
    }

    /// Issues the next id: returns the counter's current value and advances
    /// it, so every later call returns a strictly greater value.
    pub fn allocate_id(&mut self) -> (id: u64)
        requires
            old(self)@.next_id < u64::MAX,
        ensures
            id == old(self)@.next_id,
            final(self)@.next_id == old(self)@.next_id + 1,
            final(self)@.users == old(self)@.users,
            final(self)@.tickets == old(self)@.tickets,
            final(self)@.assets == old(self)@.assets,
    {
        let id = self.next_id;
        self.next_id = self.next_id + 1;
        id
    }

    /// Scans the user store for a username; returns the index of a match.
    pub fn find_user_by_username(&self, name: &String) -> (r: Option<usize>)
        ensures
            match r {
                Some(i) => i < self@.users.len() && self@.users[i as int].username == name@,
                None => !self@.username_taken(name@),
            },
    {
        let mut j: usize = 0;
        while j < self.users.len()
            invariant
                j <= self.users.len(),
                forall|k: int| 0 <= k < j ==> (#[trigger] self@.users[k]).username != name@,
            decreases self.users.len() - j,
        {
            if self.users[j].username == *name {
                return Some(j);
            }
            j = j + 1;
        }
        None
    }

    /// Scans the user store for a username-and-role pair; returns the index
    /// of a match.
    pub fn find_user_by_username_and_role(&self, name: &String, role: UserRole) -> (r: Option<
        usize,
    >)
        ensures
            match r {
                Some(i) => i < self@.users.len() && self@.users[i as int].username == name@
                    && self@.users[i as int].role == role,
                None => !self@.auth_match(name@, role),
            },
    {
        let mut j: usize = 0;
        while j < self.users.len()
            invariant
                j <= self.users.len(),
                forall|k: int|
                    0 <= k < j ==> !((#[trigger] self@.users[k]).username == name@
                        && self@.users[k].role == role),
            decreases self.users.len() - j,
        {
            if self.users[j].username == *name && self.users[j].role == role {
                return Some(j);
            }
            j = j + 1;
        }
        None
    }

    /// Scans the user store for an id; returns the index of a match.
    pub fn find_user_by_id(&self, id: u64) -> (r: Option<usize>)
        ensures
            match r {
                Some(i) => i < self@.users.len() && self@.users[i as int].id == id,
                None => !self@.contains_user_id(id),
            },
    {
        let mut j: usize = 0;
        while j < self.users.len()
            invariant
                j <= self.users.len(),
                forall|k: int| 0 <= k < j ==> (#[trigger] self@.users[k]).id != id,
            decreases self.users.len() - j,
        {
            if self.users[j].id == id {
                return Some(j);
            }
            j = j + 1;
        }
        None
    }

    /// Scans the ticket store for an id; returns the index of a match.
    pub fn find_ticket_by_id(&self, id: u64) -> (r: Option<usize>)
        ensures
            match r {
                Some(i) => i < self@.tickets.len() && self@.tickets[i as int].id == id,
                None => !self@.contains_ticket_id(id),
            },
    {
        let mut j: usize = 0;
        while j < self.tickets.len()
            invariant
                j <= self.tickets.len(),
                forall|k: int| 0 <= k < j ==> (#[trigger] self@.tickets[k]).id != id,
            decreases self.tickets.len() - j,
        {
            if self.tickets[j].id == id {
                return Some(j);
            }
            j = j + 1;
        }
        None
    }

    /// Scans the asset store for an id; returns the index of a match.
    pub fn find_asset_by_id(&self, id: u64) -> (r: Option<usize>)
        ensures
            match r {
                Some(i) => i < self@.assets.len() && self@.assets[i as int].id == id,
                None => !self@.contains_asset_id(id),
            },
    {
        let mut j: usize = 0;
        while j < self.assets.len()
            invariant
                j <= self.assets.len(),
                forall|k: int| 0 <= k < j ==> (#[trigger] self@.assets[k]).id != id,
            decreases self.assets.len() - j,
        {
            if self.assets[j].id == id {
                return Some(j);
            }
            j = j + 1;
        }
        None
    }
}

/// Appending a user whose id is the counter's value, and advancing the
/// counter, keeps the context well-formed, provided the username is fresh.
pub proof fn lemma_push_user_preserves_wf(pre: StateView, post: StateView, u: UserView)
    requires
        pre.wf(),
        u.id == pre.next_id,
        pre.next_id < u64::MAX,
        !pre.username_taken(u.username),
        post.users == pre.users.push(u),
        post.tickets == pre.tickets,
        post.assets == pre.assets,
        post.next_id == pre.next_id + 1,
    ensures
        post.wf(),
{
}

/// Appending a ticket whose id is the counter's value, and advancing the
/// counter, keeps the context well-formed.
pub proof fn lemma_push_ticket_preserves_wf(pre: StateView, post: StateView, t: TicketView)
    requires
        pre.wf(),
        t.id == pre.next_id,
        pre.next_id < u64::MAX,
        post.users == pre.users,
        post.tickets == pre.tickets.push(t),
        post.assets == pre.assets,
        post.next_id == pre.next_id + 1,
    ensures
        post.wf(),
{
}

/// Appending an asset whose id is the counter's value, and advancing the
/// counter, keeps the context well-formed.
pub proof fn lemma_push_asset_preserves_wf(pre: StateView, post: StateView, a: ITAssetView)
    requires
        pre.wf(),
        a.id == pre.next_id,
        pre.next_id < u64::MAX,
        post.users == pre.users,
        post.tickets == pre.tickets,
        post.assets == pre.assets.push(a),
        post.next_id == pre.next_id + 1,
    ensures
        post.wf(),
{
}

/// Replacing a stored ticket by one that keeps its id keeps the context
/// well-formed.
pub proof fn lemma_update_ticket_preserves_wf(pre: StateView, post: StateView, k: int, t: TicketView)
    requires
        pre.wf(),
        0 <= k < pre.tickets.len(),
        t.id == pre.tickets[k].id,
        post.users == pre.users,
        post.tickets == pre.tickets.update(k, t),
        post.assets == pre.assets,
        post.next_id == pre.next_id,
    ensures
        post.wf(),
{
}

} // verus!
