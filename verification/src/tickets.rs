//! The ticket lifecycle: role-gated creation, role-gated assignment, status
//! updates that append to the ticket's history trail, comment additions that
//! append to its comment trail, listing and point lookup. History and
//! comments only ever grow; assignment and status changes replace the stored
//! ticket in place under its id.

use vstd::pervasive::VecAdditionalExecFns;
use vstd::prelude::*;

use crate::state::{
    lemma_push_ticket_preserves_wf, lemma_update_ticket_preserves_wf, HelpdeskState,
};
use crate::types::{
    may_assign_ticket, may_create_ticket, status_name, AddTicketCommentPayload,
    AssignTicketPayload, Comment, CommentView, Message, Ticket, TicketHistory, TicketHistoryView,
    TicketPayload, TicketStatus, TicketView, UpdateTicketStatusPayload, UserPayload, UserRole,
};
use crate::types::status_label;
use crate::users::authenticate_user;

verus! {

/// Creates a ticket from the payload under the next allocator id: the caller
/// must authenticate and hold a role the permission matrix allows, the title
/// and the description must be non-empty, and the new ticket starts `Open`,
/// unassigned, with empty history and comment trails. No error path changes
/// the state.
pub fn create_ticket(
    state: &mut HelpdeskState,
    payload: TicketPayload,
    user_payload: UserPayload,
    now: u64,
) -> (r: Result<Ticket, Message>)
    requires
        old(state)@.wf(),
        old(state)@.next_id < u64::MAX,
    ensures
        final(state)@.wf(),
        r is Err ==> *final(state) == *old(state),
        !old(state)@.auth_match(user_payload.username@, user_payload.role) ==> (r matches Err(m)
            && m is UnAuthorized),
        old(state)@.auth_match(user_payload.username@, user_payload.role) && !may_create_ticket(
            user_payload.role,
        ) ==> (r matches Err(m) && m is UnAuthorized),
        old(state)@.auth_match(user_payload.username@, user_payload.role) && may_create_ticket(
            user_payload.role,
        ) && (payload.title@.len() == 0 || payload.description@.len() == 0) ==> (r matches Err(m)
            && m is InvalidPayload),
        old(state)@.auth_match(user_payload.username@, user_payload.role) && may_create_ticket(
            user_payload.role,
        ) && payload.title@.len() > 0 && payload.description@.len() > 0 ==> (r matches Ok(t)
            && t@.id == old(state)@.next_id && t@.title == payload.title@ && t@.description
            == payload.description@ && t@.status is Open && t@.priority == payload.priority
            && t@.created_at == now && t@.assigned_to is None && t@.history == Seq::<
            TicketHistoryView,
        >::empty() && t@.comments == Seq::<CommentView>::empty() && (exists|i: int|
            0 <= i < old(state)@.users.len() && (#[trigger] old(state)@.users[i]).username
                == user_payload.username@ && old(state)@.users[i].role == user_payload.role
                && t@.created_by == old(state)@.users[i].id) && final(state)@.tickets == old(state)@.tickets.push(t@) && final(state)@.next_id == old(state)@.next_id + 1 && final(state)@.users == old(state)@.users && final(state)@.assets == old(state)@.assets),
{
    let user = match authenticate_user(state, user_payload) {
        Ok(u) => u,
        Err(e) => { return Err(e) },
    };
    if !(user.role == UserRole::User || user.role == UserRole::Admin) {
        return Err(Message::UnAuthorized("You do not have permission to create a ticket".to_owned()));
    }

    if payload.title.as_str().is_empty() || payload.description.as_str().is_empty() {
        return Err(Message::InvalidPayload("Ensure 'title' and 'description' are provided.".to_owned()));
    }

    let ghost pre = state@;
    let id = state.allocate_id();
    let ticket = Ticket {
        id,
        title: payload.title,
        description: payload.description,
        status: TicketStatus::Open,
        priority: payload.priority,
        created_at: now,
        created_by: user.id,
        assigned_to: None,
        history: Vec::new(),
        comments: Vec::new(),
    };
    let result = ticket.clone();
    proof {
        assert(ticket@.history =~= Seq::<TicketHistoryView>::empty());
        assert(ticket@.comments =~= Seq::<CommentView>::empty());
        assert(state.tickets@.push(ticket).map_values(|t: Ticket| t@) =~= pre.tickets.push(
            ticket@,
        ));
    }
    state.tickets.push(ticket);
    proof {
        lemma_push_ticket_preserves_wf(pre, state@, result@);
    }
    Ok(result)
}

/// Assigns a ticket to a user: the caller must authenticate and hold a role
/// the permission matrix allows, the assignee id must reference a stored
/// user, and the ticket must exist. On success only the ticket's
/// `assigned_to` changes (a repeated assignment overwrites it); no history
/// entry is appended, and no error path changes the state.
pub fn assign_ticket(
    state: &mut HelpdeskState,
    payload: AssignTicketPayload,
    user_payload: UserPayload,
) -> (r: Result<Ticket, Message>)
    requires
        old(state)@.wf(),
    ensures
        final(state)@.wf(),
        r is Err ==> *final(state) == *old(state),
        !old(state)@.auth_match(user_payload.username@, user_payload.role) ==> (r matches Err(m)
            && m is UnAuthorized),
        old(state)@.auth_match(user_payload.username@, user_payload.role) && !may_assign_ticket(
            user_payload.role,
        ) ==> (r matches Err(m) && m is UnAuthorized),
        old(state)@.auth_match(user_payload.username@, user_payload.role) && may_assign_ticket(
            user_payload.role,
        ) && !old(state)@.contains_user_id(payload.assigned_to) ==> (r matches Err(m)
            && m is InvalidPayload),
        old(state)@.auth_match(user_payload.username@, user_payload.role) && may_assign_ticket(
            user_payload.role,
        ) && old(state)@.contains_user_id(payload.assigned_to) && !old(state)@.contains_ticket_id(payload.ticket_id) ==> (r matches Err(m) && m is NotFound),
        old(state)@.auth_match(user_payload.username@, user_payload.role) && may_assign_ticket(
            user_payload.role,
        ) && old(state)@.contains_user_id(payload.assigned_to) && old(state)@.contains_ticket_id(
            payload.ticket_id,
        ) ==> (r matches Ok(t) && (exists|i: int|
            0 <= i < old(state)@.tickets.len() && (#[trigger] old(state)@.tickets[i]).id
                == payload.ticket_id && t@ == (TicketView {
                assigned_to: Some(payload.assigned_to),
                ..old(state)@.tickets[i]
            }) && final(state)@.tickets == old(state)@.tickets.update(i, t@)) && final(state)@.users == old(state)@.users && final(state)@.assets == old(state)@.assets && final(state)@.next_id == old(state)@.next_id),
{
    let user = match authenticate_user(state, user_payload) {
        Ok(u) => u,
        Err(e) => { return Err(e) },
    };
    if !(user.role == UserRole::ITSupport || user.role == UserRole::Admin) {
        return Err(Message::UnAuthorized("You do not have permission to assign a ticket".to_owned()));
    }

    if state.find_user_by_id(payload.assigned_to).is_none() {
        return Err(Message::InvalidPayload("Assigned user does not exist".to_owned()));
    }

    let k = match state.find_ticket_by_id(payload.ticket_id) {
        Some(k) => k,
        None => { return Err(Message::NotFound("Ticket not found".to_owned())) },
    };

    let ghost pre = state@;
    let mut t = state.tickets[k].clone();
    t.assigned_to = Some(payload.assigned_to);
    let result = t.clone();
    state.tickets.set(k, t);
    proof {
        assert(state@.tickets =~= pre.tickets.update(k as int, result@));
        lemma_update_ticket_preserves_wf(pre, state@, k as int, result@);
    }
    Ok(result)
}

/// Sets a ticket's status and appends exactly one history entry carrying the
/// new status's label and the supplied time — also when the new status equals
/// the old one. Any status may move to any status; no role is checked. A
/// missing ticket is `NotFound`, and then nothing changes.
pub fn update_ticket_status(
    state: &mut HelpdeskState,
    payload: UpdateTicketStatusPayload,
    now: u64,
) -> (r: Result<Ticket, Message>)
    requires
        old(state)@.wf(),
    ensures
        final(state)@.wf(),
        r is Err ==> *final(state) == *old(state),
        !old(state)@.contains_ticket_id(payload.id) <==> (r matches Err(m) && m is NotFound),
        old(state)@.contains_ticket_id(payload.id) ==> (r matches Ok(t) && (exists|i: int|
            0 <= i < old(state)@.tickets.len() && (#[trigger] old(state)@.tickets[i]).id
                == payload.id && t@ == (TicketView {
                status: payload.status,
                history: old(state)@.tickets[i].history.push(
                    TicketHistoryView { status: status_name(payload.status), changed_at: now },
                ),
                ..old(state)@.tickets[i]
            }) && final(state)@.tickets == old(state)@.tickets.update(i, t@)) && final(state)@.users == old(state)@.users && final(state)@.assets == old(state)@.assets && final(state)@.next_id == old(state)@.next_id),
{
    let k = match state.find_ticket_by_id(payload.id) {
        Some(k) => k,
        None => { return Err(Message::NotFound("Ticket not found".to_owned())) },
    };

    let ghost pre = state@;
    let mut t = state.tickets[k].clone();
    t.status = payload.status;
    let entry = TicketHistory { status: status_label(payload.status), changed_at: now };
    proof {
        assert(t.history@.push(entry).map_values(|h: TicketHistory| h@) =~= t@.history.push(
            entry@,
        ));
    }
    t.history.push(entry);
    let result = t.clone();
    state.tickets.set(k, t);
    proof {
        assert(state@.tickets =~= pre.tickets.update(k as int, result@));
        lemma_update_ticket_preserves_wf(pre, state@, k as int, result@);
    }
    Ok(result)
}

/// Appends exactly one comment, carrying the supplied author, content and
/// time, to a ticket's comment trail. A missing ticket is `NotFound`; a
/// missing author is `InvalidPayload`; no role is checked, and no error path
/// changes the state.
pub fn add_ticket_comment(
    state: &mut HelpdeskState,
    payload: AddTicketCommentPayload,
    now: u64,
) -> (r: Result<Ticket, Message>)
    requires
        old(state)@.wf(),
    ensures
        final(state)@.wf(),
        r is Err ==> *final(state) == *old(state),
        !old(state)@.contains_ticket_id(payload.ticket_id) ==> (r matches Err(m) && m is NotFound),
        old(state)@.contains_ticket_id(payload.ticket_id) && !old(state)@.contains_user_id(
            payload.user_id,
        ) ==> (r matches Err(m) && m is InvalidPayload),
        old(state)@.contains_ticket_id(payload.ticket_id) && old(state)@.contains_user_id(
            payload.user_id,
        ) ==> (r matches Ok(t) && (exists|i: int|
            0 <= i < old(state)@.tickets.len() && (#[trigger] old(state)@.tickets[i]).id
                == payload.ticket_id && t@ == (TicketView {
                comments: old(state)@.tickets[i].comments.push(
                    CommentView {
                        user_id: payload.user_id,
                        content: payload.content@,
                        commented_at: now,
                    },
                ),
                ..old(state)@.tickets[i]
            }) && final(state)@.tickets == old(state)@.tickets.update(i, t@)) && final(state)@.users == old(state)@.users && final(state)@.assets == old(state)@.assets && final(state)@.next_id == old(state)@.next_id),
{
    let k = match state.find_ticket_by_id(payload.ticket_id) {
        Some(k) => k,
        None => { return Err(Message::NotFound("Ticket not found".to_owned())) },
    };

    if state.find_user_by_id(payload.user_id).is_none() {
        return Err(Message::InvalidPayload("User does not exist".to_owned()));
    }

    let ghost pre = state@;
    let mut t = state.tickets[k].clone();
    let comment = Comment { user_id: payload.user_id, content: payload.content, commented_at: now };
    proof {
        assert(t.comments@.push(comment).map_values(|c: Comment| c@) =~= t@.comments.push(
            comment@,
        ));
    }
    t.comments.push(comment);
    let result = t.clone();
    state.tickets.set(k, t);
    proof {
        assert(state@.tickets =~= pre.tickets.update(k as int, result@));
        lemma_update_ticket_preserves_wf(pre, state@, k as int, result@);
    }
    Ok(result)
}

/// Returns every stored ticket, in store order, each exactly once; an empty
/// store is reported as `NotFound`.
pub fn get_tickets(state: &HelpdeskState) -> (r: Result<Vec<Ticket>, Message>)
    ensures
        r is Ok <==> state@.tickets.len() > 0,
        r matches Ok(v) ==> v@.map_values(|t: Ticket| t@) == state@.tickets,
        r matches Err(m) ==> m is NotFound,
{
    let mut out: Vec<Ticket> = Vec::new();
    let mut j: usize = 0;
    while j < state.tickets.len()
        invariant
            j <= state.tickets.len(),
            out@.len() == j,
            forall|k: int| 0 <= k < j ==> (#[trigger] out@[k])@ == state@.tickets[k],
        decreases state.tickets.len() - j,
    {
        out.push(state.tickets[j].clone());
        j = j + 1;
    }
    if out.is_empty() {
        Err(Message::NotFound("No tickets found".to_owned()))
    } else {
        proof {
            assert(out@.map_values(|t: Ticket| t@) =~= state@.tickets);
        }
        Ok(out)
    }
}

/// Returns the stored ticket carrying this id, or `NotFound`.
pub fn get_ticket_by_id(state: &HelpdeskState, id: u64) -> (r: Result<Ticket, Message>)
    ensures
        r is Ok <==> state@.contains_ticket_id(id),
        r matches Ok(t) ==> t@.id == id && exists|i: int|
            0 <= i < state@.tickets.len() && state@.tickets[i] == t@,
        r matches Err(m) ==> m is NotFound,
{
    match state.find_ticket_by_id(id) {
        Some(i) => Ok(state.tickets[i].clone()),
        None => Err(Message::NotFound("Ticket not found".to_owned())),
    }
}

} // verus!
