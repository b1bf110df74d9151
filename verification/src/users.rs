//! Operations on the user store: creation with the uniqueness check on
//! usernames, listing, point lookup, and authentication of a claimed
//! identity-and-role pair.

use vstd::prelude::*;

use crate::state::{lemma_push_user_preserves_wf, HelpdeskState};
use crate::types::{Message, User, UserPayload, UserView};

verus! {

/// Creates a user from the payload, under the next allocator id and the
/// supplied creation time. Rejects an empty username as `InvalidPayload` and
/// a username some stored user already carries as `Error`; no error path
/// changes the state.
pub fn create_user(state: &mut HelpdeskState, payload: UserPayload, now: u64) -> (r: Result<
    User,
    Message,
>)
    requires
        old(state)@.wf(),
        old(state)@.next_id < u64::MAX,
    ensures
        final(state)@.wf(),
        r is Err ==> *final(state) == *old(state),
        payload.username@.len() == 0 ==> r matches Err(Message::InvalidPayload(_)),
        payload.username@.len() > 0 && old(state)@.username_taken(payload.username@) ==> r matches Err(
            Message::Error(_),
        ),
        payload.username@.len() > 0 && !old(state)@.username_taken(payload.username@) ==> (r matches Ok(u)
            && u@ == (UserView {
            id: old(state)@.next_id,
            username: payload.username@,
            role: payload.role,
            created_at: now,
        }) && final(state)@.users == old(state)@.users.push(u@) && final(state)@.next_id == old(
            state,
        )@.next_id + 1 && final(state)@.tickets == old(state)@.tickets && final(state)@.assets
            == old(state)@.assets),
{
    if payload.username.as_str().is_empty() {
        return Err(Message::InvalidPayload("Ensure 'username' and 'role' are provided.".to_owned()));
    }
    if state.find_user_by_username(&payload.username).is_some() {
        return Err(Message::Error("User already exists".to_owned()));
    }

    let ghost pre = state@;
    let id = state.allocate_id();
    let user = User { id, username: payload.username, role: payload.role, created_at: now };
    let result = user.clone();
    proof {
        assert(state@.users.push(user@) =~= state.users@.push(user).map_values(|u: User| u@));
    }
    state.users.push(user);
    proof {
        lemma_push_user_preserves_wf(pre, state@, result@);
    }
    Ok(result)
}

/// Returns every stored user, in store order, each exactly once; an empty
/// store is reported as `NotFound`.
pub fn get_users(state: &HelpdeskState) -> (r: Result<Vec<User>, Message>)
    ensures
        r is Ok <==> state@.users.len() > 0,
        r matches Ok(v) ==> v@.map_values(|u: User| u@) == state@.users,
        r matches Err(m) ==> m is NotFound,
{
    let mut out: Vec<User> = Vec::new();
    let mut j: usize = 0;
    while j < state.users.len()
        invariant
            j <= state.users.len(),
            out@.len() == j,
            forall|k: int| 0 <= k < j ==> (#[trigger] out@[k])@ == state@.users[k],
        decreases state.users.len() - j,
    {
        out.push(state.users[j].clone());
        j = j + 1;
    }
    if out.is_empty() {
        Err(Message::NotFound("No users found".to_owned()))
    } else {
        proof {
            assert(out@.map_values(|u: User| u@) =~= state@.users);
        }
        Ok(out)
    }
}

/// Returns the stored user carrying this id, or `NotFound`.
pub fn get_user_by_id(state: &HelpdeskState, id: u64) -> (r: Result<User, Message>)
    ensures
        r is Ok <==> state@.contains_user_id(id),
        r matches Ok(u) ==> u@.id == id && exists|i: int|
            0 <= i < state@.users.len() && state@.users[i] == u@,
        r matches Err(m) ==> m is NotFound,
{
    match state.find_user_by_id(id) {
        Some(i) => Ok(state.users[i].clone()),
        None => Err(Message::NotFound("User not found".to_owned())),
    }
}

/// Authenticates a claimed identity: succeeds exactly when some stored user
/// carries both the claimed username and the claimed role, and returns that
/// user; any other claim is `UnAuthorized`. This models a permission claim,
/// not a secret credential.
pub fn authenticate_user(state: &HelpdeskState, payload: UserPayload) -> (r: Result<User, Message>)
    ensures
        r is Ok <==> state@.auth_match(payload.username@, payload.role),
        r matches Ok(u) ==> u@.username == payload.username@ && u@.role == payload.role && exists|
            i: int,
        | 0 <= i < state@.users.len() && state@.users[i] == u@,
        r matches Err(m) ==> m is UnAuthorized,
{
    match state.find_user_by_username_and_role(&payload.username, payload.role) {
        Some(i) => Ok(state.users[i].clone()),
        None => Err(Message::UnAuthorized("Invalid credentials".to_owned())),
    }
}

} // verus!
