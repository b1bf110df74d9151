//! Operations on the IT asset store: role-gated creation, listing, point
//! lookup, and the read path of the valuation: the store hands out the
//! referenced asset's depreciation rate, while the valuation arithmetic
//! itself is floating point and lives with the caller.

use vstd::prelude::*;

use crate::state::{lemma_push_asset_preserves_wf, HelpdeskState};
use crate::types::{
    may_create_it_asset, ITAsset, ITAssetPayload, ITAssetView, Message, UserPayload, UserRole,
};
use crate::users::authenticate_user;

verus! {

/// Creates an asset from the payload under the next allocator id: the caller
/// must authenticate and hold a role the permission matrix allows, the asset
/// name must be non-empty, and the assignee id must reference a stored user.
/// No error path changes the state.
pub fn create_it_asset(
    state: &mut HelpdeskState,
    payload: ITAssetPayload,
    user_payload: UserPayload,
) -> (r: Result<ITAsset, Message>)
    requires
        old(state)@.wf(),
        old(state)@.next_id < u64::MAX,
    ensures
        final(state)@.wf(),
        r is Err ==> *final(state) == *old(state),
        !old(state)@.auth_match(user_payload.username@, user_payload.role) ==> (r matches Err(m)
            && m is UnAuthorized),
        old(state)@.auth_match(user_payload.username@, user_payload.role) && !may_create_it_asset(
            user_payload.role,
        ) ==> (r matches Err(m) && m is UnAuthorized),
        old(state)@.auth_match(user_payload.username@, user_payload.role) && may_create_it_asset(
            user_payload.role,
        ) && payload.asset_name@.len() == 0 ==> (r matches Err(m) && m is InvalidPayload),
        old(state)@.auth_match(user_payload.username@, user_payload.role) && may_create_it_asset(
            user_payload.role,
        ) && payload.asset_name@.len() > 0 && !old(state)@.contains_user_id(payload.assigned_to)
            ==> (r matches Err(m) && m is InvalidPayload),
        old(state)@.auth_match(user_payload.username@, user_payload.role) && may_create_it_asset(
            user_payload.role,
        ) && payload.asset_name@.len() > 0 && old(state)@.contains_user_id(payload.assigned_to)
            ==> (r matches Ok(a) && a@ == (ITAssetView {
            id: old(state)@.next_id,
            asset_name: payload.asset_name@,
            asset_type: payload.asset_type,
            purchase_date: payload.purchase_date,
            assigned_to: payload.assigned_to,
            approx_value_bits: payload.approx_value_bits,
            depreciation_rate_bits: payload.depreciation_rate_bits,
        }) && final(state)@.assets == old(state)@.assets.push(a@) && final(state)@.next_id == old(
            state,
        )@.next_id + 1 && final(state)@.users == old(state)@.users && final(state)@.tickets == old(
            state,
        )@.tickets),
{
    let user = match authenticate_user(state, user_payload) {
        Ok(u) => u,
        Err(e) => { return Err(e) },
    };
    if !(user.role == UserRole::ITSupport || user.role == UserRole::Admin) {
        return Err(Message::UnAuthorized("You do not have permission to create an IT asset.".to_owned()));
    }

    if payload.asset_name.as_str().is_empty() {
        return Err(Message::InvalidPayload("Ensure 'asset_name' and 'asset_type' are provided.".to_owned()));
    }

    if state.find_user_by_id(payload.assigned_to).is_none() {
        return Err(Message::InvalidPayload("Assigned user does not exist".to_owned()));
    }

    let ghost pre = state@;
    let id = state.allocate_id();
    let asset = ITAsset {
        id,
        asset_name: payload.asset_name,
        asset_type: payload.asset_type,
        purchase_date: payload.purchase_date,
        assigned_to: payload.assigned_to,
        approx_value_bits: payload.approx_value_bits,
        depreciation_rate_bits: payload.depreciation_rate_bits,
    };
    let result = asset.clone();
    proof {
        assert(state.assets@.push(asset).map_values(|a: ITAsset| a@) =~= pre.assets.push(asset@));
    }
    state.assets.push(asset);
    proof {
        lemma_push_asset_preserves_wf(pre, state@, result@);
    }
    Ok(result)
}

/// Returns every stored asset, in store order, each exactly once; an empty
/// store is reported as `NotFound`.
pub fn get_it_assets(state: &HelpdeskState) -> (r: Result<Vec<ITAsset>, Message>)
    ensures
        r is Ok <==> state@.assets.len() > 0,
        r matches Ok(v) ==> v@.map_values(|a: ITAsset| a@) == state@.assets,
        r matches Err(m) ==> m is NotFound,
{
    let mut out: Vec<ITAsset> = Vec::new();
    let mut j: usize = 0;
    while j < state.assets.len()
        invariant
            j <= state.assets.len(),
            out@.len() == j,
            forall|k: int| 0 <= k < j ==> (#[trigger] out@[k])@ == state@.assets[k],
        decreases state.assets.len() - j,
    {
        out.push(state.assets[j].clone());
        j = j + 1;
    }
    if out.is_empty() {
        Err(Message::NotFound("No IT assets found".to_owned()))
    } else {
        proof {
            assert(out@.map_values(|a: ITAsset| a@) =~= state@.assets);
        }
        Ok(out)
    }
}

/// Returns the stored asset carrying this id, or `NotFound`.
pub fn get_it_asset_by_id(state: &HelpdeskState, id: u64) -> (r: Result<ITAsset, Message>)
    ensures
        r is Ok <==> state@.contains_asset_id(id),
        r matches Ok(a) ==> a@.id == id && exists|i: int|
            0 <= i < state@.assets.len() && state@.assets[i] == a@,
        r matches Err(m) ==> m is NotFound,
{
    match state.find_asset_by_id(id) {
        Some(i) => Ok(state.assets[i].clone()),
        None => Err(Message::NotFound("IT asset not found".to_owned())),
    }
}

/// The read path of the valuation: returns the stored depreciation rate (an
/// IEEE 754 bit pattern, kept as the asset was created with) of the asset
/// carrying this id, or `NotFound`. The compounding of the rate over a year
/// count is floating-point arithmetic and stays with the caller.
pub fn depreciation_rate_bits(state: &HelpdeskState, it_asset_id: u64) -> (r: Result<u64, Message>)
    ensures
        r is Ok <==> state@.contains_asset_id(it_asset_id),
        r matches Ok(bits) ==> exists|i: int|
            0 <= i < state@.assets.len() && (#[trigger] state@.assets[i]).id == it_asset_id
                && state@.assets[i].depreciation_rate_bits == bits,
        r matches Err(m) ==> m is NotFound,
{
    match state.find_asset_by_id(it_asset_id) {
        Some(i) => Ok(state.assets[i].depreciation_rate_bits),
        None => Err(Message::NotFound("IT asset not found".to_owned())),
    }
}

} // verus!
