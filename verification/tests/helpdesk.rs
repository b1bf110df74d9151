use helpdesk::assets::{create_it_asset, depreciation_rate_bits, get_it_asset_by_id, get_it_assets};
use helpdesk::state::HelpdeskState;
use helpdesk::tickets::{
    add_ticket_comment, assign_ticket, create_ticket, get_ticket_by_id, get_tickets,
    update_ticket_status,
};
use helpdesk::types::{
    AddTicketCommentPayload, AssetType, AssignTicketPayload, ITAssetPayload, Message, Ticket,
    TicketPayload, TicketPriority, TicketStatus, UpdateTicketStatusPayload, UserPayload, UserRole,
    status_label,
};
use helpdesk::users::{authenticate_user, create_user, get_user_by_id, get_users};

fn user_payload(name: &str, role: UserRole) -> UserPayload {
    UserPayload { username: name.to_string(), role }
}

fn ticket_payload(title: &str, description: &str, priority: TicketPriority) -> TicketPayload {
    TicketPayload { title: title.to_string(), description: description.to_string(), priority }
}

fn asset_payload(name: &str, assigned_to: u64, rate: f64) -> ITAssetPayload {
    ITAssetPayload {
        asset_name: name.to_string(),
        asset_type: AssetType::Laptop,
        purchase_date: 40,
        assigned_to,
        approx_value_bits: (1500.0_f64).to_bits(),
        depreciation_rate_bits: rate.to_bits(),
    }
}

fn must_create_user(state: &mut HelpdeskState, name: &str, role: UserRole, now: u64) -> u64 {
    match create_user(state, user_payload(name, role), now) {
        Ok(u) => u.id,
        Err(_) => panic!("user creation failed"),
    }
}

fn must_create_ticket(state: &mut HelpdeskState, caller: &str, role: UserRole, now: u64) -> Ticket {
    match create_ticket(
        state,
        ticket_payload("Printer jam", "desc", TicketPriority::Low),
        user_payload(caller, role),
        now,
    ) {
        Ok(t) => t,
        Err(_) => panic!("ticket creation failed"),
    }
}

#[test]
fn allocator_ids_strictly_increase_across_types() {
    let mut s = HelpdeskState::new();
    let alice = must_create_user(&mut s, "alice", UserRole::User, 1);
    let t = must_create_ticket(&mut s, "alice", UserRole::User, 2);
    let admin = user_payload_admin(&mut s);
    let a = match create_it_asset(&mut s, asset_payload("ThinkPad", alice, 10.0), admin) {
        Ok(a) => a,
        Err(_) => panic!("asset creation failed"),
    };
    let bob = must_create_user(&mut s, "bob", UserRole::ITSupport, 5);
    let ids = [alice, t.id, a.id, bob];
    for w in ids.windows(2) {
        assert!(w[0] < w[1]);
    }
    assert_eq!(ids, [0, 1, 3, 4]);
}

// Creating the admin allocates one id of its own; the helper returns the
// admin's claim for the asset call above.
fn user_payload_admin(state: &mut HelpdeskState) -> UserPayload {
    must_create_user(state, "root", UserRole::Admin, 3);
    user_payload("root", UserRole::Admin)
}

#[test]
fn create_user_rejects_empty_username() {
    let mut s = HelpdeskState::new();
    let r = create_user(&mut s, user_payload("", UserRole::User), 1);
    assert!(matches!(r, Err(Message::InvalidPayload(_))));
}

#[test]
fn create_user_rejects_duplicate_username() {
    let mut s = HelpdeskState::new();
    must_create_user(&mut s, "alice", UserRole::User, 1);
    let r = create_user(&mut s, user_payload("alice", UserRole::Admin), 2);
    assert!(matches!(r, Err(Message::Error(_))));
    let users = get_users(&s).unwrap_or_else(|_| panic!("no users"));
    assert_eq!(users.len(), 1);
}

#[test]
fn authenticate_needs_exact_username_and_role() {
    let mut s = HelpdeskState::new();
    must_create_user(&mut s, "alice", UserRole::ITSupport, 1);
    let ok = authenticate_user(&s, user_payload("alice", UserRole::ITSupport));
    match ok {
        Ok(u) => {
            assert_eq!(u.username, "alice".to_string());
            assert_eq!(u.role, UserRole::ITSupport);
        }
        Err(_) => panic!("exact match must authenticate"),
    }
    let wrong_role = authenticate_user(&s, user_payload("alice", UserRole::Admin));
    assert!(matches!(wrong_role, Err(Message::UnAuthorized(_))));
    let wrong_name = authenticate_user(&s, user_payload("alicia", UserRole::ITSupport));
    assert!(matches!(wrong_name, Err(Message::UnAuthorized(_))));
}

#[test]
fn get_users_empty_store_is_not_found() {
    let s = HelpdeskState::new();
    assert!(matches!(get_users(&s), Err(Message::NotFound(_))));
}

#[test]
fn get_users_returns_every_record_once() {
    let mut s = HelpdeskState::new();
    must_create_user(&mut s, "alice", UserRole::User, 1);
    must_create_user(&mut s, "bob", UserRole::Admin, 2);
    match get_users(&s) {
        Ok(users) => {
            let names: Vec<String> = users.iter().map(|u| u.username.clone()).collect();
            assert_eq!(names, vec!["alice".to_string(), "bob".to_string()]);
        }
        Err(_) => panic!("two users are stored"),
    }
}

#[test]
fn get_user_by_id_looks_up_by_primary_key() {
    let mut s = HelpdeskState::new();
    let id = must_create_user(&mut s, "alice", UserRole::User, 1);
    match get_user_by_id(&s, id) {
        Ok(u) => assert_eq!(u.username, "alice".to_string()),
        Err(_) => panic!("stored user must be found"),
    }
    assert!(matches!(get_user_by_id(&s, 999), Err(Message::NotFound(_))));
}

#[test]
fn created_ticket_starts_open_and_empty() {
    let mut s = HelpdeskState::new();
    let creator = must_create_user(&mut s, "alice", UserRole::User, 1);
    let t = must_create_ticket(&mut s, "alice", UserRole::User, 2);
    assert_eq!(t.status, TicketStatus::Open);
    assert_eq!(t.priority, TicketPriority::Low);
    assert_eq!(t.title, "Printer jam".to_string());
    assert_eq!(t.description, "desc".to_string());
    assert!(t.history.is_empty());
    assert!(t.comments.is_empty());
    assert_eq!(t.assigned_to, None);
    assert_eq!(t.created_by, creator);
    assert_eq!(t.created_at, 2);
}

#[test]
fn create_ticket_requires_user_or_admin_role() {
    let mut s = HelpdeskState::new();
    must_create_user(&mut s, "sam", UserRole::ITSupport, 1);
    must_create_user(&mut s, "root", UserRole::Admin, 2);
    let denied = create_ticket(
        &mut s,
        ticket_payload("Printer jam", "desc", TicketPriority::Low),
        user_payload("sam", UserRole::ITSupport),
        3,
    );
    assert!(matches!(denied, Err(Message::UnAuthorized(_))));
    let allowed = create_ticket(
        &mut s,
        ticket_payload("Printer jam", "desc", TicketPriority::Low),
        user_payload("root", UserRole::Admin),
        4,
    );
    assert!(allowed.is_ok());
}

#[test]
fn create_ticket_rejects_unknown_caller() {
    let mut s = HelpdeskState::new();
    let r = create_ticket(
        &mut s,
        ticket_payload("Printer jam", "desc", TicketPriority::Low),
        user_payload("ghost", UserRole::User),
        1,
    );
    assert!(matches!(r, Err(Message::UnAuthorized(_))));
}

#[test]
fn create_ticket_rejects_empty_title_or_description() {
    let mut s = HelpdeskState::new();
    must_create_user(&mut s, "alice", UserRole::User, 1);
    let no_title = create_ticket(
        &mut s,
        ticket_payload("", "desc", TicketPriority::High),
        user_payload("alice", UserRole::User),
        2,
    );
    assert!(matches!(no_title, Err(Message::InvalidPayload(_))));
    let no_desc = create_ticket(
        &mut s,
        ticket_payload("Printer jam", "", TicketPriority::High),
        user_payload("alice", UserRole::User),
        3,
    );
    assert!(matches!(no_desc, Err(Message::InvalidPayload(_))));
}

#[test]
fn repeated_status_update_appends_two_labeled_entries() {
    let mut s = HelpdeskState::new();
    must_create_user(&mut s, "alice", UserRole::User, 1);
    let t = must_create_ticket(&mut s, "alice", UserRole::User, 2);
    let first = update_ticket_status(
        &mut s,
        UpdateTicketStatusPayload { id: t.id, status: TicketStatus::InProgress },
        10,
    );
    assert!(first.is_ok());
    let second = update_ticket_status(
        &mut s,
        UpdateTicketStatusPayload { id: t.id, status: TicketStatus::InProgress },
        11,
    );
    match second {
        Ok(u) => {
            assert_eq!(u.status, TicketStatus::InProgress);
            assert_eq!(u.history.len(), 2);
            assert_eq!(u.history[0].status, "InProgress".to_string());
            assert_eq!(u.history[1].status, "InProgress".to_string());
            assert_eq!(u.history[0].changed_at, 10);
            assert_eq!(u.history[1].changed_at, 11);
        }
        Err(_) => panic!("status update on a stored ticket must succeed"),
    }
}

#[test]
fn update_status_on_missing_ticket_is_not_found() {
    let mut s = HelpdeskState::new();
    let r = update_ticket_status(
        &mut s,
        UpdateTicketStatusPayload { id: 42, status: TicketStatus::Closed },
        1,
    );
    assert!(matches!(r, Err(Message::NotFound(_))));
}

#[test]
fn assign_ticket_sets_assignee() {
    let mut s = HelpdeskState::new();
    must_create_user(&mut s, "alice", UserRole::User, 1);
    let sam = must_create_user(&mut s, "sam", UserRole::ITSupport, 2);
    let t = must_create_ticket(&mut s, "alice", UserRole::User, 3);
    let r = assign_ticket(
        &mut s,
        AssignTicketPayload { ticket_id: t.id, assigned_to: sam },
        user_payload("sam", UserRole::ITSupport),
    );
    match r {
        Ok(u) => assert_eq!(u.assigned_to, Some(sam)),
        Err(_) => panic!("assignment must succeed"),
    }
}

#[test]
fn assign_ticket_rejects_unknown_assignee_and_leaves_ticket_unchanged() {
    let mut s = HelpdeskState::new();
    must_create_user(&mut s, "alice", UserRole::User, 1);
    must_create_user(&mut s, "sam", UserRole::ITSupport, 2);
    let t = must_create_ticket(&mut s, "alice", UserRole::User, 3);
    let r = assign_ticket(
        &mut s,
        AssignTicketPayload { ticket_id: t.id, assigned_to: 999 },
        user_payload("sam", UserRole::ITSupport),
    );
    assert!(matches!(r, Err(Message::InvalidPayload(_))));
    match get_ticket_by_id(&s, t.id) {
        Ok(u) => assert_eq!(u.assigned_to, None),
        Err(_) => panic!("ticket is stored"),
    }
}

#[test]
fn assign_ticket_on_missing_ticket_is_not_found() {
    let mut s = HelpdeskState::new();
    let sam = must_create_user(&mut s, "sam", UserRole::ITSupport, 1);
    let r = assign_ticket(
        &mut s,
        AssignTicketPayload { ticket_id: 42, assigned_to: sam },
        user_payload("sam", UserRole::ITSupport),
    );
    assert!(matches!(r, Err(Message::NotFound(_))));
}

#[test]
fn assign_ticket_requires_support_or_admin_role() {
    let mut s = HelpdeskState::new();
    let alice = must_create_user(&mut s, "alice", UserRole::User, 1);
    let t = must_create_ticket(&mut s, "alice", UserRole::User, 2);
    let r = assign_ticket(
        &mut s,
        AssignTicketPayload { ticket_id: t.id, assigned_to: alice },
        user_payload("alice", UserRole::User),
    );
    assert!(matches!(r, Err(Message::UnAuthorized(_))));
}

#[test]
fn comment_on_missing_ticket_is_not_found() {
    let mut s = HelpdeskState::new();
    must_create_user(&mut s, "alice", UserRole::User, 1);
    let r = add_ticket_comment(
        &mut s,
        AddTicketCommentPayload { ticket_id: 42, user_id: 0, content: "hello".to_string() },
        2,
    );
    assert!(matches!(r, Err(Message::NotFound(_))));
}

#[test]
fn comment_by_missing_user_is_invalid_payload() {
    let mut s = HelpdeskState::new();
    must_create_user(&mut s, "alice", UserRole::User, 1);
    let t = must_create_ticket(&mut s, "alice", UserRole::User, 2);
    let r = add_ticket_comment(
        &mut s,
        AddTicketCommentPayload { ticket_id: t.id, user_id: 999, content: "hello".to_string() },
        3,
    );
    assert!(matches!(r, Err(Message::InvalidPayload(_))));
}

#[test]
fn comment_appends_exactly_one_entry_with_later_timestamp() {
    let mut s = HelpdeskState::new();
    let alice = must_create_user(&mut s, "alice", UserRole::User, 1);
    let t = must_create_ticket(&mut s, "alice", UserRole::User, 2);
    let r = add_ticket_comment(
        &mut s,
        AddTicketCommentPayload { ticket_id: t.id, user_id: alice, content: "paper out".to_string() },
        7,
    );
    match r {
        Ok(u) => {
            assert_eq!(u.comments.len(), 1);
            assert_eq!(u.comments[0].user_id, alice);
            assert_eq!(u.comments[0].content, "paper out".to_string());
            assert!(u.comments[0].commented_at >= u.created_at);
        }
        Err(_) => panic!("comment on valid inputs must succeed"),
    }
}

#[test]
fn get_tickets_empty_store_is_not_found() {
    let s = HelpdeskState::new();
    assert!(matches!(get_tickets(&s), Err(Message::NotFound(_))));
}

#[test]
fn get_tickets_returns_every_record_once() {
    let mut s = HelpdeskState::new();
    must_create_user(&mut s, "alice", UserRole::User, 1);
    let t1 = must_create_ticket(&mut s, "alice", UserRole::User, 2);
    let t2 = must_create_ticket(&mut s, "alice", UserRole::User, 3);
    match get_tickets(&s) {
        Ok(ts) => {
            let ids: Vec<u64> = ts.iter().map(|t| t.id).collect();
            assert_eq!(ids, vec![t1.id, t2.id]);
        }
        Err(_) => panic!("two tickets are stored"),
    }
}

#[test]
fn get_ticket_by_id_looks_up_by_primary_key() {
    let mut s = HelpdeskState::new();
    must_create_user(&mut s, "alice", UserRole::User, 1);
    let t = must_create_ticket(&mut s, "alice", UserRole::User, 2);
    match get_ticket_by_id(&s, t.id) {
        Ok(u) => assert_eq!(u.title, "Printer jam".to_string()),
        Err(_) => panic!("stored ticket must be found"),
    }
    assert!(matches!(get_ticket_by_id(&s, 999), Err(Message::NotFound(_))));
}

#[test]
fn created_asset_keeps_its_fields() {
    let mut s = HelpdeskState::new();
    let sam = must_create_user(&mut s, "sam", UserRole::ITSupport, 1);
    let r = create_it_asset(&mut s, asset_payload("ThinkPad", sam, 12.5), user_payload("sam", UserRole::ITSupport));
    match r {
        Ok(a) => {
            assert_eq!(a.asset_name, "ThinkPad".to_string());
            assert_eq!(a.asset_type, AssetType::Laptop);
            assert_eq!(a.purchase_date, 40);
            assert_eq!(a.assigned_to, sam);
            assert_eq!(f64::from_bits(a.approx_value_bits), 1500.0);
            assert_eq!(f64::from_bits(a.depreciation_rate_bits), 12.5);
        }
        Err(_) => panic!("asset creation must succeed"),
    }
}

#[test]
fn create_asset_requires_support_or_admin_role() {
    let mut s = HelpdeskState::new();
    let alice = must_create_user(&mut s, "alice", UserRole::User, 1);
    let r = create_it_asset(&mut s, asset_payload("ThinkPad", alice, 10.0), user_payload("alice", UserRole::User));
    assert!(matches!(r, Err(Message::UnAuthorized(_))));
}

#[test]
fn create_asset_rejects_empty_name() {
    let mut s = HelpdeskState::new();
    let sam = must_create_user(&mut s, "sam", UserRole::ITSupport, 1);
    let r = create_it_asset(&mut s, asset_payload("", sam, 10.0), user_payload("sam", UserRole::ITSupport));
    assert!(matches!(r, Err(Message::InvalidPayload(_))));
}

#[test]
fn create_asset_rejects_unknown_assignee() {
    let mut s = HelpdeskState::new();
    must_create_user(&mut s, "sam", UserRole::ITSupport, 1);
    let r = create_it_asset(&mut s, asset_payload("ThinkPad", 999, 10.0), user_payload("sam", UserRole::ITSupport));
    assert!(matches!(r, Err(Message::InvalidPayload(_))));
}

#[test]
fn get_it_assets_empty_store_is_not_found() {
    let s = HelpdeskState::new();
    assert!(matches!(get_it_assets(&s), Err(Message::NotFound(_))));
}

#[test]
fn get_it_assets_returns_every_record_once() {
    let mut s = HelpdeskState::new();
    let sam = must_create_user(&mut s, "sam", UserRole::ITSupport, 1);
    let a1 = match create_it_asset(&mut s, asset_payload("ThinkPad", sam, 10.0), user_payload("sam", UserRole::ITSupport)) {
        Ok(a) => a,
        Err(_) => panic!("asset creation must succeed"),
    };
    let a2 = match create_it_asset(&mut s, asset_payload("Monitor", sam, 5.0), user_payload("sam", UserRole::ITSupport)) {
        Ok(a) => a,
        Err(_) => panic!("asset creation must succeed"),
    };
    match get_it_assets(&s) {
        Ok(assets) => {
            let ids: Vec<u64> = assets.iter().map(|a| a.id).collect();
            assert_eq!(ids, vec![a1.id, a2.id]);
        }
        Err(_) => panic!("two assets are stored"),
    }
}

#[test]
fn get_it_asset_by_id_looks_up_by_primary_key() {
    let mut s = HelpdeskState::new();
    let sam = must_create_user(&mut s, "sam", UserRole::ITSupport, 1);
    let a = match create_it_asset(&mut s, asset_payload("ThinkPad", sam, 10.0), user_payload("sam", UserRole::ITSupport)) {
        Ok(a) => a,
        Err(_) => panic!("asset creation must succeed"),
    };
    match get_it_asset_by_id(&s, a.id) {
        Ok(b) => assert_eq!(b.asset_name, "ThinkPad".to_string()),
        Err(_) => panic!("stored asset must be found"),
    }
    assert!(matches!(get_it_asset_by_id(&s, 999), Err(Message::NotFound(_))));
}

#[test]
fn depreciation_rate_comes_back_as_stored() {
    let mut s = HelpdeskState::new();
    let sam = must_create_user(&mut s, "sam", UserRole::ITSupport, 1);
    let a = match create_it_asset(&mut s, asset_payload("ThinkPad", sam, 12.5), user_payload("sam", UserRole::ITSupport)) {
        Ok(a) => a,
        Err(_) => panic!("asset creation must succeed"),
    };
    match depreciation_rate_bits(&s, a.id) {
        Ok(bits) => assert_eq!(f64::from_bits(bits), 12.5),
        Err(_) => panic!("stored asset must be found"),
    }
    assert!(matches!(depreciation_rate_bits(&s, 999), Err(Message::NotFound(_))));
}

#[test]
fn status_labels_match_status_names() {
    assert_eq!(status_label(TicketStatus::Open), "Open".to_string());
    assert_eq!(status_label(TicketStatus::InProgress), "InProgress".to_string());
    assert_eq!(status_label(TicketStatus::Closed), "Closed".to_string());
}
