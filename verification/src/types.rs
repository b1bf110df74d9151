//! The record types of the helpdesk: users, tickets with their history and
//! comment trails, and IT assets, together with the payload shapes of the
//! operations and the error taxonomy. Each executable type has a ghost view
//! over mathematical sequences, and the contracts of the operations speak of
//! those views.

use vstd::prelude::*;

verus! {

/// The roles a stored user may hold.
#[derive(Clone, Copy, PartialEq, Eq, Structural, Debug, Hash)]
pub enum UserRole {
    Admin,
    ITSupport,
    User,
}

/// The lifecycle states of a support ticket.
#[derive(Clone, Copy, PartialEq, Eq, Structural, Debug, Hash)]
pub enum TicketStatus {
    Open,
    InProgress,
    Closed,
}

/// The urgency attached to a ticket at creation.
#[derive(Clone, Copy, PartialEq, Eq, Structural, Debug, Hash)]
pub enum TicketPriority {
    Low,
    Medium,
    High,
}

/// The kinds of IT asset the store tracks.
#[derive(Clone, Copy, PartialEq, Eq, Structural, Debug, Hash)]
pub enum AssetType {
    Laptop,
    Desktop,
    Monitor,
    Printer,
    Scanner,
    Other,
}

/// The permission matrix: the roles allowed to create a ticket.
pub open spec fn may_create_ticket(role: UserRole) -> bool {
    role is User || role is Admin
}

/// The permission matrix: the roles allowed to assign a ticket.
pub open spec fn may_assign_ticket(role: UserRole) -> bool {
    role is ITSupport || role is Admin
}

/// The permission matrix: the roles allowed to create an IT asset.
pub open spec fn may_create_it_asset(role: UserRole) -> bool {
    role is ITSupport || role is Admin
}

/// The textual form of a status, as it is recorded in a ticket's history.
pub open spec fn status_name(s: TicketStatus) -> Seq<char> {
    match s {
        TicketStatus::Open => "Open"@,
        TicketStatus::InProgress => "InProgress"@,
        TicketStatus::Closed => "Closed"@,
    }
}

/// Returns the label under which a status is recorded in a ticket's history.
pub fn status_label(s: TicketStatus) -> (r: String)
    ensures
        r@ == status_name(s),
{
    match s {
        TicketStatus::Open => "Open".to_owned(),
        TicketStatus::InProgress => "InProgress".to_owned(),
        TicketStatus::Closed => "Closed".to_owned(),
    }
}

/// A stored user. Created once; never updated or deleted.
pub struct User {
    pub id: u64,
    pub username: String,
    pub role: UserRole,
    pub created_at: u64,
}

/// The mathematical image of a `User`.
pub struct UserView {
    pub id: u64,
    pub username: Seq<char>,
    pub role: UserRole,
    pub created_at: u64,
}

impl View for User {
    type V = UserView;

    open spec fn view(&self) -> UserView {
        UserView {
            id: self.id,
            username: self.username@,
            role: self.role,
            created_at: self.created_at,
        }
    }
}

impl Clone for User {
    fn clone(&self) -> (res: Self)
        ensures
            res@ == self@,
    {
        User {
            id: self.id,
            username: self.username.clone(),
            role: self.role,
            created_at: self.created_at,
        }
    }
}

/// One entry of a ticket's append-only status history.
pub struct TicketHistory {
    pub status: String,
    pub changed_at: u64,
}

/// The mathematical image of a `TicketHistory` entry.
pub struct TicketHistoryView {
    pub status: Seq<char>,
    pub changed_at: u64,
}

impl View for TicketHistory {
    type V = TicketHistoryView;

    open spec fn view(&self) -> TicketHistoryView {
        TicketHistoryView { status: self.status@, changed_at: self.changed_at }
    }
}

impl Clone for TicketHistory {
    fn clone(&self) -> (res: Self)
        ensures
            res@ == self@,
    {
        TicketHistory { status: self.status.clone(), changed_at: self.changed_at }
    }
}

/// One entry of a ticket's append-only comment trail.
pub struct Comment {
    pub user_id: u64,
    pub content: String,
    pub commented_at: u64,
}

/// The mathematical image of a `Comment`.
pub struct CommentView {
    pub user_id: u64,
    pub content: Seq<char>,
    pub commented_at: u64,
}

impl View for Comment {
    type V = CommentView;

    open spec fn view(&self) -> CommentView {
        CommentView {
            user_id: self.user_id,
            content: self.content@,
            commented_at: self.commented_at,
        }
    }
}

impl Clone for Comment {
    fn clone(&self) -> (res: Self)
        ensures
            res@ == self@,
    {
        Comment {
            user_id: self.user_id,
            content: self.content.clone(),
            commented_at: self.commented_at,
        }
    }
}

/// A stored support ticket. Mutated in place by status updates, assignment
/// and comment additions; never deleted.
pub struct Ticket {
    pub id: u64,
    pub title: String,
    pub description: String,
    pub status: TicketStatus,
    pub priority: TicketPriority,
    pub created_at: u64,
    pub created_by: u64,
    pub assigned_to: Option<u64>,
    pub history: Vec<TicketHistory>,
    pub comments: Vec<Comment>,
}

/// The mathematical image of a `Ticket`.
pub struct TicketView {
    pub id: u64,
    pub title: Seq<char>,
    pub description: Seq<char>,
    pub status: TicketStatus,
    pub priority: TicketPriority,
    pub created_at: u64,
    pub created_by: u64,
    pub assigned_to: Option<u64>,
    pub history: Seq<TicketHistoryView>,
    pub comments: Seq<CommentView>,
}

impl View for Ticket {
    type V = TicketView;

    open spec fn view(&self) -> TicketView {
        TicketView {
            id: self.id,
            title: self.title@,
            description: self.description@,
            status: self.status,
            priority: self.priority,
            created_at: self.created_at,
            created_by: self.created_by,
            assigned_to: self.assigned_to,
            history: self.history@.map_values(|h: TicketHistory| h@),
            comments: self.comments@.map_values(|c: Comment| c@),
        }
    }
}

impl Clone for Ticket {
    fn clone(&self) -> (res: Self)
        ensures
            res@ == self@,
    {
        let res = Ticket {
            id: self.id,
            title: self.title.clone(),
            description: self.description.clone(),
            status: self.status,
            priority: self.priority,
            created_at: self.created_at,
            created_by: self.created_by,
            assigned_to: self.assigned_to,
            history: self.history.clone(),
            comments: self.comments.clone(),
        };
        proof {
            assert(res.history@.map_values(|h: TicketHistory| h@) =~= self.history@.map_values(
                |h: TicketHistory| h@,
            ));
            assert(res.comments@.map_values(|c: Comment| c@) =~= self.comments@.map_values(
                |c: Comment| c@,
            ));
        }
        res
    }
}

/// A stored IT asset. Created once; never updated or deleted. The two value
/// fields carry IEEE 754 bit patterns: the valuation arithmetic itself is
/// floating point and lives with the caller, while the store only keeps and
/// hands back the numbers.
pub struct ITAsset {
    pub id: u64,
    pub asset_name: String,
    pub asset_type: AssetType,
    pub purchase_date: u64,
    pub assigned_to: u64,
    pub approx_value_bits: u64,
    pub depreciation_rate_bits: u64,
}

/// The mathematical image of an `ITAsset`.
pub struct ITAssetView {
    pub id: u64,
    pub asset_name: Seq<char>,
    pub asset_type: AssetType,
    pub purchase_date: u64,
    pub assigned_to: u64,
    pub approx_value_bits: u64,
    pub depreciation_rate_bits: u64,
}

impl View for ITAsset {
    type V = ITAssetView;

    open spec fn view(&self) -> ITAssetView {
        ITAssetView {
            id: self.id,
            asset_name: self.asset_name@,
            asset_type: self.asset_type,
            purchase_date: self.purchase_date,
            assigned_to: self.assigned_to,
            approx_value_bits: self.approx_value_bits,
            depreciation_rate_bits: self.depreciation_rate_bits,
        }
    }
}

impl Clone for ITAsset {
    fn clone(&self) -> (res: Self)
        ensures
            res@ == self@,
    {
        ITAsset {
            id: self.id,
            asset_name: self.asset_name.clone(),
            asset_type: self.asset_type,
            purchase_date: self.purchase_date,
            assigned_to: self.assigned_to,
            approx_value_bits: self.approx_value_bits,
            depreciation_rate_bits: self.depreciation_rate_bits,
        }
    }
}

/// The input of `create_user`, and the identity-and-role claim every gated
/// operation authenticates.
pub struct UserPayload {
    pub username: String,
    pub role: UserRole,
}

/// The input of `create_ticket`.
pub struct TicketPayload {
    pub title: String,
    pub description: String,
    pub priority: TicketPriority,
}

/// The input of `create_it_asset`. The value fields carry IEEE 754 bit
/// patterns, as in `ITAsset`.
pub struct ITAssetPayload {
    pub asset_name: String,
    pub asset_type: AssetType,
    pub purchase_date: u64,
    pub assigned_to: u64,
    pub approx_value_bits: u64,
    pub depreciation_rate_bits: u64,
}

/// The input of `assign_ticket`.
pub struct AssignTicketPayload {
    pub ticket_id: u64,
    pub assigned_to: u64,
}

/// The input of `add_ticket_comment`.
pub struct AddTicketCommentPayload {
    pub ticket_id: u64,
    pub user_id: u64,
    pub content: String,
}

/// The input of `update_ticket_status`.
pub struct UpdateTicketStatusPayload {
    pub id: u64,
    pub status: TicketStatus,
}

/// The error taxonomy of every operation. `Error` is the generic domain
/// conflict (a duplicate username); `NotFound` a failed primary-key lookup or
/// an empty listing; `InvalidPayload` a malformed input or a dangling foreign
/// id; `UnAuthorized` a failed identity or role check.
pub enum Message {
    Success(String),
    Error(String),
    NotFound(String),
    InvalidPayload(String),
    UnAuthorized(String),
}

} // verus!
