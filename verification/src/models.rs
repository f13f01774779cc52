//! Records of the backend's data: the enumerations stored as text, the
//! entities as they are read back from storage, and the request and creation
//! payloads.
//!
//! Instants are microseconds since the Unix epoch (UTC).

use vstd::prelude::*;
use crate::text::{str_eq, concat, to_lowercase, lowercase_of};

verus! {

/// Access level of a user within an account (`Read` < `ReadWrite`).
#[derive(Debug, Clone, Copy, PartialEq, Eq, Structural, PartialOrd, Ord, Hash)]
pub enum RoleAccessLevel {
    Read,
    ReadWrite,
}

/// Text form of a role access level.
pub open spec fn role_access_level_text(l: RoleAccessLevel) -> Seq<char> {
    match l {
        RoleAccessLevel::Read => "Read"@,
        RoleAccessLevel::ReadWrite => "ReadWrite"@,
    }
}

/// The role access level whose text form is `s`, if any.
pub open spec fn role_access_level_from_text(s: Seq<char>) -> Option<RoleAccessLevel> {
    if s == "Read"@ {
        Some(RoleAccessLevel::Read)
    } else if s == "ReadWrite"@ {
        Some(RoleAccessLevel::ReadWrite)
    } else {
        None
    }
}

impl RoleAccessLevel {
    /// The text form (what `Display` shows).
    pub fn as_str(&self) -> (r: &'static str)
        ensures
            r@ == role_access_level_text(*self),
    {
        match self {
            RoleAccessLevel::Read => "Read",
            RoleAccessLevel::ReadWrite => "ReadWrite",
        }
    }

    /// Parses the text form; other text gives `Invalid role access level: <s>`.
    pub fn from_str(s: &str) -> (r: Result<RoleAccessLevel, String>)
        ensures
            match role_access_level_from_text(s@) {
                Some(l) => r == Ok::<RoleAccessLevel, String>(l),
                None => r matches Err(m) && m@ == "Invalid role access level: "@ + s@,
            },
    {
        if str_eq(s, "Read") {
            Ok(RoleAccessLevel::Read)
        } else if str_eq(s, "ReadWrite") {
            Ok(RoleAccessLevel::ReadWrite)
        } else {
            Err(concat("Invalid role access level: ", s))
        }
    }

    /// The other access level: `Read` and `ReadWrite` swap.
    pub fn toggled(&self) -> (r: RoleAccessLevel)
        ensures
            r == toggle_access_level(*self),
    {
        match self {
            RoleAccessLevel::Read => RoleAccessLevel::ReadWrite,
            RoleAccessLevel::ReadWrite => RoleAccessLevel::Read,
        }
    }
}

/// `Read` becomes `ReadWrite` and `ReadWrite` becomes `Read`.
pub open spec fn toggle_access_level(l: RoleAccessLevel) -> RoleAccessLevel {
    match l {
        RoleAccessLevel::Read => RoleAccessLevel::ReadWrite,
        RoleAccessLevel::ReadWrite => RoleAccessLevel::Read,
    }
}

/// Status of an invitation.
#[derive(Debug, Clone, Copy, PartialEq, Eq, Structural, Hash)]
pub enum InviteStatus {
    Pending,
    Accepted,
}

/// Text form of an invite status.
pub open spec fn invite_status_text(s: InviteStatus) -> Seq<char> {
    match s {
        InviteStatus::Pending => "Pending"@,
        InviteStatus::Accepted => "Accepted"@,
    }
}

/// The invite status whose text form is `s`, if any.
pub open spec fn invite_status_from_text(s: Seq<char>) -> Option<InviteStatus> {
    if s == "Pending"@ {
        Some(InviteStatus::Pending)
    } else if s == "Accepted"@ {
        Some(InviteStatus::Accepted)
    } else {
        None
    }
}

impl InviteStatus {
    /// The text form (what `Display` shows).
    pub fn as_str(&self) -> (r: &'static str)
        ensures
            r@ == invite_status_text(*self),
    {
        match self {
            InviteStatus::Pending => "Pending",
            InviteStatus::Accepted => "Accepted",
        }
    }

    /// Parses the text form; other text gives `Invalid invite status: <s>`.
    pub fn from_str(s: &str) -> (r: Result<InviteStatus, String>)
        ensures
            match invite_status_from_text(s@) {
                Some(v) => r == Ok::<InviteStatus, String>(v),
                None => r matches Err(m) && m@ == "Invalid invite status: "@ + s@,
            },
    {
        if str_eq(s, "Pending") {
            Ok(InviteStatus::Pending)
        } else if str_eq(s, "Accepted") {
            Ok(InviteStatus::Accepted)
        } else {
            Err(concat("Invalid invite status: ", s))
        }
    }
}

/// Kind of notification endpoint.
#[derive(Debug, Clone, Copy, PartialEq, Eq, Structural, Hash)]
pub enum NotificationType {
    Webhook,
    Discord,
}

/// Text form of a notification type.
pub open spec fn notification_type_text(t: NotificationType) -> Seq<char> {
    match t {
        NotificationType::Webhook => "webhook"@,
        NotificationType::Discord => "discord"@,
    }
}

/// The notification type named by an already lowercased text, if any.
pub open spec fn notification_type_from_lowercase(s: Seq<char>) -> Option<NotificationType> {
    if s == "webhook"@ {
        Some(NotificationType::Webhook)
    } else if s == "discord"@ {
        Some(NotificationType::Discord)
    } else {
        None
    }
}

impl NotificationType {
    /// The text form (what `Display` shows).
    pub fn as_str(&self) -> (r: &'static str)
        ensures
            r@ == notification_type_text(*self),
    {
        match self {
            NotificationType::Webhook => "webhook",
            NotificationType::Discord => "discord",
        }
    }

    /// Parses the text form, ignoring case; other text gives
    /// `Invalid notification type: <s>`.
    pub fn from_str(s: &str) -> (r: Result<NotificationType, String>)
        ensures
            match notification_type_from_lowercase(lowercase_of(s@)) {
                Some(v) => r == Ok::<NotificationType, String>(v),
                None => r matches Err(m) && m@ == "Invalid notification type: "@ + s@,
            },
    {
        let lower = to_lowercase(s);
        if str_eq(lower.as_str(), "webhook") {
            Ok(NotificationType::Webhook)
        } else if str_eq(lower.as_str(), "discord") {
            Ok(NotificationType::Discord)
        } else {
            Err(concat("Invalid notification type: ", s))
        }
    }
}

/// Kind of Lightning node event.
#[derive(Debug, Clone, Copy, PartialEq, Eq, Structural, Hash)]
pub enum EventType {
    ChannelOpened,
    ChannelClosed,
    InvoiceCreated,
    InvoiceSettled,
    InvoiceCancelled,
    InvoiceAccepted,
    PaymentSent,
    PaymentReceived,
    PaymentFailed,
    NodeConnected,
    NodeDisconnected,
}

/// Text form of an event type.
pub open spec fn event_type_text(t: EventType) -> Seq<char> {
    match t {
        EventType::ChannelOpened => "channel_opened"@,
        EventType::ChannelClosed => "channel_closed"@,
        EventType::InvoiceCreated => "invoice_created"@,
        EventType::InvoiceSettled => "invoice_settled"@,
        EventType::InvoiceCancelled => "invoice_cancelled"@,
        EventType::InvoiceAccepted => "invoice_accepted"@,
        EventType::PaymentSent => "payment_sent"@,
        EventType::PaymentReceived => "payment_received"@,
        EventType::PaymentFailed => "payment_failed"@,
        EventType::NodeConnected => "node_connected"@,
        EventType::NodeDisconnected => "node_disconnected"@,
    }
}

/// The event type whose text form is `s`, if any.
pub open spec fn event_type_from_text(s: Seq<char>) -> Option<EventType> {
    if s == "channel_opened"@ {
        Some(EventType::ChannelOpened)
    } else if s == "channel_closed"@ {
        Some(EventType::ChannelClosed)
    } else if s == "invoice_created"@ {
        Some(EventType::InvoiceCreated)
    } else if s == "invoice_settled"@ {
        Some(EventType::InvoiceSettled)
    } else if s == "invoice_cancelled"@ {
        Some(EventType::InvoiceCancelled)
    } else if s == "invoice_accepted"@ {
        Some(EventType::InvoiceAccepted)
    } else if s == "payment_sent"@ {
        Some(EventType::PaymentSent)
    } else if s == "payment_received"@ {
        Some(EventType::PaymentReceived)
    } else if s == "payment_failed"@ {
        Some(EventType::PaymentFailed)
    } else if s == "node_connected"@ {
        Some(EventType::NodeConnected)
    } else if s == "node_disconnected"@ {
        Some(EventType::NodeDisconnected)
    } else {
        None
    }
}

impl EventType {
    /// The text form (what `Display` shows).
    pub fn as_str(&self) -> (r: &'static str)
        ensures
            r@ == event_type_text(*self),
    {
        match self {
            EventType::ChannelOpened => "channel_opened",
            EventType::ChannelClosed => "channel_closed",
            EventType::InvoiceCreated => "invoice_created",
            EventType::InvoiceSettled => "invoice_settled",
            EventType::InvoiceCancelled => "invoice_cancelled",
            EventType::InvoiceAccepted => "invoice_accepted",
            EventType::PaymentSent => "payment_sent",
            EventType::PaymentReceived => "payment_received",
            EventType::PaymentFailed => "payment_failed",
            EventType::NodeConnected => "node_connected",
            EventType::NodeDisconnected => "node_disconnected",
        }
    }

    /// Parses the text form; other text gives `Invalid event type: <s>`.
    pub fn from_str(s: &str) -> (r: Result<EventType, String>)
        ensures
            match event_type_from_text(s@) {
                Some(v) => r == Ok::<EventType, String>(v),
                None => r matches Err(m) && m@ == "Invalid event type: "@ + s@,
            },
    {
        if str_eq(s, "channel_opened") {
            Ok(EventType::ChannelOpened)
        } else if str_eq(s, "channel_closed") {
            Ok(EventType::ChannelClosed)
        } else if str_eq(s, "invoice_created") {
            Ok(EventType::InvoiceCreated)
        } else if str_eq(s, "invoice_settled") {
            Ok(EventType::InvoiceSettled)
        } else if str_eq(s, "invoice_cancelled") {
            Ok(EventType::InvoiceCancelled)
        } else if str_eq(s, "invoice_accepted") {
            Ok(EventType::InvoiceAccepted)
        } else if str_eq(s, "payment_sent") {
            Ok(EventType::PaymentSent)
        } else if str_eq(s, "payment_received") {
            Ok(EventType::PaymentReceived)
        } else if str_eq(s, "payment_failed") {
            Ok(EventType::PaymentFailed)
        } else if str_eq(s, "node_connected") {
            Ok(EventType::NodeConnected)
        } else if str_eq(s, "node_disconnected") {
            Ok(EventType::NodeDisconnected)
        } else {
            Err(concat("Invalid event type: ", s))
        }
    }
}

/// Severity of an event.
#[derive(Debug, Clone, Copy, PartialEq, Eq, Structural, Hash)]
pub enum EventSeverity {
    Info,
    Warning,
    Critical,
}

/// Text form of an event severity.
pub open spec fn event_severity_text(s: EventSeverity) -> Seq<char> {
    match s {
        EventSeverity::Info => "info"@,
        EventSeverity::Warning => "warning"@,
        EventSeverity::Critical => "critical"@,
    }
}

/// The event severity whose text form is `s`, if any.
pub open spec fn event_severity_from_text(s: Seq<char>) -> Option<EventSeverity> {
    if s == "info"@ {
        Some(EventSeverity::Info)
    } else if s == "warning"@ {
        Some(EventSeverity::Warning)
    } else if s == "critical"@ {
        Some(EventSeverity::Critical)
    } else {
        None
    }
}

impl EventSeverity {
    /// The text form (what `Display` shows).
    pub fn as_str(&self) -> (r: &'static str)
        ensures
            r@ == event_severity_text(*self),
    {
        match self {
            EventSeverity::Info => "info",
            EventSeverity::Warning => "warning",
            EventSeverity::Critical => "critical",
        }
    }

    /// Parses the text form; other text gives `Invalid event severity: <s>`.
    pub fn from_str(s: &str) -> (r: Result<EventSeverity, String>)
        ensures
            match event_severity_from_text(s@) {
                Some(v) => r == Ok::<EventSeverity, String>(v),
                None => r matches Err(m) && m@ == "Invalid event severity: "@ + s@,
            },
    {
        if str_eq(s, "info") {
            Ok(EventSeverity::Info)
        } else if str_eq(s, "warning") {
            Ok(EventSeverity::Warning)
        } else if str_eq(s, "critical") {
            Ok(EventSeverity::Critical)
        } else {
            Err(concat("Invalid event severity: ", s))
        }
    }
}

/// A tenant account.
#[derive(Debug, Clone, PartialEq, Eq)]
pub struct Account {
    pub id: String,
    pub name: String,
    pub is_active: bool,
    pub created_at: i64,
    pub updated_at: i64,
    pub is_deleted: bool,
    pub deleted_at: Option<i64>,
}

/// Payload describing a new account and its first user.
#[derive(Debug, Clone, PartialEq, Eq)]
pub struct CreateAccount {
    pub name: String,
    pub username: String,
    pub email: String,
}

/// Payload for registering a new account together with its admin user.
#[derive(Debug, Clone, PartialEq, Eq)]
pub struct CreateNewAccount {
    pub name: String,
    pub username: String,
    pub email: String,
    pub password: String,
}

/// A user of an account.
#[derive(Debug, Clone, PartialEq, Eq)]
pub struct User {
    pub id: String,
    pub account_id: String,
    pub username: String,
    pub password_hash: String,
    pub email: String,
    pub role_id: String,
    pub role_access_level: RoleAccessLevel,
    pub is_active: bool,
    pub created_at: i64,
    pub updated_at: i64,
    pub is_deleted: bool,
    pub deleted_at: Option<i64>,
}

/// Payload for creating a user with a plain-text password.
#[derive(Debug, Clone, PartialEq, Eq)]
pub struct CreateNewUser {
    pub account_id: String,
    pub role_id: String,
    pub username: String,
    pub email: String,
    pub password: String,
}

/// Payload for storing a user whose password is already hashed.
#[derive(Debug, Clone, PartialEq, Eq)]
pub struct CreateUser {
    pub id: String,
    pub account_id: String,
    pub role_id: String,
    pub username: String,
    pub email: String,
    pub password_hash: String,
    pub role_access_level: RoleAccessLevel,
}

/// A named role (such as `Admin` or `Member`).
#[derive(Debug, Clone, PartialEq, Eq)]
pub struct Role {
    pub id: String,
    pub name: String,
    pub is_active: bool,
    pub created_at: i64,
    pub updated_at: i64,
    pub is_deleted: bool,
    pub deleted_at: Option<i64>,
}

/// Payload for creating a role.
#[derive(Debug, Clone, PartialEq, Eq)]
pub struct CreateRole {
    pub name: String,
}

/// Stored connection credentials of a Lightning node.
#[derive(Debug, Clone, PartialEq, Eq)]
pub struct Credential {
    pub id: String,
    pub user_id: String,
    pub account_id: String,
    pub node_id: String,
    pub node_alias: String,
    pub macaroon: String,
    pub tls_cert: String,
    pub address: String,
    pub node_type: Option<String>,
    pub client_cert: Option<String>,
    pub client_key: Option<String>,
    pub ca_cert: Option<String>,
    pub is_active: bool,
    pub created_at: i64,
    pub updated_at: i64,
    pub is_deleted: bool,
    pub deleted_at: Option<i64>,
}

/// Payload for storing node credentials.
#[derive(Debug, Clone, PartialEq, Eq)]
pub struct CreateCredential {
    pub id: String,
    pub user_id: String,
    pub account_id: String,
    pub node_id: String,
    pub node_alias: String,
    pub macaroon: String,
    pub tls_cert: String,
    pub address: String,
    pub node_type: Option<String>,
    pub client_cert: Option<String>,
    pub client_key: Option<String>,
    pub ca_cert: Option<String>,
}

/// An invitation to join an account.
#[derive(Debug, Clone, PartialEq, Eq)]
pub struct Invite {
    pub id: String,
    pub account_id: String,
    pub inviter_id: String,
    pub invitee_email: String,
    pub token: String,
    pub invite_status: InviteStatus,
    pub is_active: bool,
    pub expires_at: i64,
    pub created_at: i64,
    pub updated_at: i64,
    pub is_deleted: bool,
    pub deleted_at: Option<i64>,
}

/// Payload for storing a new invitation.
#[derive(Debug, Clone, PartialEq, Eq)]
pub struct CreateInvite {
    pub id: String,
    pub account_id: String,
    pub inviter_id: String,
    pub invitee_email: String,
    pub token: String,
    pub expires_at: i64,
    pub invite_status: InviteStatus,
}

/// Request to invite someone by email.
#[derive(Debug, Clone, PartialEq, Eq)]
pub struct CreateInviteRequest {
    pub email: String,
}

/// Request to accept an invitation.
#[derive(Debug, Clone, PartialEq, Eq)]
pub struct AcceptInviteRequest {
    pub token: String,
    pub username: String,
    pub password: String,
}

/// An account with its users.
#[derive(Debug, Clone, PartialEq, Eq)]
pub struct AccountWithUsers {
    pub account: Account,
    pub users: Vec<User>,
}

/// A user with its account.
#[derive(Debug, Clone, PartialEq, Eq)]
pub struct UserWithAccount {
    pub user: User,
    pub account: Account,
}

/// A user with its role.
#[derive(Debug, Clone, PartialEq, Eq)]
pub struct UserWithRoleAndPermissions {
    pub user: User,
    pub role: Role,
}

/// A notification endpoint of an account.
#[derive(Debug, Clone, PartialEq, Eq)]
pub struct Notification {
    pub id: String,
    pub account_id: String,
    pub user_id: String,
    pub name: String,
    pub notification_type: NotificationType,
    pub url: String,
    pub is_active: bool,
    pub created_at: i64,
    pub updated_at: i64,
    pub is_deleted: bool,
    pub deleted_at: Option<i64>,
}

/// Payload for storing a notification endpoint.
#[derive(Debug, Clone, PartialEq, Eq)]
pub struct CreateNotification {
    pub id: String,
    pub account_id: String,
    pub user_id: String,
    pub name: String,
    pub notification_type: NotificationType,
    pub url: String,
}

/// Request to create a notification endpoint.
#[derive(Debug, Clone, PartialEq, Eq)]
pub struct CreateNotificationRequest {
    pub name: String,
    pub notification_type: NotificationType,
    pub url: String,
}

/// Request to change a notification endpoint; absent fields stay unchanged.
#[derive(Debug, Clone, PartialEq, Eq)]
pub struct UpdateNotificationRequest {
    pub name: Option<String>,
    pub url: Option<String>,
    pub is_active: Option<bool>,
}

/// A stored node event; `data` is its JSON text.
#[derive(Debug, Clone, PartialEq, Eq)]
pub struct Event {
    pub id: String,
    pub account_id: String,
    pub user_id: String,
    pub node_id: String,
    pub node_alias: String,
    pub event_type: EventType,
    pub severity: EventSeverity,
    pub title: String,
    pub description: String,
    pub data: String,
    pub notifications_id: Option<String>,
    pub timestamp: i64,
    pub created_at: i64,
    pub updated_at: i64,
    pub is_deleted: bool,
    pub deleted_at: Option<i64>,
}

/// Payload for storing an event.
#[derive(Debug, Clone, PartialEq, Eq)]
pub struct CreateEvent {
    pub id: String,
    pub account_id: String,
    pub user_id: String,
    pub node_id: String,
    pub node_alias: String,
    pub event_type: EventType,
    pub severity: EventSeverity,
    pub title: String,
    pub description: String,
    pub data: String,
    pub notifications_id: Option<String>,
    pub timestamp: i64,
}

/// An event as returned to API clients; `data` is JSON text that parses.
#[derive(Debug, Clone, PartialEq, Eq)]
pub struct EventResponse {
    pub id: String,
    pub account_id: String,
    pub user_id: String,
    pub node_id: String,
    pub node_alias: String,
    pub event_type: EventType,
    pub severity: EventSeverity,
    pub title: String,
    pub description: String,
    pub notifications_id: Option<String>,
    pub data: String,
    pub timestamp: i64,
    pub created_at: i64,
}

/// Filters for listing events.
#[derive(Debug, Clone, PartialEq, Eq)]
pub struct EventFilters {
    pub event_types: Option<Vec<EventType>>,
    pub severities: Option<Vec<EventSeverity>>,
    pub node_ids: Option<Vec<String>>,
    pub start_date: Option<i64>,
    pub end_date: Option<i64>,
    pub limit: Option<i64>,
    pub offset: Option<i64>,
}

/// Reading back the text form of a role access level gives the same level.
pub proof fn law_role_access_level_text_round_trip(l: RoleAccessLevel)
    ensures
        role_access_level_from_text(role_access_level_text(l)) == Some(l),
{
    reveal_strlit("Read");
    reveal_strlit("ReadWrite");
    assert("Read"@.len() == 4);
    assert("ReadWrite"@.len() == 9);
    assert("Read"@ != "ReadWrite"@);
}

/// Changing the access level twice gives back the starting level, and a
/// change always gives a different level.
pub proof fn law_toggle_access_level_involution(l: RoleAccessLevel)
    ensures
        toggle_access_level(toggle_access_level(l)) == l,
        toggle_access_level(l) != l,
{
}

/// Reading back the text form of an invite status gives the same status.
pub proof fn law_invite_status_text_round_trip(s: InviteStatus)
    ensures
        invite_status_from_text(invite_status_text(s)) == Some(s),
{
    reveal_strlit("Pending");
    reveal_strlit("Accepted");
    assert("Pending"@.len() == 7);
    assert("Accepted"@.len() == 8);
}

/// The text form of a notification type is lowercase already and names the
/// same type.
pub proof fn law_notification_type_text_round_trip(t: NotificationType)
    ensures
        notification_type_from_lowercase(notification_type_text(t)) == Some(t),
{
    reveal_strlit("webhook");
    reveal_strlit("discord");
    assert("webhook"@.len() == 7);
    assert("discord"@.len() == 7);
    assert("webhook"@[0] != "discord"@[0]);
}

/// Reading back the text form of an event type gives the same type.
pub proof fn law_event_type_text_round_trip(t: EventType)
    ensures
        event_type_from_text(event_type_text(t)) == Some(t),
{
    reveal_strlit("channel_opened");
    reveal_strlit("channel_closed");
    reveal_strlit("invoice_created");
    reveal_strlit("invoice_settled");
    reveal_strlit("invoice_cancelled");
    reveal_strlit("invoice_accepted");
    reveal_strlit("payment_sent");
    reveal_strlit("payment_received");
    reveal_strlit("payment_failed");
    reveal_strlit("node_connected");
    reveal_strlit("node_disconnected");
    assert("channel_opened"@.len() == 14);
    assert("channel_closed"@.len() == 14);
    assert("invoice_created"@.len() == 15);
    assert("invoice_settled"@.len() == 15);
    assert("invoice_cancelled"@.len() == 17);
    assert("invoice_accepted"@.len() == 16);
    assert("payment_sent"@.len() == 12);
    assert("payment_received"@.len() == 16);
    assert("payment_failed"@.len() == 14);
    assert("node_connected"@.len() == 14);
    assert("node_disconnected"@.len() == 17);
    assert("channel_opened"@[8] != "channel_closed"@[8]);
    assert("channel_opened"@[0] != "payment_failed"@[0]);
    assert("channel_opened"@[0] != "node_connected"@[0]);
    assert("channel_closed"@[0] != "payment_failed"@[0]);
    assert("channel_closed"@[0] != "node_connected"@[0]);
    assert("invoice_created"@[8] != "invoice_settled"@[8]);
    assert("invoice_cancelled"@[0] != "node_disconnected"@[0]);
    assert("invoice_accepted"@[0] != "payment_received"@[0]);
    assert("payment_failed"@[0] != "node_connected"@[0]);
}

/// Reading back the text form of an event severity gives the same severity.
pub proof fn law_event_severity_text_round_trip(s: EventSeverity)
    ensures
        event_severity_from_text(event_severity_text(s)) == Some(s),
{
    reveal_strlit("info");
    reveal_strlit("warning");
    reveal_strlit("critical");
    assert("info"@.len() == 4);
    assert("warning"@.len() == 7);
    assert("critical"@.len() == 8);
}

} // verus!
