//! Notification endpoint decisions: URL rules, ownership checks, the update
//! statement and the paging bounds of an endpoint's events.

use vstd::prelude::*;
use crate::errors::{result_view, ServiceError, ServiceErrorView, ServiceResult};
use crate::models::{CreateNotification, CreateNotificationRequest, Notification, NotificationType, User};
use crate::text::{concat, concat3, has_substring, str_contains, str_eq, u64_to_decimal, decimal};

verus! {

/// What to do about the URL of a notification endpoint.
#[derive(Debug, Clone, PartialEq, Eq)]
pub enum UrlCheck {
    /// The URL is acceptable as it is.
    Accept,
    /// The URL must answer a test request before it is accepted.
    TestWebhook,
    /// The URL is refused with this error.
    Reject(ServiceError),
}

/// The URL rule of each endpoint type: a Discord endpoint must be a Discord
/// webhook URL; a plain webhook must answer a test request.
pub fn check_url(url: &str, notification_type: NotificationType) -> (r: UrlCheck)
    ensures
        notification_type == NotificationType::Webhook ==> r == UrlCheck::TestWebhook,
        notification_type == NotificationType::Discord ==> (if has_substring(
            url@,
            "discord.com/api/webhooks/"@,
        ) {
            r == UrlCheck::Accept
        } else {
            r matches UrlCheck::Reject(e) && e@ == (ServiceErrorView::Validation {
                message: "Discord URLs must be valid Discord webhook URLs"@,
            })
        }),
{
    match notification_type {
        NotificationType::Discord => {
            if !str_contains(url, "discord.com/api/webhooks/") {
                return UrlCheck::Reject(
                    ServiceError::validation("Discord URLs must be valid Discord webhook URLs"),
                );
            }
            UrlCheck::Accept
        },
        NotificationType::Webhook => UrlCheck::TestWebhook,
    }
}

/// How a webhook's test request went.
#[derive(Debug, Clone, PartialEq, Eq)]
pub enum WebhookOutcome {
    /// No answer within the five seconds allowed.
    TimedOut,
    /// No connection could be made.
    ConnectFailed,
    /// Another transport failure, with its text.
    Failed(String),
    /// An answer with this status code and the status's text form
    /// (such as `404 Not Found`).
    Responded { status: u16, status_text: String },
}

/// The answer to a webhook's test request: any 2xx status passes; every
/// other outcome is an external-service error.
pub fn webhook_test_result(outcome: &WebhookOutcome) -> (r: ServiceResult<()>)
    ensures
        result_view(r) == match *outcome {
            WebhookOutcome::TimedOut => Err(
                ServiceErrorView::ExternalService { message: "Webhook timeout after 5 seconds"@ },
            ),
            WebhookOutcome::ConnectFailed => Err(
                ServiceErrorView::ExternalService {
                    message: "Could not connect to webhook server"@,
                },
            ),
            WebhookOutcome::Failed(e) => Err(
                ServiceErrorView::ExternalService {
                    message: "Webhook communication failed: "@ + e@,
                },
            ),
            WebhookOutcome::Responded { status, status_text } => if 200 <= status && status
                <= 299 {
                Ok(())
            } else {
                Err(
                    ServiceErrorView::ExternalService {
                        message: "Webhook test failed with status "@ + status_text@,
                    },
                )
            },
        },
{
    match outcome {
        WebhookOutcome::TimedOut => Err(ServiceError::ExternalService {
            message: String::from_str("Webhook timeout after 5 seconds"),
        }),
        WebhookOutcome::ConnectFailed => Err(ServiceError::ExternalService {
            message: String::from_str("Could not connect to webhook server"),
        }),
        WebhookOutcome::Failed(e) => Err(ServiceError::ExternalService {
            message: concat("Webhook communication failed: ", e.as_str()),
        }),
        WebhookOutcome::Responded { status, status_text } => {
            if 200 <= *status && *status <= 299 {
                Ok(())
            } else {
                Err(ServiceError::ExternalService {
                    message: concat("Webhook test failed with status ", status_text.as_str()),
                })
            }
        },
    }
}

/// The endpoint record of a creation request by `user`.
pub fn new_notification_record(req: CreateNotificationRequest, user: &User, id: String) -> (r: CreateNotification)
    ensures
        r.id == id,
        r.account_id == user.account_id,
        r.user_id == user.id,
        r.name == req.name,
        r.notification_type == req.notification_type,
        r.url == req.url,
{
    CreateNotification {
        id,
        account_id: user.account_id.clone(),
        user_id: user.id.clone(),
        name: req.name,
        notification_type: req.notification_type,
        url: req.url,
    }
}

/// An endpoint looked up by ID for an account: it must exist and belong to
/// that account; otherwise `Notification not found: <id>`.
pub open spec fn notification_for_account(found: Option<Notification>, id: Seq<char>, account_id: Seq<char>) -> Result<
    Notification,
    ServiceErrorView,
> {
    match found {
        Some(n) => if n.account_id@ == account_id {
            Ok(n)
        } else {
            Err(ServiceErrorView::NotFound { entity: "Notification"@, identifier: id })
        },
        None => Err(ServiceErrorView::NotFound { entity: "Notification"@, identifier: id }),
    }
}

/// Retrieves an endpoint for an account (the ownership check of reading,
/// changing, deleting an endpoint and listing its events).
pub fn get_notification_required(found: Option<Notification>, id: &str, account_id: &str) -> (r: ServiceResult<Notification>)
    ensures
        result_view(r) == notification_for_account(found, id@, account_id@),
{
    match found {
        Some(n) => {
            if str_eq(n.account_id.as_str(), account_id) {
                Ok(n)
            } else {
                Err(ServiceError::not_found("Notification", id))
            }
        },
        None => Err(ServiceError::not_found("Notification", id)),
    }
}

/// An endpoint of another account looks exactly like a missing one.
pub proof fn law_foreign_notification_hidden(n: Notification, id: Seq<char>, account_id: Seq<char>)
    requires
        n.account_id@ != account_id,
    ensures
        notification_for_account(Some(n), id, account_id) == notification_for_account(
            None,
            id,
            account_id,
        ),
{
}

/// An update that changed nothing stored is `Notification not found: <id>`.
pub fn update_applied(updated: bool, id: &str) -> (r: ServiceResult<()>)
    ensures
        updated ==> r is Ok,
        !updated ==> result_view(r) == Err::<(), ServiceErrorView>(
            ServiceErrorView::NotFound { entity: "Notification"@, identifier: id@ },
        ),
{
    if !updated {
        return Err(ServiceError::not_found("Notification", id));
    }
    Ok(())
}

/// The `SET` clauses of an endpoint update: one numbered parameter for each
/// field given (name, then URL, then active flag), then the timestamp.
pub open spec fn update_set_clauses(has_name: bool, has_url: bool, has_active: bool) -> Seq<char> {
    let p1: nat = 1;
    let p2: nat = if has_name { 2 } else { 1 };
    let p3: nat = if has_name && has_url { 3 } else if has_name || has_url { 2 } else { 1 };
    (if has_name { "name = ?"@ + decimal(p1) + ", "@ } else { Seq::empty() }) + (if has_url {
        "url = ?"@ + decimal(p2) + ", "@
    } else {
        Seq::empty()
    }) + (if has_active { "is_active = ?"@ + decimal(p3) + ", "@ } else { Seq::empty() })
        + "updated_at = CURRENT_TIMESTAMP"@
}

/// Number of fields an endpoint update sets.
pub open spec fn update_param_count(has_name: bool, has_url: bool, has_active: bool) -> nat {
    (if has_name { 1nat } else { 0nat }) + (if has_url { 1nat } else { 0nat }) + (if has_active {
        1nat
    } else {
        0nat
    })
}

/// The statement of an endpoint update, or `None` when no field is given
/// (then nothing is updated). The endpoint's ID is the last parameter.
pub fn notification_update_query(has_name: bool, has_url: bool, has_active: bool) -> (r: Option<String>)
    ensures
        !(has_name || has_url || has_active) ==> r is None,
        (has_name || has_url || has_active) ==> (r matches Some(q) && q@ == "UPDATE notifications SET "@
            + update_set_clauses(has_name, has_url, has_active) + " WHERE id = ?"@ + decimal(
            update_param_count(has_name, has_url, has_active) + 1,
        ) + " AND is_deleted = 0"@),
{
    if !(has_name || has_url || has_active) {
        return None;
    }
    let mut count: u64 = 0;
    let mut q = String::from_str("UPDATE notifications SET ");
    let ghost start = q@;
    if has_name {
        count = count + 1;
        let n = u64_to_decimal(count);
        let clause = concat3("name = ?", n.as_str(), ", ");
        q.append(clause.as_str());
    }
    let ghost after_name = q@;
    if has_url {
        count = count + 1;
        let n = u64_to_decimal(count);
        let clause = concat3("url = ?", n.as_str(), ", ");
        q.append(clause.as_str());
    }
    if has_active {
        count = count + 1;
        let n = u64_to_decimal(count);
        let clause = concat3("is_active = ?", n.as_str(), ", ");
        q.append(clause.as_str());
    }
    q.append("updated_at = CURRENT_TIMESTAMP");
    q.append(" WHERE id = ?");
    let n = u64_to_decimal(count + 1);
    q.append(n.as_str());
    q.append(" AND is_deleted = 0");
    assert(count == update_param_count(has_name, has_url, has_active));
    assert(q@ =~= "UPDATE notifications SET "@ + update_set_clauses(has_name, has_url, has_active)
        + " WHERE id = ?"@ + decimal(update_param_count(has_name, has_url, has_active) + 1)
        + " AND is_deleted = 0"@);
    Some(q)
}

/// The page bounds of an event listing: at most 1000 events, 50 when no
/// limit is given, from offset 0 when none is given.
pub fn page_bounds(limit: Option<i64>, offset: Option<i64>) -> (r: (i64, i64))
    ensures
        r.0 == match limit {
            Some(l) => if l < 1000 {
                l
            } else {
                1000
            },
            None => 50,
        },
        r.1 == match offset {
            Some(o) => o,
            None => 0,
        },
{
    let l = match limit {
        Some(l) => l,
        None => 50,
    };
    let l = if l < 1000 {
        l
    } else {
        1000
    };
    let o = match offset {
        Some(o) => o,
        None => 0,
    };
    (l, o)
}

} // verus!
