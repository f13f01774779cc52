use nodegaze::errors::ServiceError;
use nodegaze::models::{
    AcceptInviteRequest, Account, CreateEvent, CreateInviteRequest, CreateNewAccount,
    CreateNotificationRequest, Event, EventFilters, EventSeverity, EventType, Invite,
    InviteStatus, Notification, NotificationType, Role, RoleAccessLevel, User,
};
use nodegaze::services::account_service::{
    account_insert_error, new_account_record, new_admin_user, next_account_step,
    user_insert_error, validate_business_rules, AccountFacts, AccountLookup, AccountStep,
};
use nodegaze::services::event_service::{
    account_event_page, account_event_responses, event_for_target, event_response,
    plan_event_targets,
};
use nodegaze::services::invite_service::{
    accept_rows_check, check_invite_acceptable, get_invite_required, invite_insert_error,
    accepted_invite, invite_token, invite_update_error, new_invite, new_member_user, next_invite_step, require_account,
    require_member_role, resend_rows_check, resent_expiry, InviteFacts, InviteLookup, InviteStep,
};
use nodegaze::services::notification_service::{
    check_url, get_notification_required, new_notification_record, notification_update_query,
    page_bounds, update_applied, webhook_test_result, UrlCheck, WebhookOutcome,
};
use nodegaze::services::user_service::{
    authenticate_user, finish_role_access_change, get_account_users, get_admin_user_required,
    get_user_required, hash_password, plan_role_access_change, verify_password,
};

fn s(x: &str) -> String {
    x.to_string()
}

fn role(id: &str, name: &str) -> Role {
    Role { id: s(id), name: s(name), is_active: true, created_at: 0, updated_at: 0, is_deleted: false, deleted_at: None }
}

fn user(hash: &str, active: bool) -> User {
    User {
        id: s("u1"),
        account_id: s("a1"),
        username: s("alice"),
        password_hash: s(hash),
        email: s("alice@example.com"),
        role_id: s("r-member"),
        role_access_level: RoleAccessLevel::Read,
        is_active: active,
        created_at: 0,
        updated_at: 0,
        is_deleted: false,
        deleted_at: None,
    }
}

fn request() -> CreateNewAccount {
    CreateNewAccount { name: s("Acme"), username: s("alice"), email: s("alice@example.com"), password: s("pw") }
}

#[test]
fn registration_asks_in_order_then_proceeds() {
    let req = request();
    let mut facts = AccountFacts::new();
    assert_eq!(next_account_step(&req, facts.clone()), AccountStep::Lookup(AccountLookup::AccountName));
    facts.name_exists = Some(false);
    assert_eq!(next_account_step(&req, facts.clone()), AccountStep::Lookup(AccountLookup::Username));
    facts.username_exists = Some(false);
    assert_eq!(next_account_step(&req, facts.clone()), AccountStep::Lookup(AccountLookup::Email));
    facts.email_exists = Some(false);
    assert_eq!(next_account_step(&req, facts.clone()), AccountStep::Lookup(AccountLookup::AdminRole));
    facts.admin_role = Some(Some(role("r-admin", "Admin")));
    assert_eq!(next_account_step(&req, facts.clone()), AccountStep::Proceed(role("r-admin", "Admin")));
    facts.admin_role = Some(None);
    assert_eq!(next_account_step(&req, facts), AccountStep::Fail(ServiceError::not_found("Role", "Admin")));
}

#[test]
fn registration_refusals() {
    let req = request();
    let taken = AccountFacts { name_exists: Some(true), ..AccountFacts::new() };
    assert_eq!(next_account_step(&req, taken), AccountStep::Fail(ServiceError::already_exists("Account", "Acme")));
    let user_taken = AccountFacts { name_exists: Some(false), username_exists: Some(true), ..AccountFacts::new() };
    assert_eq!(
        next_account_step(&req, user_taken),
        AccountStep::Fail(ServiceError::already_exists("User with username", "alice"))
    );
    let email_taken = AccountFacts {
        name_exists: Some(false),
        username_exists: Some(false),
        email_exists: Some(true),
        admin_role: None,
    };
    assert_eq!(
        next_account_step(&req, email_taken),
        AccountStep::Fail(ServiceError::already_exists("User with email", "alice@example.com"))
    );
    let invalid = CreateNewAccount { email: s("nope"), ..request() };
    assert_eq!(
        next_account_step(&invalid, AccountFacts::new()),
        AccountStep::Fail(ServiceError::validation("email: Must be a valid email"))
    );
    let numeric = CreateNewAccount { name: s("1Acme"), ..request() };
    let clear = AccountFacts { name_exists: Some(false), username_exists: Some(false), email_exists: Some(false), admin_role: None };
    assert_eq!(
        next_account_step(&numeric, clear),
        AccountStep::Fail(ServiceError::validation("Account name must start with a letter"))
    );
}

#[test]
fn account_name_rule() {
    assert_eq!(validate_business_rules(&request()), Ok(()));
    for bad in ["9lives", "_under", "-dash"] {
        let r = CreateNewAccount { name: s(bad), ..request() };
        assert_eq!(validate_business_rules(&r), Err(ServiceError::validation("Account name must start with a letter")));
    }
    let unicode = CreateNewAccount { name: s("Élan"), ..request() };
    assert_eq!(validate_business_rules(&unicode), Ok(()));
}

#[test]
fn account_records_and_insert_errors() {
    let rec = new_account_record(&request());
    assert_eq!(rec.name, "Acme");
    let stored = Account { id: s("a9"), name: s("Acme"), is_active: true, created_at: 0, updated_at: 0, is_deleted: false, deleted_at: None };
    let admin = new_admin_user(s("u9"), &stored, &role("r-admin", "Admin"), &request(), s("h"));
    assert_eq!(admin.role_id, "r-admin");
    assert_eq!(admin.account_id, "a9");
    assert_eq!(admin.role_access_level, RoleAccessLevel::ReadWrite);
    assert_eq!(
        account_insert_error("UNIQUE constraint failed: accounts.name", "Acme"),
        ServiceError::already_exists("Account", "Acme")
    );
    assert_eq!(account_insert_error("disk I/O error", "Acme"), ServiceError::Database { message: s("disk I/O error") });
    assert_eq!(
        user_insert_error("UNIQUE constraint failed: users.email", "alice", "a@x.io"),
        ServiceError::already_exists("User with email", "a@x.io")
    );
    assert_eq!(
        user_insert_error("UNIQUE constraint failed: users.username", "alice", "a@x.io"),
        ServiceError::already_exists("User with username", "alice")
    );
}

#[test]
fn passwords_hash_and_verify() {
    let h = hash_password("s3cret").unwrap();
    assert_ne!(h, "s3cret");
    assert_eq!(h.len(), 60);
    assert!(h.starts_with("$2b$12$"));
    assert_eq!(verify_password("s3cret", &h), Ok(true));
    assert_eq!(verify_password("wrong", &h), Ok(false));
    match verify_password("x", "not-a-hash") {
        Err(ServiceError::Validation { message }) => assert!(message.starts_with("Password verification failed: ")),
        other => panic!("unexpected {:?}", other),
    }
}

#[test]
fn authentication_outcomes() {
    let h = hash_password("pw").unwrap();
    assert_eq!(authenticate_user(Some(user(&h, true)), "pw"), Ok(user(&h, true)));
    assert_eq!(authenticate_user(Some(user(&h, true)), "nope"), Err(ServiceError::validation("Invalid username or password")));
    assert_eq!(authenticate_user(None, "pw"), Err(ServiceError::validation("Invalid username or password")));
    assert_eq!(authenticate_user(Some(user(&h, false)), "pw"), Err(ServiceError::validation("User account is inactive")));
}

#[test]
fn user_lookups() {
    assert_eq!(get_user_required(None, "u7"), Err(ServiceError::not_found("User", "u7")));
    assert_eq!(get_admin_user_required(None, "a1"), Err(ServiceError::not_found("Admin User", "a1")));
    assert_eq!(get_user_required(Some(user("h", true)), "u1"), Ok(user("h", true)));
    assert_eq!(get_account_users("a1", 0, vec![]), Err(ServiceError::not_found("Users", "a1")));
    assert_eq!(get_account_users("a1", 1, vec![user("h", true)]), Ok((vec![user("h", true)], 1)));
}

#[test]
fn role_access_changes() {
    let admin = role("r-admin", "Admin");
    let changed = plan_role_access_change("u1", Some(user("h", true)), Some(admin.clone())).unwrap();
    assert_eq!(changed.role_access_level, RoleAccessLevel::ReadWrite);
    let back = plan_role_access_change("u1", Some(changed.clone()), Some(admin.clone())).unwrap();
    assert_eq!(back.role_access_level, RoleAccessLevel::Read);
    assert_eq!(plan_role_access_change("u1", None, Some(admin.clone())), Err(ServiceError::not_found(" User", "u1")));
    assert_eq!(plan_role_access_change("u1", Some(user("h", true)), None), Err(ServiceError::not_found("Role", "Admin")));
    let holder = User { role_id: s("r-admin"), ..user("h", true) };
    assert_eq!(plan_role_access_change("u1", Some(holder), Some(admin)), Err(ServiceError::validation("User already has Admin role")));
    assert_eq!(finish_role_access_change(changed.clone(), 1), Ok(changed.clone()));
    assert_eq!(finish_role_access_change(changed, 0), Err(ServiceError::validation("User role access not changed")));
}

fn invite(status: InviteStatus, expires_at: i64) -> Invite {
    Invite {
        id: s("i1"),
        account_id: s("a1"),
        inviter_id: s("u1"),
        invitee_email: s("bob@example.com"),
        token: s("tok"),
        invite_status: status,
        is_active: true,
        expires_at,
        created_at: 0,
        updated_at: 0,
        is_deleted: false,
        deleted_at: None,
    }
}

#[test]
fn new_invites_last_seven_days() {
    let inv = new_invite(CreateInviteRequest { email: s("bob@example.com") }, &user("h", true), s("i1"), 1_000);
    assert_eq!(inv.expires_at, 1_000 + 604_800_000_000);
    assert_eq!(inv.account_id, "a1");
    assert_eq!(inv.inviter_id, "u1");
    assert_eq!(inv.invite_status, InviteStatus::Pending);
    assert_eq!(inv.token.len(), 20);
    assert!(inv.token.chars().all(|c| c.is_ascii_digit() || ('a'..='f').contains(&c)));
    assert_eq!(resent_expiry(5), 5 + 604_800_000_000);
    let t1 = invite_token();
    let t2 = invite_token();
    assert_eq!(t1.len(), 20);
    assert_ne!(t1, t2);
}

#[test]
fn invite_creation_steps() {
    let inv = new_invite(CreateInviteRequest { email: s("bob@example.com") }, &user("h", true), s("i1"), 1_000);
    let mut facts = InviteFacts::new();
    assert_eq!(next_invite_step(&inv, 2_000, &facts), InviteStep::Lookup(InviteLookup::EmailTaken));
    facts.email_taken = Some(false);
    assert_eq!(next_invite_step(&inv, 2_000, &facts), InviteStep::Lookup(InviteLookup::ExistingInvite));
    facts.existing_invite = Some(None);
    assert_eq!(next_invite_step(&inv, 2_000, &facts), InviteStep::Proceed);
    facts.existing_invite = Some(Some(invite(InviteStatus::Pending, 10)));
    assert_eq!(next_invite_step(&inv, 2_000, &facts), InviteStep::Fail(ServiceError::invalid_operation("Invitation already sent")));
    facts.existing_invite = Some(Some(invite(InviteStatus::Accepted, 10)));
    assert_eq!(next_invite_step(&inv, 2_000, &facts), InviteStep::Fail(ServiceError::invalid_operation("Invitation already accepted")));
    let taken = InviteFacts { email_taken: Some(true), existing_invite: None };
    assert_eq!(next_invite_step(&inv, 2_000, &taken), InviteStep::Fail(ServiceError::already_exists("User with email", "bob@example.com")));
    assert_eq!(
        next_invite_step(&inv, inv.expires_at, &InviteFacts::new()),
        InviteStep::Fail(ServiceError::validation("expires_at: Invalid value"))
    );
}

#[test]
fn invite_lookups_and_errors() {
    assert_eq!(get_invite_required(Some(invite(InviteStatus::Pending, 1)), "i1", "a1"), Ok(invite(InviteStatus::Pending, 1)));
    assert_eq!(get_invite_required(Some(invite(InviteStatus::Pending, 1)), "i1", "other"), Err(ServiceError::not_found("Invite", "i1")));
    assert_eq!(get_invite_required(None, "i1", "a1"), Err(ServiceError::not_found("Invite", "i1")));
    let acct = Account { id: s("a1"), name: s("Acme"), is_active: true, created_at: 0, updated_at: 0, is_deleted: false, deleted_at: None };
    assert_eq!(require_account(Some(acct.clone()), "a1"), Ok(acct));
    assert_eq!(require_account(None, "a1"), Err(ServiceError::not_found("Account", "a1")));
    assert_eq!(invite_insert_error("UNIQUE constraint failed: invites.token"), ServiceError::invalid_operation("Invitation already exists"));
    assert_eq!(invite_insert_error("busy"), ServiceError::Database { message: s("busy") });
    assert_eq!(invite_update_error("FOREIGN KEY constraint failed"), ServiceError::validation("Invalid invite reference"));
    assert_eq!(invite_update_error("CHECK constraint failed: x"), ServiceError::validation("Invalid expires_at value"));
    assert_eq!(resend_rows_check(0, invite(InviteStatus::Pending, 1)), Err(ServiceError::not_found("Invitation not resent", "i1")));
    assert_eq!(resend_rows_check(1, invite(InviteStatus::Pending, 1)), Ok(invite(InviteStatus::Pending, 1)));
}

#[test]
fn invite_acceptance() {
    assert_eq!(check_invite_acceptable("tok", None, 5), Err(ServiceError::not_found("Invite", "tok")));
    assert_eq!(check_invite_acceptable("tok", Some(invite(InviteStatus::Pending, 10)), 9), Ok(invite(InviteStatus::Pending, 10)));
    assert_eq!(check_invite_acceptable("tok", Some(invite(InviteStatus::Pending, 10)), 10), Err(ServiceError::validation("Invite has expired")));
    assert_eq!(
        check_invite_acceptable("tok", Some(invite(InviteStatus::Accepted, 10)), 1),
        Err(ServiceError::validation("Invite has already been processed"))
    );
    assert_eq!(accept_rows_check(0), Err(ServiceError::validation("Invitation not resent")));
    assert_eq!(accept_rows_check(2), Ok(()));
    assert_eq!(require_member_role(None), Err(ServiceError::not_found("Role", "Member")));
    let req = AcceptInviteRequest { token: s("tok"), username: s("bob"), password: s("pw") };
    let u = new_member_user(s("u2"), &invite(InviteStatus::Pending, 10), &role("r-member", "Member"), &req, s("h"));
    assert_eq!(u.email, "bob@example.com");
    assert_eq!(u.username, "bob");
    assert_eq!(u.account_id, "a1");
    assert_eq!(u.role_access_level, RoleAccessLevel::Read);
}

fn notification(id: &str, account: &str, active: bool) -> Notification {
    Notification {
        id: s(id),
        account_id: s(account),
        user_id: s("u1"),
        name: s("hook"),
        notification_type: NotificationType::Webhook,
        url: s("https://example.com"),
        is_active: active,
        created_at: 0,
        updated_at: 0,
        is_deleted: false,
        deleted_at: None,
    }
}

#[test]
fn notification_url_rules() {
    assert_eq!(check_url("https://example.com", NotificationType::Webhook), UrlCheck::TestWebhook);
    assert_eq!(check_url("https://discord.com/api/webhooks/1/abc", NotificationType::Discord), UrlCheck::Accept);
    assert_eq!(
        check_url("https://example.com", NotificationType::Discord),
        UrlCheck::Reject(ServiceError::validation("Discord URLs must be valid Discord webhook URLs"))
    );
}

#[test]
fn webhook_test_outcomes() {
    assert_eq!(webhook_test_result(&WebhookOutcome::Responded { status: 204, status_text: s("204 No Content") }), Ok(()));
    assert_eq!(
        webhook_test_result(&WebhookOutcome::Responded { status: 404, status_text: s("404 Not Found") }),
        Err(ServiceError::ExternalService { message: s("Webhook test failed with status 404 Not Found") })
    );
    assert_eq!(webhook_test_result(&WebhookOutcome::TimedOut), Err(ServiceError::ExternalService { message: s("Webhook timeout after 5 seconds") }));
    assert_eq!(webhook_test_result(&WebhookOutcome::ConnectFailed), Err(ServiceError::ExternalService { message: s("Could not connect to webhook server") }));
    assert_eq!(
        webhook_test_result(&WebhookOutcome::Failed(s("tls"))),
        Err(ServiceError::ExternalService { message: s("Webhook communication failed: tls") })
    );
}

#[test]
fn notification_records_and_ownership() {
    let req = CreateNotificationRequest { name: s("hook"), notification_type: NotificationType::Discord, url: s("u") };
    let rec = new_notification_record(req, &user("h", true), s("n1"));
    assert_eq!(rec.account_id, "a1");
    assert_eq!(rec.user_id, "u1");
    assert_eq!(rec.notification_type, NotificationType::Discord);
    assert_eq!(get_notification_required(Some(notification("n1", "a1", true)), "n1", "a1"), Ok(notification("n1", "a1", true)));
    assert_eq!(
        get_notification_required(Some(notification("n1", "a2", true)), "n1", "a1"),
        get_notification_required(None, "n1", "a1")
    );
    assert_eq!(update_applied(false, "n1"), Err(ServiceError::not_found("Notification", "n1")));
    assert_eq!(update_applied(true, "n1"), Ok(()));
}

#[test]
fn notification_update_statements() {
    assert_eq!(notification_update_query(false, false, false), None);
    assert_eq!(
        notification_update_query(true, true, true),
        Some(s("UPDATE notifications SET name = ?1, url = ?2, is_active = ?3, updated_at = CURRENT_TIMESTAMP WHERE id = ?4 AND is_deleted = 0"))
    );
    assert_eq!(
        notification_update_query(false, true, false),
        Some(s("UPDATE notifications SET url = ?1, updated_at = CURRENT_TIMESTAMP WHERE id = ?2 AND is_deleted = 0"))
    );
    assert_eq!(
        notification_update_query(true, false, true),
        Some(s("UPDATE notifications SET name = ?1, is_active = ?2, updated_at = CURRENT_TIMESTAMP WHERE id = ?3 AND is_deleted = 0"))
    );
}

#[test]
fn paging_bounds() {
    assert_eq!(page_bounds(None, None), (50, 0));
    assert_eq!(page_bounds(Some(5000), Some(20)), (1000, 20));
    assert_eq!(page_bounds(Some(10), None), (10, 0));
    assert_eq!(account_event_page(&None), (50, 0));
    let f = EventFilters { event_types: None, severities: None, node_ids: None, start_date: None, end_date: None, limit: Some(7), offset: Some(3) };
    assert_eq!(account_event_page(&Some(f)), (7, 3));
}

fn create_event() -> CreateEvent {
    CreateEvent {
        id: s("e0"),
        account_id: s("a1"),
        user_id: s("u1"),
        node_id: s("n"),
        node_alias: s("alias"),
        event_type: EventType::InvoiceSettled,
        severity: EventSeverity::Info,
        title: s("Invoice Settled"),
        description: s("d"),
        data: s("{\"a\":1}"),
        notifications_id: None,
        timestamp: 10,
    }
}

#[test]
fn event_is_recorded_once_per_active_endpoint() {
    let ns = vec![notification("n1", "a1", true), notification("n2", "a1", false), notification("n3", "a1", true)];
    assert_eq!(plan_event_targets(&ns), vec![Some(s("n1")), Some(s("n3"))]);
    assert_eq!(plan_event_targets(&vec![notification("n2", "a1", false)]), vec![None]);
    assert_eq!(plan_event_targets(&vec![]), vec![None]);
    let rec = event_for_target(&create_event(), s("e5"), Some(s("n3")));
    assert_eq!(rec, CreateEvent { id: s("e5"), notifications_id: Some(s("n3")), ..create_event() });
}

fn stored(data: &str) -> Event {
    Event {
        id: s("e1"),
        account_id: s("a1"),
        user_id: s("u1"),
        node_id: s("n"),
        node_alias: s("alias"),
        event_type: EventType::PaymentSent,
        severity: EventSeverity::Critical,
        title: s("t"),
        description: s("d"),
        data: s(data),
        notifications_id: Some(s("n1")),
        timestamp: 1,
        created_at: 2,
        updated_at: 3,
        is_deleted: false,
        deleted_at: None,
    }
}

#[test]
fn events_are_presented_with_json_data() {
    let ok = nodegaze::models::EventResponse::from_event(stored("{\"amount\":5}"));
    assert_eq!(ok.data, "{\"amount\":5}");
    assert_eq!(ok.title, "t");
    assert_eq!(ok.created_at, 2);
    let bad = nodegaze::models::EventResponse::from_event(stored("not json"));
    assert_eq!(bad.data, "null");
    let listed = account_event_responses(vec![stored("[1,2]"), stored("{oops")]);
    assert_eq!(listed.len(), 2);
    assert_eq!(listed[0].data, "[1,2]");
    assert_eq!(listed[1].data, "{}");
    assert_eq!(event_response(stored("nope"), "x").data, "x");
}

#[test]
fn fresh_invite_is_acceptable_for_seven_days() {
    let created = 1_700_000_000_000_000i64;
    let record = new_invite(CreateInviteRequest { email: s("bob@example.com") }, &user("h", true), s("i1"), created);
    let stored = Invite { expires_at: record.expires_at, ..invite(InviteStatus::Pending, 0) };
    let week = 604_800_000_000i64;
    assert!(check_invite_acceptable("tok", Some(stored.clone()), created + week - 1).is_ok());
    assert_eq!(
        check_invite_acceptable("tok", Some(stored.clone()), created + week),
        Err(ServiceError::validation("Invite has expired"))
    );
    let accepted = accepted_invite(stored.clone());
    assert_eq!(accepted, Invite { invite_status: InviteStatus::Accepted, ..stored });
    assert_eq!(
        check_invite_acceptable("tok", Some(accepted), created),
        Err(ServiceError::validation("Invite has already been processed"))
    );
}
