use nodegaze::errors::ServiceError;
use nodegaze::models::{
    AcceptInviteRequest, CreateAccount, CreateCredential, CreateInvite, CreateInviteRequest,
    CreateNewAccount, CreateNotificationRequest, InviteStatus, NotificationType,
    UpdateNotificationRequest,
};
use nodegaze::validation::{join_field_errors, validation_result, FieldError};

fn s(x: &str) -> String {
    x.to_string()
}

fn pairs(errors: &[FieldError]) -> Vec<(String, String)> {
    errors.iter().map(|e| (e.field.clone(), e.message.clone())).collect()
}

#[test]
fn valid_account_payload_passes() {
    let a = CreateAccount { name: s("Acme"), username: s("alice"), email: s("alice@example.com") };
    assert!(a.validate().is_empty());
    assert_eq!(validation_result(&a.validate()), Ok(()));
}

#[test]
fn account_payload_reports_rules_in_field_order() {
    let a = CreateAccount { name: s(""), username: s("bob"), email: s("not-an-email") };
    let errors = a.validate();
    assert_eq!(
        pairs(&errors),
        vec![
            (s("name"), s("Account name must be between 1-255 characters")),
            (s("email"), s("Must be a valid email")),
        ]
    );
    assert_eq!(
        validation_result(&errors),
        Err(ServiceError::Validation {
            message: s("name: Account name must be between 1-255 characters, email: Must be a valid email"),
        })
    );
}

#[test]
fn overlong_name_is_rejected() {
    let a = CreateNewAccount {
        name: "x".repeat(256),
        username: s("bob"),
        email: s("bob@example.com"),
        password: s(""),
    };
    assert_eq!(
        pairs(&a.validate()),
        vec![
            (s("name"), s("Account name must be between 1-255 characters")),
            (s("password"), s("Password is required")),
        ]
    );
    let ok = CreateNewAccount {
        name: "x".repeat(255),
        username: s("bob"),
        email: s("bob@example.com"),
        password: s("pw"),
    };
    assert!(ok.validate().is_empty());
}

#[test]
fn joined_report_uses_field_colon_message() {
    let errors = vec![
        FieldError { field: s("a"), message: s("first") },
        FieldError { field: s("b"), message: s("second") },
        FieldError { field: s("c"), message: s("third") },
    ];
    assert_eq!(join_field_errors(&errors), "a: first, b: second, c: third");
    assert_eq!(join_field_errors(&Vec::new()), "");
}

#[test]
fn credential_address_needs_a_port() {
    let c = CreateCredential {
        id: s("c1"),
        user_id: s("u1"),
        account_id: s("a1"),
        node_id: s("n1"),
        node_alias: s("alias"),
        macaroon: s("mac"),
        tls_cert: s("cert"),
        address: s("localhost"),
        node_type: None,
        client_cert: None,
        client_key: None,
        ca_cert: None,
    };
    assert_eq!(pairs(&c.validate()), vec![(s("address"), s("Invalid value"))]);
    let with_port = CreateCredential { address: s("localhost:10009"), ..c };
    assert!(with_port.validate().is_empty());
}

#[test]
fn invite_must_expire_in_the_future() {
    let i = CreateInvite {
        id: s("i1"),
        account_id: s("a1"),
        inviter_id: s("u1"),
        invitee_email: s("carol@example.com"),
        token: s("tok"),
        expires_at: 1_000,
        invite_status: InviteStatus::Pending,
    };
    assert!(i.validate(999).is_empty());
    assert_eq!(pairs(&i.validate(1_000)), vec![(s("expires_at"), s("Invalid value"))]);
}

#[test]
fn invite_request_email_rules() {
    let r = CreateInviteRequest { email: s("dave") };
    assert_eq!(pairs(&r.validate()), vec![(s("email"), s("Must be a valid email"))]);
    let ok = CreateInviteRequest { email: s("dave@example.com") };
    assert!(ok.validate().is_empty());
}

#[test]
fn accept_invite_request_rules() {
    let r = AcceptInviteRequest { token: s(""), username: s(""), password: s("") };
    assert_eq!(
        pairs(&r.validate()),
        vec![
            (s("token"), s("Token is required")),
            (s("username"), s("Username must be between 1-255 characters")),
            (s("password"), s("Password is required")),
        ]
    );
}

#[test]
fn notification_url_must_be_a_url() {
    let r = CreateNotificationRequest {
        name: s("hook"),
        notification_type: NotificationType::Webhook,
        url: s("not a url"),
    };
    assert_eq!(pairs(&r.validate()), vec![(s("url"), s("Must be a valid URL"))]);
    let ok = CreateNotificationRequest { url: s("https://example.com/hook"), ..r };
    assert!(ok.validate().is_empty());
}

#[test]
fn update_request_checks_only_present_fields() {
    let none = UpdateNotificationRequest { name: None, url: None, is_active: None };
    assert!(none.validate().is_empty());
    let bad = UpdateNotificationRequest { name: Some(s("")), url: Some(s("nope")), is_active: Some(true) };
    assert_eq!(
        pairs(&bad.validate()),
        vec![
            (s("name"), s("Name must be between 1-255 characters")),
            (s("url"), s("Must be a valid URL")),
        ]
    );
}
