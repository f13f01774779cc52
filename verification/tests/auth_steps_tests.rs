use nodegaze::auth::{LoginRequest, LoginResponse, RefreshTokenResponse, UserInfo};
use nodegaze::auth_steps::{
    next_login_step, next_refresh_step, revocation_plan, LoginFacts, LoginLookup, LoginStep,
    RefreshFacts, RefreshLookup, RefreshStep,
};
use nodegaze::errors::{HttpError, ServiceError};
use nodegaze::jwt::{Claims, TokenRequest};
use nodegaze::models::{
    AcceptInviteRequest, Account, Credential, Invite, InviteStatus, Role, RoleAccessLevel, User,
};
use nodegaze::services::invite_service::{next_accept_step, AcceptFacts, AcceptLookup, AcceptStep};
use nodegaze::services::user_service::hash_password;

fn s(x: &str) -> String {
    x.to_string()
}

fn user(hash: &str) -> User {
    User {
        id: s("u1"),
        account_id: s("a1"),
        username: s("alice"),
        password_hash: s(hash),
        email: s("alice@example.com"),
        role_id: s("r1"),
        role_access_level: RoleAccessLevel::ReadWrite,
        is_active: true,
        created_at: 0,
        updated_at: 0,
        is_deleted: false,
        deleted_at: None,
    }
}

fn account(active: bool) -> Account {
    Account { id: s("a1"), name: s("Acme"), is_active: active, created_at: 0, updated_at: 0, is_deleted: false, deleted_at: None }
}

fn role(id: &str, name: &str) -> Role {
    Role { id: s(id), name: s(name), is_active: true, created_at: 0, updated_at: 0, is_deleted: false, deleted_at: None }
}

fn credential() -> Credential {
    Credential {
        id: s("c1"),
        user_id: s("u1"),
        account_id: s("a1"),
        node_id: s("02abc"),
        node_alias: s("node"),
        macaroon: s("m"),
        tls_cert: s("t"),
        address: s("h:1"),
        node_type: None,
        client_cert: None,
        client_key: None,
        ca_cert: None,
        is_active: true,
        created_at: 0,
        updated_at: 0,
        is_deleted: false,
        deleted_at: None,
    }
}

#[test]
fn login_walks_through_its_steps() {
    let h = hash_password("pw").unwrap();
    let req = LoginRequest { username: s("alice"), password: s("pw") };
    let mut f = LoginFacts::new();
    assert_eq!(next_login_step(&req, &mut f, 3600), LoginStep::Lookup(LoginLookup::UserByUsername));
    f.user = Some(Some(user(&h)));
    assert_eq!(next_login_step(&req, &mut f, 3600), LoginStep::Lookup(LoginLookup::Account));
    assert_eq!(f.password, Some(Ok(true)));
    f.account = Some(Some(account(true)));
    assert_eq!(next_login_step(&req, &mut f, 3600), LoginStep::Lookup(LoginLookup::AccountCredential));
    f.account_credential = Some(Some(credential()));
    assert_eq!(next_login_step(&req, &mut f, 3600), LoginStep::Lookup(LoginLookup::Role));
    f.role = Some(Some(role("r1", "Admin")));
    match next_login_step(&req, &mut f, 3600) {
        LoginStep::Sign { access, refresh_user_id, refresh_level } => {
            assert_eq!(access.user_id, "u1");
            assert_eq!(access.account_id, "a1");
            assert_eq!(access.role, "Admin");
            assert_eq!(access.role_access_level, RoleAccessLevel::ReadWrite);
            let n = access.node_credentials.unwrap();
            assert_eq!(n.node_id, "02abc");
            assert_eq!(n.node_type, "lnd");
            assert_eq!(refresh_user_id, "u1");
            assert_eq!(refresh_level, RoleAccessLevel::ReadWrite);
        }
        other => panic!("unexpected {:?}", other),
    }
    f.tokens = Some((s("acc"), s("ref")));
    assert_eq!(next_login_step(&req, &mut f, 3600), LoginStep::Lookup(LoginLookup::UserCredential));
    f.user_credential = Some(None);
    assert_eq!(
        next_login_step(&req, &mut f, 3600),
        LoginStep::Done(LoginResponse {
            access_token: s("acc"),
            refresh_token: s("ref"),
            user: UserInfo {
                id: s("u1"),
                username: s("alice"),
                email: s("alice@example.com"),
                account_id: s("a1"),
                account_name: s("Acme"),
                role: s("Admin"),
                has_node_credentials: false,
            },
            expires_in: 3600,
        })
    );
}

#[test]
fn login_refusals_in_order() {
    let h = hash_password("pw").unwrap();
    let bad = LoginRequest { username: s(""), password: s("pw") };
    assert_eq!(
        next_login_step(&bad, &mut LoginFacts::new(), 1),
        LoginStep::Fail(ServiceError::validation("username: Username is required"))
    );
    let req = LoginRequest { username: s("alice"), password: s("wrong") };
    let mut f = LoginFacts { user: Some(None), ..LoginFacts::new() };
    assert_eq!(next_login_step(&req, &mut f, 1), LoginStep::Fail(ServiceError::validation("Invalid username or password")));
    let mut f = LoginFacts { user: Some(Some(user(&h))), account: Some(None), ..LoginFacts::new() };
    assert_eq!(next_login_step(&req, &mut f, 1), LoginStep::Fail(ServiceError::validation("Invalid username or password")));
    let ok = LoginRequest { username: s("alice"), password: s("pw") };
    let mut f = LoginFacts { user: Some(Some(user(&h))), account: Some(None), ..LoginFacts::new() };
    assert_eq!(next_login_step(&ok, &mut f, 1), LoginStep::Fail(ServiceError::not_found("Account", "a1")));
    let mut f = LoginFacts { user: Some(Some(user(&h))), account: Some(Some(account(false))), ..LoginFacts::new() };
    assert_eq!(next_login_step(&ok, &mut f, 1), LoginStep::Fail(ServiceError::validation("Account is inactive")));
    let inactive = User { is_active: false, ..user(&h) };
    let mut f = LoginFacts { user: Some(Some(inactive)), ..LoginFacts::new() };
    assert_eq!(next_login_step(&ok, &mut f, 1), LoginStep::Fail(ServiceError::validation("User account is inactive")));
    assert_eq!(f.password, None);
    let mut f = LoginFacts {
        user: Some(Some(user(&h))),
        account: Some(Some(account(true))),
        account_credential: Some(None),
        role: Some(None),
        ..LoginFacts::new()
    };
    assert_eq!(next_login_step(&ok, &mut f, 1), LoginStep::Fail(ServiceError::not_found("Role", "r1")));
}

fn claims() -> Claims {
    Claims {
        sub: s("u1"),
        account_id: s("old-account"),
        role: s("Admin"),
        role_access_level: RoleAccessLevel::Read,
        node_credentials: None,
        exp: 2,
        iat: 1,
    }
}

#[test]
fn refresh_walks_through_its_steps() {
    let mut f = RefreshFacts::new();
    assert_eq!(next_refresh_step(&f, 60), RefreshStep::Lookup(RefreshLookup::TokenClaims));
    f.claims = Some(Ok(claims()));
    assert_eq!(next_refresh_step(&f, 60), RefreshStep::Lookup(RefreshLookup::User));
    f.user = Some(Some(user("h")));
    assert_eq!(next_refresh_step(&f, 60), RefreshStep::Lookup(RefreshLookup::UserCredential));
    f.user_credential = Some(None);
    assert_eq!(next_refresh_step(&f, 60), RefreshStep::Lookup(RefreshLookup::Role));
    f.role = Some(Some(role("r1", "Admin")));
    assert_eq!(
        next_refresh_step(&f, 60),
        RefreshStep::Sign(TokenRequest {
            user_id: s("u1"),
            account_id: s("a1"),
            role: s("Admin"),
            role_access_level: RoleAccessLevel::ReadWrite,
            node_credentials: None,
        })
    );
    f.token = Some(s("new"));
    assert_eq!(next_refresh_step(&f, 60), RefreshStep::Done(RefreshTokenResponse { access_token: s("new"), expires_in: 60 }));
}

#[test]
fn refresh_refusals() {
    let f = RefreshFacts { claims: Some(Err(s("ExpiredSignature"))), ..RefreshFacts::new() };
    assert_eq!(next_refresh_step(&f, 1), RefreshStep::Fail(ServiceError::validation("Token validation failed: ExpiredSignature")));
    let f = RefreshFacts { claims: Some(Ok(claims())), user: Some(None), ..RefreshFacts::new() };
    assert_eq!(next_refresh_step(&f, 1), RefreshStep::Fail(ServiceError::not_found("User", "u1")));
    let f = RefreshFacts { claims: Some(Ok(claims())), user: Some(Some(User { is_active: false, ..user("h") })), ..RefreshFacts::new() };
    assert_eq!(next_refresh_step(&f, 1), RefreshStep::Fail(ServiceError::validation("User account is inactive")));
}

#[test]
fn revocation_plans() {
    assert_eq!(revocation_plan(&claims(), None), Err(HttpError::new(404, "No node credentials found", "not_found")));
    let (id, req) = revocation_plan(&claims(), Some(credential())).unwrap();
    assert_eq!(id, "c1");
    assert_eq!(
        req,
        TokenRequest { user_id: s("u1"), account_id: s("old-account"), role: s("Admin"), role_access_level: RoleAccessLevel::Read, node_credentials: None }
    );
}

fn invite(status: InviteStatus, expires_at: i64) -> Invite {
    Invite {
        id: s("i1"),
        account_id: s("a1"),
        inviter_id: s("u1"),
        invitee_email: s("bob@example.com"),
        token: s("tok"),
        invite_status: status,
        is_active: true,
        expires_at,
        created_at: 0,
        updated_at: 0,
        is_deleted: false,
        deleted_at: None,
    }
}

#[test]
fn acceptance_walks_through_its_steps() {
    let req = AcceptInviteRequest { token: s("tok"), username: s("bob"), password: s("pw") };
    let mut f = AcceptFacts::new();
    assert_eq!(next_accept_step(&req, 5, s("u2"), &mut f), AcceptStep::Lookup(AcceptLookup::InviteByToken));
    f.invite = Some(Some(invite(InviteStatus::Pending, 10)));
    let accepted = Invite { invite_status: InviteStatus::Accepted, ..invite(InviteStatus::Pending, 10) };
    assert_eq!(next_accept_step(&req, 5, s("u2"), &mut f), AcceptStep::MarkAccepted(accepted.clone()));
    f.marked = Some(Ok(1));
    assert_eq!(next_accept_step(&req, 5, s("u2"), &mut f), AcceptStep::Lookup(AcceptLookup::MemberRole));
    f.role = Some(Some(role("r2", "Member")));
    let member = match next_accept_step(&req, 5, s("u2"), &mut f) {
        AcceptStep::Insert(c) => c,
        other => panic!("unexpected {:?}", other),
    };
    assert_eq!(member.id, "u2");
    assert_eq!(member.account_id, "a1");
    assert_eq!(member.role_id, "r2");
    assert_eq!(member.username, "bob");
    assert_eq!(member.email, "bob@example.com");
    assert_eq!(member.role_access_level, RoleAccessLevel::Read);
    assert!(member.password_hash.starts_with("$2b$12$"));
    let stored = User { id: s("u2"), username: s("bob"), email: s("bob@example.com"), role_access_level: RoleAccessLevel::Read, ..user(&member.password_hash) };
    f.user = Some(Ok(stored.clone()));
    assert_eq!(next_accept_step(&req, 5, s("u2"), &mut f), AcceptStep::Done(accepted, stored));
}

#[test]
fn acceptance_refusals() {
    let req = AcceptInviteRequest { token: s("tok"), username: s("bob"), password: s("pw") };
    let mut f = AcceptFacts { invite: Some(None), ..AcceptFacts::new() };
    assert_eq!(next_accept_step(&req, 5, s("u2"), &mut f), AcceptStep::Fail(ServiceError::not_found("Invite", "tok")));
    let mut f = AcceptFacts { invite: Some(Some(invite(InviteStatus::Accepted, 10))), ..AcceptFacts::new() };
    assert_eq!(
        next_accept_step(&req, 5, s("u2"), &mut f),
        AcceptStep::Fail(ServiceError::validation("Invite has already been processed"))
    );
    let mut f = AcceptFacts { invite: Some(Some(invite(InviteStatus::Pending, 10))), marked: Some(Ok(0)), ..AcceptFacts::new() };
    assert_eq!(next_accept_step(&req, 5, s("u2"), &mut f), AcceptStep::Fail(ServiceError::validation("Invitation not resent")));
    let mut f = AcceptFacts { invite: Some(Some(invite(InviteStatus::Pending, 10))), marked: Some(Ok(1)), role: Some(None), ..AcceptFacts::new() };
    assert_eq!(next_accept_step(&req, 5, s("u2"), &mut f), AcceptStep::Fail(ServiceError::not_found("Role", "Member")));
    let mut f = AcceptFacts {
        invite: Some(Some(invite(InviteStatus::Pending, 10))),
        marked: Some(Ok(1)),
        role: Some(Some(role("r2", "Member"))),
        password_hash: Some(Ok(s("h"))),
        user: Some(Err(s("UNIQUE constraint failed: users.username"))),
    };
    assert_eq!(next_accept_step(&req, 5, s("u2"), &mut f), AcceptStep::Fail(ServiceError::already_exists("User with username", "bob")));
}
