use nodegaze::auth::{
    bearer_token, check_login_account, check_refresh_user, current_user_info, login_response,
    node_credentials_required, optional_bearer_token, revoke_response, role_name,
    token_node_credentials, token_rejection, token_setup_failure, LoginRequest,
    RefreshTokenRequest,
};
use nodegaze::errors::{HttpError, ServiceError};
use nodegaze::jwt::{Claims, NodeCredentials};
use nodegaze::models::{Account, Credential, Role, RoleAccessLevel, User};

fn s(x: &str) -> String {
    x.to_string()
}

pub fn user(active: bool) -> User {
    User {
        id: s("u1"),
        account_id: s("a1"),
        username: s("alice"),
        password_hash: s("hash"),
        email: s("alice@example.com"),
        role_id: s("r1"),
        role_access_level: RoleAccessLevel::ReadWrite,
        is_active: active,
        created_at: 0,
        updated_at: 0,
        is_deleted: false,
        deleted_at: None,
    }
}

fn account(active: bool) -> Account {
    Account { id: s("a1"), name: s("Acme"), is_active: active, created_at: 0, updated_at: 0, is_deleted: false, deleted_at: None }
}

fn credential(node_type: Option<&str>) -> Credential {
    Credential {
        id: s("c1"),
        user_id: s("u1"),
        account_id: s("a1"),
        node_id: s("02abc"),
        node_alias: s("mynode"),
        macaroon: s("mac"),
        tls_cert: s("cert"),
        address: s("127.0.0.1:10009"),
        node_type: node_type.map(s),
        client_cert: None,
        client_key: None,
        ca_cert: None,
        is_active: true,
        created_at: 0,
        updated_at: 0,
        is_deleted: false,
        deleted_at: None,
    }
}

fn claims(creds: Option<NodeCredentials>) -> Claims {
    Claims {
        sub: s("u1"),
        account_id: s("a1"),
        role: s("Admin"),
        role_access_level: RoleAccessLevel::ReadWrite,
        node_credentials: creds,
        exp: 2_000,
        iat: 1_000,
    }
}

#[test]
fn login_request_rules() {
    let r = LoginRequest { username: s(""), password: s("") };
    let errs: Vec<(String, String)> = r.validate().into_iter().map(|e| (e.field, e.message)).collect();
    assert_eq!(
        errs,
        vec![(s("username"), s("Username is required")), (s("password"), s("Password is required"))]
    );
    assert!(LoginRequest { username: s("a"), password: s("b") }.validate().is_empty());
    let refresh = RefreshTokenRequest { refresh_token: s("") };
    assert_eq!(refresh.validate().len(), 1);
    assert_eq!(refresh.validate()[0].message, "Refresh token is required");
}

#[test]
fn login_account_must_exist_and_be_active() {
    assert_eq!(check_login_account(&user(true), Some(account(true))), Ok(account(true)));
    assert_eq!(check_login_account(&user(true), None), Err(ServiceError::not_found("Account", "a1")));
    assert_eq!(
        check_login_account(&user(true), Some(account(false))),
        Err(ServiceError::validation("Account is inactive"))
    );
}

#[test]
fn role_name_lookup() {
    let role = Role { id: s("r1"), name: s("Admin"), is_active: true, created_at: 0, updated_at: 0, is_deleted: false, deleted_at: None };
    assert_eq!(role_name(Some(role), "r1"), Ok(s("Admin")));
    assert_eq!(role_name(None, "r9"), Err(ServiceError::not_found("Role", "r9")));
}

#[test]
fn stored_credentials_become_token_credentials() {
    assert_eq!(token_node_credentials(None), None);
    let n = token_node_credentials(Some(credential(None))).unwrap();
    assert_eq!(n.node_type, "lnd");
    assert_eq!(n.node_id, "02abc");
    assert_eq!(n.node_alias, "mynode");
    assert_eq!(n.address, "127.0.0.1:10009");
    let cln = token_node_credentials(Some(credential(Some("cln")))).unwrap();
    assert_eq!(cln.node_type, "cln");
    assert_eq!(NodeCredentials::from_credential(credential(None)), n);
}

#[test]
fn login_response_fields() {
    let r = login_response(user(true), account(true), s("Admin"), s("acc"), s("ref"), true, 86400);
    assert_eq!(r.access_token, "acc");
    assert_eq!(r.refresh_token, "ref");
    assert_eq!(r.expires_in, 86400);
    assert_eq!(r.user.id, "u1");
    assert_eq!(r.user.account_name, "Acme");
    assert_eq!(r.user.role, "Admin");
    assert!(r.user.has_node_credentials);
}

#[test]
fn refresh_needs_active_user() {
    assert_eq!(check_refresh_user(user(true)), Ok(user(true)));
    assert_eq!(check_refresh_user(user(false)), Err(ServiceError::validation("User account is inactive")));
}

#[test]
fn current_user_info_from_claims() {
    let creds = token_node_credentials(Some(credential(None)));
    let info = current_user_info(&claims(creds), s("alice"), s("alice@example.com"), s("Acme"), s("Admin"));
    assert_eq!(info.id, "u1");
    assert_eq!(info.account_id, "a1");
    assert!(info.has_node_credentials);
    let plain = current_user_info(&claims(None), s("alice"), s("e"), s("Acme"), s("Admin"));
    assert!(!plain.has_node_credentials);
}

#[test]
fn revoke_gives_a_day_long_token() {
    let r = revoke_response(s("tok"));
    assert_eq!(r.access_token, "tok");
    assert!(r.revoked);
    assert_eq!(r.expires_in, 86400);
}

#[test]
fn bearer_header_parsing() {
    assert_eq!(bearer_token(Some("Bearer abc.def")), Ok(s("abc.def")));
    assert_eq!(bearer_token(Some("Bearer ")), Ok(s("")));
    assert_eq!(
        bearer_token(None),
        Err(HttpError::new(401, "Missing authorization header", "authentication_error"))
    );
    assert_eq!(
        bearer_token(Some("Basic abc")),
        Err(HttpError::new(401, "Invalid authorization header format. Expected: Bearer <token>", "authentication_error"))
    );
    assert_eq!(optional_bearer_token(Some("Bearer xyz")), Some(s("xyz")));
    assert_eq!(optional_bearer_token(Some("bearer xyz")), None);
    assert_eq!(optional_bearer_token(None), None);
}

#[test]
fn token_refusals() {
    let e = token_rejection(&ServiceError::validation("Invalid token: ExpiredSignature"));
    assert_eq!(e.status, 401);
    assert_eq!(e.message, "Invalid or expired token: Validation error: Invalid token: ExpiredSignature");
    assert_eq!(e.code, "authentication_error");
    assert_eq!(token_setup_failure(), HttpError::new(500, "Internal server error", "server_error"));
}

#[test]
fn node_credentials_gate() {
    assert_eq!(
        node_credentials_required(None),
        Err(HttpError::new(401, "Authentication required", "authentication_error"))
    );
    assert_eq!(
        node_credentials_required(Some(&claims(None))),
        Err(HttpError::new(400, "Node credentials required. Please authenticate your node first.", "node_credentials_required"))
    );
    let with = claims(token_node_credentials(Some(credential(None))));
    assert_eq!(node_credentials_required(Some(&with)), Ok(()));
}

#[test]
fn access_claims_expire_after_the_span() {
    let c = Claims::access(s("u1"), s("a1"), s("Admin"), RoleAccessLevel::Read, None, 1_000, 86_400);
    assert_eq!(c.iat, 1_000);
    assert_eq!(c.exp, 87_400);
    assert_eq!(c.account_id(), "a1");
    assert!(!c.has_node_credentials());
    assert_eq!(c.node_credentials(), None);
    let r = Claims::refresh(s("u1"), RoleAccessLevel::Read, 1_000);
    assert_eq!(r.exp, 1_000 + 2_592_000);
    assert_eq!(r.account_id, "");
    assert_eq!(r.role, "");
    assert_eq!(r.node_credentials, None);
}

#[test]
fn claims_issued_now() {
    let c = Claims::access_now(s("u1"), s("a1"), s("Admin"), RoleAccessLevel::Read, None, 3_600).unwrap();
    assert_eq!(c.exp - c.iat, 3_600);
    assert_eq!(c.sub, "u1");
    let r = Claims::refresh_now(s("u1"), RoleAccessLevel::ReadWrite).unwrap();
    assert_eq!(r.exp - r.iat, 2_592_000);
}

#[test]
fn out_of_range_span_gives_no_claims() {
    assert_eq!(Claims::access_now(s("u1"), s("a1"), s("Admin"), RoleAccessLevel::Read, None, 1u64 << 62), None);
    assert_eq!(Claims::access_now(s("u1"), s("a1"), s("Admin"), RoleAccessLevel::Read, None, 10_000_000_000_000_000), None);
}
