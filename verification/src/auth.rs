//! Authentication: login and refresh payloads, the decisions of logging in
//! and refreshing a token, and the checks of the authentication middleware.

use vstd::prelude::*;
use crate::errors::{result_view, HttpError, ServiceError, ServiceErrorView, ServiceResult};
use crate::jwt::{is_token_form, Claims, NodeCredentials};
use crate::models::{Account, Credential, Role, User};
use crate::text::{concat, has_prefix, str_starts_with};
use crate::validation::{at_least_one, check, errors_view, require, FieldError};

verus! {

/// Login request payload.
#[derive(Debug, Clone, PartialEq, Eq)]
pub struct LoginRequest {
    pub username: String,
    pub password: String,
}

/// Login response containing tokens and user info.
#[derive(Debug, Clone, PartialEq, Eq)]
pub struct LoginResponse {
    pub access_token: String,
    pub refresh_token: String,
    pub user: UserInfo,
    /// Token lifetime in seconds.
    pub expires_in: u64,
}

/// User information returned to a logged-in client.
#[derive(Debug, Clone, PartialEq, Eq)]
pub struct UserInfo {
    pub id: String,
    pub username: String,
    pub email: String,
    pub account_id: String,
    pub account_name: String,
    pub role: String,
    pub has_node_credentials: bool,
}

/// Token refresh request.
#[derive(Debug, Clone, PartialEq, Eq)]
pub struct RefreshTokenRequest {
    pub refresh_token: String,
}

/// Token refresh response.
#[derive(Debug, Clone, PartialEq, Eq)]
pub struct RefreshTokenResponse {
    pub access_token: String,
    pub expires_in: u64,
}

/// Response after revoking node credentials.
#[derive(Debug, Clone, PartialEq, Eq)]
pub struct RevokeNodeCredentialsResponse {
    pub access_token: String,
    pub revoked: bool,
    pub expires_in: u64,
}

/// The rules of [`LoginRequest`] that `v` fails, in field order.
pub open spec fn login_request_errors(v: LoginRequest) -> Seq<(Seq<char>, Seq<char>)> {
    check(v.username@.len() >= 1, "username"@, "Username is required"@) + check(
        v.password@.len() >= 1,
        "password"@,
        "Password is required"@,
    )
}

impl LoginRequest {
    /// Checks every field rule; the failed ones come back in field order.
    pub fn validate(&self) -> (r: Vec<FieldError>)
        ensures
            errors_view(r@) == login_request_errors(*self),
    {
        let mut errors: Vec<FieldError> = Vec::new();
        assert(errors_view(errors@) =~= Seq::empty());
        require(&mut errors, at_least_one(self.username.as_str()), "username", "Username is required");
        require(&mut errors, at_least_one(self.password.as_str()), "password", "Password is required");
        errors
    }
}

/// The rules of [`RefreshTokenRequest`] that `v` fails.
pub open spec fn refresh_token_request_errors(v: RefreshTokenRequest) -> Seq<(Seq<char>, Seq<char>)> {
    check(v.refresh_token@.len() >= 1, "refresh_token"@, "Refresh token is required"@)
}

impl RefreshTokenRequest {
    /// Checks the field rule.
    pub fn validate(&self) -> (r: Vec<FieldError>)
        ensures
            errors_view(r@) == refresh_token_request_errors(*self),
    {
        let mut errors: Vec<FieldError> = Vec::new();
        assert(errors_view(errors@) =~= Seq::empty());
        require(
            &mut errors,
            at_least_one(self.refresh_token.as_str()),
            "refresh_token",
            "Refresh token is required",
        );
        errors
    }
}

/// The account of a logging-in user: it must exist (`Account not found:
/// <account id>`) and be active (`Account is inactive`).
pub open spec fn login_account_check(user: User, found: Option<Account>) -> Result<
    Account,
    ServiceErrorView,
> {
    match found {
        None => Err(ServiceErrorView::NotFound { entity: "Account"@, identifier: user.account_id@ }),
        Some(a) => if !a.is_active {
            Err(ServiceErrorView::Validation { message: "Account is inactive"@ })
        } else {
            Ok(a)
        },
    }
}

/// Checks the account of a logging-in user.
pub fn check_login_account(user: &User, found: Option<Account>) -> (r: ServiceResult<Account>)
    ensures
        result_view(r) == login_account_check(*user, found),
{
    let account = match found {
        Some(a) => a,
        None => {
            return Err(ServiceError::not_found("Account", user.account_id.as_str()));
        },
    };
    if !account.is_active {
        return Err(ServiceError::validation("Account is inactive"));
    }
    Ok(account)
}

/// The name of a user's role; a missing role is `Role not found: <role id>`.
pub fn role_name(found: Option<Role>, role_id: &str) -> (r: ServiceResult<String>)
    ensures
        match found {
            Some(role) => r == Ok::<String, ServiceError>(role.name),
            None => result_view(r) == Err::<String, ServiceErrorView>(
                ServiceErrorView::NotFound { entity: "Role"@, identifier: role_id@ },
            ),
        },
{
    match found {
        Some(role) => Ok(role.name),
        None => Err(ServiceError::not_found("Role", role_id)),
    }
}

/// The node credentials a token carries for stored credentials, if any.
pub fn token_node_credentials(found: Option<Credential>) -> (r: Option<NodeCredentials>)
    ensures
        found is None <==> r is None,
        r matches Some(n) ==> is_token_form(n, found->Some_0),
{
    match found {
        Some(c) => Some(NodeCredentials::from_credential(c)),
        None => None,
    }
}

/// The response of a successful login.
pub fn login_response(
    user: User,
    account: Account,
    role: String,
    access_token: String,
    refresh_token: String,
    has_node_credentials: bool,
    expires_in: u64,
) -> (r: LoginResponse)
    ensures
        r.access_token == access_token,
        r.refresh_token == refresh_token,
        r.expires_in == expires_in,
        r.user.id == user.id,
        r.user.username == user.username,
        r.user.email == user.email,
        r.user.account_id == account.id,
        r.user.account_name == account.name,
        r.user.role == role,
        r.user.has_node_credentials == has_node_credentials,
{
    LoginResponse {
        access_token,
        refresh_token,
        user: UserInfo {
            id: user.id,
            username: user.username,
            email: user.email,
            account_id: account.id,
            account_name: account.name,
            role,
            has_node_credentials,
        },
        expires_in,
    }
}

/// A token may be refreshed only for an active user
/// (`User account is inactive`).
pub fn check_refresh_user(user: User) -> (r: ServiceResult<User>)
    ensures
        user.is_active ==> r == Ok::<User, ServiceError>(user),
        !user.is_active ==> result_view(r) == Err::<User, ServiceErrorView>(
            ServiceErrorView::Validation { message: "User account is inactive"@ },
        ),
{
    if !user.is_active {
        return Err(ServiceError::validation("User account is inactive"));
    }
    Ok(user)
}

/// The user information of the current token holder.
pub fn current_user_info(
    claims: &Claims,
    username: String,
    email: String,
    account_name: String,
    role_name: String,
) -> (r: UserInfo)
    ensures
        r.id == claims.sub,
        r.account_id == claims.account_id,
        r.username == username,
        r.email == email,
        r.account_name == account_name,
        r.role == role_name,
        r.has_node_credentials == claims.node_credentials is Some,
{
    UserInfo {
        id: claims.sub.clone(),
        username,
        email,
        account_id: claims.account_id.clone(),
        account_name,
        role: role_name,
        has_node_credentials: claims.has_node_credentials(),
    }
}

/// The response after revoking node credentials: a day-long token.
pub fn revoke_response(access_token: String) -> (r: RevokeNodeCredentialsResponse)
    ensures
        r.access_token == access_token,
        r.revoked,
        r.expires_in == 86400,
{
    RevokeNodeCredentialsResponse { access_token, revoked: true, expires_in: 24 * 60 * 60 }
}

/// The token of an `Authorization` header: it must be present (`Missing
/// authorization header`) and start with `Bearer ` (`Invalid authorization
/// header format. Expected: Bearer <token>`), both 401
/// `authentication_error`; the token is the rest of the header.
pub fn bearer_token(header: Option<&str>) -> (r: Result<String, HttpError>)
    ensures
        match header {
            None => r matches Err(e) && e.status == 401 && e.message@
                == "Missing authorization header"@ && e.code@ == "authentication_error"@,
            Some(h) => if has_prefix(h@, "Bearer "@) {
                r matches Ok(t) && t@ == h@.skip(7)
            } else {
                r matches Err(e) && e.status == 401 && e.message@
                    == "Invalid authorization header format. Expected: Bearer <token>"@ && e.code@
                    == "authentication_error"@
            },
        },
{
    match header {
        None => Err(
            HttpError::new(401, "Missing authorization header", "authentication_error"),
        ),
        Some(h) => {
            if !str_starts_with(h, "Bearer ") {
                return Err(
                    HttpError::new(
                        401,
                        "Invalid authorization header format. Expected: Bearer <token>",
                        "authentication_error",
                    ),
                );
            }
            proof {
                reveal_strlit("Bearer ");
            }
            let n = h.unicode_len();
            let token = h.substring_char(7, n);
            assert(token@ =~= h@.skip(7));
            Ok(String::from_str(token))
        },
    }
}

/// The token of an optional authentication: present only for a header that
/// starts with `Bearer `.
pub fn optional_bearer_token(header: Option<&str>) -> (r: Option<String>)
    ensures
        match header {
            Some(h) => if has_prefix(h@, "Bearer "@) {
                r matches Some(t) && t@ == h@.skip(7)
            } else {
                r is None
            },
            None => r is None,
        },
{
    match bearer_token(header) {
        Ok(t) => Some(t),
        Err(_) => None,
    }
}

/// The refusal of a token that does not validate: 401
/// `Invalid or expired token: <error>`, `authentication_error`.
pub fn token_rejection(error: &ServiceError) -> (r: HttpError)
    ensures
        r.status == 401,
        r.message@ == "Invalid or expired token: "@ + crate::errors::service_error_text(error@),
        r.code@ == "authentication_error"@,
{
    let text = error.message();
    let message = concat("Invalid or expired token: ", text.as_str());
    HttpError { status: 401, message, code: String::from_str("authentication_error") }
}

/// The refusal when the token utility cannot be set up: 500
/// `Internal server error`, `server_error`.
pub fn token_setup_failure() -> (r: HttpError)
    ensures
        r.status == 500,
        r.message@ == "Internal server error"@,
        r.code@ == "server_error"@,
{
    HttpError::new(500, "Internal server error", "server_error")
}

/// Admission to routes that need node credentials: no claims is 401
/// `Authentication required` (`authentication_error`); claims without node
/// credentials are 400 `Node credentials required. Please authenticate your
/// node first.` (`node_credentials_required`).
pub fn node_credentials_required(claims: Option<&Claims>) -> (r: Result<(), HttpError>)
    ensures
        match claims {
            None => r matches Err(e) && e.status == 401 && e.message@ == "Authentication required"@
                && e.code@ == "authentication_error"@,
            Some(c) => if c.node_credentials is Some {
                r is Ok
            } else {
                r matches Err(e) && e.status == 400 && e.message@
                    == "Node credentials required. Please authenticate your node first."@ && e.code@
                    == "node_credentials_required"@
            },
        },
{
    match claims {
        None => Err(HttpError::new(401, "Authentication required", "authentication_error")),
        Some(c) => {
            if !c.has_node_credentials() {
                return Err(
                    HttpError::new(
                        400,
                        "Node credentials required. Please authenticate your node first.",
                        "node_credentials_required",
                    ),
                );
            }
            Ok(())
        },
    }
}

} // verus!
