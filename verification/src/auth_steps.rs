//! Logging in, refreshing a token and revoking node credentials, as step
//! functions: each call either asks the caller for one answer (a storage
//! lookup, or signed tokens), fails, or gives the final result.

use vstd::prelude::*;
use crate::auth::{
    login_request_errors, LoginRequest, LoginResponse, RefreshTokenResponse, UserInfo,
};
use crate::errors::{HttpError, ServiceError, ServiceErrorView};
use crate::jwt::{token_credentials_for, token_form_of, Claims, NodeCredentials, TokenRequest};
use crate::models::{Account, Credential, Role, RoleAccessLevel, User};
use crate::services::user_service::{bcrypt_verify, bcrypt_verify_outcome};
use crate::text::concat;
use crate::validation::{validation_outcome, validation_result};

verus! {

/// What storage must be asked during a login.
#[derive(Debug, Clone, Copy, PartialEq, Eq, Structural)]
pub enum LoginLookup {
    /// The user with the request's username.
    UserByUsername,
    /// The user's account.
    Account,
    /// The node credentials stored for the account.
    AccountCredential,
    /// The user's role.
    Role,
    /// The node credentials stored for the user.
    UserCredential,
}

/// The answers gathered during a login; `None` where not known yet. The
/// password check is filled in by [`next_login_step`] itself.
#[derive(Debug, Clone, PartialEq, Eq)]
pub struct LoginFacts {
    pub user: Option<Option<User>>,
    /// What bcrypt said of the password against the user's stored hash.
    pub password: Option<Result<bool, String>>,
    pub account: Option<Option<Account>>,
    pub account_credential: Option<Option<Credential>>,
    pub role: Option<Option<Role>>,
    /// The signed access and refresh tokens.
    pub tokens: Option<(String, String)>,
    pub user_credential: Option<Option<Credential>>,
}

impl LoginFacts {
    /// Nothing known yet.
    pub fn new() -> (r: LoginFacts)
        ensures
            r.user is None,
            r.password is None,
            r.account is None,
            r.account_credential is None,
            r.role is None,
            r.tokens is None,
            r.user_credential is None,
    {
        LoginFacts {
            user: None,
            password: None,
            account: None,
            account_credential: None,
            role: None,
            tokens: None,
            user_credential: None,
        }
    }
}

/// The next move of a login.
#[derive(Debug, Clone, PartialEq, Eq)]
pub enum LoginStep {
    /// Ask storage this and call again with the answer.
    Lookup(LoginLookup),
    /// Sign an access token with these claims and a refresh token for this
    /// user and level, and call again with both tokens.
    Sign { access: TokenRequest, refresh_user_id: String, refresh_level: RoleAccessLevel },
    /// The login is refused with this error.
    Fail(ServiceError),
    /// The login succeeded with this response.
    Done(LoginResponse),
}

/// The password check's outcome with its error text as a sequence.
pub open spec fn password_view(p: Option<Result<bool, String>>) -> Option<Result<bool, Seq<char>>> {
    match p {
        None => None,
        Some(Ok(b)) => Some(Ok(b)),
        Some(Err(e)) => Some(Err(e@)),
    }
}

/// `r` is a failure with error `e`.
pub open spec fn login_fails_with(r: LoginStep, e: ServiceErrorView) -> bool {
    r matches LoginStep::Fail(x) && x@ == e
}

/// Whether the password is checked in this call: the request is valid, the
/// user is found and active, and no check was made yet.
pub open spec fn password_due(req: LoginRequest, f: LoginFacts) -> bool {
    &&& login_request_errors(req).len() == 0
    &&& f.password is None
    &&& f.user matches Some(Some(u)) && u.is_active
}

/// The next move of a login, checked in this order: the request's fields,
/// the user by username (unknown or with a wrong password: `Invalid username
/// or password`; inactive: `User account is inactive`; a bcrypt failure:
/// `Password verification failed: <error>`), the user's account (`Account
/// not found: <account id>`, `Account is inactive`), the account's node
/// credentials, the user's role (`Role not found: <role id>`), the signed
/// tokens, and the user's node credentials.
pub open spec fn login_step_is(req: LoginRequest, f: LoginFacts, expires_in: u64, r: LoginStep) -> bool {
    let errors = login_request_errors(req);
    if errors.len() > 0 {
        login_fails_with(r, validation_outcome(errors)->Err_0)
    } else {
        match f.user {
            None => r == LoginStep::Lookup(LoginLookup::UserByUsername),
            Some(None) => login_fails_with(
                r,
                ServiceErrorView::Validation { message: "Invalid username or password"@ },
            ),
            Some(Some(u)) => if !u.is_active {
                login_fails_with(r, ServiceErrorView::Validation { message: "User account is inactive"@ })
            } else {
                match password_view(f.password) {
                    None => false,
                    Some(Err(e)) => login_fails_with(
                        r,
                        ServiceErrorView::Validation { message: "Password verification failed: "@ + e },
                    ),
                    Some(Ok(false)) => login_fails_with(
                        r,
                        ServiceErrorView::Validation { message: "Invalid username or password"@ },
                    ),
                    Some(Ok(true)) => match f.account {
                        None => r == LoginStep::Lookup(LoginLookup::Account),
                        Some(None) => login_fails_with(
                            r,
                            ServiceErrorView::NotFound { entity: "Account"@, identifier: u.account_id@ },
                        ),
                        Some(Some(a)) => if !a.is_active {
                            login_fails_with(r, ServiceErrorView::Validation { message: "Account is inactive"@ })
                        } else {
                            match f.account_credential {
                                None => r == LoginStep::Lookup(LoginLookup::AccountCredential),
                                Some(cred) => match f.role {
                                    None => r == LoginStep::Lookup(LoginLookup::Role),
                                    Some(None) => login_fails_with(
                                        r,
                                        ServiceErrorView::NotFound { entity: "Role"@, identifier: u.role_id@ },
                                    ),
                                    Some(Some(ro)) => match f.tokens {
                                        None => r matches LoginStep::Sign { access, refresh_user_id, refresh_level } && {
                                            &&& access.user_id == u.id
                                            &&& access.account_id == a.id
                                            &&& access.role == ro.name
                                            &&& access.role_access_level == u.role_access_level
                                            &&& token_credentials_for(access.node_credentials, cred)
                                            &&& refresh_user_id == u.id
                                            &&& refresh_level == u.role_access_level
                                        },
                                        Some((at, rt)) => match f.user_credential {
                                            None => r == LoginStep::Lookup(LoginLookup::UserCredential),
                                            Some(uc) => r == LoginStep::Done(LoginResponse {
                                                access_token: at,
                                                refresh_token: rt,
                                                user: UserInfo {
                                                    id: u.id,
                                                    username: u.username,
                                                    email: u.email,
                                                    account_id: a.id,
                                                    account_name: a.name,
                                                    role: ro.name,
                                                    has_node_credentials: uc is Some,
                                                },
                                                expires_in,
                                            }),
                                        },
                                    },
                                },
                            }
                        },
                    },
                }
            },
        }
    }
}

/// Decides the next move of a login from the request, the answers so far and
/// the configured token lifetime. When the password is due it is checked
/// here with bcrypt, and its outcome kept in `facts`; nothing else in `facts`
/// changes.
pub fn next_login_step(req: &LoginRequest, facts: &mut LoginFacts, expires_in: u64) -> (r: LoginStep)
    ensures
        final(facts).user == old(facts).user,
        final(facts).account == old(facts).account,
        final(facts).account_credential == old(facts).account_credential,
        final(facts).role == old(facts).role,
        final(facts).tokens == old(facts).tokens,
        final(facts).user_credential == old(facts).user_credential,
        password_view(final(facts).password) == if password_due(*req, *old(facts)) {
            Some(bcrypt_verify_outcome(req.password@, old(facts).user->Some_0->Some_0.password_hash@))
        } else {
            password_view(old(facts).password)
        },
        login_step_is(*req, *final(facts), expires_in, r),
{
    let errors = req.validate();
    if errors.len() > 0 {
        match validation_result(&errors) {
            Err(e) => {
                return LoginStep::Fail(e);
            },
            Ok(_) => {
                assert(false);
                return LoginStep::Lookup(LoginLookup::UserByUsername);
            },
        }
    }
    if facts.password.is_none() {
        let outcome = match &facts.user {
            Some(Some(u)) => {
                if u.is_active {
                    Some(bcrypt_verify(req.password.as_str(), u.password_hash.as_str()))
                } else {
                    None
                }
            },
            _ => None,
        };
        if let Some(o) = outcome {
            facts.password = Some(o);
        }
    }
    let u = match &facts.user {
        None => {
            return LoginStep::Lookup(LoginLookup::UserByUsername);
        },
        Some(None) => {
            return LoginStep::Fail(ServiceError::validation("Invalid username or password"));
        },
        Some(Some(u)) => u,
    };
    if !u.is_active {
        return LoginStep::Fail(ServiceError::validation("User account is inactive"));
    }
    match &facts.password {
        None => {
            assert(false);
            return LoginStep::Lookup(LoginLookup::UserByUsername);
        },
        Some(Err(e)) => {
            let message = concat("Password verification failed: ", e.as_str());
            return LoginStep::Fail(ServiceError::Validation { message });
        },
        Some(Ok(false)) => {
            return LoginStep::Fail(ServiceError::validation("Invalid username or password"));
        },
        Some(Ok(true)) => {},
    }
    let a = match &facts.account {
        None => {
            return LoginStep::Lookup(LoginLookup::Account);
        },
        Some(None) => {
            return LoginStep::Fail(ServiceError::not_found("Account", u.account_id.as_str()));
        },
        Some(Some(a)) => a,
    };
    if !a.is_active {
        return LoginStep::Fail(ServiceError::validation("Account is inactive"));
    }
    let cred = match &facts.account_credential {
        None => {
            return LoginStep::Lookup(LoginLookup::AccountCredential);
        },
        Some(c) => c,
    };
    let ro = match &facts.role {
        None => {
            return LoginStep::Lookup(LoginLookup::Role);
        },
        Some(None) => {
            return LoginStep::Fail(ServiceError::not_found("Role", u.role_id.as_str()));
        },
        Some(Some(ro)) => ro,
    };
    let (at, rt) = match &facts.tokens {
        None => {
            let node_credentials = match cred {
                Some(c) => Some(token_form_of(c)),
                None => None,
            };
            let access = TokenRequest {
                user_id: u.id.clone(),
                account_id: a.id.clone(),
                role: ro.name.clone(),
                role_access_level: u.role_access_level,
                node_credentials,
            };
            return LoginStep::Sign {
                access,
                refresh_user_id: u.id.clone(),
                refresh_level: u.role_access_level,
            };
        },
        Some(t) => t,
    };
    match &facts.user_credential {
        None => LoginStep::Lookup(LoginLookup::UserCredential),
        Some(uc) => LoginStep::Done(
            LoginResponse {
                access_token: at.clone(),
                refresh_token: rt.clone(),
                user: UserInfo {
                    id: u.id.clone(),
                    username: u.username.clone(),
                    email: u.email.clone(),
                    account_id: a.id.clone(),
                    account_name: a.name.clone(),
                    role: ro.name.clone(),
                    has_node_credentials: uc.is_some(),
                },
                expires_in,
            },
        ),
    }
}

/// What must be asked during a token refresh.
#[derive(Debug, Clone, Copy, PartialEq, Eq, Structural)]
pub enum RefreshLookup {
    /// The claims of the refresh token, as its signature check gives them.
    TokenClaims,
    /// The user the token names.
    User,
    /// The node credentials stored for the user.
    UserCredential,
    /// The user's role.
    Role,
}

/// The answers gathered during a refresh; `None` where not known yet.
#[derive(Debug, Clone, PartialEq, Eq)]
pub struct RefreshFacts {
    /// The token's claims, or the text of the signature check's error.
    pub claims: Option<Result<Claims, String>>,
    pub user: Option<Option<User>>,
    pub user_credential: Option<Option<Credential>>,
    pub role: Option<Option<Role>>,
    /// The signed access token.
    pub token: Option<String>,
}

impl RefreshFacts {
    /// Nothing known yet.
    pub fn new() -> (r: RefreshFacts)
        ensures
            r.claims is None,
            r.user is None,
            r.user_credential is None,
            r.role is None,
            r.token is None,
    {
        RefreshFacts { claims: None, user: None, user_credential: None, role: None, token: None }
    }
}

/// The next move of a refresh.
#[derive(Debug, Clone, PartialEq, Eq)]
pub enum RefreshStep {
    /// Ask this and call again with the answer.
    Lookup(RefreshLookup),
    /// Sign an access token with these claims and call again with it.
    Sign(TokenRequest),
    /// The refresh is refused with this error.
    Fail(ServiceError),
    /// The refresh succeeded with this response.
    Done(RefreshTokenResponse),
}

/// `r` is a failure with error `e`.
pub open spec fn refresh_fails_with(r: RefreshStep, e: ServiceErrorView) -> bool {
    r matches RefreshStep::Fail(x) && x@ == e
}

/// The next move of a refresh, checked in this order: the token's signature
/// and expiry (`Token validation failed: <error>`), the user it names (`User
/// not found: <id>`), the user being active (`User account is inactive`), the
/// user's node credentials, the user's role (`Role not found: <role id>`),
/// and the signed token. The new token takes the stored user's account and
/// access level, not the old token's.
pub open spec fn refresh_step_is(f: RefreshFacts, expires_in: u64, r: RefreshStep) -> bool {
    match f.claims {
        None => r == RefreshStep::Lookup(RefreshLookup::TokenClaims),
        Some(Err(e)) => refresh_fails_with(
            r,
            ServiceErrorView::Validation { message: "Token validation failed: "@ + e@ },
        ),
        Some(Ok(k)) => match f.user {
            None => r == RefreshStep::Lookup(RefreshLookup::User),
            Some(None) => refresh_fails_with(
                r,
                ServiceErrorView::NotFound { entity: "User"@, identifier: k.sub@ },
            ),
            Some(Some(u)) => if !u.is_active {
                refresh_fails_with(r, ServiceErrorView::Validation { message: "User account is inactive"@ })
            } else {
                match f.user_credential {
                    None => r == RefreshStep::Lookup(RefreshLookup::UserCredential),
                    Some(cred) => match f.role {
                        None => r == RefreshStep::Lookup(RefreshLookup::Role),
                        Some(None) => refresh_fails_with(
                            r,
                            ServiceErrorView::NotFound { entity: "Role"@, identifier: u.role_id@ },
                        ),
                        Some(Some(ro)) => match f.token {
                            None => r matches RefreshStep::Sign(t) && {
                                &&& t.user_id == u.id
                                &&& t.account_id == u.account_id
                                &&& t.role == ro.name
                                &&& t.role_access_level == u.role_access_level
                                &&& token_credentials_for(t.node_credentials, cred)
                            },
                            Some(at) => r == RefreshStep::Done(
                                RefreshTokenResponse { access_token: at, expires_in },
                            ),
                        },
                    },
                }
            },
        },
    }
}

/// Decides the next move of a refresh from the answers so far and the
/// configured token lifetime.
pub fn next_refresh_step(facts: &RefreshFacts, expires_in: u64) -> (r: RefreshStep)
    ensures
        refresh_step_is(*facts, expires_in, r),
{
    let k = match &facts.claims {
        None => {
            return RefreshStep::Lookup(RefreshLookup::TokenClaims);
        },
        Some(Err(e)) => {
            let message = concat("Token validation failed: ", e.as_str());
            return RefreshStep::Fail(ServiceError::Validation { message });
        },
        Some(Ok(k)) => k,
    };
    let u = match &facts.user {
        None => {
            return RefreshStep::Lookup(RefreshLookup::User);
        },
        Some(None) => {
            return RefreshStep::Fail(ServiceError::not_found("User", k.sub.as_str()));
        },
        Some(Some(u)) => u,
    };
    if !u.is_active {
        return RefreshStep::Fail(ServiceError::validation("User account is inactive"));
    }
    let cred = match &facts.user_credential {
        None => {
            return RefreshStep::Lookup(RefreshLookup::UserCredential);
        },
        Some(c) => c,
    };
    let ro = match &facts.role {
        None => {
            return RefreshStep::Lookup(RefreshLookup::Role);
        },
        Some(None) => {
            return RefreshStep::Fail(ServiceError::not_found("Role", u.role_id.as_str()));
        },
        Some(Some(ro)) => ro,
    };
    match &facts.token {
        None => {
            let node_credentials = match cred {
                Some(c) => Some(token_form_of(c)),
                None => None,
            };
            RefreshStep::Sign(
                TokenRequest {
                    user_id: u.id.clone(),
                    account_id: u.account_id.clone(),
                    role: ro.name.clone(),
                    role_access_level: u.role_access_level,
                    node_credentials,
                },
            )
        },
        Some(at) => RefreshStep::Done(RefreshTokenResponse { access_token: at.clone(), expires_in }),
    }
}

/// What revoking a user's node credentials does, given the credentials
/// stored for the token's user: none is 404 `No node credentials found`
/// (`not_found`); otherwise the stored record with this ID is deleted and a
/// new access token is signed with the same user, account, role and access
/// level and no node credentials.
pub fn revocation_plan(claims: &Claims, found: Option<Credential>) -> (r: Result<(String, TokenRequest), HttpError>)
    ensures
        match found {
            None => r matches Err(e) && e.status == 404 && e.message@ == "No node credentials found"@
                && e.code@ == "not_found"@,
            Some(c) => r matches Ok(p) && p.0 == c.id && p.1 == (TokenRequest {
                user_id: claims.sub,
                account_id: claims.account_id,
                role: claims.role,
                role_access_level: claims.role_access_level,
                node_credentials: None,
            }),
        },
{
    match found {
        None => Err(HttpError::new(404, "No node credentials found", "not_found")),
        Some(c) => Ok(
            (
                c.id,
                TokenRequest {
                    user_id: claims.sub.clone(),
                    account_id: claims.account_id.clone(),
                    role: claims.role.clone(),
                    role_access_level: claims.role_access_level,
                    node_credentials: None,
                },
            ),
        ),
    }
}

/// `n` carries the stored credentials `c` field for field, a missing node
/// type read as `lnd`.
pub open spec fn carries_stored_credentials(n: NodeCredentials, c: Credential) -> bool {
    &&& n.node_id == c.node_id
    &&& n.node_alias == c.node_alias
    &&& n.node_type@ == match c.node_type {
        Some(t) => t@,
        None => "lnd"@,
    }
    &&& n.macaroon == c.macaroon
    &&& n.tls_cert == c.tls_cert
    &&& n.client_cert == c.client_cert
    &&& n.client_key == c.client_key
    &&& n.ca_cert == c.ca_cert
    &&& n.address == c.address
}

/// The access token a login has signed carries the node credentials stored
/// for the user's account, every field kept (the Core Lightning client
/// certificate, key and CA certificate included), and none when none are
/// stored.
pub proof fn law_login_signs_stored_credentials(
    req: LoginRequest,
    f: LoginFacts,
    expires_in: u64,
    r: LoginStep,
    stored: Option<Credential>,
)
    requires
        login_step_is(req, f, expires_in, r),
        r is Sign,
        f.account_credential == Some(stored),
    ensures
        r matches LoginStep::Sign { access, .. } && match stored {
            Some(c) => access.node_credentials matches Some(n) && carries_stored_credentials(n, c),
            None => access.node_credentials is None,
        },
{
}

/// The access token a refresh has signed carries the node credentials
/// stored for the user, every field kept, and none when none are stored; it
/// is for the stored user's account and access level.
pub proof fn law_refresh_signs_stored_credentials(
    f: RefreshFacts,
    expires_in: u64,
    r: RefreshStep,
    u: User,
    stored: Option<Credential>,
)
    requires
        refresh_step_is(f, expires_in, r),
        r is Sign,
        f.user == Some(Some(u)),
        f.user_credential == Some(stored),
    ensures
        r matches RefreshStep::Sign(t) && t.user_id == u.id && t.account_id == u.account_id
            && t.role_access_level == u.role_access_level && match stored {
            Some(c) => t.node_credentials matches Some(n) && carries_stored_credentials(n, c),
            None => t.node_credentials is None,
        },
{
}

/// A login succeeds only for a valid request whose user was found, is
/// active, and whose password bcrypt accepted, with an active account and a
/// known role; the response describes that user, account and role, hands
/// back the signed tokens, and reports node credentials exactly when some
/// are stored for the user.
pub proof fn law_login_succeeds_only_when_every_check_passes(
    req: LoginRequest,
    f: LoginFacts,
    expires_in: u64,
    resp: LoginResponse,
)
    requires
        login_step_is(req, f, expires_in, LoginStep::Done(resp)),
    ensures
        login_request_errors(req).len() == 0,
        f.password == Some(Ok::<bool, String>(true)),
        f.user matches Some(Some(u)) && f.account matches Some(Some(a)) && f.role matches Some(Some(ro))
            && f.tokens matches Some(t) && f.user_credential matches Some(uc) && {
            &&& u.is_active
            &&& a.is_active
            &&& resp.user.id == u.id
            &&& resp.user.username == u.username
            &&& resp.user.email == u.email
            &&& resp.user.account_id == a.id
            &&& resp.user.account_name == a.name
            &&& resp.user.role == ro.name
            &&& resp.user.has_node_credentials == uc is Some
            &&& resp.access_token == t.0
            &&& resp.refresh_token == t.1
            &&& resp.expires_in == expires_in
        },
{
}

/// A refresh succeeds only for a token whose signature and expiry checked
/// out and whose user is found and active; it hands back the newly signed
/// token.
pub proof fn law_refresh_succeeds_only_for_valid_token_and_active_user(
    f: RefreshFacts,
    expires_in: u64,
    resp: RefreshTokenResponse,
)
    requires
        refresh_step_is(f, expires_in, RefreshStep::Done(resp)),
    ensures
        f.claims matches Some(Ok(_)),
        f.user matches Some(Some(u)) && u.is_active,
        f.token == Some(resp.access_token),
        resp.expires_in == expires_in,
{
}

} // verus!
