//! Field validation rules of the request and creation payloads, and the
//! validation message that the services report.

use vstd::prelude::*;
use crate::errors::{ServiceError, ServiceErrorView};
use crate::models::{
    AcceptInviteRequest, CreateAccount, CreateCredential, CreateEvent, CreateInvite,
    CreateInviteRequest, CreateNewAccount, CreateNewUser, CreateNotification,
    CreateNotificationRequest, CreateRole, CreateUser, UpdateNotificationRequest,
};
use crate::text::{has_substring, occurs_at, str_contains};
use crate::text::concat3;

verus! {

/// Whether the `validator` crate accepts a text as an email address.
pub uninterp spec fn email_is_valid(s: Seq<char>) -> bool;

/// Whether the `validator` crate accepts a text as a URL.
pub uninterp spec fn url_is_valid(s: Seq<char>) -> bool;

/// Calls `validator::ValidateEmail::validate_email` on a text. Claimed: the
/// answer depends on the text alone.
#[verifier::external_body]
pub(crate) fn validate_email(s: &str) -> (r: bool)
    ensures
        r == email_is_valid(s@),
{
    validator::ValidateEmail::validate_email(&s)
}

/// Calls `validator::ValidateUrl::validate_url` on a text (which parses it
/// as a URL). Claimed: the answer depends on the text alone.
#[verifier::external_body]
pub(crate) fn validate_url(s: &str) -> (r: bool)
    ensures
        r == url_is_valid(s@),
{
    validator::ValidateUrl::validate_url(s)
}

/// One failed rule: the field's name and the rule's message.
#[derive(Debug, Clone, PartialEq, Eq)]
pub struct FieldError {
    pub field: String,
    pub message: String,
}

/// The failed rules as pairs of field name and message.
pub open spec fn errors_view(v: Seq<FieldError>) -> Seq<(Seq<char>, Seq<char>)> {
    v.map_values(|e: FieldError| (e.field@, e.message@))
}

/// No entry when the rule holds, else one entry for `field` with `message`.
pub open spec fn check(ok: bool, field: Seq<char>, message: Seq<char>) -> Seq<
    (Seq<char>, Seq<char>),
> {
    if ok {
        Seq::empty()
    } else {
        seq![(field, message)]
    }
}

/// The length rule with a lower and an upper bound, counted in characters.
pub open spec fn length_between(s: Seq<char>, min: nat, max: nat) -> bool {
    min <= s.len() && s.len() <= max
}

pub(crate) fn require(errors: &mut Vec<FieldError>, ok: bool, field: &str, message: &str)
    ensures
        errors_view(final(errors)@) == errors_view(old(errors)@) + check(ok, field@, message@),
{
    let ghost before = errors@;
    if !ok {
        errors.push(FieldError { field: String::from_str(field), message: String::from_str(message) });
        assert(errors_view(errors@) =~= errors_view(before) + check(ok, field@, message@)) by {
            assert(errors@ =~= before.push(errors@.last()));
        }
    } else {
        assert(errors_view(errors@) =~= errors_view(before) + check(ok, field@, message@));
    }
}

fn between(s: &str, min: usize, max: usize) -> (r: bool)
    ensures
        r == length_between(s@, min as nat, max as nat),
{
    let n = s.unicode_len();
    min <= n && n <= max
}

pub(crate) fn at_least_one(s: &str) -> (r: bool)
    ensures
        r == (s@.len() >= 1),
{
    s.unicode_len() >= 1
}

fn at_most_255(s: &str) -> (r: bool)
    ensures
        r == (s@.len() <= 255),
{
    s.unicode_len() <= 255
}

/// One `field: message` line of a validation report.
pub open spec fn error_line(e: (Seq<char>, Seq<char>)) -> Seq<char> {
    e.0 + ": "@ + e.1
}

/// The failed rules joined as `field: message, field: message, ...`.
pub open spec fn join_errors(s: Seq<(Seq<char>, Seq<char>)>) -> Seq<char>
    decreases s.len(),
{
    if s.len() == 0 {
        Seq::empty()
    } else if s.len() == 1 {
        error_line(s[0])
    } else {
        join_errors(s.drop_last()) + ", "@ + error_line(s.last())
    }
}

/// What a service answers for a validation report: success when no rule
/// failed, else a validation error carrying the joined report.
pub open spec fn validation_outcome(s: Seq<(Seq<char>, Seq<char>)>) -> Result<
    (),
    ServiceErrorView,
> {
    if s.len() == 0 {
        Ok(())
    } else {
        Err(ServiceErrorView::Validation { message: join_errors(s) })
    }
}

/// Joins the failed rules as `field: message` lines separated by `, `.
pub fn join_field_errors(errors: &Vec<FieldError>) -> (r: String)
    ensures
        r@ == join_errors(errors_view(errors@)),
{
    let ghost v = errors_view(errors@);
    let mut out = String::new();
    let mut i: usize = 0;
    while i < errors.len()
        invariant
            i <= errors@.len(),
            v == errors_view(errors@),
            out@ == join_errors(v.take(i as int)),
        decreases errors@.len() - i,
    {
        let e = &errors[i];
        proof {
            reveal_strlit(": ");
            reveal_strlit(", ");
            assert(v.take(i + 1).drop_last() =~= v.take(i as int));
        }
        let line = concat3(e.field.as_str(), ": ", e.message.as_str());
        if i > 0 {
            out.append(", ");
        }
        out.append(line.as_str());
        assert(out@ =~= join_errors(v.take(i + 1)));
        i += 1;
    }
    assert(v.take(errors@.len() as int) =~= v);
    out
}

/// Success when no rule failed, else a validation error whose message joins
/// the failed rules.
pub fn validation_result(errors: &Vec<FieldError>) -> (r: Result<(), ServiceError>)
    ensures
        match validation_outcome(errors_view(errors@)) {
            Ok(_) => r is Ok,
            Err(e) => r matches Err(x) && x@ == e,
        },
{
    if errors.len() == 0 {
        Ok(())
    } else {
        Err(ServiceError::Validation { message: join_field_errors(errors) })
    }
}

/// The rules of [`CreateAccount`] that `v` fails, in field order.
pub open spec fn create_account_errors(v: CreateAccount) -> Seq<(Seq<char>, Seq<char>)> {
    Seq::empty()
        + check(length_between(v.name@, 1, 255), "name"@, "Account name must be between 1-255 characters"@)
        + check(length_between(v.username@, 1, 255), "username"@, "User's name must be between 1-255 characters"@)
        + check(email_is_valid(v.email@), "email"@, "Must be a valid email"@)
        + check(v.email@.len() <= 255, "email"@, "Email too long"@)
}

impl CreateAccount {
    /// Checks every field rule; the failed ones come back in field order.
    pub fn validate(&self) -> (r: Vec<FieldError>)
        ensures
            errors_view(r@) == create_account_errors(*self),
    {
        let mut errors: Vec<FieldError> = Vec::new();
        assert(errors_view(errors@) =~= Seq::empty());
        require(&mut errors, between(self.name.as_str(), 1, 255), "name", "Account name must be between 1-255 characters");
        require(&mut errors, between(self.username.as_str(), 1, 255), "username", "User's name must be between 1-255 characters");
        require(&mut errors, validate_email(self.email.as_str()), "email", "Must be a valid email");
        require(&mut errors, at_most_255(self.email.as_str()), "email", "Email too long");
        errors
    }
}

/// The rules of [`CreateNewAccount`] that `v` fails, in field order.
pub open spec fn create_new_account_errors(v: CreateNewAccount) -> Seq<(Seq<char>, Seq<char>)> {
    Seq::empty()
        + check(length_between(v.name@, 1, 255), "name"@, "Account name must be between 1-255 characters"@)
        + check(length_between(v.username@, 1, 255), "username"@, "User's name must be between 1-255 characters"@)
        + check(email_is_valid(v.email@), "email"@, "Must be a valid email"@)
        + check(v.email@.len() <= 255, "email"@, "Email too long"@)
        + check(v.password@.len() >= 1, "password"@, "Password is required"@)
}

impl CreateNewAccount {
    /// Checks every field rule; the failed ones come back in field order.
    pub fn validate(&self) -> (r: Vec<FieldError>)
        ensures
            errors_view(r@) == create_new_account_errors(*self),
    {
        let mut errors: Vec<FieldError> = Vec::new();
        assert(errors_view(errors@) =~= Seq::empty());
        require(&mut errors, between(self.name.as_str(), 1, 255), "name", "Account name must be between 1-255 characters");
        require(&mut errors, between(self.username.as_str(), 1, 255), "username", "User's name must be between 1-255 characters");
        require(&mut errors, validate_email(self.email.as_str()), "email", "Must be a valid email");
        require(&mut errors, at_most_255(self.email.as_str()), "email", "Email too long");
        require(&mut errors, at_least_one(self.password.as_str()), "password", "Password is required");
        errors
    }
}

/// The rules of [`CreateNewUser`] that `v` fails, in field order.
pub open spec fn create_new_user_errors(v: CreateNewUser) -> Seq<(Seq<char>, Seq<char>)> {
    Seq::empty()
        + check(v.account_id@.len() >= 1, "account_id"@, "Account ID is required"@)
        + check(v.role_id@.len() >= 1, "role_id"@, "Role ID is required"@)
        + check(length_between(v.username@, 1, 255), "username"@, "Username must be between 1-255 characters"@)
        + check(email_is_valid(v.email@), "email"@, "Must be a valid email"@)
        + check(v.email@.len() <= 255, "email"@, "Email too long"@)
        + check(v.password@.len() >= 1, "password"@, "Password is required"@)
}

impl CreateNewUser {
    /// Checks every field rule; the failed ones come back in field order.
    pub fn validate(&self) -> (r: Vec<FieldError>)
        ensures
            errors_view(r@) == create_new_user_errors(*self),
    {
        let mut errors: Vec<FieldError> = Vec::new();
        assert(errors_view(errors@) =~= Seq::empty());
        require(&mut errors, at_least_one(self.account_id.as_str()), "account_id", "Account ID is required");
        require(&mut errors, at_least_one(self.role_id.as_str()), "role_id", "Role ID is required");
        require(&mut errors, between(self.username.as_str(), 1, 255), "username", "Username must be between 1-255 characters");
        require(&mut errors, validate_email(self.email.as_str()), "email", "Must be a valid email");
        require(&mut errors, at_most_255(self.email.as_str()), "email", "Email too long");
        require(&mut errors, at_least_one(self.password.as_str()), "password", "Password is required");
        errors
    }
}

/// The rules of [`CreateUser`] that `v` fails, in field order.
pub open spec fn create_user_errors(v: CreateUser) -> Seq<(Seq<char>, Seq<char>)> {
    Seq::empty()
        + check(v.id@.len() >= 1, "id"@, "User ID is required"@)
        + check(v.account_id@.len() >= 1, "account_id"@, "Account ID is required"@)
        + check(v.role_id@.len() >= 1, "role_id"@, "Role ID is required"@)
        + check(length_between(v.username@, 1, 255), "username"@, "Username must be between 1-255 characters"@)
        + check(email_is_valid(v.email@), "email"@, "Must be a valid email"@)
        + check(v.email@.len() <= 255, "email"@, "Email too long"@)
        + check(v.password_hash@.len() >= 1, "password_hash"@, "Password hash is required"@)
}

impl CreateUser {
    /// Checks every field rule; the failed ones come back in field order.
    pub fn validate(&self) -> (r: Vec<FieldError>)
        ensures
            errors_view(r@) == create_user_errors(*self),
    {
        let mut errors: Vec<FieldError> = Vec::new();
        assert(errors_view(errors@) =~= Seq::empty());
        require(&mut errors, at_least_one(self.id.as_str()), "id", "User ID is required");
        require(&mut errors, at_least_one(self.account_id.as_str()), "account_id", "Account ID is required");
        require(&mut errors, at_least_one(self.role_id.as_str()), "role_id", "Role ID is required");
        require(&mut errors, between(self.username.as_str(), 1, 255), "username", "Username must be between 1-255 characters");
        require(&mut errors, validate_email(self.email.as_str()), "email", "Must be a valid email");
        require(&mut errors, at_most_255(self.email.as_str()), "email", "Email too long");
        require(&mut errors, at_least_one(self.password_hash.as_str()), "password_hash", "Password hash is required");
        errors
    }
}

/// The rules of [`CreateRole`] that `v` fails, in field order.
pub open spec fn create_role_errors(v: CreateRole) -> Seq<(Seq<char>, Seq<char>)> {
    Seq::empty()
        + check(length_between(v.name@, 1, 255), "name"@, "Name must be between 1-255 characters"@)
}

impl CreateRole {
    /// Checks every field rule; the failed ones come back in field order.
    pub fn validate(&self) -> (r: Vec<FieldError>)
        ensures
            errors_view(r@) == create_role_errors(*self),
    {
        let mut errors: Vec<FieldError> = Vec::new();
        assert(errors_view(errors@) =~= Seq::empty());
        require(&mut errors, between(self.name.as_str(), 1, 255), "name", "Name must be between 1-255 characters");
        errors
    }
}

/// The rules of [`CreateCredential`] that `v` fails, in field order.
pub open spec fn create_credential_errors(v: CreateCredential) -> Seq<(Seq<char>, Seq<char>)> {
    Seq::empty()
        + check(v.id@.len() >= 1, "id"@, "Credential ID is required"@)
        + check(v.user_id@.len() >= 1, "user_id"@, "User ID is required"@)
        + check(v.account_id@.len() >= 1, "account_id"@, "Account ID is required"@)
        + check(v.node_id@.len() >= 1, "node_id"@, "Node ID is required"@)
        + check(length_between(v.node_alias@, 1, 255), "node_alias"@, "Node alias must be 1-255 characters"@)
        + check(v.macaroon@.len() >= 1, "macaroon"@, "Macaroon is required"@)
        + check(v.tls_cert@.len() >= 1, "tls_cert"@, "TLS certificate is required"@)
        + check(length_between(v.address@, 1, 255), "address"@, "Address must be 1-255 characters"@)
        + check(has_substring(v.address@, ":"@), "address"@, "Invalid value"@)
}

impl CreateCredential {
    /// Checks every field rule; the failed ones come back in field order.
    pub fn validate(&self) -> (r: Vec<FieldError>)
        ensures
            errors_view(r@) == create_credential_errors(*self),
    {
        let mut errors: Vec<FieldError> = Vec::new();
        assert(errors_view(errors@) =~= Seq::empty());
        require(&mut errors, at_least_one(self.id.as_str()), "id", "Credential ID is required");
        require(&mut errors, at_least_one(self.user_id.as_str()), "user_id", "User ID is required");
        require(&mut errors, at_least_one(self.account_id.as_str()), "account_id", "Account ID is required");
        require(&mut errors, at_least_one(self.node_id.as_str()), "node_id", "Node ID is required");
        require(&mut errors, between(self.node_alias.as_str(), 1, 255), "node_alias", "Node alias must be 1-255 characters");
        require(&mut errors, at_least_one(self.macaroon.as_str()), "macaroon", "Macaroon is required");
        require(&mut errors, at_least_one(self.tls_cert.as_str()), "tls_cert", "TLS certificate is required");
        require(&mut errors, between(self.address.as_str(), 1, 255), "address", "Address must be 1-255 characters");
        require(&mut errors, str_contains(self.address.as_str(), ":"), "address", "Invalid value");
        errors
    }
}

/// The rules of [`CreateInvite`] that `v` fails, in field order.
pub open spec fn create_invite_errors(v: CreateInvite, now: i64) -> Seq<(Seq<char>, Seq<char>)> {
    Seq::empty()
        + check(v.id@.len() >= 1, "id"@, "Invite ID is required"@)
        + check(v.account_id@.len() >= 1, "account_id"@, "Account ID is required"@)
        + check(v.inviter_id@.len() >= 1, "inviter_id"@, "Inviter ID is required"@)
        + check(email_is_valid(v.invitee_email@), "invitee_email"@, "Must be a valid email"@)
        + check(v.token@.len() >= 1, "token"@, "Token is required"@)
        + check(v.expires_at > now, "expires_at"@, "Invalid value"@)
}

impl CreateInvite {
    /// Checks every field rule; the failed ones come back in field order.
    pub fn validate(&self, now: i64) -> (r: Vec<FieldError>)
        ensures
            errors_view(r@) == create_invite_errors(*self, now),
    {
        let mut errors: Vec<FieldError> = Vec::new();
        assert(errors_view(errors@) =~= Seq::empty());
        require(&mut errors, at_least_one(self.id.as_str()), "id", "Invite ID is required");
        require(&mut errors, at_least_one(self.account_id.as_str()), "account_id", "Account ID is required");
        require(&mut errors, at_least_one(self.inviter_id.as_str()), "inviter_id", "Inviter ID is required");
        require(&mut errors, validate_email(self.invitee_email.as_str()), "invitee_email", "Must be a valid email");
        require(&mut errors, at_least_one(self.token.as_str()), "token", "Token is required");
        require(&mut errors, self.expires_at > now, "expires_at", "Invalid value");
        errors
    }
}

/// The rules of [`CreateInviteRequest`] that `v` fails, in field order.
pub open spec fn create_invite_request_errors(v: CreateInviteRequest) -> Seq<(Seq<char>, Seq<char>)> {
    Seq::empty()
        + check(email_is_valid(v.email@), "email"@, "Must be a valid email"@)
        + check(v.email@.len() <= 255, "email"@, "Email too long"@)
}

impl CreateInviteRequest {
    /// Checks every field rule; the failed ones come back in field order.
    pub fn validate(&self) -> (r: Vec<FieldError>)
        ensures
            errors_view(r@) == create_invite_request_errors(*self),
    {
        let mut errors: Vec<FieldError> = Vec::new();
        assert(errors_view(errors@) =~= Seq::empty());
        require(&mut errors, validate_email(self.email.as_str()), "email", "Must be a valid email");
        require(&mut errors, at_most_255(self.email.as_str()), "email", "Email too long");
        errors
    }
}

/// The rules of [`AcceptInviteRequest`] that `v` fails, in field order.
pub open spec fn accept_invite_request_errors(v: AcceptInviteRequest) -> Seq<(Seq<char>, Seq<char>)> {
    Seq::empty()
        + check(v.token@.len() >= 1, "token"@, "Token is required"@)
        + check(length_between(v.username@, 1, 255), "username"@, "Username must be between 1-255 characters"@)
        + check(v.password@.len() >= 1, "password"@, "Password is required"@)
}

impl AcceptInviteRequest {
    /// Checks every field rule; the failed ones come back in field order.
    pub fn validate(&self) -> (r: Vec<FieldError>)
        ensures
            errors_view(r@) == accept_invite_request_errors(*self),
    {
        let mut errors: Vec<FieldError> = Vec::new();
        assert(errors_view(errors@) =~= Seq::empty());
        require(&mut errors, at_least_one(self.token.as_str()), "token", "Token is required");
        require(&mut errors, between(self.username.as_str(), 1, 255), "username", "Username must be between 1-255 characters");
        require(&mut errors, at_least_one(self.password.as_str()), "password", "Password is required");
        errors
    }
}

/// The rules of [`CreateNotification`] that `v` fails, in field order.
pub open spec fn create_notification_errors(v: CreateNotification) -> Seq<(Seq<char>, Seq<char>)> {
    Seq::empty()
        + check(v.id@.len() >= 1, "id"@, "Notification ID is required"@)
        + check(v.account_id@.len() >= 1, "account_id"@, "Account ID is required"@)
        + check(v.user_id@.len() >= 1, "user_id"@, "User ID is required"@)
        + check(length_between(v.name@, 1, 255), "name"@, "Name must be between 1-255 characters"@)
        + check(url_is_valid(v.url@), "url"@, "Must be a valid URL"@)
}

impl CreateNotification {
    /// Checks every field rule; the failed ones come back in field order.
    pub fn validate(&self) -> (r: Vec<FieldError>)
        ensures
            errors_view(r@) == create_notification_errors(*self),
    {
        let mut errors: Vec<FieldError> = Vec::new();
        assert(errors_view(errors@) =~= Seq::empty());
        require(&mut errors, at_least_one(self.id.as_str()), "id", "Notification ID is required");
        require(&mut errors, at_least_one(self.account_id.as_str()), "account_id", "Account ID is required");
        require(&mut errors, at_least_one(self.user_id.as_str()), "user_id", "User ID is required");
        require(&mut errors, between(self.name.as_str(), 1, 255), "name", "Name must be between 1-255 characters");
        require(&mut errors, validate_url(self.url.as_str()), "url", "Must be a valid URL");
        errors
    }
}

/// The rules of [`CreateNotificationRequest`] that `v` fails, in field order.
pub open spec fn create_notification_request_errors(v: CreateNotificationRequest) -> Seq<(Seq<char>, Seq<char>)> {
    Seq::empty()
        + check(length_between(v.name@, 1, 255), "name"@, "Name must be between 1-255 characters"@)
        + check(url_is_valid(v.url@), "url"@, "Must be a valid URL"@)
}

impl CreateNotificationRequest {
    /// Checks every field rule; the failed ones come back in field order.
    pub fn validate(&self) -> (r: Vec<FieldError>)
        ensures
            errors_view(r@) == create_notification_request_errors(*self),
    {
        let mut errors: Vec<FieldError> = Vec::new();
        assert(errors_view(errors@) =~= Seq::empty());
        require(&mut errors, between(self.name.as_str(), 1, 255), "name", "Name must be between 1-255 characters");
        require(&mut errors, validate_url(self.url.as_str()), "url", "Must be a valid URL");
        errors
    }
}

/// The rules of [`UpdateNotificationRequest`] that `v` fails, in field order.
pub open spec fn update_notification_request_errors(v: UpdateNotificationRequest) -> Seq<(Seq<char>, Seq<char>)> {
    Seq::empty()
        + check(match v.name { Some(x) => length_between(x@, 1, 255), None => true }, "name"@, "Name must be between 1-255 characters"@)
        + check(match v.url { Some(x) => url_is_valid(x@), None => true }, "url"@, "Must be a valid URL"@)
}

impl UpdateNotificationRequest {
    /// Checks every field rule; the failed ones come back in field order.
    pub fn validate(&self) -> (r: Vec<FieldError>)
        ensures
            errors_view(r@) == update_notification_request_errors(*self),
    {
        let mut errors: Vec<FieldError> = Vec::new();
        assert(errors_view(errors@) =~= Seq::empty());
        let ok = match &self.name { Some(x) => between(x.as_str(), 1, 255), None => true };
        require(&mut errors, ok, "name", "Name must be between 1-255 characters");
        let ok = match &self.url { Some(x) => validate_url(x.as_str()), None => true };
        require(&mut errors, ok, "url", "Must be a valid URL");
        errors
    }
}

/// The rules of [`CreateEvent`] that `v` fails, in field order.
pub open spec fn create_event_errors(v: CreateEvent) -> Seq<(Seq<char>, Seq<char>)> {
    Seq::empty()
        + check(v.id@.len() >= 1, "id"@, "Event ID is required"@)
        + check(v.account_id@.len() >= 1, "account_id"@, "Account ID is required"@)
        + check(v.user_id@.len() >= 1, "user_id"@, "User ID is required"@)
        + check(v.node_id@.len() >= 1, "node_id"@, "Node ID is required"@)
        + check(length_between(v.title@, 1, 255), "title"@, "Title must be between 1-255 characters"@)
        + check(v.description@.len() >= 1, "description"@, "Description is required"@)
}

impl CreateEvent {
    /// Checks every field rule; the failed ones come back in field order.
    pub fn validate(&self) -> (r: Vec<FieldError>)
        ensures
            errors_view(r@) == create_event_errors(*self),
    {
        let mut errors: Vec<FieldError> = Vec::new();
        assert(errors_view(errors@) =~= Seq::empty());
        require(&mut errors, at_least_one(self.id.as_str()), "id", "Event ID is required");
        require(&mut errors, at_least_one(self.account_id.as_str()), "account_id", "Account ID is required");
        require(&mut errors, at_least_one(self.user_id.as_str()), "user_id", "User ID is required");
        require(&mut errors, at_least_one(self.node_id.as_str()), "node_id", "Node ID is required");
        require(&mut errors, between(self.title.as_str(), 1, 255), "title", "Title must be between 1-255 characters");
        require(&mut errors, at_least_one(self.description.as_str()), "description", "Description is required");
        errors
    }
}

/// The joined report names each failed rule as `field: message`.
pub proof fn lemma_report_names_each_rule(s: Seq<(Seq<char>, Seq<char>)>, k: int)
    requires
        0 <= k < s.len(),
    ensures
        has_substring(join_errors(s), error_line(s[k])),
    decreases s.len(),
{
    let line = error_line(s[k]);
    if s.len() == 1 {
        assert(join_errors(s).subrange(0, line.len() as int) =~= line);
        assert(occurs_at(join_errors(s), line, 0));
    } else if k == s.len() - 1 {
        let head = join_errors(s.drop_last()) + ", "@;
        assert(join_errors(s) == head + line);
        assert((head + line).subrange(head.len() as int, (head.len() + line.len()) as int) =~= line);
        assert(occurs_at(join_errors(s), line, head.len() as int));
    } else {
        let init = s.drop_last();
        assert(init[k] == s[k]);
        lemma_report_names_each_rule(init, k);
        let i = choose|i: int| occurs_at(join_errors(init), line, i);
        let whole = join_errors(init) + (", "@ + error_line(s.last()));
        assert(join_errors(s) =~= whole);
        assert(whole.subrange(i, i + line.len()) =~= join_errors(init).subrange(i, i + line.len()));
        assert(occurs_at(join_errors(s), line, i));
    }
}

} // verus!
