//! Invitation decisions: creating, resending and accepting invitations.

use vstd::prelude::*;
use crate::errors::{result_view, ServiceError, ServiceErrorView, ServiceResult};
use crate::models::{
    AcceptInviteRequest, Account, CreateInvite, CreateInviteRequest, CreateUser, Invite,
    InviteStatus, Role, RoleAccessLevel, User,
};
use crate::services::account_service::{user_insert_error, user_insert_error_view};
use crate::services::user_service::{bcrypt_form, bcrypt_hash, bcrypt_verify_outcome, required};
use crate::text::{concat, has_substring, str_contains, str_eq};
use crate::validation::{create_invite_errors, errors_view, validation_outcome, validation_result};

verus! {

/// Microseconds in the seven days an invitation stays valid.
pub open spec fn invite_lifetime_micros() -> int {
    604_800_000_000
}

/// A lowercase hexadecimal digit.
pub open spec fn is_lower_hex(c: char) -> bool {
    ('0' <= c && c <= '9') || ('a' <= c && c <= 'f')
}

/// Calls `uuid::Uuid::new_v4()` and renders it in its simple form. Claimed:
/// 32 lowercase hexadecimal digits; the value is random. It panics only where
/// the operating system's random source fails.
#[verifier::external_body]
fn random_uuid_text() -> (r: String)
    ensures
        r@.len() == 32,
        forall|i: int| 0 <= i < 32 ==> is_lower_hex(#[trigger] r@[i]),
{
    uuid::Uuid::new_v4().simple().to_string()
}

/// A fresh invitation token: 20 random lowercase hexadecimal digits (those
/// of a random UUID, without its fixed version digit).
pub fn invite_token() -> (r: String)
    ensures
        r@.len() == 20,
        forall|i: int| 0 <= i < 20 ==> is_lower_hex(#[trigger] r@[i]),
{
    let u = random_uuid_text();
    let head = u.as_str().substring_char(0, 12);
    let tail = u.as_str().substring_char(13, 21);
    let t = concat(head, tail);
    assert forall|i: int| 0 <= i < 20 implies is_lower_hex(#[trigger] t@[i]) by {
        if i < 12 {
            assert(t@[i] == u@[i]);
        } else {
            assert(t@[i] == u@[i + 1]);
        }
    }
    t
}

/// The invitation record for a request by `inviter`, created at `now`:
/// pending, from the inviter's account, valid for seven days, with a fresh
/// 20-digit token.
pub fn new_invite(req: CreateInviteRequest, inviter: &User, id: String, now: i64) -> (r: CreateInvite)
    requires
        now + invite_lifetime_micros() <= i64::MAX,
    ensures
        r.id == id,
        r.account_id == inviter.account_id,
        r.inviter_id == inviter.id,
        r.invitee_email == req.email,
        r.token@.len() == 20,
        forall|i: int| 0 <= i < 20 ==> is_lower_hex(#[trigger] r.token@[i]),
        r.expires_at == now + invite_lifetime_micros(),
        r.invite_status == InviteStatus::Pending,
{
    CreateInvite {
        id,
        account_id: inviter.account_id.clone(),
        inviter_id: inviter.id.clone(),
        invitee_email: req.email,
        token: invite_token(),
        expires_at: now + 604_800_000_000,
        invite_status: InviteStatus::Pending,
    }
}

/// What storage must be asked before an invitation is stored.
#[derive(Debug, Clone, Copy, PartialEq, Eq, Structural)]
pub enum InviteLookup {
    /// Is the invitee's email already a user's?
    EmailTaken,
    /// The invitation already sent to this email for this account, if any.
    ExistingInvite,
}

/// The answers storage has given so far; `None` where not asked yet.
#[derive(Debug, Clone, PartialEq, Eq)]
pub struct InviteFacts {
    pub email_taken: Option<bool>,
    pub existing_invite: Option<Option<Invite>>,
}

impl InviteFacts {
    /// Nothing asked yet.
    pub fn new() -> (r: InviteFacts)
        ensures
            r.email_taken is None,
            r.existing_invite is None,
    {
        InviteFacts { email_taken: None, existing_invite: None }
    }
}

/// The next move of an invitation's creation.
#[derive(Debug, Clone, PartialEq, Eq)]
pub enum InviteStep {
    /// Ask storage this and call again with the answer.
    Lookup(InviteLookup),
    /// The invitation is refused with this error.
    Fail(ServiceError),
    /// All checks passed; store the invitation.
    Proceed,
}

/// Model of [`InviteStep`].
pub enum InviteStepView {
    Lookup(InviteLookup),
    Fail(ServiceErrorView),
    Proceed,
}

impl View for InviteStep {
    type V = InviteStepView;

    open spec fn view(&self) -> InviteStepView {
        match self {
            InviteStep::Lookup(l) => InviteStepView::Lookup(*l),
            InviteStep::Fail(e) => InviteStepView::Fail(e@),
            InviteStep::Proceed => InviteStepView::Proceed,
        }
    }
}

/// The next move of an invitation's creation, checked at `now` in this
/// order: field validation, the email among users, an invitation
/// already sent (`Invitation already accepted` or `Invitation already sent`).
pub open spec fn invite_step(invite: CreateInvite, now: i64, f: InviteFacts) -> InviteStepView {
    let errors = create_invite_errors(invite, now);
    if errors.len() > 0 {
        InviteStepView::Fail(validation_outcome(errors)->Err_0)
    } else {
        match f.email_taken {
            None => InviteStepView::Lookup(InviteLookup::EmailTaken),
            Some(true) => InviteStepView::Fail(
                ServiceErrorView::AlreadyExists {
                    entity: "User with email"@,
                    identifier: invite.invitee_email@,
                },
            ),
            Some(false) => match f.existing_invite {
                None => InviteStepView::Lookup(InviteLookup::ExistingInvite),
                Some(Some(existing)) => match existing.invite_status {
                    InviteStatus::Accepted => InviteStepView::Fail(
                        ServiceErrorView::InvalidOperation { message: "Invitation already accepted"@ },
                    ),
                    InviteStatus::Pending => InviteStepView::Fail(
                        ServiceErrorView::InvalidOperation { message: "Invitation already sent"@ },
                    ),
                },
                Some(None) => InviteStepView::Proceed,
            },
        }
    }
}

/// Decides the next move of an invitation's creation.
pub fn next_invite_step(invite: &CreateInvite, now: i64, facts: &InviteFacts) -> (r: InviteStep)
    ensures
        r@ == invite_step(*invite, now, *facts),
{
    let errors = invite.validate(now);
    if errors.len() > 0 {
        match validation_result(&errors) {
            Err(e) => {
                return InviteStep::Fail(e);
            },
            Ok(_) => {
                assert(false);
                return InviteStep::Proceed;
            },
        }
    }
    match facts.email_taken {
        None => {
            return InviteStep::Lookup(InviteLookup::EmailTaken);
        },
        Some(true) => {
            return InviteStep::Fail(
                ServiceError::already_exists("User with email", invite.invitee_email.as_str()),
            );
        },
        Some(false) => {},
    }
    match &facts.existing_invite {
        None => InviteStep::Lookup(InviteLookup::ExistingInvite),
        Some(Some(existing)) => match existing.invite_status {
            InviteStatus::Accepted => InviteStep::Fail(
                ServiceError::invalid_operation("Invitation already accepted"),
            ),
            InviteStatus::Pending => InviteStep::Fail(
                ServiceError::invalid_operation("Invitation already sent"),
            ),
        },
        Some(None) => InviteStep::Proceed,
    }
}

/// Each lookup an invitation's creation asks for is one whose answer is
/// still missing, so at most two questions are asked.
pub proof fn law_invite_lookups_are_new(invite: CreateInvite, now: i64, f: InviteFacts)
    ensures
        invite_step(invite, now, f) matches InviteStepView::Lookup(l) ==> match l {
            InviteLookup::EmailTaken => f.email_taken is None,
            InviteLookup::ExistingInvite => f.existing_invite is None,
        },
{
}

/// A second invitation to the same email for the same account is always
/// refused, whatever the first one's status.
pub proof fn law_no_duplicate_invites(invite: CreateInvite, now: i64, existing: Invite)
    ensures
        invite_step(
            invite,
            now,
            InviteFacts { email_taken: Some(false), existing_invite: Some(Some(existing)) },
        ) matches InviteStepView::Fail(_),
{
}

/// An invitation is stored only for a valid record whose email belongs to no
/// user and has no invitation in the account yet.
pub proof fn law_invite_stored_only_when_new(invite: CreateInvite, now: i64, f: InviteFacts)
    requires
        invite_step(invite, now, f) == InviteStepView::Proceed,
    ensures
        create_invite_errors(invite, now).len() == 0,
        f.email_taken == Some(false),
        f.existing_invite == Some(None::<Invite>),
{
}

/// The answer to a failed invitation insert: a uniqueness clash is
/// `Invitation already exists`, anything else a database error.
pub fn invite_insert_error(storage_message: &str) -> (r: ServiceError)
    ensures
        r@ == if has_substring(storage_message@, "UNIQUE constraint failed:"@) {
            ServiceErrorView::InvalidOperation { message: "Invitation already exists"@ }
        } else {
            ServiceErrorView::Database { message: storage_message@ }
        },
{
    if str_contains(storage_message, "UNIQUE constraint failed:") {
        ServiceError::invalid_operation("Invitation already exists")
    } else {
        ServiceError::Database { message: String::from_str(storage_message) }
    }
}

/// The error for a failed invitation update with this storage message.
pub open spec fn invite_update_error_view(m: Seq<char>) -> ServiceErrorView {
    if has_substring(m, "FOREIGN KEY constraint failed"@) {
        ServiceErrorView::Validation { message: "Invalid invite reference"@ }
    } else if has_substring(m, "CHECK constraint failed"@) {
        ServiceErrorView::Validation { message: "Invalid expires_at value"@ }
    } else {
        ServiceErrorView::Database { message: m }
    }
}

/// The answer to a failed invitation update: a foreign-key failure is
/// `Invalid invite reference`, a check failure `Invalid expires_at value`,
/// anything else a database error.
pub fn invite_update_error(storage_message: &str) -> (r: ServiceError)
    ensures
        r@ == invite_update_error_view(storage_message@),
{
    if str_contains(storage_message, "FOREIGN KEY constraint failed") {
        ServiceError::validation("Invalid invite reference")
    } else if str_contains(storage_message, "CHECK constraint failed") {
        ServiceError::validation("Invalid expires_at value")
    } else {
        ServiceError::Database { message: String::from_str(storage_message) }
    }
}

/// The account an invitation belongs to must exist
/// (`Account not found: <account id>`).
pub fn require_account(found: Option<Account>, account_id: &str) -> (r: ServiceResult<Account>)
    ensures
        result_view(r) == required(found, "Account"@, account_id@),
{
    match found {
        Some(a) => Ok(a),
        None => Err(ServiceError::not_found("Account", account_id)),
    }
}

/// An invitation looked up by ID for an account: it must exist and belong to
/// that account; otherwise `Invite not found: <id>`.
pub open spec fn invite_for_account(found: Option<Invite>, id: Seq<char>, account_id: Seq<char>) -> Result<
    Invite,
    ServiceErrorView,
> {
    match found {
        Some(inv) => if inv.account_id@ == account_id {
            Ok(inv)
        } else {
            Err(ServiceErrorView::NotFound { entity: "Invite"@, identifier: id })
        },
        None => Err(ServiceErrorView::NotFound { entity: "Invite"@, identifier: id }),
    }
}

/// Retrieves an invitation for an account (the lookup and the ownership
/// check of reading or resending one).
pub fn get_invite_required(found: Option<Invite>, id: &str, account_id: &str) -> (r: ServiceResult<Invite>)
    ensures
        result_view(r) == invite_for_account(found, id@, account_id@),
{
    match found {
        Some(inv) => {
            if str_eq(inv.account_id.as_str(), account_id) {
                Ok(inv)
            } else {
                Err(ServiceError::not_found("Invite", id))
            }
        },
        None => Err(ServiceError::not_found("Invite", id)),
    }
}

/// The new expiry of a resent invitation: seven days after `now`.
pub fn resent_expiry(now: i64) -> (r: i64)
    requires
        now + invite_lifetime_micros() <= i64::MAX,
    ensures
        r == now + invite_lifetime_micros(),
{
    now + 604_800_000_000
}

/// A resend that changed no stored row is `Invitation not resent not found:
/// <invite id>`.
pub fn resend_rows_check(rows_affected: u64, invite: Invite) -> (r: ServiceResult<Invite>)
    ensures
        rows_affected == 0 ==> result_view(r) == Err::<Invite, ServiceErrorView>(
            ServiceErrorView::NotFound { entity: "Invitation not resent"@, identifier: invite.id@ },
        ),
        rows_affected != 0 ==> r == Ok::<Invite, ServiceError>(invite),
{
    if rows_affected == 0 {
        return Err(ServiceError::not_found("Invitation not resent", invite.id.as_str()));
    }
    Ok(invite)
}

/// Whether an invitation found by token can be accepted at `now`: it must
/// exist (`Invite not found: <token>`), still be pending (`Invite has already
/// been processed`) and not have expired (`Invite has expired`).
pub open spec fn acceptance_check(token: Seq<char>, found: Option<Invite>, now: i64) -> Result<
    Invite,
    ServiceErrorView,
> {
    match found {
        None => Err(ServiceErrorView::NotFound { entity: "Invite"@, identifier: token }),
        Some(inv) => if inv.invite_status != InviteStatus::Pending {
            Err(ServiceErrorView::Validation { message: "Invite has already been processed"@ })
        } else if inv.expires_at <= now {
            Err(ServiceErrorView::Validation { message: "Invite has expired"@ })
        } else {
            Ok(inv)
        },
    }
}

/// Checks an invitation found by token before accepting it at `now`.
pub fn check_invite_acceptable(token: &str, found: Option<Invite>, now: i64) -> (r: ServiceResult<Invite>)
    ensures
        result_view(r) == acceptance_check(token@, found, now),
{
    let invite = match found {
        Some(i) => i,
        None => {
            return Err(ServiceError::not_found("Invite", token));
        },
    };
    if invite.invite_status != InviteStatus::Pending {
        return Err(ServiceError::validation("Invite has already been processed"));
    }
    if invite.expires_at <= now {
        return Err(ServiceError::validation("Invite has expired"));
    }
    Ok(invite)
}

/// An invitation can be accepted only once: once its status is `Accepted`,
/// a later acceptance is refused, whatever the time.
pub proof fn law_invite_accepted_once(token: Seq<char>, invite: Invite, now: i64)
    ensures
        acceptance_check(token, Some(Invite { invite_status: InviteStatus::Accepted, ..invite }), now)
            == Err::<Invite, ServiceErrorView>(
            ServiceErrorView::Validation { message: "Invite has already been processed"@ },
        ),
{
}

/// A fresh invitation can be accepted until its seven days are over and not
/// from then on.
pub proof fn law_fresh_invite_valid_seven_days(
    token: Seq<char>,
    invite: Invite,
    created: i64,
    now: i64,
)
    requires
        invite.invite_status == InviteStatus::Pending,
        invite.expires_at == created + invite_lifetime_micros(),
    ensures
        acceptance_check(token, Some(invite), now) is Ok <==> now < created
            + invite_lifetime_micros(),
{
}

/// The stored state of an invitation once accepted.
pub open spec fn accepted_state(invite: Invite) -> Invite {
    Invite { invite_status: InviteStatus::Accepted, ..invite }
}

/// The invitation as it is stored once accepted: its status becomes
/// `Accepted`, everything else stays.
pub fn accepted_invite(invite: Invite) -> (r: Invite)
    ensures
        r == accepted_state(invite),
{
    Invite { invite_status: InviteStatus::Accepted, ..invite }
}

/// Acceptance is final: an invitation that could be accepted, once stored as
/// accepted, is refused by every later acceptance, whatever the time.
pub proof fn law_acceptance_is_final(token: Seq<char>, invite: Invite, now: i64, later: i64)
    requires
        acceptance_check(token, Some(invite), now) is Ok,
    ensures
        acceptance_check(token, Some(accepted_state(invite)), later) == Err::<Invite, ServiceErrorView>(
            ServiceErrorView::Validation { message: "Invite has already been processed"@ },
        ),
{
}

/// Accepting that changed no stored row is `Invitation not resent`.
pub fn accept_rows_check(rows_affected: u64) -> (r: ServiceResult<()>)
    ensures
        rows_affected == 0 ==> result_view(r) == Err::<(), ServiceErrorView>(
            ServiceErrorView::Validation { message: "Invitation not resent"@ },
        ),
        rows_affected != 0 ==> r is Ok,
{
    if rows_affected == 0 {
        return Err(ServiceError::validation("Invitation not resent"));
    }
    Ok(())
}

/// The `Member` role must exist (`Role not found: Member`).
pub fn require_member_role(found: Option<Role>) -> (r: ServiceResult<Role>)
    ensures
        result_view(r) == required(found, "Role"@, "Member"@),
{
    match found {
        Some(role) => Ok(role),
        None => Err(ServiceError::not_found("Role", "Member")),
    }
}

/// The user an accepted invitation creates: in the invitation's account, with
/// the `Member` role, read-only access, the chosen username and the invited
/// email.
pub fn new_member_user(
    id: String,
    invite: &Invite,
    role: &Role,
    req: &AcceptInviteRequest,
    password_hash: String,
) -> (r: CreateUser)
    ensures
        r.id == id,
        r.account_id == invite.account_id,
        r.role_id == role.id,
        r.username == req.username,
        r.email == invite.invitee_email,
        r.password_hash == password_hash,
        r.role_access_level == RoleAccessLevel::Read,
{
    CreateUser {
        id,
        account_id: invite.account_id.clone(),
        role_id: role.id.clone(),
        username: req.username.clone(),
        email: invite.invitee_email.clone(),
        password_hash,
        role_access_level: RoleAccessLevel::Read,
    }
}

/// What storage must be asked while accepting an invitation.
#[derive(Debug, Clone, Copy, PartialEq, Eq, Structural)]
pub enum AcceptLookup {
    /// The invitation with the request's token.
    InviteByToken,
    /// The role named `Member`.
    MemberRole,
}

/// The answers gathered while accepting an invitation; `None` where not
/// known yet. The password hash is filled in by [`next_accept_step`] itself.
#[derive(Debug, Clone, PartialEq, Eq)]
pub struct AcceptFacts {
    pub invite: Option<Option<Invite>>,
    /// Rows changed by storing the accepted invitation, or the storage
    /// error's text.
    pub marked: Option<Result<u64, String>>,
    pub role: Option<Option<Role>>,
    /// The bcrypt hash of the chosen password, or the error's text.
    pub password_hash: Option<Result<String, String>>,
    /// The stored member user, or the storage error's text.
    pub user: Option<Result<User, String>>,
}

impl AcceptFacts {
    /// Nothing known yet.
    pub fn new() -> (r: AcceptFacts)
        ensures
            r.invite is None,
            r.marked is None,
            r.role is None,
            r.password_hash is None,
            r.user is None,
    {
        AcceptFacts { invite: None, marked: None, role: None, password_hash: None, user: None }
    }
}

/// The next move of an acceptance.
#[derive(Debug, Clone, PartialEq, Eq)]
pub enum AcceptStep {
    /// Ask storage this and call again with the answer.
    Lookup(AcceptLookup),
    /// Store this accepted invitation and call again with the rows changed.
    MarkAccepted(Invite),
    /// Store this user and call again with the stored record.
    Insert(CreateUser),
    /// The acceptance is refused with this error.
    Fail(ServiceError),
    /// The invitation, now accepted, and the member user it created.
    Done(Invite, User),
}

/// `r` is a failure with error `e`.
pub open spec fn accept_fails_with(r: AcceptStep, e: ServiceErrorView) -> bool {
    r matches AcceptStep::Fail(x) && x@ == e
}

/// Whether the password is hashed in this call: the invitation was stored as
/// accepted, the `Member` role was found, and no hash was made yet.
pub open spec fn hash_due(req: AcceptInviteRequest, now: i64, f: AcceptFacts) -> bool {
    &&& f.invite matches Some(found) && acceptance_check(req.token@, found, now) is Ok
    &&& f.marked matches Some(Ok(rows)) && rows != 0
    &&& f.role matches Some(Some(_))
    &&& f.password_hash is None
}

/// The next move of accepting an invitation at `now`, in this order: the
/// invitation by token ([`acceptance_check`]), storing it as accepted
/// (errors as [`invite_update_error`]; no row changed: `Invitation not
/// resent`), the `Member` role (`Role not found: Member`), hashing the
/// password (`Password hashing failed: <error>`), and storing the member
/// user (errors as [`user_insert_error`]). The result is the accepted
/// invitation and the new user.
pub open spec fn accept_step_is(
    req: AcceptInviteRequest,
    now: i64,
    user_id: String,
    f: AcceptFacts,
    r: AcceptStep,
) -> bool {
    match f.invite {
        None => r == AcceptStep::Lookup(AcceptLookup::InviteByToken),
        Some(found) => match acceptance_check(req.token@, found, now) {
            Err(e) => accept_fails_with(r, e),
            Ok(inv) => match f.marked {
                None => r == AcceptStep::MarkAccepted(accepted_state(inv)),
                Some(Err(m)) => accept_fails_with(r, invite_update_error_view(m@)),
                Some(Ok(rows)) => if rows == 0 {
                    accept_fails_with(r, ServiceErrorView::Validation { message: "Invitation not resent"@ })
                } else {
                    match f.role {
                        None => r == AcceptStep::Lookup(AcceptLookup::MemberRole),
                        Some(None) => accept_fails_with(
                            r,
                            ServiceErrorView::NotFound { entity: "Role"@, identifier: "Member"@ },
                        ),
                        Some(Some(role)) => match f.password_hash {
                            None => false,
                            Some(Err(e)) => accept_fails_with(
                                r,
                                ServiceErrorView::Validation { message: "Password hashing failed: "@ + e@ },
                            ),
                            Some(Ok(h)) => match f.user {
                                None => r == AcceptStep::Insert(CreateUser {
                                    id: user_id,
                                    account_id: inv.account_id,
                                    role_id: role.id,
                                    username: req.username,
                                    email: inv.invitee_email,
                                    password_hash: h,
                                    role_access_level: RoleAccessLevel::Read,
                                }),
                                Some(Err(m)) => accept_fails_with(
                                    r,
                                    user_insert_error_view(m@, req.username@, inv.invitee_email@),
                                ),
                                Some(Ok(u)) => r == AcceptStep::Done(accepted_state(inv), u),
                            },
                        },
                    }
                },
            },
        },
    }
}

/// Decides the next move of accepting an invitation at `now`, the new user
/// to get the ID `user_id`. When the password is due it is hashed here with
/// bcrypt, and the outcome kept in `facts`; nothing else in `facts` changes.
pub fn next_accept_step(req: &AcceptInviteRequest, now: i64, user_id: String, facts: &mut AcceptFacts) -> (r: AcceptStep)
    ensures
        final(facts).invite == old(facts).invite,
        final(facts).marked == old(facts).marked,
        final(facts).role == old(facts).role,
        final(facts).user == old(facts).user,
        hash_due(*req, now, *old(facts)) ==> (final(facts).password_hash matches Some(res) && (res matches Ok(
            h,
        ) ==> bcrypt_verify_outcome(req.password@, h@) == Ok::<bool, Seq<char>>(true) && bcrypt_form(h@))),
        !hash_due(*req, now, *old(facts)) ==> final(facts).password_hash == old(facts).password_hash,
        accept_step_is(*req, now, user_id, *final(facts), r),
{
    let found = match &facts.invite {
        None => {
            return AcceptStep::Lookup(AcceptLookup::InviteByToken);
        },
        Some(found) => found,
    };
    let inv = match check_ref(req.token.as_str(), found, now) {
        Err(e) => {
            return AcceptStep::Fail(e);
        },
        Ok(inv) => inv,
    };
    let rows = match &facts.marked {
        None => {
            return AcceptStep::MarkAccepted(accepted_copy(inv));
        },
        Some(Err(m)) => {
            return AcceptStep::Fail(invite_update_error(m.as_str()));
        },
        Some(Ok(rows)) => *rows,
    };
    if rows == 0 {
        return AcceptStep::Fail(ServiceError::validation("Invitation not resent"));
    }
    match &facts.role {
        None => {
            return AcceptStep::Lookup(AcceptLookup::MemberRole);
        },
        Some(None) => {
            return AcceptStep::Fail(ServiceError::not_found("Role", "Member"));
        },
        Some(Some(_)) => {},
    }
    if facts.password_hash.is_none() {
        facts.password_hash = Some(bcrypt_hash(req.password.as_str()));
    }
    let found = match &facts.invite {
        Some(found) => found,
        None => {
            assert(false);
            return AcceptStep::Lookup(AcceptLookup::InviteByToken);
        },
    };
    let inv = match check_ref(req.token.as_str(), found, now) {
        Err(e) => {
            assert(false);
            return AcceptStep::Fail(e);
        },
        Ok(inv) => inv,
    };
    let role = match &facts.role {
        Some(Some(role)) => role,
        _ => {
            assert(false);
            return AcceptStep::Lookup(AcceptLookup::MemberRole);
        },
    };
    let h = match &facts.password_hash {
        None => {
            assert(false);
            return AcceptStep::Lookup(AcceptLookup::MemberRole);
        },
        Some(Err(e)) => {
            let message = concat("Password hashing failed: ", e.as_str());
            return AcceptStep::Fail(ServiceError::Validation { message });
        },
        Some(Ok(h)) => h,
    };
    match &facts.user {
        None => AcceptStep::Insert(
            CreateUser {
                id: user_id,
                account_id: inv.account_id.clone(),
                role_id: role.id.clone(),
                username: req.username.clone(),
                email: inv.invitee_email.clone(),
                password_hash: h.clone(),
                role_access_level: RoleAccessLevel::Read,
            },
        ),
        Some(Err(m)) => AcceptStep::Fail(
            user_insert_error(m.as_str(), req.username.as_str(), inv.invitee_email.as_str()),
        ),
        Some(Ok(u)) => AcceptStep::Done(accepted_copy(inv), copy_user(u)),
    }
}

/// [`acceptance_check`] on a borrowed invitation.
fn check_ref<'a>(token: &str, found: &'a Option<Invite>, now: i64) -> (r: Result<&'a Invite, ServiceError>)
    ensures
        match acceptance_check(token@, *found, now) {
            Ok(inv) => r matches Ok(x) && *x == inv,
            Err(e) => r matches Err(x) && x@ == e,
        },
{
    let invite = match found {
        Some(i) => i,
        None => {
            return Err(ServiceError::not_found("Invite", token));
        },
    };
    if invite.invite_status != InviteStatus::Pending {
        return Err(ServiceError::validation("Invite has already been processed"));
    }
    if invite.expires_at <= now {
        return Err(ServiceError::validation("Invite has expired"));
    }
    Ok(invite)
}

/// The accepted form of a borrowed invitation.
fn accepted_copy(inv: &Invite) -> (r: Invite)
    ensures
        r == accepted_state(*inv),
{
    Invite {
        id: inv.id.clone(),
        account_id: inv.account_id.clone(),
        inviter_id: inv.inviter_id.clone(),
        invitee_email: inv.invitee_email.clone(),
        token: inv.token.clone(),
        invite_status: InviteStatus::Accepted,
        is_active: inv.is_active,
        expires_at: inv.expires_at,
        created_at: inv.created_at,
        updated_at: inv.updated_at,
        is_deleted: inv.is_deleted,
        deleted_at: inv.deleted_at,
    }
}

/// A copy of a borrowed user.
fn copy_user(u: &User) -> (r: User)
    ensures
        r == *u,
{
    User {
        id: u.id.clone(),
        account_id: u.account_id.clone(),
        username: u.username.clone(),
        password_hash: u.password_hash.clone(),
        email: u.email.clone(),
        role_id: u.role_id.clone(),
        role_access_level: u.role_access_level,
        is_active: u.is_active,
        created_at: u.created_at,
        updated_at: u.updated_at,
        is_deleted: u.is_deleted,
        deleted_at: u.deleted_at,
    }
}

/// An acceptance succeeds only for a pending invitation found by the
/// request's token that has not expired at `now`, once it is stored as
/// accepted and the `Member` role found; it gives back that invitation, now
/// `Accepted`, and the user storage returned for it.
pub proof fn law_acceptance_succeeds_only_for_live_invite(
    req: AcceptInviteRequest,
    now: i64,
    user_id: String,
    f: AcceptFacts,
    done_invite: Invite,
    done_user: User,
)
    requires
        accept_step_is(req, now, user_id, f, AcceptStep::Done(done_invite, done_user)),
    ensures
        f.invite matches Some(Some(inv)) && {
            &&& inv.invite_status == InviteStatus::Pending
            &&& now < inv.expires_at
            &&& done_invite.id == inv.id
            &&& done_invite.token == inv.token
            &&& done_invite.account_id == inv.account_id
            &&& done_invite.invitee_email == inv.invitee_email
            &&& done_invite.invite_status == InviteStatus::Accepted
        },
        f.marked matches Some(Ok(rows)) && rows != 0,
        f.role matches Some(Some(_)),
        f.user == Some(Ok::<User, String>(done_user)),
{
}

/// The member user an acceptance stores joins the invitation's account with
/// the invited email, the chosen username, the new ID, the `Member` role and
/// read-only access, and the hash made of the chosen password.
pub proof fn law_member_user_joins_invited_account(
    req: AcceptInviteRequest,
    now: i64,
    user_id: String,
    f: AcceptFacts,
    c: CreateUser,
)
    requires
        accept_step_is(req, now, user_id, f, AcceptStep::Insert(c)),
    ensures
        f.invite matches Some(Some(inv)) && f.role matches Some(Some(role)) && {
            &&& inv.invite_status == InviteStatus::Pending
            &&& now < inv.expires_at
            &&& c.id == user_id
            &&& c.account_id == inv.account_id
            &&& c.email == inv.invitee_email
            &&& c.username == req.username
            &&& c.role_id == role.id
            &&& c.role_access_level == RoleAccessLevel::Read
            &&& f.password_hash == Some(Ok::<String, String>(c.password_hash))
        },
{
}

} // verus!
