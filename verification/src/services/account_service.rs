//! Account registration: the checks that precede it, as a sequence of
//! lookups that the caller performs one at a time, and the records and error
//! answers of the storage steps that follow.

use vstd::prelude::*;
use crate::errors::{result_view, ServiceError, ServiceErrorView, ServiceResult};
use crate::models::{Account, CreateAccount, CreateNewAccount, CreateUser, Role, RoleAccessLevel};
use crate::text::{has_substring, str_contains};
use crate::validation::{
    check, create_new_account_errors, email_is_valid, errors_view, length_between,
    lemma_report_names_each_rule, validation_outcome, validation_result,
};

verus! {

/// Whether `char::is_numeric` holds of a character.
pub uninterp spec fn char_is_numeric(c: char) -> bool;

/// Whether `char::is_alphanumeric` holds of a character.
pub uninterp spec fn char_is_alphanumeric(c: char) -> bool;

/// Calls `char::is_numeric`. Claimed: the answer depends on the character
/// alone, and among ASCII characters exactly the digits are numeric.
#[verifier::external_body]
pub(crate) fn is_numeric(c: char) -> (r: bool)
    ensures
        r == char_is_numeric(c),
        (c as u32) < 128 ==> (r <==> ('0' <= c && c <= '9')),
{
    c.is_numeric()
}

/// Calls `char::is_alphanumeric`. Claimed: the answer depends on the
/// character alone, and among ASCII characters exactly the digits and the
/// letters are alphanumeric.
#[verifier::external_body]
pub(crate) fn is_alphanumeric(c: char) -> (r: bool)
    ensures
        r == char_is_alphanumeric(c),
        (c as u32) < 128 ==> (r <==> (('0' <= c && c <= '9') || ('a' <= c && c <= 'z') || (
        'A' <= c && c <= 'Z'))),
{
    c.is_alphanumeric()
}

/// What storage must be asked before an account can be registered.
#[derive(Debug, Clone, Copy, PartialEq, Eq, Structural)]
pub enum AccountLookup {
    /// Is the account name taken?
    AccountName,
    /// Is the username taken?
    Username,
    /// Is the email taken?
    Email,
    /// The role named `Admin`.
    AdminRole,
}

/// The answers storage has given so far; `None` where not asked yet.
#[derive(Debug, Clone, PartialEq, Eq)]
pub struct AccountFacts {
    pub name_exists: Option<bool>,
    pub username_exists: Option<bool>,
    pub email_exists: Option<bool>,
    pub admin_role: Option<Option<Role>>,
}

/// The next move of a registration.
#[derive(Debug, Clone, PartialEq, Eq)]
pub enum AccountStep {
    /// Ask storage this and call again with the answer.
    Lookup(AccountLookup),
    /// Registration is refused with this error.
    Fail(ServiceError),
    /// All checks passed; create the account and its admin user with this role.
    Proceed(Role),
}

/// Model of [`AccountStep`].
pub enum AccountStepView {
    Lookup(AccountLookup),
    Fail(ServiceErrorView),
    Proceed(Role),
}

impl View for AccountStep {
    type V = AccountStepView;

    open spec fn view(&self) -> AccountStepView {
        match self {
            AccountStep::Lookup(l) => AccountStepView::Lookup(*l),
            AccountStep::Fail(e) => AccountStepView::Fail(e@),
            AccountStep::Proceed(r) => AccountStepView::Proceed(*r),
        }
    }
}

impl AccountFacts {
    /// Nothing asked yet.
    pub fn new() -> (r: AccountFacts)
        ensures
            r.name_exists is None,
            r.username_exists is None,
            r.email_exists is None,
            r.admin_role is None,
    {
        AccountFacts { name_exists: None, username_exists: None, email_exists: None, admin_role: None }
    }
}

/// The business rule on account names: a name must not start with a numeric
/// or non-alphanumeric character.
pub open spec fn name_rule_holds(name: Seq<char>) -> bool {
    name.len() == 0 || (!char_is_numeric(name[0]) && char_is_alphanumeric(name[0]))
}

/// Checks the business rule on account names
/// (`Account name must start with a letter`).
pub fn validate_business_rules(req: &CreateNewAccount) -> (r: ServiceResult<()>)
    ensures
        name_rule_holds(req.name@) ==> r is Ok,
        !name_rule_holds(req.name@) ==> result_view(r) == Err::<(), ServiceErrorView>(
            ServiceErrorView::Validation { message: "Account name must start with a letter"@ },
        ),
        req.name@.len() > 0 && (req.name@[0] as u32) < 128 ==> (r is Ok <==> (('a' <= req.name@[0]
            && req.name@[0] <= 'z') || ('A' <= req.name@[0] && req.name@[0] <= 'Z'))),
{
    let name = req.name.as_str();
    if name.unicode_len() > 0 {
        let c = name.get_char(0);
        if is_numeric(c) || !is_alphanumeric(c) {
            return Err(ServiceError::validation("Account name must start with a letter"));
        }
    }
    Ok(())
}

/// The next move of a registration, with the checks in this order: field
/// validation, account name, username, email, the name rule, the `Admin`
/// role.
pub open spec fn account_step(req: CreateNewAccount, f: AccountFacts) -> AccountStepView {
    let errors = create_new_account_errors(req);
    if errors.len() > 0 {
        AccountStepView::Fail(validation_outcome(errors)->Err_0)
    } else {
        match f.name_exists {
            None => AccountStepView::Lookup(AccountLookup::AccountName),
            Some(true) => AccountStepView::Fail(
                ServiceErrorView::AlreadyExists { entity: "Account"@, identifier: req.name@ },
            ),
            Some(false) => match f.username_exists {
                None => AccountStepView::Lookup(AccountLookup::Username),
                Some(true) => AccountStepView::Fail(
                    ServiceErrorView::AlreadyExists {
                        entity: "User with username"@,
                        identifier: req.username@,
                    },
                ),
                Some(false) => match f.email_exists {
                    None => AccountStepView::Lookup(AccountLookup::Email),
                    Some(true) => AccountStepView::Fail(
                        ServiceErrorView::AlreadyExists {
                            entity: "User with email"@,
                            identifier: req.email@,
                        },
                    ),
                    Some(false) => if !name_rule_holds(req.name@) {
                        AccountStepView::Fail(
                            ServiceErrorView::Validation {
                                message: "Account name must start with a letter"@,
                            },
                        )
                    } else {
                        match f.admin_role {
                            None => AccountStepView::Lookup(AccountLookup::AdminRole),
                            Some(None) => AccountStepView::Fail(
                                ServiceErrorView::NotFound { entity: "Role"@, identifier: "Admin"@ },
                            ),
                            Some(Some(role)) => AccountStepView::Proceed(role),
                        }
                    },
                },
            },
        }
    }
}

/// Decides the next move of a registration from the request and the answers
/// storage has given so far.
pub fn next_account_step(req: &CreateNewAccount, facts: AccountFacts) -> (r: AccountStep)
    ensures
        r@ == account_step(*req, facts),
{
    let errors = req.validate();
    if errors.len() > 0 {
        match validation_result(&errors) {
            Err(e) => {
                return AccountStep::Fail(e);
            },
            Ok(_) => {
                assert(false);
                return AccountStep::Lookup(AccountLookup::AccountName);
            },
        }
    }
    match facts.name_exists {
        None => {
            return AccountStep::Lookup(AccountLookup::AccountName);
        },
        Some(true) => {
            return AccountStep::Fail(ServiceError::already_exists("Account", req.name.as_str()));
        },
        Some(false) => {},
    }
    match facts.username_exists {
        None => {
            return AccountStep::Lookup(AccountLookup::Username);
        },
        Some(true) => {
            return AccountStep::Fail(
                ServiceError::already_exists("User with username", req.username.as_str()),
            );
        },
        Some(false) => {},
    }
    match facts.email_exists {
        None => {
            return AccountStep::Lookup(AccountLookup::Email);
        },
        Some(true) => {
            return AccountStep::Fail(
                ServiceError::already_exists("User with email", req.email.as_str()),
            );
        },
        Some(false) => {},
    }
    if let Err(e) = validate_business_rules(req) {
        return AccountStep::Fail(e);
    }
    match facts.admin_role {
        None => AccountStep::Lookup(AccountLookup::AdminRole),
        Some(None) => AccountStep::Fail(ServiceError::not_found("Role", "Admin")),
        Some(Some(role)) => AccountStep::Proceed(role),
    }
}

/// Each lookup a registration asks for is one whose answer is still missing,
/// so a registration asks at most four questions.
pub proof fn law_account_lookups_are_new(req: CreateNewAccount, f: AccountFacts)
    ensures
        account_step(req, f) matches AccountStepView::Lookup(l) ==> match l {
            AccountLookup::AccountName => f.name_exists is None,
            AccountLookup::Username => f.username_exists is None,
            AccountLookup::Email => f.email_exists is None,
            AccountLookup::AdminRole => f.admin_role is None,
        },
{
}

/// A registration goes ahead only for a valid request whose account name,
/// username and email are all unused, whose name starts with a letter, and
/// only once the `Admin` role has been found; it then uses that role.
pub proof fn law_registration_needs_clear_names(req: CreateNewAccount, f: AccountFacts, role: Role)
    requires
        account_step(req, f) == AccountStepView::Proceed(role),
    ensures
        create_new_account_errors(req).len() == 0,
        f.name_exists == Some(false),
        f.username_exists == Some(false),
        f.email_exists == Some(false),
        name_rule_holds(req.name@),
        f.admin_role == Some(Some(role)),
{
}

/// `step` refuses with a validation error whose report names `field` with
/// `message`.
pub open spec fn refused_naming(step: AccountStepView, field: Seq<char>, message: Seq<char>) -> bool {
    step matches AccountStepView::Fail(ServiceErrorView::Validation { message: report }) && has_substring(
        report,
        field + ": "@ + message,
    )
}

proof fn lemma_refused_for_entry(req: CreateNewAccount, f: AccountFacts, k: int)
    requires
        0 <= k < create_new_account_errors(req).len(),
    ensures
        refused_naming(
            account_step(req, f),
            create_new_account_errors(req)[k].0,
            create_new_account_errors(req)[k].1,
        ),
{
    lemma_report_names_each_rule(create_new_account_errors(req), k);
}

/// A registration request that breaks a field rule is refused, whatever
/// storage would answer, with a validation error whose report names the
/// field and the rule: an account name or a username outside 1-255
/// characters, an email that is not one or longer than 255 characters, an
/// empty password. No such request ever leads to a lookup or proceeds.
pub proof fn law_registration_enforces_field_rules(req: CreateNewAccount, f: AccountFacts)
    ensures
        !(1 <= req.name@.len() <= 255) ==> refused_naming(
            account_step(req, f),
            "name"@,
            "Account name must be between 1-255 characters"@,
        ),
        !(1 <= req.username@.len() <= 255) ==> refused_naming(
            account_step(req, f),
            "username"@,
            "User's name must be between 1-255 characters"@,
        ),
        !email_is_valid(req.email@) ==> refused_naming(account_step(req, f), "email"@, "Must be a valid email"@),
        req.email@.len() > 255 ==> refused_naming(account_step(req, f), "email"@, "Email too long"@),
        req.password@.len() == 0 ==> refused_naming(account_step(req, f), "password"@, "Password is required"@),
{
    let e = create_new_account_errors(req);
    let c1 = check(length_between(req.name@, 1, 255), "name"@, "Account name must be between 1-255 characters"@);
    let c2 = check(length_between(req.username@, 1, 255), "username"@, "User's name must be between 1-255 characters"@);
    let c3 = check(email_is_valid(req.email@), "email"@, "Must be a valid email"@);
    let c4 = check(req.email@.len() <= 255, "email"@, "Email too long"@);
    let c5 = check(req.password@.len() >= 1, "password"@, "Password is required"@);
    assert(e =~= c1 + c2 + c3 + c4 + c5);
    if !(1 <= req.name@.len() <= 255) {
        assert(e[0] == c1[0]);
        lemma_refused_for_entry(req, f, 0);
    }
    if !(1 <= req.username@.len() <= 255) {
        let k = c1.len() as int;
        assert(e[k] == c2[0]);
        lemma_refused_for_entry(req, f, k);
    }
    if !email_is_valid(req.email@) {
        let k = (c1.len() + c2.len()) as int;
        assert(e[k] == c3[0]);
        lemma_refused_for_entry(req, f, k);
    }
    if req.email@.len() > 255 {
        let k = (c1.len() + c2.len() + c3.len()) as int;
        assert(e[k] == c4[0]);
        lemma_refused_for_entry(req, f, k);
    }
    if req.password@.len() == 0 {
        let k = (c1.len() + c2.len() + c3.len() + c4.len()) as int;
        assert(e[k] == c5[0]);
        lemma_refused_for_entry(req, f, k);
    }
}

/// The account record of a registration request.
pub fn new_account_record(req: &CreateNewAccount) -> (r: CreateAccount)
    ensures
        r.name == req.name,
        r.username == req.username,
        r.email == req.email,
{
    CreateAccount { name: req.name.clone(), username: req.username.clone(), email: req.email.clone() }
}

/// The admin user of a newly stored account: that account's ID, the `Admin`
/// role's ID, read-write access, and the request's username and email.
pub fn new_admin_user(id: String, account: &Account, role: &Role, req: &CreateNewAccount, password_hash: String) -> (r: CreateUser)
    ensures
        r.id == id,
        r.account_id == account.id,
        r.role_id == role.id,
        r.username == req.username,
        r.email == req.email,
        r.password_hash == password_hash,
        r.role_access_level == RoleAccessLevel::ReadWrite,
{
    CreateUser {
        id,
        account_id: account.id.clone(),
        role_id: role.id.clone(),
        username: req.username.clone(),
        email: req.email.clone(),
        password_hash,
        role_access_level: RoleAccessLevel::ReadWrite,
    }
}

/// The answer to a failed account insert: a clash on the account name is
/// `Account already exists: <name>`, anything else a database error carrying
/// the storage message.
pub fn account_insert_error(storage_message: &str, name: &str) -> (r: ServiceError)
    ensures
        has_substring(storage_message@, "UNIQUE constraint failed: accounts.name"@) ==> r@
            == (ServiceErrorView::AlreadyExists { entity: "Account"@, identifier: name@ }),
        !has_substring(storage_message@, "UNIQUE constraint failed: accounts.name"@) ==> r@
            == (ServiceErrorView::Database { message: storage_message@ }),
{
    if str_contains(storage_message, "UNIQUE constraint failed: accounts.name") {
        ServiceError::already_exists("Account", name)
    } else {
        ServiceError::Database { message: String::from_str(storage_message) }
    }
}

/// The error for a failed user insert with this storage message.
pub open spec fn user_insert_error_view(m: Seq<char>, username: Seq<char>, email: Seq<char>) -> ServiceErrorView {
    if has_substring(m, "UNIQUE constraint failed: users.username"@) {
        ServiceErrorView::AlreadyExists { entity: "User with username"@, identifier: username }
    } else if has_substring(m, "UNIQUE constraint failed: users.email"@) {
        ServiceErrorView::AlreadyExists { entity: "User with email"@, identifier: email }
    } else {
        ServiceErrorView::Database { message: m }
    }
}

/// The answer to a failed user insert: a clash on the username or the email
/// is the matching "already exists" error, anything else a database error.
pub fn user_insert_error(storage_message: &str, username: &str, email: &str) -> (r: ServiceError)
    ensures
        r@ == user_insert_error_view(storage_message@, username@, email@),
{
    if str_contains(storage_message, "UNIQUE constraint failed: users.username") {
        ServiceError::already_exists("User with username", username)
    } else if str_contains(storage_message, "UNIQUE constraint failed: users.email") {
        ServiceError::already_exists("User with email", email)
    } else {
        ServiceError::Database { message: String::from_str(storage_message) }
    }
}

} // verus!
