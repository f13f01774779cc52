//! User lookups, authentication and role-access changes.

use vstd::prelude::*;
use crate::errors::{result_view, ServiceError, ServiceErrorView, ServiceResult};
use crate::models::{toggle_access_level, Role, User};
use crate::text::{concat, str_eq};

verus! {

/// What `bcrypt::verify` gives for a password and a stored hash: whether they
/// match, or the text of its error.
pub uninterp spec fn bcrypt_verify_outcome(password: Seq<char>, hash: Seq<char>) -> Result<
    bool,
    Seq<char>,
>;

/// Calls `bcrypt::verify(password, hash)`. Claimed: the outcome depends on the
/// two texts alone; an error comes back as the text of the bcrypt error.
#[verifier::external_body]
pub(crate) fn bcrypt_verify(password: &str, hash: &str) -> (r: Result<bool, String>)
    ensures
        match r {
            Ok(b) => bcrypt_verify_outcome(password@, hash@) == Ok::<bool, Seq<char>>(b),
            Err(e) => bcrypt_verify_outcome(password@, hash@) == Err::<bool, Seq<char>>(e@),
        },
{
    match bcrypt::verify(password, hash) {
        Ok(b) => Ok(b),
        Err(e) => Err(e.to_string()),
    }
}

/// The form of a bcrypt hash at the default cost: 60 characters that begin
/// with `$2b$12$` (version, cost, then 22 characters of salt and 31 of hash).
pub open spec fn bcrypt_form(h: Seq<char>) -> bool {
    h.len() == 60 && h.subrange(0, 7) == "$2b$12$"@
}

/// Calls `bcrypt::hash(password, bcrypt::DEFAULT_COST)`. The salt is random,
/// so the hash itself is not stated. Claimed: a hash that comes back has the
/// version-2b form at cost 12 and verifies against the same password; an
/// error comes back as its text.
#[verifier::external_body]
pub(crate) fn bcrypt_hash(password: &str) -> (r: Result<String, String>)
    ensures
        match r {
            Ok(h) => bcrypt_verify_outcome(password@, h@) == Ok::<bool, Seq<char>>(true)
                && bcrypt_form(h@),
            Err(_) => true,
        },
{
    match bcrypt::hash(password, bcrypt::DEFAULT_COST) {
        Ok(h) => Ok(h),
        Err(e) => Err(e.to_string()),
    }
}

/// Checks a password against its stored hash; a bcrypt failure is a
/// validation error `Password verification failed: <error>`.
pub fn verify_password(password: &str, hash: &str) -> (r: ServiceResult<bool>)
    ensures
        result_view(r) == match bcrypt_verify_outcome(password@, hash@) {
            Ok(b) => Ok(b),
            Err(e) => Err(ServiceErrorView::Validation { message: "Password verification failed: "@ + e }),
        },
{
    match bcrypt_verify(password, hash) {
        Ok(b) => Ok(b),
        Err(e) => Err(ServiceError::Validation {
            message: concat("Password verification failed: ", e.as_str()),
        }),
    }
}

/// Hashes a password for storage; a bcrypt failure is a validation error
/// `Password hashing failed: <error>`. The stored hash has the bcrypt form, so
/// it differs from any password that does not.
pub fn hash_password(password: &str) -> (r: ServiceResult<String>)
    ensures
        r matches Ok(h) ==> bcrypt_verify_outcome(password@, h@) == Ok::<bool, Seq<char>>(true),
        r matches Ok(h) ==> bcrypt_form(h@),
        r matches Ok(h) ==> (!bcrypt_form(password@) ==> h@ != password@),
        r matches Err(e) ==> exists|m: Seq<char>|
            e@ == (ServiceErrorView::Validation { message: "Password hashing failed: "@ + m }),
{
    match bcrypt_hash(password) {
        Ok(h) => Ok(h),
        Err(e) => {
            let message = concat("Password hashing failed: ", e.as_str());
            let r = ServiceError::Validation { message };
            assert(r@ == ServiceErrorView::Validation { message: "Password hashing failed: "@ + e@ });
            Err(r)
        },
    }
}

/// The found record, or a "not found" error for `entity` and `id`.
pub open spec fn required<T>(found: Option<T>, entity: Seq<char>, id: Seq<char>) -> Result<
    T,
    ServiceErrorView,
> {
    match found {
        Some(v) => Ok(v),
        None => Err(ServiceErrorView::NotFound { entity, identifier: id }),
    }
}

/// A user looked up by ID must exist (`User not found: <id>` otherwise).
pub fn get_user_required(found: Option<User>, id: &str) -> (r: ServiceResult<User>)
    ensures
        result_view(r) == required(found, "User"@, id@),
{
    match found {
        Some(u) => Ok(u),
        None => Err(ServiceError::not_found("User", id)),
    }
}

/// The admin user of an account must exist (`Admin User not found: <id>`).
pub fn get_admin_user_required(found: Option<User>, account_id: &str) -> (r: ServiceResult<User>)
    ensures
        result_view(r) == required(found, "Admin User"@, account_id@),
{
    match found {
        Some(u) => Ok(u),
        None => Err(ServiceError::not_found("Admin User", account_id)),
    }
}

/// The page of an account's users with their total count; an account with
/// no users at all is `Users not found: <id>`.
pub fn get_account_users(account_id: &str, total_count: u64, users: Vec<User>) -> (r: ServiceResult<
    (Vec<User>, u64),
>)
    ensures
        total_count == 0 ==> result_view(r) == Err::<(Vec<User>, u64), ServiceErrorView>(
            ServiceErrorView::NotFound { entity: "Users"@, identifier: account_id@ },
        ),
        total_count != 0 ==> r == Ok::<(Vec<User>, u64), ServiceError>((users, total_count)),
{
    if total_count == 0 {
        return Err(ServiceError::not_found("Users", account_id));
    }
    Ok((users, total_count))
}

/// The outcome of authenticating with the user found by username and a
/// password: an unknown user or a wrong password is `Invalid username or
/// password`, an inactive user `User account is inactive`, a bcrypt failure
/// `Password verification failed: <error>`.
pub open spec fn authenticate_outcome(found: Option<User>, password: Seq<char>) -> Result<
    User,
    ServiceErrorView,
> {
    match found {
        None => Err(ServiceErrorView::Validation { message: "Invalid username or password"@ }),
        Some(u) => if !u.is_active {
            Err(ServiceErrorView::Validation { message: "User account is inactive"@ })
        } else {
            match bcrypt_verify_outcome(password, u.password_hash@) {
                Err(e) => Err(
                    ServiceErrorView::Validation { message: "Password verification failed: "@ + e },
                ),
                Ok(false) => Err(
                    ServiceErrorView::Validation { message: "Invalid username or password"@ },
                ),
                Ok(true) => Ok(u),
            }
        },
    }
}

/// Authenticates a user given the user found by username (if any).
pub fn authenticate_user(found: Option<User>, password: &str) -> (r: ServiceResult<User>)
    ensures
        result_view(r) == authenticate_outcome(found, password@),
{
    let user = match found {
        Some(u) => u,
        None => {
            return Err(ServiceError::validation("Invalid username or password"));
        },
    };
    if !user.is_active {
        return Err(ServiceError::validation("User account is inactive"));
    }
    let ok = verify_password(password, user.password_hash.as_str())?;
    if !ok {
        return Err(ServiceError::validation("Invalid username or password"));
    }
    Ok(user)
}

/// An active user authenticates with the password whose hash is stored for
/// them (what `hash_password` guarantees of the hash it returns).
pub proof fn law_hashed_password_authenticates(user: User, password: Seq<char>)
    requires
        user.is_active,
        bcrypt_verify_outcome(password, user.password_hash@) == Ok::<bool, Seq<char>>(true),
    ensures
        authenticate_outcome(Some(user), password) == Ok::<User, ServiceErrorView>(user),
{
}

/// The planned change of a user's access level: the user must exist
/// (` User not found: <id>`), the `Admin` role must exist (`Role not found:
/// Admin`), and the user must not hold it (`User already has Admin role`);
/// then the access level flips.
pub open spec fn role_change_plan(user_id: Seq<char>, found: Option<User>, admin: Option<Role>) -> Result<
    User,
    ServiceErrorView,
> {
    match found {
        None => Err(ServiceErrorView::NotFound { entity: " User"@, identifier: user_id }),
        Some(u) => match admin {
            None => Err(ServiceErrorView::NotFound { entity: "Role"@, identifier: "Admin"@ }),
            Some(role) => if u.role_id@ == role.id@ {
                Err(ServiceErrorView::Validation { message: "User already has Admin role"@ })
            } else {
                Ok(User { role_access_level: toggle_access_level(u.role_access_level), ..u })
            },
        },
    }
}

/// Changing a user's access level twice gives back the level the user had,
/// and a change never leaves the level as it was.
pub proof fn law_role_change_twice_restores(user_id: Seq<char>, u: User, admin: Role, changed: User)
    requires
        role_change_plan(user_id, Some(u), Some(admin)) == Ok::<User, ServiceErrorView>(changed),
    ensures
        changed.role_access_level != u.role_access_level,
        role_change_plan(user_id, Some(changed), Some(admin)) == Ok::<User, ServiceErrorView>(u),
{
    assert(User { role_access_level: toggle_access_level(changed.role_access_level), ..changed } == u);
}

/// Decides a change of a user's access level from the user found by ID and
/// the `Admin` role found by name; on success the user with the flipped level,
/// which the caller then stores.
pub fn plan_role_access_change(user_id: &str, found: Option<User>, admin: Option<Role>) -> (r: ServiceResult<User>)
    ensures
        result_view(r) == role_change_plan(user_id@, found, admin),
{
    let mut user = match found {
        Some(u) => u,
        None => {
            return Err(ServiceError::not_found(" User", user_id));
        },
    };
    let role = match admin {
        Some(r) => r,
        None => {
            return Err(ServiceError::not_found("Role", "Admin"));
        },
    };
    if str_eq(user.role_id.as_str(), role.id.as_str()) {
        return Err(ServiceError::validation("User already has Admin role"));
    }
    user.role_access_level = user.role_access_level.toggled();
    Ok(user)
}

/// Completes a change of access level: no stored row changed is the
/// validation error `User role access not changed`.
pub fn finish_role_access_change(user: User, rows_affected: u64) -> (r: ServiceResult<User>)
    ensures
        rows_affected == 0 ==> result_view(r) == Err::<User, ServiceErrorView>(
            ServiceErrorView::Validation { message: "User role access not changed"@ },
        ),
        rows_affected != 0 ==> r == Ok::<User, ServiceError>(user),
{
    if rows_affected == 0 {
        return Err(ServiceError::validation("User role access not changed"));
    }
    Ok(user)
}

} // verus!
