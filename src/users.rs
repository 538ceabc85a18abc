//! Users: the record written when one is created, and the `(role, group)`
//! pairs assigned to a user.

use vstd::prelude::*;
use crate::ident::new_id;
use crate::model::{User, UserGroupRoles, UserProfile};
use crate::schema::user::{ResetPasswordRequest, UserCreateRequest, UserUpdateRequest};
use crate::security::{hash_password, password_fits, verify_outcome, HashError};

verus! {

/// The records that creating a user writes: the user, under a fresh id and
/// with the password hashed, and its profile. `actor` is recorded as creator
/// and last updater, `now` as both dates.
pub fn new_user(req: UserCreateRequest, actor: u128, now: i64) -> (r: Result<(User, UserProfile), HashError>)
    ensures
        password_fits(req.password@) ==> r is Ok,
        r is Err ==> r == Err::<(User, UserProfile), HashError>(HashError::HashFailed),
        r is Ok ==> {
            let (u, p) = r.unwrap();
            &&& u.user_name@ == req.user_name@
            &&& verify_outcome(req.password@, u.password@) == Ok::<bool, HashError>(true)
            &&& u.is_active == Some(req.is_active)
            &&& u.is_2faenabled == Some(false)
            &&& u.created_by == Some(actor) && u.updated_by == Some(actor)
            &&& u.created_date == Some(now) && u.updated_date == Some(now)
            &&& u.deleted_date is None
            &&& p.user_id == u.id
            &&& p.first_name == req.first_name && p.last_name == req.last_name
            &&& p.email == req.email && p.address == req.address
        },
{
    let password = match hash_password(req.password.as_str()) {
        Ok(digest) => digest,
        Err(e) => return Err(e),
    };
    let id = new_id();
    let user = User {
        id,
        user_name: req.user_name,
        password,
        is_active: Some(req.is_active),
        is_2faenabled: Some(false),
        created_by: Some(actor),
        updated_by: Some(actor),
        created_date: Some(now),
        updated_date: Some(now),
        deleted_date: None,
    };
    let profile = UserProfile {
        id: new_id(),
        user_id: id,
        first_name: req.first_name,
        last_name: req.last_name,
        address: req.address,
        email: req.email,
    };
    Ok((user, profile))
}

/// The records that updating a user writes: the name, status and password
/// (hashed anew) from the request, and the profile's attributes. `actor` is
/// recorded as last updater and `now` as the update date; identity and
/// creation fields are kept.
pub fn update_user(user: User, profile: UserProfile, req: UserUpdateRequest, actor: u128, now: i64) -> (r: Result<(User, UserProfile), HashError>)
    ensures
        password_fits(req.password@) ==> r is Ok,
        r is Err ==> r == Err::<(User, UserProfile), HashError>(HashError::HashFailed),
        r is Ok ==> {
            let (u, p) = r.unwrap();
            &&& u.id == user.id
            &&& u.user_name@ == req.user_name@
            &&& verify_outcome(req.password@, u.password@) == Ok::<bool, HashError>(true)
            &&& u.is_active == Some(req.is_active)
            &&& u.is_2faenabled == user.is_2faenabled
            &&& u.created_by == user.created_by && u.created_date == user.created_date
            &&& u.updated_by == Some(actor) && u.updated_date == Some(now)
            &&& u.deleted_date == user.deleted_date
            &&& p.id == profile.id && p.user_id == profile.user_id
            &&& p.first_name == req.first_name && p.last_name == req.last_name
            &&& p.email == req.email && p.address == req.address
        },
{
    let password = match hash_password(req.password.as_str()) {
        Ok(digest) => digest,
        Err(e) => return Err(e),
    };
    let updated = User {
        id: user.id,
        user_name: req.user_name,
        password,
        is_active: Some(req.is_active),
        is_2faenabled: user.is_2faenabled,
        created_by: user.created_by,
        updated_by: Some(actor),
        created_date: user.created_date,
        updated_date: Some(now),
        deleted_date: user.deleted_date,
    };
    let new_profile = UserProfile {
        id: profile.id,
        user_id: profile.user_id,
        first_name: req.first_name,
        last_name: req.last_name,
        address: req.address,
        email: req.email,
    };
    Ok((updated, new_profile))
}

/// Why a password could not be reset.
#[derive(Clone, Copy, Debug, PartialEq, Eq, Structural)]
pub enum ResetError {
    /// The new password and its confirmation differ.
    Mismatch,
    /// Hashing failed.
    HashFailed,
}

/// The user with a new password: the new password and its confirmation
/// must be equal; the password is hashed, `actor` recorded as last updater
/// and `now` as the update date.
pub fn reset_password(user: User, req: &ResetPasswordRequest, actor: u128, now: i64) -> (r: Result<User, ResetError>)
    ensures
        req.new_password@ != req.confirm_new_password@ ==> r == Err::<User, ResetError>(ResetError::Mismatch),
        req.new_password@ == req.confirm_new_password@ ==> (r is Err ==> r == Err::<User, ResetError>(ResetError::HashFailed)),
        req.new_password@ == req.confirm_new_password@ && password_fits(req.new_password@) ==> r is Ok,
        r is Ok ==> {
            let u = r.unwrap();
            &&& req.new_password@ == req.confirm_new_password@
            &&& verify_outcome(req.new_password@, u.password@) == Ok::<bool, HashError>(true)
            &&& u.id == user.id && u.user_name@ == user.user_name@
            &&& u.is_active == user.is_active && u.is_2faenabled == user.is_2faenabled
            &&& u.created_by == user.created_by && u.created_date == user.created_date
            &&& u.updated_by == Some(actor) && u.updated_date == Some(now)
            &&& u.deleted_date == user.deleted_date
        },
{
    if req.new_password != req.confirm_new_password {
        return Err(ResetError::Mismatch);
    }
    let password = match hash_password(req.new_password.as_str()) {
        Ok(digest) => digest,
        Err(_) => return Err(ResetError::HashFailed),
    };
    Ok(User {
        id: user.id,
        user_name: user.user_name,
        password,
        is_active: user.is_active,
        is_2faenabled: user.is_2faenabled,
        created_by: user.created_by,
        updated_by: Some(actor),
        created_date: user.created_date,
        updated_date: Some(now),
        deleted_date: user.deleted_date,
    })
}

/// An entity that an assignment refers to.
#[derive(Clone, Copy, Debug, PartialEq, Eq, Structural)]
pub enum Member {
    User,
    Role,
    Group,
    Assignment,
}

/// Why a `(role, group)` pair could not be assigned or withdrawn.
#[derive(Clone, Copy, Debug, PartialEq, Eq, Structural)]
pub enum AssignmentError {
    /// The named entity does not exist (or is soft-deleted).
    NotFound(Member),
    /// The user holds the pair already.
    Conflict,
}

/// What the store reported for a user, a role, a group, and the pair.
#[derive(Clone, Copy, Debug, PartialEq, Eq, Structural)]
pub struct AssignmentLookup {
    pub user_found: bool,
    pub role_found: bool,
    pub group_found: bool,
    pub assigned: bool,
}

/// The first of the three referenced entities that is missing.
pub open spec fn missing_member(l: AssignmentLookup) -> Option<Member> {
    if !l.user_found {
        Some(Member::User)
    } else if !l.role_found {
        Some(Member::Role)
    } else if !l.group_found {
        Some(Member::Group)
    } else {
        None
    }
}

fn first_missing_member(l: &AssignmentLookup) -> (r: Option<Member>)
    ensures
        r == missing_member(*l),
{
    if !l.user_found {
        Some(Member::User)
    } else if !l.role_found {
        Some(Member::Role)
    } else if !l.group_found {
        Some(Member::Group)
    } else {
        None
    }
}

/// Whether a pair may be assigned, given what the store reported.
pub open spec fn assign_outcome(l: AssignmentLookup) -> Result<(), AssignmentError> {
    match missing_member(l) {
        Some(m) => Err(AssignmentError::NotFound(m)),
        None => if l.assigned {
            Err(AssignmentError::Conflict)
        } else {
            Ok(())
        },
    }
}

/// Whether a pair may be withdrawn, given what the store reported.
pub open spec fn withdraw_outcome(l: AssignmentLookup) -> Result<(), AssignmentError> {
    match missing_member(l) {
        Some(m) => Err(AssignmentError::NotFound(m)),
        None => if l.assigned {
            Ok(())
        } else {
            Err(AssignmentError::NotFound(Member::Assignment))
        },
    }
}

/// The row that assigns a `(role, group)` pair to a user, under a fresh id:
/// user, role and group must exist and the pair must not be assigned yet.
pub fn add_user_group_role(user_id: u128, role_id: u128, group_id: u128, lookup: &AssignmentLookup) -> (r: Result<UserGroupRoles, AssignmentError>)
    ensures
        match assign_outcome(*lookup) {
            Err(e) => r == Err::<UserGroupRoles, AssignmentError>(e),
            Ok(_) => r is Ok && r.unwrap().user_id == Some(user_id) && r.unwrap().role_id == Some(role_id)
                && r.unwrap().group_id == Some(group_id),
        },
{
    if let Some(m) = first_missing_member(lookup) {
        return Err(AssignmentError::NotFound(m));
    }
    if lookup.assigned {
        return Err(AssignmentError::Conflict);
    }
    Ok(UserGroupRoles { id: new_id(), user_id: Some(user_id), group_id: Some(group_id), role_id: Some(role_id) })
}

/// Whether the pair may be withdrawn: user, role and group must exist and
/// the user must hold the pair.
pub fn delete_user_group_role(lookup: &AssignmentLookup) -> (r: Result<(), AssignmentError>)
    ensures
        r == withdraw_outcome(*lookup),
{
    if let Some(m) = first_missing_member(lookup) {
        return Err(AssignmentError::NotFound(m));
    }
    if lookup.assigned {
        Ok(())
    } else {
        Err(AssignmentError::NotFound(Member::Assignment))
    }
}

/// The rows that replace all of a user's pairs once the old ones are
/// deleted: one per given `(role, group)` pair, in order, each under a
/// fresh id.
pub fn replace_user_group_roles(user_id: u128, pairs: &Vec<(u128, u128)>) -> (r: Vec<UserGroupRoles>)
    ensures
        r@.len() == pairs@.len(),
        forall|i: int|
            0 <= i < r@.len() ==> #[trigger] r@[i].user_id == Some(user_id) && r@[i].role_id == Some(
                pairs@[i].0,
            ) && r@[i].group_id == Some(pairs@[i].1),
{
    let mut rows: Vec<UserGroupRoles> = Vec::new();
    let mut i: usize = 0;
    while i < pairs.len()
        invariant
            i <= pairs@.len(),
            rows@.len() == i,
            forall|j: int|
                0 <= j < i ==> #[trigger] rows@[j].user_id == Some(user_id) && rows@[j].role_id == Some(
                    pairs@[j].0,
                ) && rows@[j].group_id == Some(pairs@[j].1),
        decreases pairs@.len() - i,
    {
        let (role_id, group_id) = pairs[i];
        rows.push(UserGroupRoles { id: new_id(), user_id: Some(user_id), group_id: Some(group_id), role_id: Some(role_id) });
        i = i + 1;
    }
    rows
}

} // verus!
