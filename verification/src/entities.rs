//! Typed entities the session engine works with, modelled as plain values:
//! what the engine reads of a `User` and of a `GroupInfo`.

use vstd::prelude::*;

use crate::element_value::IdTuple;

verus! {

/// The user's membership in their primary group.
#[derive(Debug)]
pub struct UserGroup {
    pub group_info: IdTuple,
}

/// Authentication data of an external (link-based) user.
#[derive(Debug)]
pub struct ExternalAuthInfo {
    pub latest_salt_hash: Option<Vec<u8>>,
}

/// The fields of the `User` entity the session engine reads.
#[derive(Debug)]
pub struct User {
    pub _id: String,
    pub verifier: Vec<u8>,
    pub salt: Option<Vec<u8>>,
    pub account_type: i64,
    pub user_group: UserGroup,
    pub external_auth_info: Option<ExternalAuthInfo>,
}

/// The fields of the `GroupInfo` entity the session engine passes through.
#[derive(Debug)]
pub struct GroupInfo {
    pub _id: IdTuple,
    pub group: String,
}

} // verus!
