use vstd::prelude::*;

use crate::oid::Oid;

verus! {

/// A user record of the older account service, with a single access level.
pub struct User {
    pub id: Option<Oid>,
    pub name: String,
    pub email: String,
    pub password: String,
    pub level_access: String,
}

} // verus!
