use vstd::prelude::*;
use vstd::string::*;

use crate::models::model_user::User;
use crate::oid::{is_object_id_text, object_id_bytes, Oid};
use crate::reply::Next;
use crate::routes::required_id;

verus! {

/// Stops the request with `message` when a store operation failed; otherwise
/// goes on with its result.
pub fn expect_done<T, E>(res: Result<T, E>, message: &str) -> (r: Next<T>)
    ensures
        match res {
            Ok(v) => r == Next::<T>::Go(v),
            Err(_) => r matches Next::Abort(m) && m@ == message@,
        },
{
    match res {
        Ok(v) => Next::Go(v),
        Err(_) => Next::Abort(String::from_str(message)),
    }
}

/// The record that the account service inserts for a new user: the user as
/// given, field for field (the password is stored as given).
pub fn create_user_doc(new_user: User) -> (r: User)
    ensures
        r == new_user,
{
    User {
        id: new_user.id,
        name: new_user.name,
        email: new_user.email,
        password: new_user.password,
        level_access: new_user.level_access,
    }
}

/// After a user record was inserted: a failure stops the request; otherwise
/// the insertion outcome is returned.
pub fn create_user_inserted<T, E>(res: Result<T, E>) -> (r: Next<T>)
    ensures
        match res {
            Ok(v) => r == Next::<T>::Go(v),
            Err(_) => r is Abort,
        },
{
    expect_done(res, "Error: Usuario não encontrado")
}

/// After a user record was looked up by id: a failed lookup stops the
/// request, and so does a record that does not exist; otherwise it is returned.
pub fn get_user_found<T, E>(res: Result<Option<T>, E>) -> (r: Next<T>)
    ensures
        match res {
            Ok(Some(v)) => r == Next::<T>::Go(v),
            _ => r is Abort,
        },
{
    match expect_done(res, "Error getting user's detail") {
        Next::Go(Some(v)) => Next::Go(v),
        Next::Go(None) => Next::Abort(String::from_str("the user does not exist")),
        Next::Reply(rep) => Next::Reply(rep),
        Next::Abort(m) => Next::Abort(m),
    }
}

/// The update of a user record: its id and the values that replace all of its fields.
pub struct UserSet {
    pub id: Oid,
    pub doc: User,
}

/// Prepares the update of a user record: an `id` that is not 24 hexadecimal
/// digits stops the request; otherwise every field is set from `new_user`.
pub fn update_user_set(id: &str, new_user: User) -> (r: Next<UserSet>)
    ensures
        is_object_id_text(id@) ==> (r matches Next::Go(u) && u.id.bytes@ == object_id_bytes(id@)
            && u.doc == new_user),
        !is_object_id_text(id@) ==> r is Abort,
{
    match required_id(id) {
        Next::Go(oid) => Next::Go(UserSet { id: oid, doc: new_user }),
        Next::Reply(rep) => Next::Reply(rep),
        Next::Abort(m) => Next::Abort(m),
    }
}

/// After a user record was updated: a failure stops the request; otherwise
/// the update outcome is returned.
pub fn update_user_updated<T, E>(res: Result<T, E>) -> (r: Next<T>)
    ensures
        match res {
            Ok(v) => r == Next::<T>::Go(v),
            Err(_) => r is Abort,
        },
{
    expect_done(res, "Error updating user")
}

/// After a user record was deleted: a failure stops the request; otherwise
/// the deletion outcome is returned.
pub fn delete_user_deleted<T, E>(res: Result<T, E>) -> (r: Next<T>)
    ensures
        match res {
            Ok(v) => r == Next::<T>::Go(v),
            Err(_) => r is Abort,
        },
{
    expect_done(res, "Error deleting user")
}

/// After the listing of user records was sent: a failure stops the request.
pub fn get_all_users_opened<T, E>(res: Result<T, E>) -> (r: Next<T>)
    ensures
        match res {
            Ok(v) => r == Next::<T>::Go(v),
            Err(_) => r is Abort,
        },
{
    expect_done(res, "Error getting list of users")
}

/// Takes one answer of the listing cursor: a record is appended and the
/// listing goes on; the end of the cursor ends it; a failure stops the request.
pub fn get_all_users_next<T, E>(acc: &mut Vec<T>, next: Result<Option<T>, E>) -> (r: Next<bool>)
    ensures
        match next {
            Ok(Some(x)) => r == Next::<bool>::Go(true) && final(acc)@ == old(acc)@.push(x),
            Ok(None) => r == Next::<bool>::Go(false) && final(acc)@ == old(acc)@,
            Err(_) => r is Abort && final(acc)@ == old(acc)@,
        },
{
    match next {
        Ok(Some(x)) => {
            acc.push(x);
            Next::Go(true)
        },
        Ok(None) => Next::Go(false),
        Err(_) => Next::Abort(String::from_str("Error mapping though cursor")),
    }
}

} // verus!
