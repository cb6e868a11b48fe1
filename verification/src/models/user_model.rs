use vstd::prelude::*;

use crate::oid::Oid;

verus! {

/// A document that carries only its identifier.
pub struct IdDoc {
    pub id: Option<Oid>,
}

/// The permissions of a user. A flag that is absent (`None`) does not forbid
/// anything; only an explicit `Some(false)` does.
pub struct Access {
    pub c_user: Option<bool>,
    pub c_access: Option<bool>,
    pub c_producer: Option<bool>,
    pub modules: Option<Vec<String>>,
}

/// Abstract value of [`Access`].
pub struct AccessView {
    pub c_user: Option<bool>,
    pub c_access: Option<bool>,
    pub c_producer: Option<bool>,
    pub modules: Option<Seq<Seq<char>>>,
}

impl View for Access {
    type V = AccessView;

    open spec fn view(&self) -> AccessView {
        AccessView {
            c_user: self.c_user,
            c_access: self.c_access,
            c_producer: self.c_producer,
            modules: self.modules.deep_view(),
        }
    }
}

/// A copy of a list of strings.
pub fn copy_strings(v: &Vec<String>) -> (r: Vec<String>)
    ensures
        r.deep_view() == v.deep_view(),
{
    let mut r: Vec<String> = Vec::new();
    let mut i: usize = 0;
    while i < v.len()
        invariant
            i <= v.len(),
            r@.len() == i,
            forall|j: int| 0 <= j < i ==> #[trigger] r@[j]@ == v@[j]@,
        decreases v.len() - i,
    {
        r.push(v[i].clone());
        i = i + 1;
    }
    assert(r.deep_view() =~= v.deep_view());
    r
}

/// A copy of an optional list of strings.
pub fn copy_optional_strings(v: &Option<Vec<String>>) -> (r: Option<Vec<String>>)
    ensures
        r.deep_view() == v.deep_view(),
{
    match v {
        Some(list) => Some(copy_strings(list)),
        None => None,
    }
}

impl Access {
    /// A field-by-field copy.
    pub fn copy_of(&self) -> (r: Access)
        ensures
            r@ == self@,
    {
        Access {
            c_user: self.c_user,
            c_access: self.c_access,
            c_producer: self.c_producer,
            modules: copy_optional_strings(&self.modules),
        }
    }
}

/// A user of the service as the `User` collection stores it.
pub struct User {
    pub id: Option<Oid>,
    pub name: String,
    pub username: Option<String>,
    pub email: String,
    pub password: Option<String>,
    pub access: Access,
}

/// Abstract value of [`User`].
pub struct UserView {
    pub id: Option<Oid>,
    pub name: Seq<char>,
    pub username: Option<Seq<char>>,
    pub email: Seq<char>,
    pub password: Option<Seq<char>>,
    pub access: AccessView,
}

impl View for User {
    type V = UserView;

    open spec fn view(&self) -> UserView {
        UserView {
            id: self.id,
            name: self.name@,
            username: self.username.deep_view(),
            email: self.email@,
            password: self.password.deep_view(),
            access: self.access@,
        }
    }
}

/// The credentials of a login request.
pub struct Login {
    pub username: String,
    pub password: String,
}

/// An open session: the token handed to the client, when it was issued
/// (milliseconds since the epoch) and the permissions it carries.
pub struct Session {
    pub id: Option<Oid>,
    pub user_id: Oid,
    pub token: String,
    pub start_date: i64,
    pub access: Access,
}

/// Abstract value of [`Session`].
pub struct SessionView {
    pub id: Option<Oid>,
    pub user_id: Oid,
    pub token: Seq<char>,
    pub start_date: i64,
    pub access: AccessView,
}

impl View for Session {
    type V = SessionView;

    open spec fn view(&self) -> SessionView {
        SessionView {
            id: self.id,
            user_id: self.user_id,
            token: self.token@,
            start_date: self.start_date,
            access: self.access@,
        }
    }
}

} // verus!
