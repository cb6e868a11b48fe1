use vstd::prelude::*;
use vstd::string::*;

use crate::oid::Oid;

verus! {

/// Which documents of a collection a query selects.
#[derive(Clone, Copy)]
pub enum Filter {
    /// Every document.
    Everything,
    /// The document whose `_id` is this identifier.
    ById(Oid),
    /// The documents whose `users` list holds this identifier.
    HasUser(Oid),
}

/// A read from the store: which documents, and which of their fields are
/// left out of what the store hands back.
pub struct Query {
    pub filter: Filter,
    pub hidden: Vec<String>,
}

/// Abstract value of [`Query`].
pub struct QueryView {
    pub filter: Filter,
    pub hidden: Seq<Seq<char>>,
}

impl View for Query {
    type V = QueryView;

    open spec fn view(&self) -> QueryView {
        QueryView { filter: self.filter, hidden: self.hidden.deep_view() }
    }
}

/// The field `f` is left out of the documents the query returns.
pub open spec fn hides(q: QueryView, f: Seq<char>) -> bool {
    q.hidden.contains(f)
}

/// The read of a user's profile: that user, without user name, password or
/// the permission flags.
pub open spec fn profile_user_query(id: Oid) -> QueryView {
    QueryView {
        filter: Filter::ById(id),
        hidden: seq![
            "username"@,
            "password"@,
            "access.c_user"@,
            "access.c_access"@,
            "access.c_producer"@,
        ],
    }
}

/// The read of the producers a user works for: those whose `users` list
/// holds the user, without their users and farms.
pub open spec fn profile_producers_query(id: Oid) -> QueryView {
    QueryView { filter: Filter::HasUser(id), hidden: seq!["users"@, "farms"@] }
}

/// The read of all users, without user names and passwords.
pub open spec fn users_listing_query() -> QueryView {
    QueryView { filter: Filter::Everything, hidden: seq!["username"@, "password"@] }
}

/// The read of one producer, without its farms.
pub open spec fn producer_lookup_query(id: Oid) -> QueryView {
    QueryView { filter: Filter::ById(id), hidden: seq!["farms"@] }
}

/// The read of every document, whole.
pub open spec fn whole_listing_query() -> QueryView {
    QueryView { filter: Filter::Everything, hidden: Seq::empty() }
}

/// The read of a user's profile.
pub fn profile_user(id: Oid) -> (q: Query)
    ensures
        q@ == profile_user_query(id),
{
    let hidden = vec![
        String::from_str("username"),
        String::from_str("password"),
        String::from_str("access.c_user"),
        String::from_str("access.c_access"),
        String::from_str("access.c_producer"),
    ];
    let q = Query { filter: Filter::ById(id), hidden };
    assert(q@.hidden =~= profile_user_query(id).hidden);
    q
}

/// The read of the producers a user works for.
pub fn profile_producers(id: Oid) -> (q: Query)
    ensures
        q@ == profile_producers_query(id),
{
    let hidden = vec![String::from_str("users"), String::from_str("farms")];
    let q = Query { filter: Filter::HasUser(id), hidden };
    assert(q@.hidden =~= profile_producers_query(id).hidden);
    q
}

/// The read of all users.
pub fn users_listing() -> (q: Query)
    ensures
        q@ == users_listing_query(),
{
    let hidden = vec![String::from_str("username"), String::from_str("password")];
    let q = Query { filter: Filter::Everything, hidden };
    assert(q@.hidden =~= users_listing_query().hidden);
    q
}

/// The read of one producer.
pub fn producer_lookup(id: Oid) -> (q: Query)
    ensures
        q@ == producer_lookup_query(id),
{
    let hidden = vec![String::from_str("farms")];
    let q = Query { filter: Filter::ById(id), hidden };
    assert(q@.hidden =~= producer_lookup_query(id).hidden);
    q
}

/// The read of every document, whole.
pub fn whole_listing() -> (q: Query)
    ensures
        q@ == whole_listing_query(),
{
    let hidden: Vec<String> = Vec::new();
    let q = Query { filter: Filter::Everything, hidden };
    assert(q@.hidden =~= whole_listing_query().hidden);
    q
}

} // verus!
