use vstd::prelude::*;

use crate::oid::Oid;

verus! {

/// A producer, the users who work for it and its farms.
pub struct Producer {
    pub id: Option<Oid>,
    pub name: String,
    pub users: Option<Vec<Oid>>,
    pub farms: Option<Vec<Oid>>,
}

/// Abstract value of [`Producer`].
pub struct ProducerView {
    pub id: Option<Oid>,
    pub name: Seq<char>,
    pub users: Option<Seq<Oid>>,
    pub farms: Option<Seq<Oid>>,
}

/// The sequence view of an optional list of identifiers.
pub open spec fn optional_ids(v: Option<Vec<Oid>>) -> Option<Seq<Oid>> {
    match v {
        Some(l) => Some(l@),
        None => None,
    }
}

impl View for Producer {
    type V = ProducerView;

    open spec fn view(&self) -> ProducerView {
        ProducerView {
            id: self.id,
            name: self.name@,
            users: optional_ids(self.users),
            farms: optional_ids(self.farms),
        }
    }
}

/// A farm and its fields.
pub struct Farms {
    pub id: Option<Oid>,
    pub name: String,
    pub fields: Option<Vec<Oid>>,
}

/// Abstract value of [`Farms`].
pub struct FarmsView {
    pub id: Option<Oid>,
    pub name: Seq<char>,
    pub fields: Option<Seq<Oid>>,
}

impl View for Farms {
    type V = FarmsView;

    open spec fn view(&self) -> FarmsView {
        FarmsView { id: self.id, name: self.name@, fields: optional_ids(self.fields) }
    }
}

/// A field of a farm.
pub struct Fields {
    pub id: Option<Oid>,
    pub name: String,
}

/// A copy of an optional list of identifiers.
pub fn copy_optional_ids(v: &Option<Vec<Oid>>) -> (r: Option<Vec<Oid>>)
    ensures
        optional_ids(r) == optional_ids(*v),
{
    match v {
        Some(list) => {
            let mut r: Vec<Oid> = Vec::new();
            let mut i: usize = 0;
            while i < list.len()
                invariant
                    i <= list.len(),
                    r@ == list@.subrange(0, i as int),
                decreases list.len() - i,
            {
                r.push(list[i]);
                i = i + 1;
            }
            assert(r@ =~= list@);
            Some(r)
        },
        None => None,
    }
}

} // verus!
