use crate::common::clock::{now, Timestamp};
use crate::common::object_id::ObjectId;
use crate::common::types::Status;
use vstd::prelude::*;

verus! {

/// A tenant: the owner of its principals and of its catalog.
#[derive(Debug)]
pub struct Store {
    pub object_id: Option<ObjectId>,
    pub name: String,
    pub create_at: Timestamp,
    pub update_at: Timestamp,
}

/// What the contracts see of a tenant.
pub struct StoreView {
    pub object_id: Option<ObjectId>,
    pub name: Seq<char>,
    pub create_at: Timestamp,
    pub update_at: Timestamp,
}

impl View for Store {
    type V = StoreView;

    open spec fn view(&self) -> StoreView {
        StoreView {
            object_id: self.object_id,
            name: self.name@,
            create_at: self.create_at,
            update_at: self.update_at,
        }
    }
}

impl DeepView for Store {
    type V = StoreView;

    open spec fn deep_view(&self) -> StoreView {
        self@
    }
}

impl Clone for Store {
    fn clone(&self) -> (r: Self)
        ensures
            r@ == self@,
    {
        Store {
            object_id: self.object_id,
            name: self.name.clone(),
            create_at: self.create_at,
            update_at: self.update_at,
        }
    }
}

impl Store {
    /// A tenant of the given name that has not been stored yet, created and
    /// last updated at the given moment.
    pub fn new_at(name: String, moment: Timestamp) -> (r: Store)
        ensures
            r@ == (StoreView {
                object_id: None,
                name: name@,
                create_at: moment,
                update_at: moment,
            }),
    {
        Store { object_id: None, name, create_at: moment, update_at: moment }
    }

    /// A tenant of the given name that has not been stored yet, created and
    /// last updated at the moment of the call.
    pub fn new(name: String) -> (r: Store)
        ensures
            r.object_id is None,
            r.name@ == name@,
            r.create_at == r.update_at,
    {
        Store::new_at(name, now())
    }

    /// Sets the moment of the last update and leaves the rest as it is.
    pub fn touch(&mut self, moment: Timestamp)
        ensures
            final(self)@ == (StoreView { update_at: moment, ..old(self)@ }),
    {
        self.update_at = moment;
    }

    /// Sets the moment of the last update to the moment of the call and
    /// leaves the rest as it is.
    pub fn update(&mut self)
        ensures
            final(self).object_id == old(self).object_id,
            final(self).name@ == old(self).name@,
            final(self).create_at == old(self).create_at,
    {
        self.touch(now());
    }
}

/// What the creation of a tenant asks for.
#[derive(Debug)]
pub struct CreateStoreRequest {
    pub name: String,
}

/// The reply that carries a tenant.
#[derive(Debug)]
pub struct StoreResponse {
    pub status: Status,
    pub store: Store,
}

} // verus!
