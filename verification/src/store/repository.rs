use crate::common::object_id::ObjectId;
use crate::database::{
    delete_one, find_one, first_match, lemma_first_match_is, lemma_first_match_none,
    update_one, MongoRepository, RepositoryError, RepositoryView,
};
use crate::store::model::{Store, StoreView};
use vstd::prelude::*;

verus! {

/// The filter that accepts the tenants of a given name.
pub open spec fn store_named(name: Seq<char>) -> spec_fn(StoreView) -> bool {
    |s: StoreView| s.name == name
}

/// The filter that accepts the tenant of a given identity.
pub open spec fn store_with_id(id: ObjectId) -> spec_fn(StoreView) -> bool {
    |s: StoreView| s.object_id == Some(id)
}

/// The change that gives a tenant another name.
pub open spec fn store_renamed(name: Seq<char>) -> spec_fn(StoreView) -> StoreView {
    |s: StoreView| StoreView { name, ..s }
}

impl RepositoryView {
    /// The first tenant of that name.
    pub open spec fn find_store_by_name(self, name: Seq<char>) -> Option<StoreView> {
        find_one(self.stores, store_named(name))
    }

    /// Whether a tenant has that identity.
    pub open spec fn has_store_id(self, id: ObjectId) -> bool {
        first_match(self.stores, store_with_id(id)) is Some
    }

    /// The document store after a tenant was put in under the identity `id`.
    pub open spec fn with_store(self, store: StoreView, id: ObjectId) -> RepositoryView {
        RepositoryView {
            stores: self.stores.push(StoreView { object_id: Some(id), ..store }),
            ..self
        }
    }

    /// The document store without the first tenant of that name.
    pub open spec fn delete_store(self, name: Seq<char>) -> RepositoryView {
        RepositoryView { stores: delete_one(self.stores, store_named(name)), ..self }
    }

    /// The document store with the first tenant of a name given another
    /// name.
    pub open spec fn rename_store(
        self,
        old_name: Seq<char>,
        new_name: Seq<char>,
    ) -> RepositoryView {
        RepositoryView {
            stores: update_one(self.stores, store_named(old_name), store_renamed(new_name)),
            ..self
        }
    }
}

impl MongoRepository {
    /// The place of the first tenant of that name.
    fn store_position(&self, name: &str) -> (r: Option<usize>)
        ensures
            match r {
                Some(i) => first_match(self@.stores, store_named(name@)) == Some(i as int) && i
                    < self.store_collection.len(),
                None => first_match(self@.stores, store_named(name@)) is None,
            },
    {
        let wanted = name.to_owned();
        let mut i: usize = 0;
        while i < self.store_collection.len()
            invariant
                i <= self.store_collection.len(),
                wanted@ == name@,
                forall|j: int| 0 <= j < i ==> !store_named(name@)(#[trigger] self@.stores[j]),
            decreases self.store_collection.len() - i,
        {
            if self.store_collection[i].name == wanted {
                proof {
                    lemma_first_match_is(self@.stores, store_named(name@), i as int);
                }
                return Some(i);
            }
            i = i + 1;
        }
        proof {
            lemma_first_match_none(self@.stores, store_named(name@));
        }
        None
    }

    /// Whether a tenant has that identity.
    fn store_id_taken(&self, id: ObjectId) -> (r: bool)
        ensures
            r == self@.has_store_id(id),
    {
        let mut i: usize = 0;
        while i < self.store_collection.len()
            invariant
                i <= self.store_collection.len(),
                forall|j: int| 0 <= j < i ==> !store_with_id(id)(#[trigger] self@.stores[j]),
            decreases self.store_collection.len() - i,
        {
            if self.store_collection[i].object_id == Some(id) {
                proof {
                    lemma_first_match_is(self@.stores, store_with_id(id), i as int);
                }
                return true;
            }
            i = i + 1;
        }
        proof {
            lemma_first_match_none(self@.stores, store_with_id(id));
        }
        false
    }

    /// Puts a tenant in under the identity `id`, unless a tenant has that
    /// identity already.
    pub fn create_store_with_id(&mut self, new_store: Store, id: ObjectId) -> (r: Result<
        ObjectId,
        RepositoryError,
    >)
        ensures
            match r {
                Ok(given) => given == id && !old(self)@.has_store_id(id) && final(self)@
                    == old(self)@.with_store(new_store@, id),
                Err(e) => e == RepositoryError::DuplicateKey && old(self)@.has_store_id(id)
                    && final(self)@ == old(self)@,
            },
    {
        if self.store_id_taken(id) {
            return Err(RepositoryError::DuplicateKey);
        }
        let mut store = new_store;
        store.object_id = Some(id);
        self.store_collection.push(store);
        assert(self@.stores =~= old(self)@.with_store(new_store@, id).stores);
        Ok(id)
    }

    /// Puts a tenant in under the identity it carries. Fails, and changes
    /// nothing, where it carries none or where the identity is taken.
    pub fn create_store(&mut self, new_store: Store) -> (r: Result<ObjectId, RepositoryError>)
        ensures
            match new_store.object_id {
                Some(own) => if old(self)@.has_store_id(own) {
                    r == Err::<ObjectId, RepositoryError>(RepositoryError::DuplicateKey)
                        && final(self)@ == old(self)@
                } else {
                    r == Ok::<ObjectId, RepositoryError>(own) && final(self)@
                        == old(self)@.with_store(new_store@, own)
                },
                None => r == Err::<ObjectId, RepositoryError>(RepositoryError::MissingKey)
                    && final(self)@ == old(self)@,
            },
    {
        match new_store.object_id {
            Some(own) => self.create_store_with_id(new_store, own),
            None => Err(RepositoryError::MissingKey),
        }
    }

    /// Takes out the first tenant of that name and tells whether there was
    /// one.
    pub fn delete_store(&mut self, store_name: &str) -> (r: Result<bool, RepositoryError>)
        ensures
            r == Ok::<bool, RepositoryError>(old(self)@.find_store_by_name(store_name@) is Some),
            final(self)@ == old(self)@.delete_store(store_name@),
    {
        match self.store_position(store_name) {
            Some(i) => {
                self.store_collection.remove(i);
                assert(self@.stores =~= old(self)@.stores.remove(i as int));
                Ok(true)
            },
            None => Ok(false),
        }
    }

    /// The first tenant of that name.
    pub fn find_store_by_name(&self, name: &str) -> (r: Option<Store>)
        ensures
            r.deep_view() == self@.find_store_by_name(name@),
    {
        match self.store_position(name) {
            Some(i) => Some(self.store_collection[i].clone()),
            None => None,
        }
    }

    /// Gives the first tenant named `old_name` the name `new_name`, and tells
    /// whether that changed a document.
    pub fn rename_store(&mut self, old_name: &str, new_name: &str) -> (r: Result<
        bool,
        RepositoryError,
    >)
        ensures
            r == Ok::<bool, RepositoryError>(
                old(self)@.find_store_by_name(old_name@) is Some && old_name@ != new_name@,
            ),
            final(self)@ == old(self)@.rename_store(old_name@, new_name@),
    {
        match self.store_position(old_name) {
            Some(i) => {
                let changed = old_name.to_owned() != new_name.to_owned();
                let mut store = self.store_collection.remove(i);
                store.name = new_name.to_owned();
                self.store_collection.insert(i, store);
                assert(self@.stores =~= update_one(
                    old(self)@.stores,
                    store_named(old_name@),
                    store_renamed(new_name@),
                ));
                Ok(changed)
            },
            None => Ok(false),
        }
    }
}

} // verus!
