use crate::category::model::{Category, CategoryView};
use crate::common::object_id::ObjectId;
use crate::database::{
    delete_one, find_one, first_match, lemma_first_match_is, lemma_first_match_none,
    MongoRepository, RepositoryError, RepositoryView,
};
use vstd::prelude::*;

verus! {

/// The filter that accepts the category of a given identity, in any tenant.
pub open spec fn category_with_id(id: ObjectId) -> spec_fn(CategoryView) -> bool {
    |c: CategoryView| c.object_id == Some(id)
}

/// The filter that accepts the categories of a given name within a tenant.
pub open spec fn category_of(store_id: ObjectId, name: Seq<char>) -> spec_fn(CategoryView) -> bool {
    |c: CategoryView| c.store_id == Some(store_id) && c.name == name
}

impl RepositoryView {
    /// Whether a category has that identity.
    pub open spec fn has_category_id(self, id: ObjectId) -> bool {
        first_match(self.categories, category_with_id(id)) is Some
    }

    /// The document store after a category was put in under the identity
    /// `id`.
    pub open spec fn with_category(self, category: CategoryView, id: ObjectId) -> RepositoryView {
        RepositoryView {
            categories: self.categories.push(CategoryView { object_id: Some(id), ..category }),
            ..self
        }
    }

    /// The first category of that name within the tenant.
    pub open spec fn find_category_by_name(self, store_id: ObjectId, name: Seq<char>) -> Option<
        CategoryView,
    > {
        find_one(self.categories, category_of(store_id, name))
    }

    /// The document store without the first category of that name within
    /// the tenant.
    pub open spec fn delete_category(self, store_id: ObjectId, name: Seq<char>) -> RepositoryView {
        RepositoryView {
            categories: delete_one(self.categories, category_of(store_id, name)),
            ..self
        }
    }
}

impl MongoRepository {
    /// The place of the first category of that name within the tenant.
    pub(crate) fn category_position(&self, store_id: &ObjectId, name: &str) -> (r: Option<usize>)
        ensures
            match r {
                Some(i) => first_match(self@.categories, category_of(*store_id, name@)) == Some(
                    i as int,
                ) && i < self.category_collection.len(),
                None => first_match(self@.categories, category_of(*store_id, name@)) is None,
            },
    {
        let wanted = name.to_owned();
        let mut i: usize = 0;
        while i < self.category_collection.len()
            invariant
                i <= self.category_collection.len(),
                wanted@ == name@,
                forall|j: int|
                    0 <= j < i ==> !category_of(*store_id, name@)(#[trigger] self@.categories[j]),
            decreases self.category_collection.len() - i,
        {
            let category = &self.category_collection[i];
            if category.store_id == Some(*store_id) && category.name == wanted {
                proof {
                    lemma_first_match_is(
                        self@.categories,
                        category_of(*store_id, name@),
                        i as int,
                    );
                }
                return Some(i);
            }
            i = i + 1;
        }
        proof {
            lemma_first_match_none(self@.categories, category_of(*store_id, name@));
        }
        None
    }

    /// Whether a category has that identity.
    fn category_id_taken(&self, id: ObjectId) -> (r: bool)
        ensures
            r == self@.has_category_id(id),
    {
        let mut i: usize = 0;
        while i < self.category_collection.len()
            invariant
                i <= self.category_collection.len(),
                forall|j: int|
                    0 <= j < i ==> !category_with_id(id)(#[trigger] self@.categories[j]),
            decreases self.category_collection.len() - i,
        {
            if self.category_collection[i].object_id == Some(id) {
                proof {
                    lemma_first_match_is(self@.categories, category_with_id(id), i as int);
                }
                return true;
            }
            i = i + 1;
        }
        proof {
            lemma_first_match_none(self@.categories, category_with_id(id));
        }
        false
    }

    /// Puts a category in under the identity `id`, unless a category has
    /// that identity already.
    pub fn create_category_with_id(&mut self, new_category: Category, id: ObjectId) -> (r: Result<
        ObjectId,
        RepositoryError,
    >)
        ensures
            match r {
                Ok(given) => given == id && !old(self)@.has_category_id(id) && final(self)@
                    == old(self)@.with_category(new_category@, id),
                Err(e) => e == RepositoryError::DuplicateKey && old(self)@.has_category_id(id)
                    && final(self)@ == old(self)@,
            },
    {
        if self.category_id_taken(id) {
            return Err(RepositoryError::DuplicateKey);
        }
        let mut category = new_category;
        category.object_id = Some(id);
        self.category_collection.push(category);
        assert(self@.categories =~= old(self)@.with_category(new_category@, id).categories);
        Ok(id)
    }

    /// Puts a category in under the identity it carries. Fails, and changes
    /// nothing, where it carries none or where the identity is taken.
    pub fn create_category(&mut self, new_category: Category) -> (r: Result<
        ObjectId,
        RepositoryError,
    >)
        ensures
            match new_category.object_id {
                Some(own) => if old(self)@.has_category_id(own) {
                    r == Err::<ObjectId, RepositoryError>(RepositoryError::DuplicateKey)
                        && final(self)@ == old(self)@
                } else {
                    r == Ok::<ObjectId, RepositoryError>(own) && final(self)@
                        == old(self)@.with_category(new_category@, own)
                },
                None => r == Err::<ObjectId, RepositoryError>(RepositoryError::MissingKey)
                    && final(self)@ == old(self)@,
            },
    {
        match new_category.object_id {
            Some(own) => self.create_category_with_id(new_category, own),
            None => Err(RepositoryError::MissingKey),
        }
    }

    /// Takes out the first category of that name within the tenant and tells
    /// whether there was one.
    pub fn delete_category(&mut self, store_id: ObjectId, category_name: &str) -> (r: Result<
        bool,
        RepositoryError,
    >)
        ensures
            r == Ok::<bool, RepositoryError>(
                old(self)@.find_category_by_name(store_id, category_name@) is Some,
            ),
            final(self)@ == old(self)@.delete_category(store_id, category_name@),
    {
        match self.category_position(&store_id, category_name) {
            Some(i) => {
                self.category_collection.remove(i);
                assert(self@.categories =~= old(self)@.categories.remove(i as int));
                Ok(true)
            },
            None => Ok(false),
        }
    }

    /// The first category of that name within the tenant.
    pub fn find_category_by_name(&self, store_id: ObjectId, name: &str) -> (r: Option<Category>)
        ensures
            r.deep_view() == self@.find_category_by_name(store_id, name@),
    {
        match self.category_position(&store_id, name) {
            Some(i) => Some(self.category_collection[i].clone()),
            None => None,
        }
    }
}

} // verus!
