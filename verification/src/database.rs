use crate::category::model::{Category, CategoryView};
use crate::store::model::{Store, StoreView};
use crate::user::model::{User, UserView};
use vstd::prelude::*;

verus! {

/// The place of the first document that a filter accepts, if it accepts any.
pub open spec fn first_match<T>(docs: Seq<T>, accepts: spec_fn(T) -> bool) -> Option<int>
    decreases docs.len(),
{
    if docs.len() == 0 {
        None
    } else {
        match first_match(docs.drop_last(), accepts) {
            Some(i) => Some(i),
            None => if accepts(docs.last()) {
                Some(docs.len() - 1)
            } else {
                None
            },
        }
    }
}

/// The first document that a filter accepts, if it accepts any.
pub open spec fn find_one<T>(docs: Seq<T>, accepts: spec_fn(T) -> bool) -> Option<T> {
    match first_match(docs, accepts) {
        Some(i) => Some(docs[i]),
        None => None,
    }
}

/// The documents without the first that a filter accepts.
pub open spec fn delete_one<T>(docs: Seq<T>, accepts: spec_fn(T) -> bool) -> Seq<T> {
    match first_match(docs, accepts) {
        Some(i) => docs.remove(i),
        None => docs,
    }
}

/// The documents with the first that a filter accepts replaced by what
/// `change` makes of it.
pub open spec fn update_one<T>(
    docs: Seq<T>,
    accepts: spec_fn(T) -> bool,
    change: spec_fn(T) -> T,
) -> Seq<T> {
    match first_match(docs, accepts) {
        Some(i) => docs.update(i, change(docs[i])),
        None => docs,
    }
}

/// What `first_match` returns is a place in the sequence, the document there
/// is accepted and none before it is; where it returns nothing, no document
/// is accepted.
pub proof fn lemma_first_match<T>(docs: Seq<T>, accepts: spec_fn(T) -> bool)
    ensures
        match first_match(docs, accepts) {
            Some(i) => 0 <= i < docs.len() && accepts(docs[i]) && forall|j: int|
                0 <= j < i ==> !accepts(#[trigger] docs[j]),
            None => forall|j: int| 0 <= j < docs.len() ==> !accepts(#[trigger] docs[j]),
        },
    decreases docs.len(),
{
    if docs.len() > 0 {
        let front = docs.drop_last();
        lemma_first_match(front, accepts);
        assert forall|j: int| 0 <= j < front.len() implies front[j] == docs[j] by {}
        match first_match(front, accepts) {
            Some(i) => {
                assert(docs[i] == front[i]);
                assert forall|j: int| 0 <= j < i implies !accepts(#[trigger] docs[j]) by {
                    assert(front[j] == docs[j]);
                }
            },
            None => {
                assert forall|j: int| 0 <= j < docs.len() - 1 implies !accepts(
                    #[trigger] docs[j],
                ) by {
                    assert(front[j] == docs[j]);
                }
            },
        }
    }
}

/// A place whose document is accepted, with none accepted before it, is the
/// place that `first_match` returns.
pub proof fn lemma_first_match_is<T>(docs: Seq<T>, accepts: spec_fn(T) -> bool, i: int)
    requires
        0 <= i < docs.len(),
        accepts(docs[i]),
        forall|j: int| 0 <= j < i ==> !accepts(#[trigger] docs[j]),
    ensures
        first_match(docs, accepts) == Some(i),
{
    lemma_first_match(docs, accepts);
    match first_match(docs, accepts) {
        Some(k) => {
            if k < i {
                assert(!accepts(docs[k]));
            }
            if i < k {
                assert(!accepts(docs[i]));
            }
        },
        None => {
            assert(!accepts(docs[i]));
        },
    }
}

/// Where no document is accepted, `first_match` returns nothing.
pub proof fn lemma_first_match_none<T>(docs: Seq<T>, accepts: spec_fn(T) -> bool)
    requires
        forall|j: int| 0 <= j < docs.len() ==> !accepts(#[trigger] docs[j]),
    ensures
        first_match(docs, accepts) is None,
{
    lemma_first_match(docs, accepts);
    if let Some(k) = first_match(docs, accepts) {
        assert(!accepts(docs[k]));
    }
}

/// Two sequences of one length whose documents are accepted at the same
/// places have their first accepted document at the same place.
pub proof fn lemma_first_match_same_places<T, U>(
    docs: Seq<T>,
    accepts: spec_fn(T) -> bool,
    others: Seq<U>,
    admits: spec_fn(U) -> bool,
)
    requires
        docs.len() == others.len(),
        forall|j: int| 0 <= j < docs.len() ==> accepts(#[trigger] docs[j]) == admits(others[j]),
    ensures
        first_match(docs, accepts) == first_match(others, admits),
{
    lemma_first_match(docs, accepts);
    lemma_first_match(others, admits);
    match first_match(docs, accepts) {
        Some(i) => {
            assert(accepts(docs[i]));
            assert forall|j: int| 0 <= j < i implies !admits(#[trigger] others[j]) by {
                assert(!accepts(docs[j]));
            }
            lemma_first_match_is(others, admits, i);
        },
        None => {
            assert forall|j: int| 0 <= j < others.len() implies !admits(#[trigger] others[j]) by {
                assert(!accepts(docs[j]));
            }
            lemma_first_match_none(others, admits);
        },
    }
}

/// A document put behind the others is found only where none of the others
/// is accepted.
pub proof fn lemma_first_match_push<T>(docs: Seq<T>, accepts: spec_fn(T) -> bool, doc: T)
    ensures
        first_match(docs.push(doc), accepts) == match first_match(docs, accepts) {
            Some(i) => Some(i),
            None => if accepts(doc) {
                Some(docs.len() as int)
            } else {
                None
            },
        },
{
    assert(docs.push(doc).drop_last() =~= docs);
}

/// Replacing a document by one that the filter treats alike leaves the
/// place of the first accepted document as it was.
pub proof fn lemma_first_match_update<T>(
    docs: Seq<T>,
    accepts: spec_fn(T) -> bool,
    i: int,
    doc: T,
)
    requires
        0 <= i < docs.len(),
        accepts(doc) == accepts(docs[i]),
    ensures
        first_match(docs.update(i, doc), accepts) == first_match(docs, accepts),
{
    lemma_first_match_same_places(docs.update(i, doc), accepts, docs, accepts);
}

/// Taking out a document that a filter does not accept leaves what the
/// filter finds as it was.
pub proof fn lemma_find_one_remove<T>(docs: Seq<T>, accepts: spec_fn(T) -> bool, at: int)
    requires
        0 <= at < docs.len(),
        !accepts(docs[at]),
    ensures
        find_one(docs.remove(at), accepts) == find_one(docs, accepts),
{
    let rest = docs.remove(at);
    lemma_first_match(docs, accepts);
    match first_match(docs, accepts) {
        Some(i) => {
            let k = if i < at {
                i
            } else {
                i - 1
            };
            assert(rest[k] == docs[i]);
            assert forall|j: int| 0 <= j < k implies !accepts(#[trigger] rest[j]) by {
                if j < at {
                    assert(rest[j] == docs[j]);
                } else {
                    assert(rest[j] == docs[j + 1]);
                }
            }
            lemma_first_match_is(rest, accepts, k);
        },
        None => {
            assert forall|j: int| 0 <= j < rest.len() implies !accepts(#[trigger] rest[j]) by {
                if j < at {
                    assert(rest[j] == docs[j]);
                } else {
                    assert(rest[j] == docs[j + 1]);
                }
            }
            lemma_first_match_none(rest, accepts);
        },
    }
}

/// Replacing a document that a filter does not accept by one that it does
/// not accept either leaves what the filter finds as it was.
pub proof fn lemma_find_one_update<T>(
    docs: Seq<T>,
    accepts: spec_fn(T) -> bool,
    at: int,
    doc: T,
)
    requires
        0 <= at < docs.len(),
        !accepts(docs[at]),
        !accepts(doc),
    ensures
        find_one(docs.update(at, doc), accepts) == find_one(docs, accepts),
{
    lemma_first_match_update(docs, accepts, at, doc);
    lemma_first_match(docs, accepts);
}

/// Why a call on the document store did not do its work.
#[derive(Clone, Copy, Debug, PartialEq, Eq, Structural)]
pub enum RepositoryError {
    /// The collection holds a document of that identity already.
    DuplicateKey,
    /// The document to put in has no identity.
    MissingKey,
    /// The document store could not be reached or broke off.
    Unavailable,
}

/// The three collections of the document store, each in the order in which
/// its documents were put in.
#[derive(Debug)]
pub struct MongoRepository {
    pub user_collection: Vec<User>,
    pub store_collection: Vec<Store>,
    pub category_collection: Vec<Category>,
}

/// What the contracts see of the document store: the documents of its three
/// collections, in their order.
pub struct RepositoryView {
    pub users: Seq<UserView>,
    pub stores: Seq<StoreView>,
    pub categories: Seq<CategoryView>,
}

impl View for MongoRepository {
    type V = RepositoryView;

    open spec fn view(&self) -> RepositoryView {
        RepositoryView {
            users: self.user_collection.deep_view(),
            stores: self.store_collection.deep_view(),
            categories: self.category_collection.deep_view(),
        }
    }
}

impl Clone for MongoRepository {
    fn clone(&self) -> (r: Self)
        ensures
            r@ == self@,
    {
        let user_collection = self.user_collection.clone();
        let store_collection = self.store_collection.clone();
        let category_collection = self.category_collection.clone();
        assert(user_collection.deep_view() =~= self.user_collection.deep_view());
        assert(store_collection.deep_view() =~= self.store_collection.deep_view());
        assert(category_collection.deep_view() =~= self.category_collection.deep_view());
        MongoRepository { user_collection, store_collection, category_collection }
    }
}

impl MongoRepository {
    /// A document store that holds nothing yet.
    pub fn init() -> (r: MongoRepository)
        ensures
            r@.users.len() == 0,
            r@.stores.len() == 0,
            r@.categories.len() == 0,
            r@.consistent(),
    {
        MongoRepository {
            user_collection: Vec::new(),
            store_collection: Vec::new(),
            category_collection: Vec::new(),
        }
    }
}

} // verus!
