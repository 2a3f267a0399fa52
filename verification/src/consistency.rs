use crate::category::model::CategoryView;
use crate::category::product::model::ProductView;
use crate::category::product::repository::{
    category_holding_name, product_named, product_pulled, product_pushed, restocked, stock_set,
    without_id,
};
use crate::category::repository::{category_of, category_with_id};
use crate::common::object_id::ObjectId;
use crate::database::{first_match, lemma_first_match, RepositoryView};
use crate::store::model::StoreView;
use crate::store::repository::{store_named, store_with_id};
use crate::user::model::UserView;
use crate::user::repository::{user_with_email, user_with_id, user_with_login};
use vstd::prelude::*;

verus! {

/// Whether no two documents have the same key, where a document may have
/// none.
pub open spec fn distinct_by<T, K>(docs: Seq<T>, key: spec_fn(T) -> Option<K>) -> bool {
    forall|i: int, j: int|
        0 <= i < j < docs.len() ==> !(#[trigger] key(docs[i]) is Some && key(docs[i])
            == #[trigger] key(docs[j]))
}

/// Whether every document has a key.
pub open spec fn all_keyed<T, K>(docs: Seq<T>, key: spec_fn(T) -> Option<K>) -> bool {
    forall|i: int| 0 <= i < docs.len() ==> #[trigger] key(docs[i]) is Some
}

/// A document whose key none of the others has may be put behind them.
pub proof fn lemma_distinct_push<T, K>(docs: Seq<T>, key: spec_fn(T) -> Option<K>, doc: T)
    requires
        distinct_by(docs, key),
        forall|i: int| 0 <= i < docs.len() ==> #[trigger] key(docs[i]) != key(doc) || key(doc)
            is None,
    ensures
        distinct_by(docs.push(doc), key),
{
    let after = docs.push(doc);
    assert forall|i: int, j: int| 0 <= i < j < after.len() implies !(#[trigger] key(after[i])
        is Some && key(after[i]) == #[trigger] key(after[j])) by {
        if j < docs.len() {
            assert(after[i] == docs[i] && after[j] == docs[j]);
        } else {
            assert(after[i] == docs[i] && after[j] == doc);
        }
    }
}

/// Taking a document out leaves the keys of the others distinct.
pub proof fn lemma_distinct_remove<T, K>(docs: Seq<T>, key: spec_fn(T) -> Option<K>, at: int)
    requires
        distinct_by(docs, key),
        0 <= at < docs.len(),
    ensures
        distinct_by(docs.remove(at), key),
{
    let after = docs.remove(at);
    assert forall|i: int, j: int| 0 <= i < j < after.len() implies !(#[trigger] key(after[i])
        is Some && key(after[i]) == #[trigger] key(after[j])) by {
        let a = if i < at {
            i
        } else {
            i + 1
        };
        let b = if j < at {
            j
        } else {
            j + 1
        };
        assert(after[i] == docs[a] && after[j] == docs[b]);
    }
}

/// Replacing a document by one of the same key leaves the keys distinct.
pub proof fn lemma_distinct_update<T, K>(
    docs: Seq<T>,
    key: spec_fn(T) -> Option<K>,
    at: int,
    doc: T,
)
    requires
        distinct_by(docs, key),
        0 <= at < docs.len(),
        key(doc) == key(docs[at]),
    ensures
        distinct_by(docs.update(at, doc), key),
{
    let after = docs.update(at, doc);
    assert forall|i: int, j: int| 0 <= i < j < after.len() implies !(#[trigger] key(after[i])
        is Some && key(after[i]) == #[trigger] key(after[j])) by {
        assert(key(after[i]) == key(docs[i]));
        assert(key(after[j]) == key(docs[j]));
    }
}

/// The name by which a tenant is selected.
pub open spec fn store_name_key() -> spec_fn(StoreView) -> Option<Seq<char>> {
    |s: StoreView| Some(s.name)
}

/// The identity of a tenant.
pub open spec fn store_id_key() -> spec_fn(StoreView) -> Option<ObjectId> {
    |s: StoreView| s.object_id
}

/// The identity of a principal.
pub open spec fn user_id_key() -> spec_fn(UserView) -> Option<ObjectId> {
    |u: UserView| u.object_id
}

/// The email of a principal, together with its tenant.
pub open spec fn user_email_key() -> spec_fn(UserView) -> Option<(ObjectId, Seq<char>)> {
    |u: UserView|
        match u.store_id {
            Some(store_id) => Some((store_id, u.email)),
            None => None,
        }
}

/// The login of a principal, together with its tenant.
pub open spec fn user_login_key() -> spec_fn(UserView) -> Option<(ObjectId, Seq<char>)> {
    |u: UserView|
        match u.store_id {
            Some(store_id) => Some((store_id, u.user_id)),
            None => None,
        }
}

/// The identity of a category.
pub open spec fn category_id_key() -> spec_fn(CategoryView) -> Option<ObjectId> {
    |c: CategoryView| c.object_id
}

/// The name of a category, together with its tenant.
pub open spec fn category_name_key() -> spec_fn(CategoryView) -> Option<(ObjectId, Seq<char>)> {
    |c: CategoryView|
        match c.store_id {
            Some(store_id) => Some((store_id, c.name)),
            None => None,
        }
}

/// The name of a product.
pub open spec fn product_name_key() -> spec_fn(ProductView) -> Option<Seq<char>> {
    |p: ProductView| Some(p.name)
}

/// Whether the products of a category have names of their own.
pub open spec fn product_names_distinct(category: CategoryView) -> bool {
    distinct_by(category.products, product_name_key())
}

impl RepositoryView {
    /// What the platform keeps true of the document store: every tenant,
    /// principal and category has an identity that no other document of
    /// its collection has; no two tenants have one name; within a tenant no
    /// two principals have one email or one login and no two categories
    /// have one name; and within a category no two products have one name.
    pub open spec fn consistent(self) -> bool {
        &&& all_keyed(self.stores, store_id_key())
        &&& distinct_by(self.stores, store_id_key())
        &&& distinct_by(self.stores, store_name_key())
        &&& all_keyed(self.users, user_id_key())
        &&& distinct_by(self.users, user_id_key())
        &&& distinct_by(self.users, user_email_key())
        &&& distinct_by(self.users, user_login_key())
        &&& all_keyed(self.categories, category_id_key())
        &&& distinct_by(self.categories, category_id_key())
        &&& distinct_by(self.categories, category_name_key())
        &&& forall|i: int|
            0 <= i < self.categories.len() ==> product_names_distinct(#[trigger] self.categories[i])
    }
}

/// In a consistent document store a lookup within a tenant is not a matter
/// of order: a tenant has at most one category of a name, and a category
/// at most one product of a name, so that the first that matches is the
/// only one.
pub proof fn lemma_names_single_out(
    repo: RepositoryView,
    store_id: ObjectId,
    name: Seq<char>,
    product_name: Seq<char>,
    i: int,
    j: int,
)
    requires
        repo.consistent(),
    ensures
        0 <= i < repo.categories.len() && 0 <= j < repo.categories.len() && category_of(
            store_id,
            name,
        )(repo.categories[i]) && category_of(store_id, name)(repo.categories[j]) ==> i == j,
        repo.find_category_by_name(store_id, name) matches Some(category) ==> forall|
            a: int,
            b: int,
        |
            0 <= a < category.products.len() && 0 <= b < category.products.len()
                && #[trigger] category.products[a].name == product_name
                && #[trigger] category.products[b].name == product_name ==> a == b,
{
    if 0 <= i < repo.categories.len() && 0 <= j < repo.categories.len() && category_of(
        store_id,
        name,
    )(repo.categories[i]) && category_of(store_id, name)(repo.categories[j]) {
        let key = category_name_key();
        assert(key(repo.categories[i]) == Some((store_id, name)));
        assert(key(repo.categories[j]) == Some((store_id, name)));
    }
    lemma_first_match(repo.categories, category_of(store_id, name));
    if let Some(category) = repo.find_category_by_name(store_id, name) {
        assert(product_names_distinct(category));
        assert forall|a: int, b: int|
            0 <= a < category.products.len() && 0 <= b < category.products.len()
                && #[trigger] category.products[a].name == product_name
                && #[trigger] category.products[b].name == product_name implies a == b by {
            let key = product_name_key();
            assert(key(category.products[a]) == Some(product_name));
            assert(key(category.products[b]) == Some(product_name));
        }
    }
}

/// A tenant of a name and an identity that are both free may be put in.
pub proof fn lemma_store_creation_consistent(repo: RepositoryView, store: StoreView, id: ObjectId)
    requires
        repo.consistent(),
        repo.find_store_by_name(store.name) is None,
        !repo.has_store_id(id),
    ensures
        repo.with_store(store, id).consistent(),
{
    let stored = StoreView { object_id: Some(id), ..store };
    lemma_first_match(repo.stores, store_named(store.name));
    lemma_first_match(repo.stores, store_with_id(id));
    assert forall|i: int| 0 <= i < repo.stores.len() implies #[trigger] store_id_key()(
        repo.stores[i],
    ) != store_id_key()(stored) by {
        assert(!store_with_id(id)(repo.stores[i]));
    }
    assert forall|i: int| 0 <= i < repo.stores.len() implies #[trigger] store_name_key()(
        repo.stores[i],
    ) != store_name_key()(stored) by {
        assert(!store_named(store.name)(repo.stores[i]));
    }
    lemma_distinct_push(repo.stores, store_id_key(), stored);
    lemma_distinct_push(repo.stores, store_name_key(), stored);
    let after = repo.with_store(store, id);
    assert forall|i: int| 0 <= i < after.stores.len() implies #[trigger] store_id_key()(
        after.stores[i],
    ) is Some by {
        if i < repo.stores.len() {
            assert(store_id_key()(repo.stores[i]) is Some);
        }
    }
}

/// A principal whose email, login and identity are free within its tenant
/// may be put in.
pub proof fn lemma_registration_consistent(
    repo: RepositoryView,
    store_id: ObjectId,
    user: UserView,
    id: ObjectId,
)
    requires
        repo.consistent(),
        user.store_id == Some(store_id),
        repo.find_user_by_email(store_id, user.email) is None,
        repo.find_user_by_user_id(store_id, user.user_id) is None,
        !repo.has_user_id(id),
    ensures
        repo.with_user(user, id).consistent(),
{
    let stored = UserView { object_id: Some(id), ..user };
    lemma_first_match(repo.users, user_with_email(store_id, user.email));
    lemma_first_match(repo.users, user_with_login(store_id, user.user_id));
    lemma_first_match(repo.users, user_with_id(id));
    assert forall|i: int| 0 <= i < repo.users.len() implies #[trigger] user_id_key()(
        repo.users[i],
    ) != user_id_key()(stored) by {
        assert(!user_with_id(id)(repo.users[i]));
    }
    assert forall|i: int| 0 <= i < repo.users.len() implies #[trigger] user_email_key()(
        repo.users[i],
    ) != user_email_key()(stored) by {
        assert(!user_with_email(store_id, user.email)(repo.users[i]));
    }
    assert forall|i: int| 0 <= i < repo.users.len() implies #[trigger] user_login_key()(
        repo.users[i],
    ) != user_login_key()(stored) by {
        assert(!user_with_login(store_id, user.user_id)(repo.users[i]));
    }
    lemma_distinct_push(repo.users, user_id_key(), stored);
    lemma_distinct_push(repo.users, user_email_key(), stored);
    lemma_distinct_push(repo.users, user_login_key(), stored);
    let after = repo.with_user(user, id);
    assert forall|i: int| 0 <= i < after.users.len() implies #[trigger] user_id_key()(
        after.users[i],
    ) is Some by {
        if i < repo.users.len() {
            assert(user_id_key()(repo.users[i]) is Some);
        }
    }
}

/// A category whose name and identity are free within its tenant, and
/// whose products have names of their own, may be put in.
pub proof fn lemma_category_creation_consistent(
    repo: RepositoryView,
    store_id: ObjectId,
    category: CategoryView,
    id: ObjectId,
)
    requires
        repo.consistent(),
        category.store_id == Some(store_id),
        product_names_distinct(category),
        repo.find_category_by_name(store_id, category.name) is None,
        !repo.has_category_id(id),
    ensures
        repo.with_category(category, id).consistent(),
{
    let stored = CategoryView { object_id: Some(id), ..category };
    lemma_first_match(repo.categories, category_of(store_id, category.name));
    lemma_first_match(repo.categories, category_with_id(id));
    assert forall|i: int| 0 <= i < repo.categories.len() implies #[trigger] category_id_key()(
        repo.categories[i],
    ) != category_id_key()(stored) by {
        assert(!category_with_id(id)(repo.categories[i]));
    }
    assert forall|i: int| 0 <= i < repo.categories.len() implies #[trigger] category_name_key()(
        repo.categories[i],
    ) != category_name_key()(stored) by {
        assert(!category_of(store_id, category.name)(repo.categories[i]));
    }
    lemma_distinct_push(repo.categories, category_id_key(), stored);
    lemma_distinct_push(repo.categories, category_name_key(), stored);
    let after = repo.with_category(category, id);
    assert forall|i: int| 0 <= i < after.categories.len() implies #[trigger] category_id_key()(
        after.categories[i],
    ) is Some && product_names_distinct(after.categories[i]) by {
        if i < repo.categories.len() {
            assert(category_id_key()(repo.categories[i]) is Some);
            assert(product_names_distinct(repo.categories[i]));
        }
    }
}

/// A category may be taken out.
pub proof fn lemma_category_deletion_consistent(
    repo: RepositoryView,
    store_id: ObjectId,
    name: Seq<char>,
)
    requires
        repo.consistent(),
    ensures
        repo.delete_category(store_id, name).consistent(),
{
    lemma_first_match(repo.categories, category_of(store_id, name));
    match first_match(repo.categories, category_of(store_id, name)) {
        Some(at) => {
            let after = repo.delete_category(store_id, name);
            lemma_distinct_remove(repo.categories, category_id_key(), at);
            lemma_distinct_remove(repo.categories, category_name_key(), at);
            assert forall|i: int|
                0 <= i < after.categories.len() implies #[trigger] category_id_key()(
                after.categories[i],
            ) is Some && product_names_distinct(after.categories[i]) by {
                let a = if i < at {
                    i
                } else {
                    i + 1
                };
                assert(after.categories[i] == repo.categories[a]);
                assert(category_id_key()(repo.categories[a]) is Some);
                assert(product_names_distinct(repo.categories[a]));
            }
        },
        None => {},
    }
}

/// A change to the products of one category, which leaves their names
/// distinct, leaves the document store consistent.
pub proof fn lemma_category_change_consistent(
    repo: RepositoryView,
    at: int,
    changed: CategoryView,
)
    requires
        repo.consistent(),
        0 <= at < repo.categories.len(),
        changed == (CategoryView { products: changed.products, ..repo.categories[at] }),
        product_names_distinct(changed),
    ensures
        (RepositoryView { categories: repo.categories.update(at, changed), ..repo }).consistent(),
{
    let after = RepositoryView { categories: repo.categories.update(at, changed), ..repo };
    lemma_distinct_update(repo.categories, category_id_key(), at, changed);
    lemma_distinct_update(repo.categories, category_name_key(), at, changed);
    assert forall|i: int| 0 <= i < after.categories.len() implies #[trigger] category_id_key()(
        after.categories[i],
    ) is Some && product_names_distinct(after.categories[i]) by {
        assert(category_id_key()(repo.categories[i]) is Some);
        assert(product_names_distinct(repo.categories[i]));
    }
}

/// A product whose name is free in its category may be added to it.
pub proof fn lemma_product_creation_consistent(
    repo: RepositoryView,
    store_id: ObjectId,
    category_name: Seq<char>,
    product: ProductView,
    id: ObjectId,
)
    requires
        repo.consistent(),
        repo.product_admission(store_id, category_name, product.name, id) is Ok,
    ensures
        repo.add_product_to_category(store_id, category_name, product).consistent(),
{
    let scope = category_of(store_id, category_name);
    lemma_first_match(repo.categories, scope);
    let at = first_match(repo.categories, scope)->0;
    let category = repo.categories[at];
    assert(product_names_distinct(category));
    lemma_first_match(category.products, product_named(product.name));
    assert forall|i: int| 0 <= i < category.products.len() implies #[trigger] product_name_key()(
        category.products[i],
    ) != product_name_key()(product) by {
        assert(!product_named(product.name)(category.products[i]));
    }
    lemma_distinct_push(category.products, product_name_key(), product);
    lemma_category_change_consistent(repo, at, product_pushed(product)(category));
}

/// Every product that is left after the removal of an identity was there
/// before.
pub proof fn lemma_without_id_keeps_members(products: Seq<ProductView>, id: ObjectId)
    ensures
        forall|i: int|
            0 <= i < without_id(products, id).len() ==> exists|j: int|
                0 <= j < products.len() && products[j] == #[trigger] without_id(products, id)[i],
    decreases products.len(),
{
    if products.len() > 0 {
        let front = products.drop_last();
        lemma_without_id_keeps_members(front, id);
        let kept = without_id(products, id);
        assert forall|i: int| 0 <= i < kept.len() implies exists|j: int|
            0 <= j < products.len() && products[j] == #[trigger] kept[i] by {
            if i < without_id(front, id).len() {
                let j = choose|j: int|
                    0 <= j < front.len() && front[j] == without_id(front, id)[i];
                assert(products[j] == kept[i]);
            } else {
                assert(products[products.len() - 1] == kept[i]);
            }
        }
    }
}

/// The removal of an identity leaves the names of the products distinct.
pub proof fn lemma_without_id_distinct(products: Seq<ProductView>, id: ObjectId)
    requires
        distinct_by(products, product_name_key()),
    ensures
        distinct_by(without_id(products, id), product_name_key()),
    decreases products.len(),
{
    if products.len() > 0 {
        let front = products.drop_last();
        let last = products.last();
        assert forall|i: int, j: int| 0 <= i < j < front.len() implies !(
        #[trigger] product_name_key()(front[i]) is Some && product_name_key()(front[i])
            == #[trigger] product_name_key()(front[j])) by {
            assert(front[i] == products[i] && front[j] == products[j]);
        }
        lemma_without_id_distinct(front, id);
        if last.object_id != Some(id) {
            let rest = without_id(front, id);
            lemma_without_id_keeps_members(front, id);
            assert forall|i: int| 0 <= i < rest.len() implies #[trigger] product_name_key()(
                rest[i],
            ) != product_name_key()(last) by {
                let j = choose|j: int| 0 <= j < front.len() && front[j] == rest[i];
                assert(products[j] == rest[i]);
                assert(product_name_key()(products[j]) is Some);
                assert(products[products.len() - 1] == last);
            }
            lemma_distinct_push(rest, product_name_key(), last);
        }
    }
}

/// The products of an identity may be removed from a category.
pub proof fn lemma_product_deletion_consistent(
    repo: RepositoryView,
    store_id: ObjectId,
    category_name: Seq<char>,
    id: ObjectId,
)
    requires
        repo.consistent(),
    ensures
        repo.remove_product_from_category(store_id, category_name, id).consistent(),
{
    let scope = category_of(store_id, category_name);
    lemma_first_match(repo.categories, scope);
    match first_match(repo.categories, scope) {
        Some(at) => {
            let category = repo.categories[at];
            assert(product_names_distinct(category));
            lemma_without_id_distinct(category.products, id);
            lemma_category_change_consistent(repo, at, product_pulled(id)(category));
        },
        None => {},
    }
}

/// The stock of a product may be replaced.
pub proof fn lemma_stock_update_consistent(
    repo: RepositoryView,
    store_id: ObjectId,
    category_name: Seq<char>,
    product_name: Seq<char>,
    stock: Seq<Seq<char>>,
)
    requires
        repo.consistent(),
    ensures
        repo.update_product_stock(store_id, category_name, product_name, stock).consistent(),
{
    let filter = category_holding_name(store_id, category_name, product_name);
    lemma_first_match(repo.categories, filter);
    match first_match(repo.categories, filter) {
        Some(at) => {
            let category = repo.categories[at];
            assert(product_names_distinct(category));
            let named = product_named(product_name);
            lemma_first_match(category.products, named);
            let k = first_match(category.products, named)->0;
            lemma_distinct_update(
                category.products,
                product_name_key(),
                k,
                restocked(stock)(category.products[k]),
            );
            lemma_category_change_consistent(
                repo,
                at,
                stock_set(product_name, stock)(category),
            );
        },
        None => {},
    }
}

} // verus!
