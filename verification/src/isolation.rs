use crate::category::model::CategoryView;
use crate::category::product::model::ProductView;
use crate::category::product::repository::{
    category_holding_id, category_holding_name, product_pulled, product_pushed, stock_set,
};
use crate::category::repository::category_of;
use crate::common::object_id::ObjectId;
use crate::database::{
    first_match, lemma_find_one_remove, lemma_find_one_update, lemma_first_match,
    lemma_first_match_push, lemma_first_match_same_places, RepositoryView,
};
use crate::user::model::UserView;
use crate::user::repository::{user_of, user_with_email, user_with_login};
use vstd::prelude::*;

verus! {

/// Whatever a lookup within a tenant returns belongs to that tenant: a
/// category or a principal that it finds names the tenant as its owner, and
/// a product that it finds lies in a category of the tenant.
pub proof fn lemma_lookups_stay_within_tenant(
    repo: RepositoryView,
    store_id: ObjectId,
    name: Seq<char>,
    id: ObjectId,
)
    ensures
        repo.find_category_by_name(store_id, name) matches Some(category) ==> category.store_id
            == Some(store_id),
        repo.find_user_by_id(store_id, id) matches Some(user) ==> user.store_id == Some(store_id),
        repo.find_user_by_email(store_id, name) matches Some(user) ==> user.store_id == Some(
            store_id,
        ),
        repo.find_user_by_user_id(store_id, name) matches Some(user) ==> user.store_id == Some(
            store_id,
        ),
        repo.find_product_in_category(store_id, name, id) matches Some(product) ==> exists|
            i: int,
        |
            0 <= i < repo.categories.len() && (#[trigger] repo.categories[i]).store_id == Some(
                store_id,
            ) && repo.categories[i].find_product_by_id(id) == Some(product),
{
    lemma_first_match(repo.categories, category_of(store_id, name));
    lemma_first_match(repo.users, user_of(store_id, id));
    lemma_first_match(repo.users, user_with_email(store_id, name));
    lemma_first_match(repo.users, user_with_login(store_id, name));
    lemma_first_match(repo.categories, category_holding_id(store_id, name, id));
}

/// A principal of one tenant is not found by any lookup within another:
/// neither by its identity, which a token may name, nor by its email, nor
/// by its login.
pub proof fn lemma_foreign_principal_not_found(
    repo: RepositoryView,
    owner: ObjectId,
    viewer: ObjectId,
    user: UserView,
    id: ObjectId,
)
    requires
        owner != viewer,
        user.store_id == Some(owner),
    ensures
        repo.find_user_by_id(viewer, id) != Some(user),
        repo.find_user_by_email(viewer, user.email) != Some(user),
        repo.find_user_by_user_id(viewer, user.user_id) != Some(user),
{
    lemma_lookups_stay_within_tenant(repo, viewer, user.email, id);
    lemma_lookups_stay_within_tenant(repo, viewer, user.user_id, id);
}

/// A principal put in under one tenant changes no lookup within another.
pub proof fn lemma_new_principal_unseen_elsewhere(
    repo: RepositoryView,
    owner: ObjectId,
    viewer: ObjectId,
    user: UserView,
    id: ObjectId,
    wanted: ObjectId,
    text: Seq<char>,
)
    requires
        owner != viewer,
        user.store_id == Some(owner),
    ensures
        ({
            let after = repo.with_user(user, id);
            &&& after.find_user_by_id(viewer, wanted) == repo.find_user_by_id(viewer, wanted)
            &&& after.find_user_by_email(viewer, text) == repo.find_user_by_email(viewer, text)
            &&& after.find_user_by_user_id(viewer, text) == repo.find_user_by_user_id(
                viewer,
                text,
            )
        }),
{
    let stored = UserView { object_id: Some(id), ..user };
    lemma_first_match_push(repo.users, user_of(viewer, wanted), stored);
    lemma_first_match_push(repo.users, user_with_email(viewer, text), stored);
    lemma_first_match_push(repo.users, user_with_login(viewer, text), stored);
    lemma_first_match(repo.users, user_of(viewer, wanted));
    lemma_first_match(repo.users, user_with_email(viewer, text));
    lemma_first_match(repo.users, user_with_login(viewer, text));
}

/// A category put in under one tenant changes no lookup within another.
pub proof fn lemma_new_category_unseen_elsewhere(
    repo: RepositoryView,
    owner: ObjectId,
    viewer: ObjectId,
    category: CategoryView,
    id: ObjectId,
    name: Seq<char>,
    product_id: ObjectId,
)
    requires
        owner != viewer,
        category.store_id == Some(owner),
    ensures
        ({
            let after = repo.with_category(category, id);
            &&& after.find_category_by_name(viewer, name) == repo.find_category_by_name(
                viewer,
                name,
            )
            &&& after.find_product_in_category(viewer, name, product_id)
                == repo.find_product_in_category(viewer, name, product_id)
        }),
{
    let stored = CategoryView { object_id: Some(id), ..category };
    lemma_first_match_push(repo.categories, category_of(viewer, name), stored);
    lemma_first_match_push(
        repo.categories,
        category_holding_id(viewer, name, product_id),
        stored,
    );
    lemma_first_match(repo.categories, category_of(viewer, name));
    lemma_first_match(repo.categories, category_holding_id(viewer, name, product_id));
}

/// A product added to a category of one tenant changes no lookup within
/// another, whatever the names of the categories.
pub proof fn lemma_new_product_unseen_elsewhere(
    repo: RepositoryView,
    owner: ObjectId,
    viewer: ObjectId,
    category_name: Seq<char>,
    product: ProductView,
    name: Seq<char>,
    product_id: ObjectId,
)
    requires
        owner != viewer,
    ensures
        ({
            let after = repo.add_product_to_category(owner, category_name, product);
            &&& after.find_category_by_name(viewer, name) == repo.find_category_by_name(
                viewer,
                name,
            )
            &&& after.find_product_in_category(viewer, name, product_id)
                == repo.find_product_in_category(viewer, name, product_id)
        }),
{
    let after = repo.add_product_to_category(owner, category_name, product);
    let scope = category_of(owner, category_name);
    lemma_first_match(repo.categories, scope);
    match first_match(repo.categories, scope) {
        Some(i) => {
            let by_name = category_of(viewer, name);
            let by_id = category_holding_id(viewer, name, product_id);
            assert(after.categories == repo.categories.update(
                i,
                product_pushed(product)(repo.categories[i]),
            ));
            assert(after.categories[i].store_id == Some(owner));
            lemma_first_match_same_places(after.categories, by_name, repo.categories, by_name);
            lemma_first_match_same_places(after.categories, by_id, repo.categories, by_id);
            lemma_first_match(repo.categories, by_name);
            lemma_first_match(repo.categories, by_id);
        },
        None => {},
    }
}

/// What is deleted, removed or replaced within one tenant changes no
/// lookup within another: the other tenant finds the categories and the
/// products that it found before.
pub proof fn lemma_changes_unseen_elsewhere(
    repo: RepositoryView,
    owner: ObjectId,
    viewer: ObjectId,
    category_name: Seq<char>,
    product_name: Seq<char>,
    removed: ObjectId,
    stock: Seq<Seq<char>>,
    name: Seq<char>,
    product_id: ObjectId,
)
    requires
        owner != viewer,
    ensures
        ({
            let after = repo.delete_category(owner, category_name);
            &&& after.find_category_by_name(viewer, name) == repo.find_category_by_name(
                viewer,
                name,
            )
            &&& after.find_product_in_category(viewer, name, product_id)
                == repo.find_product_in_category(viewer, name, product_id)
        }),
        ({
            let after = repo.remove_product_from_category(owner, category_name, removed);
            &&& after.find_category_by_name(viewer, name) == repo.find_category_by_name(
                viewer,
                name,
            )
            &&& after.find_product_in_category(viewer, name, product_id)
                == repo.find_product_in_category(viewer, name, product_id)
        }),
        ({
            let after = repo.update_product_stock(owner, category_name, product_name, stock);
            &&& after.find_category_by_name(viewer, name) == repo.find_category_by_name(
                viewer,
                name,
            )
            &&& after.find_product_in_category(viewer, name, product_id)
                == repo.find_product_in_category(viewer, name, product_id)
        }),
{
    let by_name = category_of(viewer, name);
    let by_id = category_holding_id(viewer, name, product_id);
    let scope = category_of(owner, category_name);
    lemma_first_match(repo.categories, scope);
    match first_match(repo.categories, scope) {
        Some(at) => {
            lemma_find_one_remove(repo.categories, by_name, at);
            lemma_find_one_remove(repo.categories, by_id, at);
            let pulled = product_pulled(removed)(repo.categories[at]);
            lemma_find_one_update(repo.categories, by_name, at, pulled);
            lemma_find_one_update(repo.categories, by_id, at, pulled);
        },
        None => {},
    }
    let holding = category_holding_name(owner, category_name, product_name);
    lemma_first_match(repo.categories, holding);
    match first_match(repo.categories, holding) {
        Some(at) => {
            let restocked = stock_set(product_name, stock)(repo.categories[at]);
            lemma_find_one_update(repo.categories, by_name, at, restocked);
            lemma_find_one_update(repo.categories, by_id, at, restocked);
        },
        None => {},
    }
}

} // verus!
