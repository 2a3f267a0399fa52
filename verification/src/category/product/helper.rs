use crate::category::model::{Category, CategoryView};
use crate::category::product::model::Product;
use crate::category::product::repository::{product_named, product_position};
use crate::common::object_id::ObjectId;
use crate::common::response::{outcome, Failure, FailureView};
use crate::database::{first_match, MongoRepository};
use vstd::prelude::*;

verus! {

/// What the lookup of a category is worth: the category, or the failure
/// that names the one that was looked for.
pub open spec fn required_category(found: Option<CategoryView>, name: Seq<char>) -> Result<
    CategoryView,
    FailureView,
> {
    match found {
        Some(category) => Ok(category),
        None => Err(FailureView::CategoryNotFound(name)),
    }
}

/// Takes what the lookup of a category found.
pub fn require_category(found: Option<Category>, category_name: &str) -> (r: Result<
    Category,
    Failure,
>)
    ensures
        outcome(r) == required_category(found.deep_view(), category_name@),
{
    match found {
        Some(category) => Ok(category),
        None => Err(Failure::CategoryNotFound(category_name.to_owned())),
    }
}

/// The category of that name under a tenant.
pub fn get_category_from_store(
    store_id: &Option<ObjectId>,
    category_name: &str,
    mongo_repo: &MongoRepository,
) -> (r: Result<Category, Failure>)
    requires
        store_id is Some,
    ensures
        outcome(r) == required_category(
            mongo_repo@.find_category_by_name(store_id->0, category_name@),
            category_name@,
        ),
{
    let found = mongo_repo.find_category_by_name(store_id.unwrap(), category_name);
    require_category(found, category_name)
}

/// The first product of that name in a category, to read or to change:
/// what is written through the reference takes the product's place in the
/// category, and nothing else of the category changes.
pub fn find_product_in_category<'a>(category: &'a mut Category, product_name: &str) -> (r: Result<
    &'a mut Product,
    Failure,
>)
    ensures
        match first_match(old(category)@.products, product_named(product_name@)) {
            Some(i) => r matches Ok(product) && *product == old(category).products@[i]
                && final(category).products@ == old(category).products@.update(i, *final(product))
                && final(category).object_id == old(category).object_id
                && final(category).store_id == old(category).store_id
                && final(category).name == old(category).name
                && final(category).description == old(category).description,
            None => r matches Err(f) && f@ == FailureView::ProductNotFound(product_name@)
                && *final(category) == *old(category),
        },
{
    match product_position(&category.products, product_name) {
        Some(i) => Ok(&mut category.products[i]),
        None => Err(Failure::ProductNotFound(product_name.to_owned())),
    }
}

} // verus!
