use crate::category::model::{Category, CategoryView};
use crate::category::product::helper::{
    find_product_in_category, require_category, required_category,
};
use crate::category::product::model::{CreateProductRequest, Product, ProductResponse, ProductView};
use crate::category::product::repository::{
    lemma_add_then_remove, product_named, product_position, product_position_by_id, product_with_id,
};
use crate::category::repository::category_of;
use crate::common::object_id::ObjectId;
use crate::common::response::{
    framed, outcome, ErrorResponse, Failure, FailureView, Reply, StatusCode,
};
use crate::common::types::{RequestHeaders, Status};
use crate::config::Config;
use crate::consistency::{lemma_product_creation_consistent, lemma_product_deletion_consistent};
use crate::database::{
    first_match, lemma_first_match, lemma_first_match_push, lemma_first_match_update,
    MongoRepository, RepositoryError, RepositoryView,
};
use crate::exchange::{ends_with, turned_down, Answer, Query, Step};
use crate::store::helper::{ask_for_store, resolved, tenant_answered, tenant_selector};
use crate::user::helper::{RankProgress, RankValidation};
use crate::user::model::Rank;
use vstd::prelude::*;

verus! {

/// The product that a request asks to have created, under the identity
/// `id`.
pub open spec fn new_product(
    name: Seq<char>,
    description: Seq<char>,
    price: u64,
    id: ObjectId,
) -> ProductView {
    ProductView {
        object_id: Some(id),
        name,
        description,
        price,
        discount_rate: None,
        stock: Seq::empty(),
    }
}

/// Whether a name is still free for a new product of a category.
pub open spec fn product_name_free(category: CategoryView, name: Seq<char>) -> Result<
    (),
    FailureView,
> {
    if category.find_product(name) is Some {
        Err(FailureView::DuplicateProductName(name))
    } else {
        Ok(())
    }
}

/// Whether an identity is still free for a new product of a category: the
/// removal of a product goes by its identity, so no two products of a
/// category may have one.
pub open spec fn product_identity_free(category: CategoryView, id: ObjectId) -> Result<
    (),
    FailureView,
> {
    if category.find_product_by_id(id) is Some {
        Err(FailureView::ProductCreationFailed)
    } else {
        Ok(())
    }
}

/// What the addition of a product is worth, given what the document store
/// said of the update: whether it found the category.
pub open spec fn product_addition(
    result: Result<bool, RepositoryError>,
    category_name: Seq<char>,
) -> Result<(), FailureView> {
    match result {
        Ok(matched) => if matched {
            Ok(())
        } else {
            Err(FailureView::CategoryNotFound(category_name))
        },
        Err(_) => Err(FailureView::ProductCreationFailed),
    }
}

/// What the removal of a product is worth, given what the document store
/// said of the update: whether it took a product out.
pub open spec fn product_removal(
    result: Result<bool, RepositoryError>,
    product_name: Seq<char>,
) -> Result<(), FailureView> {
    match result {
        Ok(matched) => if matched {
            Ok(())
        } else {
            Err(FailureView::ProductNotFound(product_name))
        },
        Err(_) => Err(FailureView::ProductDeletionFailed),
    }
}

/// The identity under which a product of a category is removed.
pub open spec fn product_reference(category: CategoryView, name: Seq<char>) -> Result<
    ObjectId,
    FailureView,
> {
    match category.find_product(name) {
        Some(product) => match product.object_id {
            Some(id) => Ok(id),
            None => Err(FailureView::InvalidProductReference),
        },
        None => Err(FailureView::ProductNotFound(name)),
    }
}

/// The message that reports the removal of a product.
pub open spec fn product_deleted_message(name: Seq<char>) -> Seq<char> {
    "제품 '"@ + name + "' 삭제 성공."@
}

impl RepositoryView {
    /// Whether a tenant's category can take a new product of that name
    /// under that identity: the category must exist and hold no product of
    /// that name and none of that identity.
    pub open spec fn product_admission(
        self,
        store_id: ObjectId,
        category_name: Seq<char>,
        product_name: Seq<char>,
        product_id: ObjectId,
    ) -> Result<(), FailureView> {
        match required_category(
            self.find_category_by_name(store_id, category_name),
            category_name,
        ) {
            Ok(category) => match product_name_free(category, product_name) {
                Ok(_) => product_identity_free(category, product_id),
                Err(failure) => Err(failure),
            },
            Err(failure) => Err(failure),
        }
    }

    /// The identity of the product that a removal is aimed at: the category
    /// must exist, hold a product of that name, and the product must have an
    /// identity.
    pub open spec fn product_target(
        self,
        store_id: ObjectId,
        category_name: Seq<char>,
        product_name: Seq<char>,
    ) -> Result<ObjectId, FailureView> {
        match required_category(
            self.find_category_by_name(store_id, category_name),
            category_name,
        ) {
            Ok(category) => product_reference(category, product_name),
            Err(failure) => Err(failure),
        }
    }
}

/// A product that was added under a free name is the one that a removal by
/// that name is aimed at: the removal goes by the identity under which the
/// product was added.
pub proof fn lemma_added_product_is_target(
    repo: RepositoryView,
    store_id: ObjectId,
    category_name: Seq<char>,
    product: ProductView,
    id: ObjectId,
)
    requires
        repo.product_admission(store_id, category_name, product.name, id) is Ok,
        product.object_id == Some(id),
    ensures
        repo.add_product_to_category(store_id, category_name, product).product_target(
            store_id,
            category_name,
            product.name,
        ) == Ok::<ObjectId, FailureView>(id),
{
    let scope = category_of(store_id, category_name);
    let named = product_named(product.name);
    lemma_first_match(repo.categories, scope);
    let at = first_match(repo.categories, scope)->0;
    let category = repo.categories[at];
    lemma_first_match_update(repo.categories, scope, at, category.with_product(product));
    lemma_first_match_push(category.products, named, product);
}

/// Adding a product that was admitted and then removing it by its identity
/// leaves the document store as it was: the products of the category are as
/// many as before, the same, in the same order.
pub proof fn lemma_admitted_product_removed(
    repo: RepositoryView,
    store_id: ObjectId,
    category_name: Seq<char>,
    product: ProductView,
    id: ObjectId,
)
    requires
        repo.product_admission(store_id, category_name, product.name, id) is Ok,
        product.object_id == Some(id),
    ensures
        repo.add_product_to_category(
            store_id,
            category_name,
            product,
        ).remove_product_from_category(store_id, category_name, id) == repo,
{
    lemma_add_then_remove(repo, store_id, category_name, product, id);
}

/// Turns a new product down where the category holds one of its name.
pub fn ensure_product_name_free(category: &Category, name: &str) -> (r: Result<(), Failure>)
    ensures
        outcome(r) == product_name_free(category@, name@),
{
    match product_position(&category.products, name) {
        Some(_) => Err(Failure::DuplicateProductName(name.to_owned())),
        None => Ok(()),
    }
}

/// Turns a new product down where the category holds one of its identity.
pub fn ensure_product_identity_free(category: &Category, id: ObjectId) -> (r: Result<
    (),
    Failure,
>)
    ensures
        outcome(r) == product_identity_free(category@, id),
{
    match product_position_by_id(&category.products, id) {
        Some(_) => Err(Failure::ProductCreationFailed),
        None => Ok(()),
    }
}

/// The identity of a product, which a stored product may lack.
pub fn product_identity(product: &Product) -> (r: Result<ObjectId, Failure>)
    ensures
        match product.object_id {
            Some(id) => r matches Ok(given) && given == id,
            None => r matches Err(f) && f@ == FailureView::InvalidProductReference,
        },
{
    match product.object_id {
        Some(id) => Ok(id),
        None => Err(Failure::InvalidProductReference),
    }
}

/// The reply to the creation of a product, given what the document store
/// said of the update.
pub fn product_added(
    result: Result<bool, RepositoryError>,
    product: Product,
    category_name: &str,
) -> (r: Reply<ProductResponse>)
    ensures
        match product_addition(result, category_name@) {
            Ok(_) => r matches Ok((code, response)) && code == StatusCode::Created
                && response.status == Status::Success && response.product@ == product@,
            Err(failure) => r matches Err(f) && f@ == failure,
        },
{
    match result {
        Ok(true) => Ok(
            (StatusCode::Created, ProductResponse { status: Status::Success, product }),
        ),
        Ok(false) => Err(Failure::CategoryNotFound(category_name.to_owned())),
        Err(_) => Err(Failure::ProductCreationFailed),
    }
}

/// The reply to the removal of a product, given what the document store
/// said of the update.
pub fn product_removed(result: Result<bool, RepositoryError>, product_name: &str) -> (r: Reply<
    ErrorResponse,
>)
    ensures
        match product_removal(result, product_name@) {
            Ok(_) => r matches Ok((code, response)) && code == StatusCode::Succeeded
                && response.status == Status::Success && response.message@
                == product_deleted_message(product_name@),
            Err(failure) => r matches Err(f) && f@ == failure,
        },
{
    match result {
        Ok(false) => Err(Failure::ProductNotFound(product_name.to_owned())),
        Ok(true) => Ok(
            (
                StatusCode::Succeeded,
                ErrorResponse {
                    status: Status::Success,
                    message: framed("제품 '", product_name, "' 삭제 성공."),
                },
            ),
        ),
        Err(_) => Err(Failure::ProductDeletionFailed),
    }
}

/// The product that a request asks for, under the identity `id`.
pub fn product_of(body: &CreateProductRequest, id: ObjectId) -> (r: Product)
    ensures
        r@ == new_product(body.name@, body.description@, body.price, id),
{
    let mut product = Product::new(body.name.clone(), body.description.clone(), body.price);
    product.object_id = Some(id);
    product
}

/// Where the creation of a product stands.
#[derive(Debug)]
pub enum ProductCreation {
    /// The tenant that the request selects is being looked up.
    ResolvingTenant,
    /// The request is being authorized as that of an administrator.
    Authorizing { store_id: ObjectId, validation: RankValidation },
    /// The category is being looked up within the tenant.
    FindingCategory { store_id: ObjectId },
    /// The new product is being added to the category.
    Adding { product: Product },
    /// The reply is made.
    Finished,
}

impl ProductCreation {
    /// How many questions the handling may still ask, at most.
    pub open spec fn steps_left(self) -> nat {
        match self {
            ProductCreation::ResolvingTenant => 5,
            ProductCreation::Authorizing { validation, .. } => 2 + validation.steps_left(),
            ProductCreation::FindingCategory { .. } => 2,
            ProductCreation::Adding { .. } => 1,
            ProductCreation::Finished => 0,
        }
    }

    /// Starts with the question for the tenant of the request.
    pub fn begin(headers: &RequestHeaders) -> (r: (ProductCreation, Step<Reply<ProductResponse>>))
        ensures
            match tenant_selector(headers@) {
                Ok(name) => r.1 matches Step::Ask(Query::FindStoreByName { name: asked })
                    && asked@ == name && r.0 is ResolvingTenant,
                Err(failure) => ends_with(r.1, failure),
            },
    {
        match ask_for_store(headers) {
            Ok(query) => (ProductCreation::ResolvingTenant, Step::Ask(query)),
            Err(failure) => (ProductCreation::Finished, Step::Done(Err(failure))),
        }
    }

    /// Takes the answer to the last question and goes on: from the tenant
    /// through the authorization to the category, from there to the update
    /// of the category, and from there to the reply.
    pub fn advance(
        self,
        answer: Answer,
        headers: &RequestHeaders,
        category_name: &str,
        body: &CreateProductRequest,
        secret: &str,
        now: u64,
        product_id: ObjectId,
    ) -> (r: (ProductCreation, Step<Reply<ProductResponse>>))
        ensures
            r.1 is Ask ==> r.0.steps_left() < self.steps_left(),
            match self {
                ProductCreation::ResolvingTenant => match answer {
                    Answer::Store(found) => match resolved(found.deep_view()) {
                        Ok(store) => match tenant_selector(headers@) {
                            Ok(name) => r.1 matches Step::Ask(
                                Query::FindStoreByName { name: asked },
                            ) && asked@ == name && r.0 == (ProductCreation::Authorizing {
                                store_id: store.object_id->0,
                                validation: RankValidation::ResolvingTenant,
                            }),
                            Err(failure) => ends_with(r.1, failure),
                        },
                        Err(failure) => ends_with(r.1, failure),
                    },
                    _ => ends_with(r.1, FailureView::UnexpectedAnswer),
                },
                ProductCreation::Authorizing { store_id, validation } => match validation.progress(
                    answer,
                    headers@,
                    Rank::Administrator,
                    secret@,
                    now,
                ) {
                    RankProgress::Asks { store_id: tenant, user_id } => r.1 matches Step::Ask(
                        Query::FindUserById { store_id: asked, id },
                    ) && asked == tenant && id == user_id && r.0 == (ProductCreation::Authorizing {
                        store_id,
                        validation: RankValidation::FindingPrincipal { store_id: tenant, user_id },
                    }),
                    RankProgress::Ends(Ok(_)) => r.1 matches Step::Ask(
                        Query::FindCategoryByName { store_id: asked, name },
                    ) && asked == store_id && name@ == category_name@ && r.0 == (
                    ProductCreation::FindingCategory { store_id }),
                    RankProgress::Ends(Err(failure)) => ends_with(r.1, failure),
                },
                ProductCreation::FindingCategory { store_id } => match answer {
                    Answer::Category(found) => match required_category(
                        found.deep_view(),
                        category_name@,
                    ) {
                        Ok(category) => match product_name_free(category, body.name@) {
                            Ok(_) => match product_identity_free(category, product_id) {
                                Ok(_) => r.1 matches Step::Ask(
                                    Query::AddProductToCategory {
                                        store_id: tenant,
                                        category_name: name,
                                        product: asked,
                                    },
                                ) && tenant == store_id && name@ == category_name@ && asked@
                                    == new_product(
                                    body.name@,
                                    body.description@,
                                    body.price,
                                    product_id,
                                ) && (r.0 matches ProductCreation::Adding { product } && product@
                                    == asked@),
                                Err(failure) => ends_with(r.1, failure),
                            },
                            Err(failure) => ends_with(r.1, failure),
                        },
                        Err(failure) => ends_with(r.1, failure),
                    },
                    _ => ends_with(r.1, FailureView::UnexpectedAnswer),
                },
                ProductCreation::Adding { product } => match answer {
                    Answer::Updated(result) => match product_addition(result, category_name@) {
                        Ok(_) => r.1 matches Step::Done(Ok((code, response))) && code
                            == StatusCode::Created && response.status == Status::Success
                            && response.product@ == product@,
                        Err(failure) => ends_with(r.1, failure),
                    },
                    _ => ends_with(r.1, FailureView::UnexpectedAnswer),
                },
                ProductCreation::Finished => ends_with(r.1, FailureView::UnexpectedAnswer),
            },
    {
        match self {
            ProductCreation::ResolvingTenant => {
                let store_id = match tenant_answered(answer) {
                    Ok(id) => id,
                    Err(failure) => return (ProductCreation::Finished, Step::Done(Err(failure))),
                };
                match RankValidation::begin(headers) {
                    (validation, Step::Ask(query)) => (
                        ProductCreation::Authorizing { store_id, validation },
                        Step::Ask(query),
                    ),
                    (_, Step::Done(Err(failure))) => (
                        ProductCreation::Finished,
                        Step::Done(Err(failure)),
                    ),
                    (_, Step::Done(Ok(_))) => (
                        ProductCreation::Finished,
                        Step::Done(Err(Failure::UnexpectedAnswer)),
                    ),
                }
            },
            ProductCreation::Authorizing { store_id, validation } => {
                match validation.advance(answer, headers, Rank::Administrator, secret, now) {
                    (validation, Step::Ask(query)) => (
                        ProductCreation::Authorizing { store_id, validation },
                        Step::Ask(query),
                    ),
                    (_, Step::Done(Ok(_))) => (
                        ProductCreation::FindingCategory { store_id },
                        Step::Ask(
                            Query::FindCategoryByName { store_id, name: category_name.to_owned() },
                        ),
                    ),
                    (_, Step::Done(Err(failure))) => (
                        ProductCreation::Finished,
                        Step::Done(Err(failure)),
                    ),
                }
            },
            ProductCreation::FindingCategory { store_id } => match answer {
                Answer::Category(found) => {
                    let category = match require_category(found, category_name) {
                        Ok(category) => category,
                        Err(failure) => return (
                            ProductCreation::Finished,
                            Step::Done(Err(failure)),
                        ),
                    };
                    match ensure_product_name_free(&category, body.name.as_str()) {
                        Ok(_) => {},
                        Err(failure) => return (
                            ProductCreation::Finished,
                            Step::Done(Err(failure)),
                        ),
                    }
                    match ensure_product_identity_free(&category, product_id) {
                        Ok(_) => {},
                        Err(failure) => return (
                            ProductCreation::Finished,
                            Step::Done(Err(failure)),
                        ),
                    }
                    let product = product_of(body, product_id);
                    (
                        ProductCreation::Adding { product: product.clone() },
                        Step::Ask(
                            Query::AddProductToCategory {
                                store_id,
                                category_name: category_name.to_owned(),
                                product,
                            },
                        ),
                    )
                },
                _ => (ProductCreation::Finished, Step::Done(Err(Failure::UnexpectedAnswer))),
            },
            ProductCreation::Adding { product } => match answer {
                Answer::Updated(result) => (
                    ProductCreation::Finished,
                    Step::Done(product_added(result, product, category_name)),
                ),
                _ => (ProductCreation::Finished, Step::Done(Err(Failure::UnexpectedAnswer))),
            },
            ProductCreation::Finished => (
                ProductCreation::Finished,
                Step::Done(Err(Failure::UnexpectedAnswer)),
            ),
        }
    }
}

/// Where the removal of a product stands.
#[derive(Debug)]
pub enum ProductDeletion {
    /// The tenant that the request selects is being looked up.
    ResolvingTenant,
    /// The request is being authorized as that of an administrator.
    Authorizing { store_id: ObjectId, validation: RankValidation },
    /// The category is being looked up within the tenant.
    FindingCategory { store_id: ObjectId },
    /// The product is being taken out of the category.
    Removing,
    /// The reply is made.
    Finished,
}

impl ProductDeletion {
    /// How many questions the handling may still ask, at most.
    pub open spec fn steps_left(self) -> nat {
        match self {
            ProductDeletion::ResolvingTenant => 5,
            ProductDeletion::Authorizing { validation, .. } => 2 + validation.steps_left(),
            ProductDeletion::FindingCategory { .. } => 2,
            ProductDeletion::Removing => 1,
            ProductDeletion::Finished => 0,
        }
    }

    /// Starts with the question for the tenant of the request.
    pub fn begin(headers: &RequestHeaders) -> (r: (ProductDeletion, Step<Reply<ErrorResponse>>))
        ensures
            match tenant_selector(headers@) {
                Ok(name) => r.1 matches Step::Ask(Query::FindStoreByName { name: asked })
                    && asked@ == name && r.0 is ResolvingTenant,
                Err(failure) => ends_with(r.1, failure),
            },
    {
        match ask_for_store(headers) {
            Ok(query) => (ProductDeletion::ResolvingTenant, Step::Ask(query)),
            Err(failure) => (ProductDeletion::Finished, Step::Done(Err(failure))),
        }
    }

    /// Takes the answer to the last question and goes on: from the tenant
    /// through the authorization to the category, from there to the update
    /// of the category, and from there to the reply.
    pub fn advance(
        self,
        answer: Answer,
        headers: &RequestHeaders,
        category_name: &str,
        product_name: &str,
        secret: &str,
        now: u64,
    ) -> (r: (ProductDeletion, Step<Reply<ErrorResponse>>))
        ensures
            r.1 is Ask ==> r.0.steps_left() < self.steps_left(),
            match self {
                ProductDeletion::ResolvingTenant => match answer {
                    Answer::Store(found) => match resolved(found.deep_view()) {
                        Ok(store) => match tenant_selector(headers@) {
                            Ok(name) => r.1 matches Step::Ask(
                                Query::FindStoreByName { name: asked },
                            ) && asked@ == name && r.0 == (ProductDeletion::Authorizing {
                                store_id: store.object_id->0,
                                validation: RankValidation::ResolvingTenant,
                            }),
                            Err(failure) => ends_with(r.1, failure),
                        },
                        Err(failure) => ends_with(r.1, failure),
                    },
                    _ => ends_with(r.1, FailureView::UnexpectedAnswer),
                },
                ProductDeletion::Authorizing { store_id, validation } => match validation.progress(
                    answer,
                    headers@,
                    Rank::Administrator,
                    secret@,
                    now,
                ) {
                    RankProgress::Asks { store_id: tenant, user_id } => r.1 matches Step::Ask(
                        Query::FindUserById { store_id: asked, id },
                    ) && asked == tenant && id == user_id && r.0 == (ProductDeletion::Authorizing {
                        store_id,
                        validation: RankValidation::FindingPrincipal { store_id: tenant, user_id },
                    }),
                    RankProgress::Ends(Ok(_)) => r.1 matches Step::Ask(
                        Query::FindCategoryByName { store_id: asked, name },
                    ) && asked == store_id && name@ == category_name@ && r.0 == (
                    ProductDeletion::FindingCategory { store_id }),
                    RankProgress::Ends(Err(failure)) => ends_with(r.1, failure),
                },
                ProductDeletion::FindingCategory { store_id } => match answer {
                    Answer::Category(found) => match required_category(
                        found.deep_view(),
                        category_name@,
                    ) {
                        Ok(category) => match product_reference(category, product_name@) {
                            Ok(product_id) => r.1 matches Step::Ask(
                                Query::RemoveProductFromCategory {
                                    store_id: tenant,
                                    category_name: name,
                                    product_id: asked,
                                },
                            ) && tenant == store_id && name@ == category_name@ && asked
                                == product_id && r.0 is Removing,
                            Err(failure) => ends_with(r.1, failure),
                        },
                        Err(failure) => ends_with(r.1, failure),
                    },
                    _ => ends_with(r.1, FailureView::UnexpectedAnswer),
                },
                ProductDeletion::Removing => match answer {
                    Answer::Updated(result) => match product_removal(result, product_name@) {
                        Ok(_) => r.1 matches Step::Done(Ok((code, response))) && code
                            == StatusCode::Succeeded && response.status == Status::Success
                            && response.message@ == product_deleted_message(product_name@),
                        Err(failure) => ends_with(r.1, failure),
                    },
                    _ => ends_with(r.1, FailureView::UnexpectedAnswer),
                },
                ProductDeletion::Finished => ends_with(r.1, FailureView::UnexpectedAnswer),
            },
    {
        match self {
            ProductDeletion::ResolvingTenant => {
                let store_id = match tenant_answered(answer) {
                    Ok(id) => id,
                    Err(failure) => return (ProductDeletion::Finished, Step::Done(Err(failure))),
                };
                match RankValidation::begin(headers) {
                    (validation, Step::Ask(query)) => (
                        ProductDeletion::Authorizing { store_id, validation },
                        Step::Ask(query),
                    ),
                    (_, Step::Done(Err(failure))) => (
                        ProductDeletion::Finished,
                        Step::Done(Err(failure)),
                    ),
                    (_, Step::Done(Ok(_))) => (
                        ProductDeletion::Finished,
                        Step::Done(Err(Failure::UnexpectedAnswer)),
                    ),
                }
            },
            ProductDeletion::Authorizing { store_id, validation } => {
                match validation.advance(answer, headers, Rank::Administrator, secret, now) {
                    (validation, Step::Ask(query)) => (
                        ProductDeletion::Authorizing { store_id, validation },
                        Step::Ask(query),
                    ),
                    (_, Step::Done(Ok(_))) => (
                        ProductDeletion::FindingCategory { store_id },
                        Step::Ask(
                            Query::FindCategoryByName { store_id, name: category_name.to_owned() },
                        ),
                    ),
                    (_, Step::Done(Err(failure))) => (
                        ProductDeletion::Finished,
                        Step::Done(Err(failure)),
                    ),
                }
            },
            ProductDeletion::FindingCategory { store_id } => match answer {
                Answer::Category(found) => {
                    let mut category = match require_category(found, category_name) {
                        Ok(category) => category,
                        Err(failure) => return (
                            ProductDeletion::Finished,
                            Step::Done(Err(failure)),
                        ),
                    };
                    proof {
                        lemma_first_match(category@.products, product_named(product_name@));
                    }
                    let product_id = match find_product_in_category(&mut category, product_name) {
                        Ok(product) => match product_identity(product) {
                            Ok(id) => id,
                            Err(failure) => return (
                                ProductDeletion::Finished,
                                Step::Done(Err(failure)),
                            ),
                        },
                        Err(failure) => return (
                            ProductDeletion::Finished,
                            Step::Done(Err(failure)),
                        ),
                    };
                    (
                        ProductDeletion::Removing,
                        Step::Ask(
                            Query::RemoveProductFromCategory {
                                store_id,
                                category_name: category_name.to_owned(),
                                product_id,
                            },
                        ),
                    )
                },
                _ => (ProductDeletion::Finished, Step::Done(Err(Failure::UnexpectedAnswer))),
            },
            ProductDeletion::Removing => match answer {
                Answer::Updated(result) => (
                    ProductDeletion::Finished,
                    Step::Done(product_removed(result, product_name)),
                ),
                _ => (ProductDeletion::Finished, Step::Done(Err(Failure::UnexpectedAnswer))),
            },
            ProductDeletion::Finished => (
                ProductDeletion::Finished,
                Step::Done(Err(Failure::UnexpectedAnswer)),
            ),
        }
    }
}

/// Adds a product, under the identity `product_id`, to a category of the
/// tenant of the request, for an administrator of that tenant. Fails where
/// the tenant cannot be resolved, the request is not authorized, the tenant
/// has no such category, or the category holds a product of that name or of
/// that identity.
pub fn create_product(
    headers: &RequestHeaders,
    category_name: &str,
    mongo_repo: &mut MongoRepository,
    body: &CreateProductRequest,
    config: &Config,
    now: u64,
    product_id: ObjectId,
) -> (r: Reply<ProductResponse>)
    ensures
        old(mongo_repo)@.consistent() ==> final(mongo_repo)@.consistent(),
        match old(mongo_repo)@.resolve(headers@) {
            Ok(store) => match old(mongo_repo)@.authorize(
                headers@,
                Rank::Administrator,
                config.jwt_secret@,
                now,
            ) {
                Ok(_) => match old(mongo_repo)@.product_admission(
                    store.object_id->0,
                    category_name@,
                    body.name@,
                    product_id,
                ) {
                    Ok(_) => {
                        &&& r matches Ok((code, response))
                        &&& code == StatusCode::Created
                        &&& response.status == Status::Success
                        &&& response.product@ == new_product(
                            body.name@,
                            body.description@,
                            body.price,
                            product_id,
                        )
                        &&& final(mongo_repo)@ == old(mongo_repo)@.add_product_to_category(
                            store.object_id->0,
                            category_name@,
                            response.product@,
                        )
                    },
                    Err(failure) => turned_down(r, failure, old(mongo_repo)@, final(mongo_repo)@),
                },
                Err(failure) => turned_down(r, failure, old(mongo_repo)@, final(mongo_repo)@),
            },
            Err(failure) => turned_down(r, failure, old(mongo_repo)@, final(mongo_repo)@),
        },
{
    let secret = config.jwt_secret.as_str();
    let (state, step) = ProductCreation::begin(headers);
    let answer = match step {
        Step::Ask(query) => mongo_repo.answer(query),
        Step::Done(result) => return result,
    };
    let (state, step) =
        state.advance(answer, headers, category_name, body, secret, now, product_id);
    let answer = match step {
        Step::Ask(query) => mongo_repo.answer(query),
        Step::Done(result) => return result,
    };
    let (state, step) =
        state.advance(answer, headers, category_name, body, secret, now, product_id);
    let answer = match step {
        Step::Ask(query) => mongo_repo.answer(query),
        Step::Done(result) => return result,
    };
    let (state, step) =
        state.advance(answer, headers, category_name, body, secret, now, product_id);
    let answer = match step {
        Step::Ask(query) => mongo_repo.answer(query),
        Step::Done(result) => return result,
    };
    let (state, step) =
        state.advance(answer, headers, category_name, body, secret, now, product_id);
    let ghost added = step->Ask_0->product@;
    let answer = match step {
        Step::Ask(query) => mongo_repo.answer(query),
        Step::Done(result) => return result,
    };
    proof {
        if old(mongo_repo)@.consistent() {
            let store_id = old(mongo_repo)@.resolve(headers@)->Ok_0.object_id->0;
            lemma_product_creation_consistent(
                old(mongo_repo)@,
                store_id,
                category_name@,
                added,
                product_id,
            );
        }
    }
    let (_, step) = state.advance(answer, headers, category_name, body, secret, now, product_id);
    match step {
        Step::Ask(_) => Err(Failure::UnexpectedAnswer),
        Step::Done(result) => result,
    }
}

/// Removes the product of that name from a category of the tenant of the
/// request, for an administrator of that tenant. Fails where the tenant
/// cannot be resolved, the request is not authorized, the tenant has no
/// such category, the category holds no product of that name or the
/// product has no identity.
pub fn delete_product(
    headers: &RequestHeaders,
    category_name: &str,
    product_name: &str,
    mongo_repo: &mut MongoRepository,
    config: &Config,
    now: u64,
) -> (r: Reply<ErrorResponse>)
    ensures
        old(mongo_repo)@.consistent() ==> final(mongo_repo)@.consistent(),
        match old(mongo_repo)@.resolve(headers@) {
            Ok(store) => match old(mongo_repo)@.authorize(
                headers@,
                Rank::Administrator,
                config.jwt_secret@,
                now,
            ) {
                Ok(_) => match old(mongo_repo)@.product_target(
                    store.object_id->0,
                    category_name@,
                    product_name@,
                ) {
                    Ok(product_id) => {
                        &&& r matches Ok((code, response))
                        &&& code == StatusCode::Succeeded
                        &&& response.status == Status::Success
                        &&& response.message@ == product_deleted_message(product_name@)
                        &&& final(mongo_repo)@ == old(mongo_repo)@.remove_product_from_category(
                            store.object_id->0,
                            category_name@,
                            product_id,
                        )
                    },
                    Err(failure) => turned_down(r, failure, old(mongo_repo)@, final(mongo_repo)@),
                },
                Err(failure) => turned_down(r, failure, old(mongo_repo)@, final(mongo_repo)@),
            },
            Err(failure) => turned_down(r, failure, old(mongo_repo)@, final(mongo_repo)@),
        },
{
    let secret = config.jwt_secret.as_str();
    let (state, step) = ProductDeletion::begin(headers);
    let answer = match step {
        Step::Ask(query) => mongo_repo.answer(query),
        Step::Done(result) => return result,
    };
    let (state, step) = state.advance(answer, headers, category_name, product_name, secret, now);
    let answer = match step {
        Step::Ask(query) => mongo_repo.answer(query),
        Step::Done(result) => return result,
    };
    let (state, step) = state.advance(answer, headers, category_name, product_name, secret, now);
    let answer = match step {
        Step::Ask(query) => mongo_repo.answer(query),
        Step::Done(result) => return result,
    };
    let (state, step) = state.advance(answer, headers, category_name, product_name, secret, now);
    let answer = match step {
        Step::Ask(query) => mongo_repo.answer(query),
        Step::Done(result) => return result,
    };
    let (state, step) = state.advance(answer, headers, category_name, product_name, secret, now);
    let ghost removed = step->Ask_0->product_id;
    let answer = match step {
        Step::Ask(query) => mongo_repo.answer(query),
        Step::Done(result) => return result,
    };
    proof {
        let store_id = old(mongo_repo)@.resolve(headers@)->Ok_0.object_id->0;
        let category = old(mongo_repo)@.find_category_by_name(store_id, category_name@)->0;
        lemma_first_match(category.products, product_named(product_name@));
        let at = first_match(category.products, product_named(product_name@))->0;
        if first_match(category.products, product_with_id(removed)) is None {
            lemma_first_match(category.products, product_with_id(removed));
            assert(!product_with_id(removed)(category.products[at]));
        }
        if old(mongo_repo)@.consistent() {
            lemma_product_deletion_consistent(
                old(mongo_repo)@,
                store_id,
                category_name@,
                removed,
            );
        }
    }
    let (_, step) = state.advance(answer, headers, category_name, product_name, secret, now);
    match step {
        Step::Ask(_) => Err(Failure::UnexpectedAnswer),
        Step::Done(result) => result,
    }
}

} // verus!
