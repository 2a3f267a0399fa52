use crate::category::model::CategoryView;
use crate::category::product::helper::{
    find_product_in_category, require_category, required_category,
};
use crate::category::product::model::ProductView;
use crate::category::product::repository::{category_holding_name, product_named};
use crate::category::repository::category_of;
use crate::common::object_id::ObjectId;
use crate::common::response::{framed, ErrorResponse, Failure, FailureView, Reply, StatusCode};
use crate::common::types::{RequestHeaders, Status};
use crate::consistency::lemma_stock_update_consistent;
use crate::database::{
    first_match, lemma_first_match, lemma_first_match_is, lemma_first_match_update,
    MongoRepository, RepositoryError, RepositoryView,
};
use crate::exchange::{ends_with, turned_down, Answer, Query, Step};
use crate::store::helper::{ask_for_store, resolved, tenant_answered, tenant_selector};
use vstd::prelude::*;

verus! {

/// Whether a category holds the product whose stock is to be replaced.
pub open spec fn stocked_product(category: CategoryView, name: Seq<char>) -> Result<
    (),
    FailureView,
> {
    match category.find_product(name) {
        Some(_) => Ok(()),
        None => Err(FailureView::ProductNotFound(name)),
    }
}

/// The message that reports the replacement of a product's stock.
pub open spec fn stock_updated_message(name: Seq<char>) -> Seq<char> {
    "제품 '"@ + name + "'의 재고가 성공적으로 업데이트되었습니다."@
}

impl RepositoryView {
    /// Whether the stock of a product can be replaced: the tenant must have
    /// the category, and the category a product of that name.
    pub open spec fn stock_target(
        self,
        store_id: ObjectId,
        category_name: Seq<char>,
        product_name: Seq<char>,
    ) -> Result<(), FailureView> {
        match required_category(
            self.find_category_by_name(store_id, category_name),
            category_name,
        ) {
            Ok(category) => stocked_product(category, product_name),
            Err(failure) => Err(failure),
        }
    }
}

/// Replacing a stock a second time by the same list changes nothing: the
/// document store is after the second replacement what it was after the
/// first.
pub proof fn lemma_stock_replacement_idempotent(
    repo: RepositoryView,
    store_id: ObjectId,
    category_name: Seq<char>,
    product_name: Seq<char>,
    stock: Seq<Seq<char>>,
)
    ensures
        ({
            let once = repo.update_product_stock(store_id, category_name, product_name, stock);
            once.update_product_stock(store_id, category_name, product_name, stock) == once
        }),
{
    let filter = category_holding_name(store_id, category_name, product_name);
    let once = repo.update_product_stock(store_id, category_name, product_name, stock);
    let twice = once.update_product_stock(store_id, category_name, product_name, stock);
    lemma_first_match(repo.categories, filter);
    match first_match(repo.categories, filter) {
        Some(i) => {
            let category = repo.categories[i];
            let named = product_named(product_name);
            lemma_first_match(category.products, named);
            let k = first_match(category.products, named)->0;
            let product = category.products[k];
            let restocked = ProductView { stock, ..product };
            lemma_first_match_update(category.products, named, k, restocked);
            let changed = category.with_stock(product_name, stock);
            assert(changed.products == category.products.update(k, restocked));
            assert(changed.products.update(k, ProductView { stock, ..restocked })
                =~= changed.products);
            assert(changed.with_stock(product_name, stock) == changed);
            lemma_first_match_update(repo.categories, filter, i, changed);
            assert(twice.categories =~= once.categories);
        },
        None => {},
    }
}

/// Where the category that a tenant has of a name holds the product, the
/// replacement of the stock finds it.
pub proof fn lemma_stock_target_is_matched(
    repo: RepositoryView,
    store_id: ObjectId,
    category_name: Seq<char>,
    product_name: Seq<char>,
)
    requires
        repo.stock_target(store_id, category_name, product_name) is Ok,
    ensures
        repo.holds_product_named(store_id, category_name, product_name),
{
    let filter = category_holding_name(store_id, category_name, product_name);
    let scope = category_of(store_id, category_name);
    lemma_first_match(repo.categories, scope);
    let i = first_match(repo.categories, scope)->0;
    assert forall|j: int| 0 <= j < i implies !filter(#[trigger] repo.categories[j]) by {
        assert(!scope(repo.categories[j]));
    }
    lemma_first_match_is(repo.categories, filter, i);
}

/// After the stock of a product was replaced, the product's stock is the
/// list that was given, whatever it was before.
pub proof fn lemma_stock_is_replaced(
    repo: RepositoryView,
    store_id: ObjectId,
    category_name: Seq<char>,
    product_name: Seq<char>,
    stock: Seq<Seq<char>>,
)
    requires
        repo.stock_target(store_id, category_name, product_name) is Ok,
    ensures
        ({
            let once = repo.update_product_stock(store_id, category_name, product_name, stock);
            &&& once.find_category_by_name(store_id, category_name) matches Some(category)
            &&& category.find_product(product_name) matches Some(product)
            &&& product.stock == stock
        }),
{
    let filter = category_holding_name(store_id, category_name, product_name);
    let scope = category_of(store_id, category_name);
    lemma_first_match(repo.categories, scope);
    let i = first_match(repo.categories, scope)->0;
    let category = repo.categories[i];
    assert forall|j: int| 0 <= j < i implies !filter(#[trigger] repo.categories[j]) by {
        assert(!scope(repo.categories[j]));
    }
    lemma_first_match_is(repo.categories, filter, i);
    let named = product_named(product_name);
    lemma_first_match(category.products, named);
    let k = first_match(category.products, named)->0;
    let restocked = ProductView { stock, ..category.products[k] };
    lemma_first_match_update(category.products, named, k, restocked);
    let changed = category.with_stock(product_name, stock);
    lemma_first_match_update(repo.categories, scope, i, changed);
}

/// What the replacement of a stock is worth, given what the document
/// store said of the update: whether it found the product.
pub open spec fn stock_update(result: Result<bool, RepositoryError>, name: Seq<char>) -> Result<
    (),
    FailureView,
> {
    match result {
        Ok(matched) => if matched {
            Ok(())
        } else {
            Err(FailureView::ProductNotFound(name))
        },
        Err(_) => Err(FailureView::StockUpdateFailed),
    }
}

/// The reply to the replacement of a stock, given what the document store
/// said of the update.
pub fn stock_updated(result: Result<bool, RepositoryError>, product_name: &str) -> (r: Reply<
    ErrorResponse,
>)
    ensures
        match stock_update(result, product_name@) {
            Ok(_) => r matches Ok((code, response)) && code == StatusCode::Succeeded
                && response.status == Status::Success && response.message@
                == stock_updated_message(product_name@),
            Err(failure) => r matches Err(f) && f@ == failure,
        },
{
    match result {
        Ok(false) => Err(Failure::ProductNotFound(product_name.to_owned())),
        Ok(true) => Ok(
            (
                StatusCode::Succeeded,
                ErrorResponse {
                    status: Status::Success,
                    message: framed(
                        "제품 '",
                        product_name,
                        "'의 재고가 성공적으로 업데이트되었습니다.",
                    ),
                },
            ),
        ),
        Err(_) => Err(Failure::StockUpdateFailed),
    }
}

/// Where the replacement of a stock stands.
#[derive(Debug)]
pub enum StockUpdate {
    /// The tenant that the request selects is being looked up.
    ResolvingTenant,
    /// The category is being looked up within the tenant.
    FindingCategory { store_id: ObjectId },
    /// The stock is being replaced.
    Updating,
    /// The reply is made.
    Finished,
}

impl StockUpdate {
    /// How many questions the handling may still ask, at most.
    pub open spec fn steps_left(self) -> nat {
        match self {
            StockUpdate::ResolvingTenant => 3,
            StockUpdate::FindingCategory { .. } => 2,
            StockUpdate::Updating => 1,
            StockUpdate::Finished => 0,
        }
    }

    /// Starts with the question for the tenant of the request.
    pub fn begin(headers: &RequestHeaders) -> (r: (StockUpdate, Step<Reply<ErrorResponse>>))
        ensures
            match tenant_selector(headers@) {
                Ok(name) => r.1 matches Step::Ask(Query::FindStoreByName { name: asked })
                    && asked@ == name && r.0 is ResolvingTenant,
                Err(failure) => ends_with(r.1, failure),
            },
    {
        match ask_for_store(headers) {
            Ok(query) => (StockUpdate::ResolvingTenant, Step::Ask(query)),
            Err(failure) => (StockUpdate::Finished, Step::Done(Err(failure))),
        }
    }

    /// Takes the answer to the last question and goes on: from the tenant
    /// to the category, from there to the update of the product, and from
    /// there to the reply.
    pub fn advance(
        self,
        answer: Answer,
        category_name: &str,
        product_name: &str,
        body: &Vec<String>,
    ) -> (r: (StockUpdate, Step<Reply<ErrorResponse>>))
        ensures
            r.1 is Ask ==> r.0.steps_left() < self.steps_left(),
            match self {
                StockUpdate::ResolvingTenant => match answer {
                    Answer::Store(found) => match resolved(found.deep_view()) {
                        Ok(store) => r.1 matches Step::Ask(
                            Query::FindCategoryByName { store_id, name },
                        ) && store_id == store.object_id->0 && name@ == category_name@ && r.0 == (
                        StockUpdate::FindingCategory { store_id }),
                        Err(failure) => ends_with(r.1, failure),
                    },
                    _ => ends_with(r.1, FailureView::UnexpectedAnswer),
                },
                StockUpdate::FindingCategory { store_id } => match answer {
                    Answer::Category(found) => match required_category(
                        found.deep_view(),
                        category_name@,
                    ) {
                        Ok(category) => match stocked_product(category, product_name@) {
                            Ok(_) => r.1 matches Step::Ask(
                                Query::UpdateProductStock {
                                    store_id: tenant,
                                    category_name: name,
                                    product_name: product,
                                    stock,
                                },
                            ) && tenant == store_id && name@ == category_name@ && product@
                                == product_name@ && stock.deep_view() == body.deep_view() && r.0
                                is Updating,
                            Err(failure) => ends_with(r.1, failure),
                        },
                        Err(failure) => ends_with(r.1, failure),
                    },
                    _ => ends_with(r.1, FailureView::UnexpectedAnswer),
                },
                StockUpdate::Updating => match answer {
                    Answer::Updated(result) => match stock_update(result, product_name@) {
                        Ok(_) => r.1 matches Step::Done(Ok((code, response))) && code
                            == StatusCode::Succeeded && response.status == Status::Success
                            && response.message@ == stock_updated_message(product_name@),
                        Err(failure) => ends_with(r.1, failure),
                    },
                    _ => ends_with(r.1, FailureView::UnexpectedAnswer),
                },
                StockUpdate::Finished => ends_with(r.1, FailureView::UnexpectedAnswer),
            },
    {
        match self {
            StockUpdate::ResolvingTenant => {
                match tenant_answered(answer) {
                    Ok(store_id) => (
                        StockUpdate::FindingCategory { store_id },
                        Step::Ask(
                            Query::FindCategoryByName { store_id, name: category_name.to_owned() },
                        ),
                    ),
                    Err(failure) => (StockUpdate::Finished, Step::Done(Err(failure))),
                }
            },
            StockUpdate::FindingCategory { store_id } => match answer {
                Answer::Category(found) => {
                    let mut category = match require_category(found, category_name) {
                        Ok(category) => category,
                        Err(failure) => return (StockUpdate::Finished, Step::Done(Err(failure))),
                    };
                    proof {
                        lemma_first_match(category@.products, product_named(product_name@));
                    }
                    let product = match find_product_in_category(&mut category, product_name) {
                        Ok(product) => product,
                        Err(failure) => return (StockUpdate::Finished, Step::Done(Err(failure))),
                    };
                    product.stock = body.clone();
                    (
                        StockUpdate::Updating,
                        Step::Ask(
                            Query::UpdateProductStock {
                                store_id,
                                category_name: category_name.to_owned(),
                                product_name: product_name.to_owned(),
                                stock: product.stock.clone(),
                            },
                        ),
                    )
                },
                _ => (StockUpdate::Finished, Step::Done(Err(Failure::UnexpectedAnswer))),
            },
            StockUpdate::Updating => match answer {
                Answer::Updated(result) => (
                    StockUpdate::Finished,
                    Step::Done(stock_updated(result, product_name)),
                ),
                _ => (StockUpdate::Finished, Step::Done(Err(Failure::UnexpectedAnswer))),
            },
            StockUpdate::Finished => (
                StockUpdate::Finished,
                Step::Done(Err(Failure::UnexpectedAnswer)),
            ),
        }
    }
}

/// Replaces the whole stock of the product of that name in a category of
/// the tenant of the request. Fails where the tenant cannot be resolved,
/// the tenant has no such category or the category holds no product of
/// that name.
pub fn update_stock(
    headers: &RequestHeaders,
    category_name: &str,
    product_name: &str,
    mongo_repo: &mut MongoRepository,
    body: &Vec<String>,
) -> (r: Reply<ErrorResponse>)
    ensures
        old(mongo_repo)@.consistent() ==> final(mongo_repo)@.consistent(),
        match old(mongo_repo)@.resolve(headers@) {
            Ok(store) => match old(mongo_repo)@.stock_target(
                store.object_id->0,
                category_name@,
                product_name@,
            ) {
                Ok(_) => {
                    &&& r matches Ok((code, response))
                    &&& code == StatusCode::Succeeded
                    &&& response.status == Status::Success
                    &&& response.message@ == stock_updated_message(product_name@)
                    &&& final(mongo_repo)@ == old(mongo_repo)@.update_product_stock(
                        store.object_id->0,
                        category_name@,
                        product_name@,
                        body.deep_view(),
                    )
                },
                Err(failure) => turned_down(r, failure, old(mongo_repo)@, final(mongo_repo)@),
            },
            Err(failure) => turned_down(r, failure, old(mongo_repo)@, final(mongo_repo)@),
        },
{
    let (state, step) = StockUpdate::begin(headers);
    let answer = match step {
        Step::Ask(query) => mongo_repo.answer(query),
        Step::Done(result) => return result,
    };
    let (state, step) = state.advance(answer, category_name, product_name, body);
    let answer = match step {
        Step::Ask(query) => mongo_repo.answer(query),
        Step::Done(result) => return result,
    };
    let (state, step) = state.advance(answer, category_name, product_name, body);
    let answer = match step {
        Step::Ask(query) => mongo_repo.answer(query),
        Step::Done(result) => return result,
    };
    proof {
        let store_id = old(mongo_repo)@.resolve(headers@)->Ok_0.object_id->0;
        lemma_stock_target_is_matched(old(mongo_repo)@, store_id, category_name@, product_name@);
        if old(mongo_repo)@.consistent() {
            lemma_stock_update_consistent(
                old(mongo_repo)@,
                store_id,
                category_name@,
                product_name@,
                body.deep_view(),
            );
        }
    }
    let (_, step) = state.advance(answer, category_name, product_name, body);
    match step {
        Step::Ask(_) => Err(Failure::UnexpectedAnswer),
        Step::Done(result) => result,
    }
}

} // verus!
