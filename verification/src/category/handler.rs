use crate::category::model::{
    Category, CategoryResponse, CategoryView, CreateCategoryRequest,
};
use crate::common::object_id::ObjectId;
use crate::consistency::{lemma_category_creation_consistent, lemma_category_deletion_consistent};
use crate::common::response::{
    framed, outcome, ErrorResponse, Failure, FailureView, Reply, StatusCode,
};
use crate::common::types::{RequestHeaders, Status};
use crate::category::repository::category_of;
use crate::database::{
    lemma_first_match, lemma_first_match_push, MongoRepository, RepositoryError, RepositoryView,
};
use crate::exchange::{ends_with, turned_down, Answer, Query, Step};
use crate::store::helper::{ask_for_store, resolved, tenant_answered, tenant_selector};
use vstd::prelude::*;

verus! {

/// The category that a tenant asks to have created.
pub open spec fn new_category(
    store_id: ObjectId,
    name: Seq<char>,
    description: Seq<char>,
) -> CategoryView {
    CategoryView {
        object_id: None,
        store_id: Some(store_id),
        name,
        description,
        products: Seq::empty(),
    }
}

/// Whether a name is still free for a new category, given what the lookup
/// of that name within the tenant found.
pub open spec fn category_name_free(existing: Option<CategoryView>) -> Result<(), FailureView> {
    match existing {
        Some(_) => Err(FailureView::DuplicateCategoryName),
        None => Ok(()),
    }
}

/// The message that reports the deletion of a category.
pub open spec fn category_deleted_message(name: Seq<char>) -> Seq<char> {
    "카테고리 '"@ + name + "' 삭제 성공."@
}

/// What the deletion of a category is worth, given what the document store
/// said of it.
pub open spec fn category_deletion(
    result: Result<bool, RepositoryError>,
    name: Seq<char>,
) -> Result<(), FailureView> {
    match result {
        Ok(deleted) => if deleted {
            Ok(())
        } else {
            Err(FailureView::CategoryNotFound(name))
        },
        Err(_) => Err(FailureView::CategoryDeletionFailed),
    }
}

/// Once a category was created under a tenant, its name is taken there: a
/// second creation of that name under the same tenant is turned down as a
/// duplicate. Under any other tenant the name is as free as it was.
pub proof fn lemma_category_name_taken_once(
    repo: RepositoryView,
    store_id: ObjectId,
    other_store_id: ObjectId,
    name: Seq<char>,
    description: Seq<char>,
    id: ObjectId,
)
    ensures
        ({
            let after = repo.with_category(new_category(store_id, name, description), id);
            &&& category_name_free(after.find_category_by_name(store_id, name)) == Err::<
                (),
                FailureView,
            >(FailureView::DuplicateCategoryName)
            &&& store_id != other_store_id ==> after.find_category_by_name(other_store_id, name)
                == repo.find_category_by_name(other_store_id, name)
        }),
{
    let created = CategoryView { object_id: Some(id), ..new_category(store_id, name, description) };
    lemma_first_match_push(repo.categories, category_of(store_id, name), created);
    lemma_first_match_push(repo.categories, category_of(other_store_id, name), created);
    lemma_first_match(repo.categories, category_of(other_store_id, name));
}

/// Turns a new category down where its name is taken within the tenant.
pub fn ensure_category_name_free(existing: &Option<Category>) -> (r: Result<(), Failure>)
    ensures
        outcome(r) == category_name_free(existing.deep_view()),
{
    match existing {
        Some(_) => Err(Failure::DuplicateCategoryName),
        None => Ok(()),
    }
}

/// The reply to the creation of a category, given what the document store
/// said of the insertion.
pub fn category_created(inserted: Result<ObjectId, RepositoryError>, category: Category) -> (r:
    Result<(StatusCode, CategoryResponse), Failure>)
    ensures
        match inserted {
            Ok(_) => r matches Ok((code, response)) && code == StatusCode::Created
                && response.status == Status::Success && response.category@ == category@,
            Err(_) => r matches Err(f) && f@ == FailureView::CategoryCreationFailed,
        },
{
    match inserted {
        Ok(_) => Ok((StatusCode::Created, CategoryResponse { status: Status::Success, category })),
        Err(_) => Err(Failure::CategoryCreationFailed),
    }
}

/// The reply to the deletion of a category, given what the document store
/// said of it.
pub fn category_deleted(result: Result<bool, RepositoryError>, category_name: &str) -> (r: Result<
    (StatusCode, ErrorResponse),
    Failure,
>)
    ensures
        match category_deletion(result, category_name@) {
            Ok(_) => r matches Ok((code, response)) && code == StatusCode::Succeeded
                && response.status == Status::Success && response.message@
                == category_deleted_message(category_name@),
            Err(failure) => r matches Err(f) && f@ == failure,
        },
{
    match result {
        Ok(true) => Ok(
            (
                StatusCode::Succeeded,
                ErrorResponse {
                    status: Status::Success,
                    message: framed("카테고리 '", category_name, "' 삭제 성공."),
                },
            ),
        ),
        Ok(false) => Err(Failure::CategoryNotFound(category_name.to_owned())),
        Err(_) => Err(Failure::CategoryDeletionFailed),
    }
}

/// Where the creation of a category stands.
#[derive(Debug)]
pub enum CategoryCreation {
    /// The tenant that the request selects is being looked up.
    ResolvingTenant,
    /// A category of the new name is being looked up within the tenant.
    CheckingName { store_id: ObjectId },
    /// The new category is being put in.
    Storing { category: Category },
    /// The reply is made.
    Finished,
}

impl CategoryCreation {
    /// How many questions the handling may still ask, at most.
    pub open spec fn steps_left(self) -> nat {
        match self {
            CategoryCreation::ResolvingTenant => 3,
            CategoryCreation::CheckingName { .. } => 2,
            CategoryCreation::Storing { .. } => 1,
            CategoryCreation::Finished => 0,
        }
    }

    /// Starts with the question for the tenant of the request.
    pub fn begin(headers: &RequestHeaders) -> (r: (CategoryCreation, Step<Reply<CategoryResponse>>))
        ensures
            match tenant_selector(headers@) {
                Ok(name) => r.1 matches Step::Ask(Query::FindStoreByName { name: asked })
                    && asked@ == name && r.0 is ResolvingTenant,
                Err(failure) => ends_with(r.1, failure),
            },
    {
        match ask_for_store(headers) {
            Ok(query) => (CategoryCreation::ResolvingTenant, Step::Ask(query)),
            Err(failure) => (CategoryCreation::Finished, Step::Done(Err(failure))),
        }
    }

    /// Takes the answer to the last question and goes on: from the tenant
    /// to the question whether the name is taken, from there to the
    /// insertion under the identity `category_id`, and from there to the
    /// reply.
    pub fn advance(
        self,
        answer: Answer,
        body: &CreateCategoryRequest,
        category_id: ObjectId,
    ) -> (r: (CategoryCreation, Step<Reply<CategoryResponse>>))
        ensures
            r.1 is Ask ==> r.0.steps_left() < self.steps_left(),
            match self {
                CategoryCreation::ResolvingTenant => match answer {
                    Answer::Store(found) => match resolved(found.deep_view()) {
                        Ok(store) => r.1 matches Step::Ask(
                            Query::FindCategoryByName { store_id, name },
                        ) && store_id == store.object_id->0 && name@ == body.name@ && r.0 == (
                        CategoryCreation::CheckingName { store_id }),
                        Err(failure) => ends_with(r.1, failure),
                    },
                    _ => ends_with(r.1, FailureView::UnexpectedAnswer),
                },
                CategoryCreation::CheckingName { store_id } => match answer {
                    Answer::Category(existing) => match category_name_free(existing.deep_view()) {
                        Ok(_) => r.1 matches Step::Ask(Query::CreateCategory { category: asked })
                            && asked@ == (CategoryView {
                            object_id: Some(category_id),
                            ..new_category(store_id, body.name@, body.description@)
                        }) && (r.0 matches CategoryCreation::Storing { category } && category@
                            == new_category(store_id, body.name@, body.description@)),
                        Err(failure) => ends_with(r.1, failure),
                    },
                    _ => ends_with(r.1, FailureView::UnexpectedAnswer),
                },
                CategoryCreation::Storing { category } => match answer {
                    Answer::Created(Ok(_)) => r.1 matches Step::Done(Ok((code, response)))
                        && code == StatusCode::Created && response.status == Status::Success
                        && response.category@ == category@,
                    Answer::Created(Err(_)) => ends_with(r.1, FailureView::CategoryCreationFailed),
                    _ => ends_with(r.1, FailureView::UnexpectedAnswer),
                },
                CategoryCreation::Finished => ends_with(r.1, FailureView::UnexpectedAnswer),
            },
    {
        match self {
            CategoryCreation::ResolvingTenant => {
                match tenant_answered(answer) {
                    Ok(store_id) => (
                        CategoryCreation::CheckingName { store_id },
                        Step::Ask(Query::FindCategoryByName { store_id, name: body.name.clone() }),
                    ),
                    Err(failure) => (CategoryCreation::Finished, Step::Done(Err(failure))),
                }
            },
            CategoryCreation::CheckingName { store_id } => match answer {
                Answer::Category(existing) => match ensure_category_name_free(&existing) {
                    Ok(_) => {
                        let category = Category::new(
                            store_id,
                            body.name.clone(),
                            body.description.clone(),
                        );
                        let mut stored = category.clone();
                        stored.object_id = Some(category_id);
                        (
                            CategoryCreation::Storing { category },
                            Step::Ask(Query::CreateCategory { category: stored }),
                        )
                    },
                    Err(failure) => (CategoryCreation::Finished, Step::Done(Err(failure))),
                },
                _ => (CategoryCreation::Finished, Step::Done(Err(Failure::UnexpectedAnswer))),
            },
            CategoryCreation::Storing { category } => match answer {
                Answer::Created(inserted) => (
                    CategoryCreation::Finished,
                    Step::Done(category_created(inserted, category)),
                ),
                _ => (CategoryCreation::Finished, Step::Done(Err(Failure::UnexpectedAnswer))),
            },
            CategoryCreation::Finished => (
                CategoryCreation::Finished,
                Step::Done(Err(Failure::UnexpectedAnswer)),
            ),
        }
    }
}

/// Where the deletion of a category stands.
#[derive(Debug)]
pub enum CategoryDeletion {
    /// The tenant that the request selects is being looked up.
    ResolvingTenant,
    /// The category is being taken out.
    Deleting,
    /// The reply is made.
    Finished,
}

impl CategoryDeletion {
    /// How many questions the handling may still ask, at most.
    pub open spec fn steps_left(self) -> nat {
        match self {
            CategoryDeletion::ResolvingTenant => 2,
            CategoryDeletion::Deleting => 1,
            CategoryDeletion::Finished => 0,
        }
    }

    /// Starts with the question for the tenant of the request.
    pub fn begin(headers: &RequestHeaders) -> (r: (CategoryDeletion, Step<Reply<ErrorResponse>>))
        ensures
            match tenant_selector(headers@) {
                Ok(name) => r.1 matches Step::Ask(Query::FindStoreByName { name: asked })
                    && asked@ == name && r.0 is ResolvingTenant,
                Err(failure) => ends_with(r.1, failure),
            },
    {
        match ask_for_store(headers) {
            Ok(query) => (CategoryDeletion::ResolvingTenant, Step::Ask(query)),
            Err(failure) => (CategoryDeletion::Finished, Step::Done(Err(failure))),
        }
    }

    /// Takes the answer to the last question and goes on: from the tenant
    /// to the deletion, and from there to the reply.
    pub fn advance(self, answer: Answer, category_name: &str) -> (r: (
        CategoryDeletion,
        Step<Reply<ErrorResponse>>,
    ))
        ensures
            r.1 is Ask ==> r.0.steps_left() < self.steps_left(),
            match self {
                CategoryDeletion::ResolvingTenant => match answer {
                    Answer::Store(found) => match resolved(found.deep_view()) {
                        Ok(store) => r.1 matches Step::Ask(Query::DeleteCategory { store_id, name })
                            && store_id == store.object_id->0 && name@ == category_name@ && r.0
                            is Deleting,
                        Err(failure) => ends_with(r.1, failure),
                    },
                    _ => ends_with(r.1, FailureView::UnexpectedAnswer),
                },
                CategoryDeletion::Deleting => match answer {
                    Answer::Deleted(result) => match category_deletion(result, category_name@) {
                        Ok(_) => r.1 matches Step::Done(Ok((code, response))) && code
                            == StatusCode::Succeeded && response.status == Status::Success
                            && response.message@ == category_deleted_message(category_name@),
                        Err(failure) => ends_with(r.1, failure),
                    },
                    _ => ends_with(r.1, FailureView::UnexpectedAnswer),
                },
                CategoryDeletion::Finished => ends_with(r.1, FailureView::UnexpectedAnswer),
            },
    {
        match self {
            CategoryDeletion::ResolvingTenant => {
                match tenant_answered(answer) {
                    Ok(store_id) => (
                        CategoryDeletion::Deleting,
                        Step::Ask(
                            Query::DeleteCategory { store_id, name: category_name.to_owned() },
                        ),
                    ),
                    Err(failure) => (CategoryDeletion::Finished, Step::Done(Err(failure))),
                }
            },
            CategoryDeletion::Deleting => match answer {
                Answer::Deleted(result) => (
                    CategoryDeletion::Finished,
                    Step::Done(category_deleted(result, category_name)),
                ),
                _ => (CategoryDeletion::Finished, Step::Done(Err(Failure::UnexpectedAnswer))),
            },
            CategoryDeletion::Finished => (
                CategoryDeletion::Finished,
                Step::Done(Err(Failure::UnexpectedAnswer)),
            ),
        }
    }
}

/// Creates a category, without products and under the identity
/// `category_id`, under the tenant of the request. Fails where the tenant
/// cannot be resolved, has a category of that name already or the identity
/// is taken.
pub fn create_category(
    headers: &RequestHeaders,
    mongo_repo: &mut MongoRepository,
    body: &CreateCategoryRequest,
    category_id: ObjectId,
) -> (r: Reply<CategoryResponse>)
    ensures
        old(mongo_repo)@.consistent() ==> final(mongo_repo)@.consistent(),
        match old(mongo_repo)@.resolve(headers@) {
            Ok(store) => match category_name_free(
                old(mongo_repo)@.find_category_by_name(store.object_id->0, body.name@),
            ) {
                Ok(_) => if old(mongo_repo)@.has_category_id(category_id) {
                    turned_down(
                        r,
                        FailureView::CategoryCreationFailed,
                        old(mongo_repo)@,
                        final(mongo_repo)@,
                    )
                } else {
                    &&& r matches Ok((code, response))
                    &&& code == StatusCode::Created
                    &&& response.status == Status::Success
                    &&& response.category@ == new_category(
                        store.object_id->0,
                        body.name@,
                        body.description@,
                    )
                    &&& final(mongo_repo)@ == old(mongo_repo)@.with_category(
                        response.category@,
                        category_id,
                    )
                },
                Err(failure) => turned_down(r, failure, old(mongo_repo)@, final(mongo_repo)@),
            },
            Err(failure) => turned_down(r, failure, old(mongo_repo)@, final(mongo_repo)@),
        },
{
    let (state, step) = CategoryCreation::begin(headers);
    let answer = match step {
        Step::Ask(query) => mongo_repo.answer(query),
        Step::Done(result) => return result,
    };
    let (state, step) = state.advance(answer, body, category_id);
    let answer = match step {
        Step::Ask(query) => mongo_repo.answer(query),
        Step::Done(result) => return result,
    };
    let (state, step) = state.advance(answer, body, category_id);
    let answer = match step {
        Step::Ask(query) => mongo_repo.answer(query),
        Step::Done(result) => return result,
    };
    proof {
        if !old(mongo_repo)@.has_category_id(category_id) {
            let store_id = old(mongo_repo)@.resolve(headers@)->Ok_0.object_id->0;
            let category = new_category(store_id, body.name@, body.description@);
            assert(mongo_repo@ == old(mongo_repo)@.with_category(category, category_id));
            if old(mongo_repo)@.consistent() {
                lemma_category_creation_consistent(
                    old(mongo_repo)@,
                    store_id,
                    category,
                    category_id,
                );
            }
        }
    }
    let (_, step) = state.advance(answer, body, category_id);
    match step {
        Step::Ask(_) => Err(Failure::UnexpectedAnswer),
        Step::Done(result) => result,
    }
}

/// Deletes the category of that name under the tenant of the request.
/// Fails where the tenant cannot be resolved or has no such category.
pub fn delete_category(
    headers: &RequestHeaders,
    category_name: &str,
    mongo_repo: &mut MongoRepository,
) -> (r: Reply<ErrorResponse>)
    ensures
        old(mongo_repo)@.consistent() ==> final(mongo_repo)@.consistent(),
        match old(mongo_repo)@.resolve(headers@) {
            Ok(store) => match old(mongo_repo)@.find_category_by_name(
                store.object_id->0,
                category_name@,
            ) {
                Some(_) => {
                    &&& r matches Ok((code, response))
                    &&& code == StatusCode::Succeeded
                    &&& response.status == Status::Success
                    &&& response.message@ == category_deleted_message(category_name@)
                    &&& final(mongo_repo)@ == old(mongo_repo)@.delete_category(
                        store.object_id->0,
                        category_name@,
                    )
                },
                None => turned_down(
                    r,
                    FailureView::CategoryNotFound(category_name@),
                    old(mongo_repo)@,
                    final(mongo_repo)@,
                ),
            },
            Err(failure) => turned_down(r, failure, old(mongo_repo)@, final(mongo_repo)@),
        },
{
    let (state, step) = CategoryDeletion::begin(headers);
    let answer = match step {
        Step::Ask(query) => mongo_repo.answer(query),
        Step::Done(result) => return result,
    };
    let (state, step) = state.advance(answer, category_name);
    let answer = match step {
        Step::Ask(query) => mongo_repo.answer(query),
        Step::Done(result) => return result,
    };
    proof {
        if old(mongo_repo)@.consistent() {
            let store_id = old(mongo_repo)@.resolve(headers@)->Ok_0.object_id->0;
            lemma_category_deletion_consistent(old(mongo_repo)@, store_id, category_name@);
        }
    }
    let (_, step) = state.advance(answer, category_name);
    match step {
        Step::Ask(_) => Err(Failure::UnexpectedAnswer),
        Step::Done(result) => result,
    }
}

} // verus!
