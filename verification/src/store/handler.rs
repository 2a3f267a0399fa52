use crate::common::object_id::ObjectId;
use crate::common::response::{outcome, Failure, FailureView, Reply, StatusCode};
use crate::common::types::{RequestHeaders, Status};
use crate::config::Config;
use crate::consistency::lemma_store_creation_consistent;
use crate::database::{MongoRepository, RepositoryError};
use crate::exchange::{ends_with, turned_down, Answer, Query, Step};
use crate::store::model::{CreateStoreRequest, Store, StoreResponse, StoreView};
use crate::user::helper::{security_check, validate_security_key};
use vstd::prelude::*;

verus! {

/// Whether a name is still free for a new tenant, given what the lookup of
/// that name found.
pub open spec fn store_name_free(existing: Option<StoreView>) -> Result<(), FailureView> {
    match existing {
        Some(_) => Err(FailureView::DuplicateStoreName),
        None => Ok(()),
    }
}

/// Turns a new tenant down where its name is taken.
pub fn ensure_store_name_free(existing: &Option<Store>) -> (r: Result<(), Failure>)
    ensures
        outcome(r) == store_name_free(existing.deep_view()),
{
    match existing {
        Some(_) => Err(Failure::DuplicateStoreName),
        None => Ok(()),
    }
}

/// The reply to the creation of a tenant, given what the document store
/// said of the insertion.
pub fn store_created(inserted: Result<ObjectId, RepositoryError>, store: Store) -> (r: Result<
    (StatusCode, StoreResponse),
    Failure,
>)
    ensures
        match inserted {
            Ok(_) => r matches Ok((code, response)) && code == StatusCode::Created
                && response.status == Status::Success && response.store@ == store@,
            Err(_) => r matches Err(f) && f@ == FailureView::StoreCreationFailed,
        },
{
    match inserted {
        Ok(_) => Ok((StatusCode::Created, StoreResponse { status: Status::Success, store })),
        Err(_) => Err(Failure::StoreCreationFailed),
    }
}

/// Where the creation of a tenant stands.
#[derive(Debug)]
pub enum StoreCreation {
    /// A tenant of the new name is being looked up.
    CheckingName,
    /// The new tenant is being put in.
    Storing { store: Store },
    /// The reply is made.
    Finished,
}

impl StoreCreation {
    /// How many questions the handling may still ask, at most.
    pub open spec fn steps_left(self) -> nat {
        match self {
            StoreCreation::CheckingName => 2,
            StoreCreation::Storing { .. } => 1,
            StoreCreation::Finished => 0,
        }
    }

    /// Starts, for a request that carries the configured security key, with
    /// the question whether the name is taken.
    pub fn begin(headers: &RequestHeaders, body: &CreateStoreRequest, config: &Config) -> (r: (
        StoreCreation,
        Step<Reply<StoreResponse>>,
    ))
        ensures
            match security_check(headers@, config.vronix_security_key@) {
                Ok(_) => r.1 matches Step::Ask(Query::FindStoreByName { name: asked }) && asked@
                    == body.name@ && r.0 is CheckingName,
                Err(failure) => ends_with(r.1, failure),
            },
    {
        match validate_security_key(headers, config) {
            Ok(_) => (
                StoreCreation::CheckingName,
                Step::Ask(Query::FindStoreByName { name: body.name.clone() }),
            ),
            Err(failure) => (StoreCreation::Finished, Step::Done(Err(failure))),
        }
    }

    /// Takes the answer to the last question and goes on: from the name to
    /// the insertion under the identity `store_id`, and from there to the
    /// reply.
    pub fn advance(self, answer: Answer, body: &CreateStoreRequest, store_id: ObjectId) -> (r: (
        StoreCreation,
        Step<Reply<StoreResponse>>,
    ))
        ensures
            r.1 is Ask ==> r.0.steps_left() < self.steps_left(),
            match self {
                StoreCreation::CheckingName => match answer {
                    Answer::Store(existing) => match store_name_free(existing.deep_view()) {
                        Ok(_) => r.1 matches Step::Ask(Query::CreateStore { store: asked })
                            && asked.object_id == Some(store_id) && asked.name@ == body.name@
                            && asked.create_at == asked.update_at && (
                        r.0 matches StoreCreation::Storing { store } && store@ == (StoreView {
                            object_id: None,
                            ..asked@
                        })),
                        Err(failure) => ends_with(r.1, failure),
                    },
                    _ => ends_with(r.1, FailureView::UnexpectedAnswer),
                },
                StoreCreation::Storing { store } => match answer {
                    Answer::Created(Ok(_)) => r.1 matches Step::Done(Ok((code, response)))
                        && code == StatusCode::Created && response.status == Status::Success
                        && response.store@ == store@,
                    Answer::Created(Err(_)) => ends_with(r.1, FailureView::StoreCreationFailed),
                    _ => ends_with(r.1, FailureView::UnexpectedAnswer),
                },
                StoreCreation::Finished => ends_with(r.1, FailureView::UnexpectedAnswer),
            },
    {
        match self {
            StoreCreation::CheckingName => match answer {
                Answer::Store(existing) => match ensure_store_name_free(&existing) {
                    Ok(_) => {
                        let store = Store::new(body.name.clone());
                        let mut stored = store.clone();
                        stored.object_id = Some(store_id);
                        (
                            StoreCreation::Storing { store },
                            Step::Ask(Query::CreateStore { store: stored }),
                        )
                    },
                    Err(failure) => (StoreCreation::Finished, Step::Done(Err(failure))),
                },
                _ => (StoreCreation::Finished, Step::Done(Err(Failure::UnexpectedAnswer))),
            },
            StoreCreation::Storing { store } => match answer {
                Answer::Created(inserted) => (
                    StoreCreation::Finished,
                    Step::Done(store_created(inserted, store)),
                ),
                _ => (StoreCreation::Finished, Step::Done(Err(Failure::UnexpectedAnswer))),
            },
            StoreCreation::Finished => (
                StoreCreation::Finished,
                Step::Done(Err(Failure::UnexpectedAnswer)),
            ),
        }
    }
}

/// Creates a tenant, under the identity `store_id`, for a request that
/// carries the configured security key. Fails where the key is missing or
/// wrong, a tenant of that name exists or the identity is taken.
pub fn create_store(
    headers: &RequestHeaders,
    mongo_repo: &mut MongoRepository,
    body: &CreateStoreRequest,
    config: &Config,
    store_id: ObjectId,
) -> (r: Reply<StoreResponse>)
    ensures
        old(mongo_repo)@.consistent() ==> final(mongo_repo)@.consistent(),
        match security_check(headers@, config.vronix_security_key@) {
            Ok(_) => match store_name_free(old(mongo_repo)@.find_store_by_name(body.name@)) {
                Ok(_) => if old(mongo_repo)@.has_store_id(store_id) {
                    turned_down(
                        r,
                        FailureView::StoreCreationFailed,
                        old(mongo_repo)@,
                        final(mongo_repo)@,
                    )
                } else {
                    &&& r matches Ok((code, response))
                    &&& code == StatusCode::Created
                    &&& response.status == Status::Success
                    &&& response.store.object_id is None
                    &&& response.store.name@ == body.name@
                    &&& response.store.create_at == response.store.update_at
                    &&& final(mongo_repo)@ == old(mongo_repo)@.with_store(
                        response.store@,
                        store_id,
                    )
                },
                Err(failure) => turned_down(r, failure, old(mongo_repo)@, final(mongo_repo)@),
            },
            Err(failure) => turned_down(r, failure, old(mongo_repo)@, final(mongo_repo)@),
        },
{
    let (state, step) = StoreCreation::begin(headers, body, config);
    let answer = match step {
        Step::Ask(query) => mongo_repo.answer(query),
        Step::Done(result) => return result,
    };
    let (state, step) = state.advance(answer, body, store_id);
    let ghost stored = step->Ask_0->store@;
    let answer = match step {
        Step::Ask(query) => mongo_repo.answer(query),
        Step::Done(result) => return result,
    };
    proof {
        if !old(mongo_repo)@.has_store_id(store_id) {
            assert(mongo_repo@ == old(mongo_repo)@.with_store(
                StoreView { object_id: None, ..stored },
                store_id,
            ));
            if old(mongo_repo)@.consistent() {
                lemma_store_creation_consistent(old(mongo_repo)@, stored, store_id);
            }
        }
    }
    let (_, step) = state.advance(answer, body, store_id);
    match step {
        Step::Ask(_) => Err(Failure::UnexpectedAnswer),
        Step::Done(result) => result,
    }
}

} // verus!
