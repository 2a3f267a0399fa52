use crate::common::object_id::ObjectId;
use crate::common::response::{outcome, Failure, FailureView};
use crate::common::types::{RequestHeaders, RequestHeadersView};
use crate::database::{MongoRepository, RepositoryView};
use crate::exchange::{Answer, Query};
use crate::store::model::{Store, StoreView};
use vstd::prelude::*;

verus! {

/// The name of the tenant that a request selects: the request must give one,
/// and not the empty one.
pub open spec fn tenant_selector(headers: RequestHeadersView) -> Result<Seq<char>, FailureView> {
    match headers.store_name {
        Some(name) => if name.len() == 0 {
            Err(FailureView::MissingTenantSelector)
        } else {
            Ok(name)
        },
        None => Err(FailureView::MissingTenantSelector),
    }
}

/// What a lookup by name is worth: a tenant that was found and has an
/// identity is the tenant of the request.
pub open spec fn resolved(found: Option<StoreView>) -> Result<StoreView, FailureView> {
    match found {
        Some(store) => if store.object_id is Some {
            Ok(store)
        } else {
            Err(FailureView::UnknownTenant)
        },
        None => Err(FailureView::UnknownTenant),
    }
}

impl RepositoryView {
    /// The one tenant that a request is bound to.
    pub open spec fn resolve(self, headers: RequestHeadersView) -> Result<StoreView, FailureView> {
        match tenant_selector(headers) {
            Ok(name) => resolved(self.find_store_by_name(name)),
            Err(failure) => Err(failure),
        }
    }
}

/// Reads the tenant selector of a request.
pub fn store_selector(headers: &RequestHeaders) -> (r: Result<&str, Failure>)
    ensures
        match tenant_selector(headers@) {
            Ok(name) => r matches Ok(text) && text@ == name,
            Err(failure) => r matches Err(f) && f@ == failure,
        },
{
    match &headers.store_name {
        Some(name) => {
            if name.as_str().is_empty() {
                Err(Failure::MissingTenantSelector)
            } else {
                Ok(name.as_str())
            }
        },
        None => Err(Failure::MissingTenantSelector),
    }
}

/// Takes what the lookup of the selected tenant found.
pub fn require_store(found: Option<Store>) -> (r: Result<Store, Failure>)
    ensures
        outcome(r) == resolved(found.deep_view()),
{
    match found {
        Some(store) => {
            if store.object_id.is_some() {
                Ok(store)
            } else {
                Err(Failure::UnknownTenant)
            }
        },
        None => Err(Failure::UnknownTenant),
    }
}

/// The first step of the resolution: the question for the tenant that the
/// request selects.
pub fn ask_for_store(headers: &RequestHeaders) -> (r: Result<Query, Failure>)
    ensures
        match tenant_selector(headers@) {
            Ok(name) => r matches Ok(Query::FindStoreByName { name: asked }) && asked@ == name,
            Err(failure) => r matches Err(f) && f@ == failure,
        },
{
    match store_selector(headers) {
        Ok(store_name) => Ok(Query::FindStoreByName { name: store_name.to_owned() }),
        Err(failure) => Err(failure),
    }
}

/// The second step of the resolution: what the answer to the question for
/// the tenant is worth.
pub fn store_answered(answer: Answer) -> (r: Result<Store, Failure>)
    ensures
        match answer {
            Answer::Store(found) => outcome(r) == resolved(found.deep_view()),
            _ => r matches Err(f) && f@ == FailureView::UnexpectedAnswer,
        },
        r matches Ok(store) ==> store.object_id is Some,
{
    match answer {
        Answer::Store(found) => require_store(found),
        _ => Err(Failure::UnexpectedAnswer),
    }
}

/// The identity of the tenant of a request, given the answer to the
/// question for the tenant.
pub fn tenant_answered(answer: Answer) -> (r: Result<ObjectId, Failure>)
    ensures
        match answer {
            Answer::Store(found) => match resolved(found.deep_view()) {
                Ok(store) => r matches Ok(id) && id == store.object_id->0,
                Err(failure) => r matches Err(f) && f@ == failure,
            },
            _ => r matches Err(f) && f@ == FailureView::UnexpectedAnswer,
        },
{
    match store_answered(answer) {
        Ok(store) => match store.object_id {
            Some(id) => Ok(id),
            None => Err(Failure::UnknownTenant),
        },
        Err(failure) => Err(failure),
    }
}

/// Binds a request to its tenant: fails where the request selects none or
/// where no tenant has the selected name.
pub fn get_store_from_headers(headers: &RequestHeaders, mongo_repo: &MongoRepository) -> (r: Result<
    Store,
    Failure,
>)
    ensures
        outcome(r) == mongo_repo@.resolve(headers@),
        r matches Ok(store) ==> store.object_id is Some,
{
    match ask_for_store(headers) {
        Ok(query) => match mongo_repo.read(&query) {
            Some(answer) => store_answered(answer),
            None => Err(Failure::UnexpectedAnswer),
        },
        Err(failure) => Err(failure),
    }
}

} // verus!
