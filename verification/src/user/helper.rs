use crate::common::jwt::{validate_jwt_at, verified_claims, verifies_as_issued, TOKEN_LIFETIME};
use crate::common::object_id::{lemma_hex_injective, lemma_parse_of_hex, ObjectId};
use crate::common::response::{outcome, Failure, FailureView};
use crate::common::types::{RequestHeaders, RequestHeadersView};
use crate::config::Config;
use crate::database::{MongoRepository, RepositoryView};
use crate::exchange::{ends_with, Answer, Query, Step};
use crate::store::helper::{ask_for_store, resolved, tenant_answered, tenant_selector};
use crate::store::model::StoreView;
use crate::user::model::{Rank, User, UserView};
use vstd::prelude::*;

verus! {

/// What guards the creation of a tenant: the request must carry the
/// security key, and it must be the configured one.
pub open spec fn security_check(headers: RequestHeadersView, configured: Seq<char>) -> Result<
    (),
    FailureView,
> {
    match headers.security_key {
        Some(key) => if key == configured {
            Ok(())
        } else {
            Err(FailureView::InvalidSecurityKey)
        },
        None => Err(FailureView::MissingSecurityKey),
    }
}

/// Who presents a request to a tenant, at the second `now`: the request
/// must carry a token, the token must be good, and it must have been issued
/// for the tenant whose identity is written `expected_store_id`. Gives the
/// tenant and the subject that the token names.
pub open spec fn authentication(
    headers: RequestHeadersView,
    expected_store_id: Seq<char>,
    secret: Seq<char>,
    now: u64,
) -> Result<(Seq<char>, Seq<char>), FailureView> {
    match headers.bearer_token {
        Some(token) => match verified_claims(token, secret, now) {
            Some(claims) => if claims.store_id == expected_store_id {
                Ok((claims.store_id, claims.id))
            } else {
                Err(FailureView::TenantMismatch)
            },
            None => Err(FailureView::InvalidToken),
        },
        None => Err(FailureView::MissingAuthorization),
    }
}

/// The identity that the subject of a token writes out.
pub open spec fn principal_id(subject: Seq<char>) -> Result<ObjectId, FailureView> {
    match ObjectId::parsed(subject) {
        Some(id) => Ok(id),
        None => Err(FailureView::InvalidPrincipalId),
    }
}

/// What the lookup of the principal is worth against a required rank.
pub open spec fn rank_check(found: Option<UserView>, required_rank: Rank) -> Result<
    (),
    FailureView,
> {
    match found {
        Some(user) => if user.rank.spec_at_least(required_rank) {
            Ok(())
        } else {
            Err(FailureView::InsufficientRank)
        },
        None => Err(FailureView::PrincipalNotFound),
    }
}

impl RepositoryView {
    /// Whether a request may do what takes the rank `required_rank`, at the
    /// second `now`: its tenant is resolved, its token checked and bound to
    /// that tenant, its principal looked up within the tenant and the
    /// principal's rank held against the required one.
    pub open spec fn authorize(
        self,
        headers: RequestHeadersView,
        required_rank: Rank,
        secret: Seq<char>,
        now: u64,
    ) -> Result<(), FailureView> {
        match self.resolve(headers) {
            Ok(store) => match authentication(headers, store.object_id->0.hex(), secret, now) {
                Ok((_, subject)) => match principal_id(subject) {
                    Ok(id) => rank_check(
                        self.find_user_by_id(store.object_id->0, id),
                        required_rank,
                    ),
                    Err(failure) => Err(failure),
                },
                Err(failure) => Err(failure),
            },
            Err(failure) => Err(failure),
        }
    }
}

/// A request that may do what takes a rank may do what takes any lower
/// rank; and one that is turned down for its rank is turned down for any
/// higher rank.
pub proof fn lemma_authorize_monotone(
    repo: RepositoryView,
    headers: RequestHeadersView,
    lower: Rank,
    higher: Rank,
    secret: Seq<char>,
    now: u64,
)
    requires
        higher.spec_at_least(lower),
    ensures
        repo.authorize(headers, higher, secret, now) is Ok ==> repo.authorize(
            headers,
            lower,
            secret,
            now,
        ) is Ok,
        repo.authorize(headers, lower, secret, now) == Err::<(), FailureView>(
            FailureView::InsufficientRank,
        ) ==> repo.authorize(headers, higher, secret, now) == Err::<(), FailureView>(
            FailureView::InsufficientRank,
        ),
{
}

/// Among the requests of principals that are known to the tenant and
/// present a good token of that tenant, exactly those of principals whose
/// rank is the required one or a higher one pass; the others are turned
/// down for their rank.
pub proof fn lemma_rank_decides(
    repo: RepositoryView,
    headers: RequestHeadersView,
    required_rank: Rank,
    secret: Seq<char>,
    now: u64,
)
    requires
        repo.authorize(headers, Rank::Customer, secret, now) is Ok,
    ensures
        ({
            let store_id = repo.resolve(headers)->Ok_0.object_id->0;
            let subject = authentication(headers, store_id.hex(), secret, now)->Ok_0.1;
            let user = repo.find_user_by_id(store_id, principal_id(subject)->Ok_0)->0;
            repo.authorize(headers, required_rank, secret, now) == if user.rank.spec_at_least(
                required_rank,
            ) {
                Ok::<(), FailureView>(())
            } else {
                Err::<(), FailureView>(FailureView::InsufficientRank)
            }
        }),
{
}

/// A token is bound to the tenant it was issued for: presented to any other
/// tenant it is turned down as a mismatch, though it is well signed and has
/// not expired.
pub proof fn lemma_token_bound_to_tenant(
    headers: RequestHeadersView,
    issued_for: ObjectId,
    presented_to: ObjectId,
    secret: Seq<char>,
    now: u64,
)
    requires
        issued_for != presented_to,
        headers.bearer_token matches Some(token) && (verified_claims(
            token,
            secret,
            now,
        ) matches Some(claims) && claims.store_id == issued_for.hex()),
    ensures
        authentication(headers, presented_to.hex(), secret, now) == Err::<
            (Seq<char>, Seq<char>),
            FailureView,
        >(FailureView::TenantMismatch),
{
    if issued_for.hex() == presented_to.hex() {
        lemma_hex_injective(issued_for, presented_to);
    }
}

/// A token that was issued for one tenant and has not expired is turned
/// down as a mismatch by any other tenant.
pub proof fn lemma_issued_token_bound_to_tenant(
    headers: RequestHeadersView,
    token: Seq<char>,
    subject: ObjectId,
    issued_for: ObjectId,
    issued_at: u64,
    presented_to: ObjectId,
    secret: Seq<char>,
    now: u64,
)
    requires
        verifies_as_issued(token, subject, issued_for, secret, issued_at),
        headers.bearer_token == Some(token),
        now <= issued_at + TOKEN_LIFETIME,
        issued_for != presented_to,
    ensures
        authentication(headers, presented_to.hex(), secret, now) == Err::<
            (Seq<char>, Seq<char>),
            FailureView,
        >(FailureView::TenantMismatch),
        authentication(headers, issued_for.hex(), secret, now) == Ok::<
            (Seq<char>, Seq<char>),
            FailureView,
        >((issued_for.hex(), subject.hex())),
{
    assert(verified_claims(token, secret, now) is Some);
    lemma_token_bound_to_tenant(headers, issued_for, presented_to, secret, now);
}

/// A token that was issued to a principal of a tenant lets a request of
/// that tenant pass, until it expires, exactly where the principal is
/// still known to the tenant and its rank is the required one or a higher
/// one.
pub proof fn lemma_issued_token_authorizes(
    repo: RepositoryView,
    headers: RequestHeadersView,
    token: Seq<char>,
    subject: ObjectId,
    issued_at: u64,
    required_rank: Rank,
    secret: Seq<char>,
    now: u64,
)
    requires
        repo.resolve(headers) is Ok,
        verifies_as_issued(
            token,
            subject,
            repo.resolve(headers)->Ok_0.object_id->0,
            secret,
            issued_at,
        ),
        headers.bearer_token == Some(token),
        now <= issued_at + TOKEN_LIFETIME,
    ensures
        repo.authorize(headers, required_rank, secret, now) == rank_check(
            repo.find_user_by_id(repo.resolve(headers)->Ok_0.object_id->0, subject),
            required_rank,
        ),
{
    assert(verified_claims(token, secret, now) is Some);
    lemma_parse_of_hex(subject);
}

/// No request passes for a tenant on a token issued for another: whatever
/// the rank it asks for and whoever the token names, it is turned down as
/// a mismatch.
pub proof fn lemma_foreign_token_rejected(
    repo: RepositoryView,
    headers: RequestHeadersView,
    issued_for: ObjectId,
    required_rank: Rank,
    secret: Seq<char>,
    now: u64,
)
    requires
        repo.resolve(headers) matches Ok(store) && store.object_id != Some(issued_for),
        headers.bearer_token matches Some(token) && (verified_claims(
            token,
            secret,
            now,
        ) matches Some(claims) && claims.store_id == issued_for.hex()),
    ensures
        repo.authorize(headers, required_rank, secret, now) == Err::<(), FailureView>(
            FailureView::TenantMismatch,
        ),
{
    let store_id = repo.resolve(headers)->Ok_0.object_id->0;
    lemma_token_bound_to_tenant(headers, issued_for, store_id, secret, now);
}

/// Guards the creation of a tenant by the shared security key.
pub fn validate_security_key(headers: &RequestHeaders, config: &Config) -> (r: Result<(), Failure>)
    ensures
        outcome(r) == security_check(headers@, config.vronix_security_key@),
{
    match &headers.security_key {
        Some(key) => {
            if *key == config.vronix_security_key {
                Ok(())
            } else {
                Err(Failure::InvalidSecurityKey)
            }
        },
        None => Err(Failure::MissingSecurityKey),
    }
}

/// Checks the token of a request at the second `now` and binds it to the
/// tenant whose identity is written `expected_store_id`. Gives the tenant
/// and the subject that the token names.
pub fn validate_authorization(
    headers: &RequestHeaders,
    expected_store_id: &str,
    secret: &str,
    now: u64,
) -> (r: Result<(String, String), Failure>)
    ensures
        outcome(r) == authentication(headers@, expected_store_id@, secret@, now),
{
    match &headers.bearer_token {
        Some(token) => match validate_jwt_at(token.as_str(), secret, now) {
            Ok(claims) => {
                if claims.store_id == expected_store_id.to_owned() {
                    Ok((claims.store_id, claims.id))
                } else {
                    Err(Failure::TenantMismatch)
                }
            },
            Err(_) => Err(Failure::InvalidToken),
        },
        None => Err(Failure::MissingAuthorization),
    }
}

/// Reads the identity of the principal from the subject of a token.
pub fn parse_principal_id(subject: &str) -> (r: Result<ObjectId, Failure>)
    ensures
        match principal_id(subject@) {
            Ok(id) => r matches Ok(given) && given == id,
            Err(failure) => r matches Err(f) && f@ == failure,
        },
{
    match ObjectId::parse_str(subject) {
        Some(id) => Ok(id),
        None => Err(Failure::InvalidPrincipalId),
    }
}

/// Holds the principal that the lookup found against the required rank.
pub fn check_rank(found: &Option<User>, required_rank: Rank) -> (r: Result<(), Failure>)
    ensures
        outcome(r) == rank_check(found.deep_view(), required_rank),
{
    match found {
        Some(user) => {
            if user.rank.at_least(required_rank) {
                Ok(())
            } else {
                Err(Failure::InsufficientRank)
            }
        },
        None => Err(Failure::PrincipalNotFound),
    }
}

/// Where the authorization of a request stands. It passes, in this order,
/// through the resolution of the tenant, the verification of the token,
/// the match of the token's tenant with the resolved one and the check of
/// the principal's rank, and ends granted or denied. It stops only where it
/// has a question for the document store: at the start, for the tenant, and
/// once the tenant is matched, for the principal.
#[derive(Debug)]
pub enum RankValidation {
    /// The start: the tenant that the request selects is being looked up.
    ResolvingTenant,
    /// The tenant is resolved, the token verified and its tenant matched;
    /// the principal that the token names is being looked up within the
    /// tenant.
    FindingPrincipal { store_id: ObjectId, user_id: ObjectId },
    /// The rank is checked: the request was granted or denied.
    Finished,
}

/// The principal that a request names, and the tenant it is bound to, given
/// what the lookup of the tenant found: the tenant must be there, the token
/// good and issued for it, and its subject the text of an identity.
pub open spec fn bound_principal(
    headers: RequestHeadersView,
    found: Option<StoreView>,
    secret: Seq<char>,
    now: u64,
) -> Result<(ObjectId, ObjectId), FailureView> {
    match resolved(found) {
        Ok(store) => match authentication(headers, store.object_id->0.hex(), secret, now) {
            Ok((_, subject)) => match principal_id(subject) {
                Ok(id) => Ok((store.object_id->0, id)),
                Err(failure) => Err(failure),
            },
            Err(failure) => Err(failure),
        },
        Err(failure) => Err(failure),
    }
}

/// What a step of the authorization comes to: the question for a
/// principal within a tenant, or the end.
pub enum RankProgress {
    Asks { store_id: ObjectId, user_id: ObjectId },
    Ends(Result<(), FailureView>),
}

impl RankValidation {
    /// How many questions the handling may still ask, at most.
    pub open spec fn steps_left(self) -> nat {
        match self {
            RankValidation::ResolvingTenant => 2,
            RankValidation::FindingPrincipal { .. } => 1,
            RankValidation::Finished => 0,
        }
    }

    /// What the answer to the last question brings the authorization to.
    pub open spec fn progress(
        self,
        answer: Answer,
        headers: RequestHeadersView,
        required_rank: Rank,
        secret: Seq<char>,
        now: u64,
    ) -> RankProgress {
        match self {
            RankValidation::ResolvingTenant => match answer {
                Answer::Store(found) => match bound_principal(
                    headers,
                    found.deep_view(),
                    secret,
                    now,
                ) {
                    Ok((store_id, user_id)) => RankProgress::Asks { store_id, user_id },
                    Err(failure) => RankProgress::Ends(Err(failure)),
                },
                _ => RankProgress::Ends(Err(FailureView::UnexpectedAnswer)),
            },
            RankValidation::FindingPrincipal { .. } => match answer {
                Answer::User(found) => RankProgress::Ends(
                    rank_check(found.deep_view(), required_rank),
                ),
                _ => RankProgress::Ends(Err(FailureView::UnexpectedAnswer)),
            },
            RankValidation::Finished => RankProgress::Ends(Err(FailureView::UnexpectedAnswer)),
        }
    }

    /// Starts the authorization of a request with the question for its
    /// tenant.
    pub fn begin(headers: &RequestHeaders) -> (r: (RankValidation, Step<Result<(), Failure>>))
        ensures
            match tenant_selector(headers@) {
                Ok(name) => r.1 matches Step::Ask(Query::FindStoreByName { name: asked })
                    && asked@ == name && r.0 is ResolvingTenant,
                Err(failure) => ends_with(r.1, failure),
            },
    {
        match ask_for_store(headers) {
            Ok(query) => (RankValidation::ResolvingTenant, Step::Ask(query)),
            Err(failure) => (RankValidation::Finished, Step::Done(Err(failure))),
        }
    }

    /// Takes the answer to the last question and goes on: to the question
    /// for the principal, or to the end.
    pub fn advance(
        self,
        answer: Answer,
        headers: &RequestHeaders,
        required_rank: Rank,
        secret: &str,
        now: u64,
    ) -> (r: (RankValidation, Step<Result<(), Failure>>))
        ensures
            r.1 is Ask ==> r.0.steps_left() < self.steps_left(),
            match self.progress(answer, headers@, required_rank, secret@, now) {
                RankProgress::Asks { store_id, user_id } => r.1 matches Step::Ask(
                    Query::FindUserById { store_id: tenant, id },
                ) && tenant == store_id && id == user_id && r.0 == (
                RankValidation::FindingPrincipal { store_id, user_id }),
                RankProgress::Ends(result) => r.1 matches Step::Done(given) && outcome(given)
                    == result,
            },
    {
        match self {
            RankValidation::ResolvingTenant => {
                let store_id = match tenant_answered(answer) {
                    Ok(id) => id,
                    Err(failure) => return (RankValidation::Finished, Step::Done(Err(failure))),
                };
                let expected = store_id.to_hex();
                let checked = validate_authorization(headers, expected.as_str(), secret, now);
                let subject = match checked {
                    Ok((_, subject)) => subject,
                    Err(failure) => return (RankValidation::Finished, Step::Done(Err(failure))),
                };
                let user_id = match parse_principal_id(subject.as_str()) {
                    Ok(id) => id,
                    Err(failure) => return (RankValidation::Finished, Step::Done(Err(failure))),
                };
                (
                    RankValidation::FindingPrincipal { store_id, user_id },
                    Step::Ask(Query::FindUserById { store_id, id: user_id }),
                )
            },
            RankValidation::FindingPrincipal { .. } => match answer {
                Answer::User(found) => (
                    RankValidation::Finished,
                    Step::Done(check_rank(&found, required_rank)),
                ),
                _ => (RankValidation::Finished, Step::Done(Err(Failure::UnexpectedAnswer))),
            },
            RankValidation::Finished => (
                RankValidation::Finished,
                Step::Done(Err(Failure::UnexpectedAnswer)),
            ),
        }
    }
}

/// Lets a request pass where its principal has the required rank or a
/// higher one within the tenant of the request, at the second `now`.
/// Changes nothing.
pub fn validate_user_rank(
    headers: &RequestHeaders,
    required_rank: Rank,
    mongo_repo: &MongoRepository,
    config: &Config,
    now: u64,
) -> (r: Result<(), Failure>)
    ensures
        outcome(r) == mongo_repo@.authorize(headers@, required_rank, config.jwt_secret@, now),
{
    let secret = config.jwt_secret.as_str();
    let (state, step) = RankValidation::begin(headers);
    let answer = match step {
        Step::Ask(query) => match mongo_repo.read(&query) {
            Some(answer) => answer,
            None => return Err(Failure::UnexpectedAnswer),
        },
        Step::Done(result) => return result,
    };
    let (state, step) = state.advance(answer, headers, required_rank, secret, now);
    let answer = match step {
        Step::Ask(query) => match mongo_repo.read(&query) {
            Some(answer) => answer,
            None => return Err(Failure::UnexpectedAnswer),
        },
        Step::Done(result) => return result,
    };
    let (_, step) = state.advance(answer, headers, required_rank, secret, now);
    match step {
        Step::Ask(_) => Err(Failure::UnexpectedAnswer),
        Step::Done(result) => result,
    }
}

} // verus!
