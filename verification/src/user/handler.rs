use crate::common::jwt::{generate_jwt_at, issued_token, verifies_as_issued, TOKEN_LIFETIME};
use crate::common::object_id::ObjectId;
use crate::common::response::{outcome, Failure, FailureView, Reply, StatusCode};
use crate::common::types::{RequestHeaders, Status};
use crate::config::Config;
use crate::consistency::lemma_registration_consistent;
use crate::database::{MongoRepository, RepositoryError, RepositoryView};
use crate::exchange::{ends_with, turned_down, Answer, Query, Step};
use crate::store::helper::{ask_for_store, resolved, tenant_answered, tenant_selector};
use crate::user::model::{LoginRequest, Rank, RegisterRequest, User, UserResponse, UserView};
use crate::user::password::{check_password, hash_password, password_check, password_verdict};
use vstd::prelude::*;

verus! {

/// The principal that a registration makes: a customer of the tenant, with
/// the credential under which its password is stored.
pub open spec fn new_user(
    store_id: ObjectId,
    user_id: Seq<char>,
    email: Seq<char>,
    credential: Seq<char>,
) -> UserView {
    UserView {
        object_id: None,
        store_id: Some(store_id),
        user_id,
        email,
        password: credential,
        rank: Rank::Customer,
    }
}

/// Whether a password and its confirmation agree.
pub open spec fn passwords_match(password: Seq<char>, confirmation: Seq<char>) -> Result<
    (),
    FailureView,
> {
    if password == confirmation {
        Ok(())
    } else {
        Err(FailureView::PasswordMismatch)
    }
}

/// Whether an email is still free, given what the lookup of it within the
/// tenant found.
pub open spec fn email_free(existing: Option<UserView>) -> Result<(), FailureView> {
    match existing {
        Some(_) => Err(FailureView::DuplicateEmail),
        None => Ok(()),
    }
}

/// Whether a login is still free, given what the lookup of it within the
/// tenant found.
pub open spec fn login_free(existing: Option<UserView>) -> Result<(), FailureView> {
    match existing {
        Some(_) => Err(FailureView::DuplicateUserId),
        None => Ok(()),
    }
}

/// What the lookup of a login is worth.
pub open spec fn known_user(found: Option<UserView>) -> Result<UserView, FailureView> {
    match found {
        Some(user) => Ok(user),
        None => Err(FailureView::UnknownUser),
    }
}

/// The identity of a stored principal.
pub open spec fn user_identity(user: UserView) -> Result<ObjectId, FailureView> {
    match user.object_id {
        Some(id) => Ok(id),
        None => Err(FailureView::InvalidUserRecord),
    }
}

/// What an issued token is worth as a reply.
pub open spec fn token_issued(token: Option<Seq<char>>) -> Result<Seq<char>, FailureView> {
    match token {
        Some(text) => Ok(text),
        None => Err(FailureView::TokenIssueFailed),
    }
}

/// Whether a token can be issued at the second `now`: the second at which
/// it expires must be one that can be counted.
pub open spec fn expiry_counted(now: u64) -> Result<(), FailureView> {
    if now + TOKEN_LIFETIME <= u64::MAX {
        Ok(())
    } else {
        Err(FailureView::TokenIssueFailed)
    }
}

impl RepositoryView {
    /// Whether a tenant can take a registration at the second `now`: the
    /// password and its confirmation must agree, a token must be issuable,
    /// and neither the email nor the login may be taken within the tenant.
    pub open spec fn registration_admission(
        self,
        store_id: ObjectId,
        user_id: Seq<char>,
        email: Seq<char>,
        password: Seq<char>,
        confirmation: Seq<char>,
        now: u64,
    ) -> Result<(), FailureView> {
        match passwords_match(password, confirmation) {
            Ok(_) => match expiry_counted(now) {
                Ok(_) => match email_free(self.find_user_by_email(store_id, email)) {
                    Ok(_) => login_free(self.find_user_by_user_id(store_id, user_id)),
                    Err(failure) => Err(failure),
                },
                Err(failure) => Err(failure),
            },
            Err(failure) => Err(failure),
        }
    }

    /// The token that a login earns at the second `now`: the tenant must
    /// have a principal of that login, the password must match its stored
    /// credential, and the principal must have an identity.
    pub open spec fn login(
        self,
        store_id: ObjectId,
        user_id: Seq<char>,
        password: Seq<char>,
        secret: Seq<char>,
        now: u64,
    ) -> Result<Seq<char>, FailureView> {
        login_outcome(
            self.find_user_by_user_id(store_id, user_id),
            store_id,
            password,
            secret,
            now,
        )
    }
}

/// The token that a login earns at the second `now`, given what the lookup
/// of the login within the tenant found.
pub open spec fn login_outcome(
    found: Option<UserView>,
    store_id: ObjectId,
    password: Seq<char>,
    secret: Seq<char>,
    now: u64,
) -> Result<Seq<char>, FailureView> {
    match known_user(found) {
        Ok(user) => match password_check(password_verdict(password, user.password)) {
            Ok(_) => match user_identity(user) {
                Ok(id) => token_issued(issued_token(id, store_id, secret, now)),
                Err(failure) => Err(failure),
            },
            Err(failure) => Err(failure),
        },
        Err(failure) => Err(failure),
    }
}

/// Turns a registration down where the password and its confirmation
/// differ.
pub fn ensure_passwords_match(body: &RegisterRequest) -> (r: Result<(), Failure>)
    ensures
        outcome(r) == passwords_match(body.password@, body.confirm_password@),
{
    if body.password == body.confirm_password {
        Ok(())
    } else {
        Err(Failure::PasswordMismatch)
    }
}

/// Turns a registration down where its email is taken within the tenant.
pub fn ensure_email_free(existing: &Option<User>) -> (r: Result<(), Failure>)
    ensures
        outcome(r) == email_free(existing.deep_view()),
{
    match existing {
        Some(_) => Err(Failure::DuplicateEmail),
        None => Ok(()),
    }
}

/// Turns a registration down where its login is taken within the tenant.
pub fn ensure_login_free(existing: &Option<User>) -> (r: Result<(), Failure>)
    ensures
        outcome(r) == login_free(existing.deep_view()),
{
    match existing {
        Some(_) => Err(Failure::DuplicateUserId),
        None => Ok(()),
    }
}

/// Takes what the lookup of a login found.
pub fn require_user(found: Option<User>) -> (r: Result<User, Failure>)
    ensures
        outcome(r) == known_user(found.deep_view()),
{
    match found {
        Some(user) => Ok(user),
        None => Err(Failure::UnknownUser),
    }
}

/// The identity of a stored principal, which a malformed document may lack.
pub fn identity_of(user: &User) -> (r: Result<ObjectId, Failure>)
    ensures
        match user_identity(user@) {
            Ok(id) => r matches Ok(given) && given == id,
            Err(failure) => r matches Err(f) && f@ == failure,
        },
{
    match user.object_id {
        Some(id) => Ok(id),
        None => Err(Failure::InvalidUserRecord),
    }
}

/// The reply that hands out a token, where one could be issued.
pub fn token_reply(token: Option<String>) -> (r: Result<(StatusCode, UserResponse), Failure>)
    ensures
        match token_issued(token.deep_view()) {
            Ok(text) => r matches Ok((code, response)) && code == StatusCode::Succeeded
                && response.status == Status::Success && response.token@ == text,
            Err(failure) => r matches Err(f) && f@ == failure,
        },
{
    match token {
        Some(token) => Ok((StatusCode::Succeeded, UserResponse { status: Status::Success, token })),
        None => Err(Failure::TokenIssueFailed),
    }
}

/// Turns a registration down where no token could be issued for it.
pub fn ensure_expiry_counted(now: u64) -> (r: Result<(), Failure>)
    ensures
        outcome(r) == expiry_counted(now),
{
    match now.checked_add(TOKEN_LIFETIME) {
        Some(_) => Ok(()),
        None => Err(Failure::TokenIssueFailed),
    }
}

/// The reply to a registration, given what the document store said of the
/// insertion: the token of the new principal, issued at the second `now`.
pub fn user_registered(
    created: Result<ObjectId, RepositoryError>,
    store_id: ObjectId,
    secret: &str,
    now: u64,
) -> (r: Result<(StatusCode, UserResponse), Failure>)
    ensures
        match created {
            Ok(id) => match token_issued(issued_token(id, store_id, secret@, now)) {
                Ok(text) => r matches Ok((code, response)) && code == StatusCode::Succeeded
                    && response.status == Status::Success && response.token@ == text,
                Err(failure) => r matches Err(f) && f@ == failure,
            },
            Err(_) => r matches Err(f) && f@ == FailureView::UserCreationFailed,
        },
        created is Ok && expiry_counted(now) is Ok ==> r is Ok,
        created is Ok && r is Ok ==> verifies_as_issued(
            r->Ok_0.1.token@,
            created->Ok_0,
            store_id,
            secret@,
            now,
        ),
{
    match created {
        Ok(id) => token_reply(generate_jwt_at(id, store_id, secret, now)),
        Err(_) => Err(Failure::UserCreationFailed),
    }
}

/// Whether a principal was put in under an identity that was free.
pub open spec fn registered(
    before: RepositoryView,
    after: RepositoryView,
    user: UserView,
    id: ObjectId,
) -> bool {
    !before.has_user_id(id) && after == before.with_user(user, id)
}

/// The principal to put in for a registration, given what the hashing of
/// its password came to.
pub fn user_to_store(
    store_id: ObjectId,
    body: &RegisterRequest,
    credential: Result<String, Failure>,
) -> (r: Result<User, Failure>)
    ensures
        match credential {
            Ok(text) => r matches Ok(user) && user@ == new_user(
                store_id,
                body.user_id@,
                body.email@,
                text@,
            ),
            Err(failure) => r matches Err(f) && f@ == failure@,
        },
{
    match credential {
        Ok(hashed_password) => Ok(
            User {
                store_id: Some(store_id),
                object_id: None,
                user_id: body.user_id.clone(),
                email: body.email.clone(),
                password: hashed_password,
                rank: Rank::Customer,
            },
        ),
        Err(failure) => Err(failure),
    }
}

/// Where a registration stands.
#[derive(Debug)]
pub enum Registration {
    /// The tenant that the request selects is being looked up.
    ResolvingTenant,
    /// A principal of the new email is being looked up within the tenant.
    CheckingEmail { store_id: ObjectId },
    /// A principal of the new login is being looked up within the tenant.
    CheckingLogin { store_id: ObjectId },
    /// The new principal is being put in.
    Storing { store_id: ObjectId },
    /// The reply is made.
    Finished,
}

impl Registration {
    /// How many questions the handling may still ask, at most.
    pub open spec fn steps_left(self) -> nat {
        match self {
            Registration::ResolvingTenant => 4,
            Registration::CheckingEmail { .. } => 3,
            Registration::CheckingLogin { .. } => 2,
            Registration::Storing { .. } => 1,
            Registration::Finished => 0,
        }
    }

    /// Starts with the question for the tenant of the request.
    pub fn begin(headers: &RequestHeaders) -> (r: (Registration, Step<Reply<UserResponse>>))
        ensures
            match tenant_selector(headers@) {
                Ok(name) => r.1 matches Step::Ask(Query::FindStoreByName { name: asked })
                    && asked@ == name && r.0 is ResolvingTenant,
                Err(failure) => ends_with(r.1, failure),
            },
    {
        match ask_for_store(headers) {
            Ok(query) => (Registration::ResolvingTenant, Step::Ask(query)),
            Err(failure) => (Registration::Finished, Step::Done(Err(failure))),
        }
    }

    /// Takes the answer to the last question and goes on: from the tenant,
    /// where the password and its confirmation agree and a token can be
    /// issued, to the question whether the email is taken, then whether the
    /// login is, then, with the password hashed, to the insertion under the
    /// identity `user_id`, and from there to the reply, which carries the
    /// token issued at the second `now`.
    pub fn advance(
        self,
        answer: Answer,
        body: &RegisterRequest,
        secret: &str,
        now: u64,
        user_id: ObjectId,
    ) -> (r: (Registration, Step<Reply<UserResponse>>))
        ensures
            r.1 is Ask ==> r.0.steps_left() < self.steps_left(),
            self is Storing && answer is Created && answer->Created_0 is Ok && expiry_counted(now)
                is Ok ==> r.1 is Done && r.1->Done_0 is Ok,
            self is Storing && answer is Created && answer->Created_0 is Ok && r.1 is Done
                && r.1->Done_0 is Ok ==> verifies_as_issued(
                r.1->Done_0->Ok_0.1.token@,
                answer->Created_0->Ok_0,
                self->Storing_store_id,
                secret@,
                now,
            ),
            match self {
                Registration::ResolvingTenant => match answer {
                    Answer::Store(found) => match resolved(found.deep_view()) {
                        Ok(store) => match passwords_match(body.password@, body.confirm_password@) {
                            Ok(_) => match expiry_counted(now) {
                                Ok(_) => r.1 matches Step::Ask(
                                    Query::FindUserByEmail { store_id, email },
                                ) && store_id == store.object_id->0 && email@ == body.email@
                                    && r.0 == (Registration::CheckingEmail { store_id }),
                                Err(failure) => ends_with(r.1, failure),
                            },
                            Err(failure) => ends_with(r.1, failure),
                        },
                        Err(failure) => ends_with(r.1, failure),
                    },
                    _ => ends_with(r.1, FailureView::UnexpectedAnswer),
                },
                Registration::CheckingEmail { store_id } => match answer {
                    Answer::User(existing) => match email_free(existing.deep_view()) {
                        Ok(_) => r.1 matches Step::Ask(
                            Query::FindUserByUserId { store_id: tenant, user_id },
                        ) && tenant == store_id && user_id@ == body.user_id@ && r.0 == (
                        Registration::CheckingLogin { store_id }),
                        Err(failure) => ends_with(r.1, failure),
                    },
                    _ => ends_with(r.1, FailureView::UnexpectedAnswer),
                },
                Registration::CheckingLogin { store_id } => match answer {
                    Answer::User(existing) => match login_free(existing.deep_view()) {
                        Ok(_) => match r.1 {
                            Step::Ask(query) => query matches Query::CreateUser { user } && user@
                                == (UserView {
                                object_id: Some(user_id),
                                ..new_user(store_id, body.user_id@, body.email@, user.password@)
                            }) && password_verdict(body.password@, user.password@) == Some(true)
                                && r.0 == (Registration::Storing { store_id }),
                            Step::Done(result) => result matches Err(f) && f@
                                == FailureView::HashingFailed,
                        },
                        Err(failure) => ends_with(r.1, failure),
                    },
                    _ => ends_with(r.1, FailureView::UnexpectedAnswer),
                },
                Registration::Storing { store_id } => match answer {
                    Answer::Created(Ok(id)) => match token_issued(
                        issued_token(id, store_id, secret@, now),
                    ) {
                        Ok(text) => r.1 matches Step::Done(Ok((code, response))) && code
                            == StatusCode::Succeeded && response.status == Status::Success
                            && response.token@ == text,
                        Err(failure) => ends_with(r.1, failure),
                    },
                    Answer::Created(Err(_)) => ends_with(r.1, FailureView::UserCreationFailed),
                    _ => ends_with(r.1, FailureView::UnexpectedAnswer),
                },
                Registration::Finished => ends_with(r.1, FailureView::UnexpectedAnswer),
            },
    {
        match self {
            Registration::ResolvingTenant => {
                let store_id = match tenant_answered(answer) {
                    Ok(id) => id,
                    Err(failure) => return (Registration::Finished, Step::Done(Err(failure))),
                };
                match ensure_passwords_match(body) {
                    Ok(_) => {},
                    Err(failure) => return (Registration::Finished, Step::Done(Err(failure))),
                }
                match ensure_expiry_counted(now) {
                    Ok(_) => (
                        Registration::CheckingEmail { store_id },
                        Step::Ask(Query::FindUserByEmail { store_id, email: body.email.clone() }),
                    ),
                    Err(failure) => (Registration::Finished, Step::Done(Err(failure))),
                }
            },
            Registration::CheckingEmail { store_id } => match answer {
                Answer::User(existing) => match ensure_email_free(&existing) {
                    Ok(_) => (
                        Registration::CheckingLogin { store_id },
                        Step::Ask(
                            Query::FindUserByUserId { store_id, user_id: body.user_id.clone() },
                        ),
                    ),
                    Err(failure) => (Registration::Finished, Step::Done(Err(failure))),
                },
                _ => (Registration::Finished, Step::Done(Err(Failure::UnexpectedAnswer))),
            },
            Registration::CheckingLogin { store_id } => match answer {
                Answer::User(existing) => match ensure_login_free(&existing) {
                    Ok(_) => {
                        let credential = hash_password(body.password.as_str());
                        match user_to_store(store_id, body, credential) {
                            Ok(user) => {
                                let mut user = user;
                                user.object_id = Some(user_id);
                                (
                                    Registration::Storing { store_id },
                                    Step::Ask(Query::CreateUser { user }),
                                )
                            },
                            Err(failure) => (Registration::Finished, Step::Done(Err(failure))),
                        }
                    },
                    Err(failure) => (Registration::Finished, Step::Done(Err(failure))),
                },
                _ => (Registration::Finished, Step::Done(Err(Failure::UnexpectedAnswer))),
            },
            Registration::Storing { store_id } => match answer {
                Answer::Created(created) => (
                    Registration::Finished,
                    Step::Done(user_registered(created, store_id, secret, now)),
                ),
                _ => (Registration::Finished, Step::Done(Err(Failure::UnexpectedAnswer))),
            },
            Registration::Finished => (
                Registration::Finished,
                Step::Done(Err(Failure::UnexpectedAnswer)),
            ),
        }
    }
}

/// Where a login stands.
#[derive(Debug)]
pub enum Login {
    /// The tenant that the request selects is being looked up.
    ResolvingTenant,
    /// The principal of the login is being looked up within the tenant.
    FindingUser { store_id: ObjectId },
    /// The reply is made.
    Finished,
}

impl Login {
    /// How many questions the handling may still ask, at most.
    pub open spec fn steps_left(self) -> nat {
        match self {
            Login::ResolvingTenant => 2,
            Login::FindingUser { .. } => 1,
            Login::Finished => 0,
        }
    }

    /// Starts with the question for the tenant of the request.
    pub fn begin(headers: &RequestHeaders) -> (r: (Login, Step<Reply<UserResponse>>))
        ensures
            match tenant_selector(headers@) {
                Ok(name) => r.1 matches Step::Ask(Query::FindStoreByName { name: asked })
                    && asked@ == name && r.0 is ResolvingTenant,
                Err(failure) => ends_with(r.1, failure),
            },
    {
        match ask_for_store(headers) {
            Ok(query) => (Login::ResolvingTenant, Step::Ask(query)),
            Err(failure) => (Login::Finished, Step::Done(Err(failure))),
        }
    }

    /// Takes the answer to the last question and goes on: from the tenant
    /// to the principal of the login, and from there, by its password and
    /// its identity, to the reply, which carries the token issued at the
    /// second `now`.
    pub fn advance(self, answer: Answer, body: &LoginRequest, secret: &str, now: u64) -> (r: (
        Login,
        Step<Reply<UserResponse>>,
    ))
        ensures
            r.1 is Ask ==> r.0.steps_left() < self.steps_left(),
            match self {
                Login::ResolvingTenant => match answer {
                    Answer::Store(found) => match resolved(found.deep_view()) {
                        Ok(store) => r.1 matches Step::Ask(
                            Query::FindUserByUserId { store_id, user_id },
                        ) && store_id == store.object_id->0 && user_id@ == body.user_id@ && r.0
                            == (Login::FindingUser { store_id }),
                        Err(failure) => ends_with(r.1, failure),
                    },
                    _ => ends_with(r.1, FailureView::UnexpectedAnswer),
                },
                Login::FindingUser { store_id } => match answer {
                    Answer::User(found) => match login_outcome(
                        found.deep_view(),
                        store_id,
                        body.password@,
                        secret@,
                        now,
                    ) {
                        Ok(token) => r.1 matches Step::Done(Ok((code, response))) && code
                            == StatusCode::Succeeded && response.status == Status::Success
                            && response.token@ == token && verifies_as_issued(
                            token,
                            found.deep_view()->0.object_id->0,
                            store_id,
                            secret@,
                            now,
                        ),
                        Err(failure) => ends_with(r.1, failure),
                    },
                    _ => ends_with(r.1, FailureView::UnexpectedAnswer),
                },
                Login::Finished => ends_with(r.1, FailureView::UnexpectedAnswer),
            },
    {
        match self {
            Login::ResolvingTenant => {
                match tenant_answered(answer) {
                    Ok(store_id) => (
                        Login::FindingUser { store_id },
                        Step::Ask(
                            Query::FindUserByUserId { store_id, user_id: body.user_id.clone() },
                        ),
                    ),
                    Err(failure) => (Login::Finished, Step::Done(Err(failure))),
                }
            },
            Login::FindingUser { store_id } => match answer {
                Answer::User(found) => {
                    let user = match require_user(found) {
                        Ok(user) => user,
                        Err(failure) => return (Login::Finished, Step::Done(Err(failure))),
                    };
                    match check_password(body.password.as_str(), user.password.as_str()) {
                        Ok(_) => {},
                        Err(failure) => return (Login::Finished, Step::Done(Err(failure))),
                    }
                    let user_object_id = match identity_of(&user) {
                        Ok(id) => id,
                        Err(failure) => return (Login::Finished, Step::Done(Err(failure))),
                    };
                    (
                        Login::Finished,
                        Step::Done(
                            token_reply(generate_jwt_at(user_object_id, store_id, secret, now)),
                        ),
                    )
                },
                _ => (Login::Finished, Step::Done(Err(Failure::UnexpectedAnswer))),
            },
            Login::Finished => (Login::Finished, Step::Done(Err(Failure::UnexpectedAnswer))),
        }
    }
}

/// Registers a principal, as a customer and under the identity `user_id`,
/// under the tenant of the request and hands out its token, issued at the
/// second `now`. Fails, before anything is stored, where the tenant cannot
/// be resolved, the password and its confirmation differ, no token can be
/// issued at that second, or the email or the login is taken within the
/// tenant; and where the password cannot be hashed or the identity is
/// taken. The credential that is stored is one that the password matches.
pub fn register_user(
    headers: &RequestHeaders,
    mongo_repo: &mut MongoRepository,
    body: &RegisterRequest,
    config: &Config,
    now: u64,
    user_id: ObjectId,
) -> (r: Reply<UserResponse>)
    ensures
        old(mongo_repo)@.consistent() ==> final(mongo_repo)@.consistent(),
        match old(mongo_repo)@.resolve(headers@) {
            Ok(store) => match old(mongo_repo)@.registration_admission(
                store.object_id->0,
                body.user_id@,
                body.email@,
                body.password@,
                body.confirm_password@,
                now,
            ) {
                Ok(_) => {
                    ||| turned_down(
                        r,
                        FailureView::HashingFailed,
                        old(mongo_repo)@,
                        final(mongo_repo)@,
                    )
                    ||| old(mongo_repo)@.has_user_id(user_id) && turned_down(
                        r,
                        FailureView::UserCreationFailed,
                        old(mongo_repo)@,
                        final(mongo_repo)@,
                    )
                    ||| {
                        &&& !old(mongo_repo)@.has_user_id(user_id)
                        &&& r matches Ok((code, response))
                        &&& code == StatusCode::Succeeded
                        &&& response.status == Status::Success
                        &&& issued_token(user_id, store.object_id->0, config.jwt_secret@, now)
                            == Some(response.token@)
                        &&& verifies_as_issued(
                            response.token@,
                            user_id,
                            store.object_id->0,
                            config.jwt_secret@,
                            now,
                        )
                        &&& exists|credential: Seq<char>|
                            password_verdict(body.password@, credential) == Some(true)
                                && #[trigger] registered(
                                old(mongo_repo)@,
                                final(mongo_repo)@,
                                new_user(
                                    store.object_id->0,
                                    body.user_id@,
                                    body.email@,
                                    credential,
                                ),
                                user_id,
                            )
                    }
                },
                Err(failure) => turned_down(r, failure, old(mongo_repo)@, final(mongo_repo)@),
            },
            Err(failure) => turned_down(r, failure, old(mongo_repo)@, final(mongo_repo)@),
        },
{
    let secret = config.jwt_secret.as_str();
    let (state, step) = Registration::begin(headers);
    let answer = match step {
        Step::Ask(query) => mongo_repo.answer(query),
        Step::Done(result) => return result,
    };
    let (state, step) = state.advance(answer, body, secret, now, user_id);
    let answer = match step {
        Step::Ask(query) => mongo_repo.answer(query),
        Step::Done(result) => return result,
    };
    let (state, step) = state.advance(answer, body, secret, now, user_id);
    let answer = match step {
        Step::Ask(query) => mongo_repo.answer(query),
        Step::Done(result) => return result,
    };
    let (state, step) = state.advance(answer, body, secret, now, user_id);
    let ghost stored = step->Ask_0->user@;
    let answer = match step {
        Step::Ask(query) => mongo_repo.answer(query),
        Step::Done(result) => return result,
    };
    proof {
        if !old(mongo_repo)@.has_user_id(user_id) {
            let store_id = old(mongo_repo)@.resolve(headers@)->Ok_0.object_id->0;
            let user = new_user(store_id, body.user_id@, body.email@, stored.password);
            assert(registered(old(mongo_repo)@, mongo_repo@, user, user_id));
            if old(mongo_repo)@.consistent() {
                lemma_registration_consistent(old(mongo_repo)@, store_id, user, user_id);
            }
        }
    }
    let (_, step) = state.advance(answer, body, secret, now, user_id);
    match step {
        Step::Ask(_) => Err(Failure::UnexpectedAnswer),
        Step::Done(result) => result,
    }
}

/// Logs a principal in under the tenant of the request and hands out its
/// token, issued at the second `now`. Fails where the tenant cannot be
/// resolved, the tenant has no principal of that login, the stored
/// credential cannot be checked, the password is wrong, the stored
/// principal has no identity or the token cannot be issued. Changes
/// nothing.
pub fn login_user(
    headers: &RequestHeaders,
    mongo_repo: &MongoRepository,
    body: &LoginRequest,
    config: &Config,
    now: u64,
) -> (r: Reply<UserResponse>)
    ensures
        match mongo_repo@.resolve(headers@) {
            Ok(store) => match mongo_repo@.login(
                store.object_id->0,
                body.user_id@,
                body.password@,
                config.jwt_secret@,
                now,
            ) {
                Ok(token) => r matches Ok((code, response)) && code == StatusCode::Succeeded
                    && response.status == Status::Success && response.token@ == token
                    && verifies_as_issued(
                    token,
                    mongo_repo@.find_user_by_user_id(
                        store.object_id->0,
                        body.user_id@,
                    )->0.object_id->0,
                    store.object_id->0,
                    config.jwt_secret@,
                    now,
                ),
                Err(failure) => r matches Err(f) && f@ == failure,
            },
            Err(failure) => r matches Err(f) && f@ == failure,
        },
{
    let secret = config.jwt_secret.as_str();
    let (state, step) = Login::begin(headers);
    let answer = match step {
        Step::Ask(query) => match mongo_repo.read(&query) {
            Some(answer) => answer,
            None => return Err(Failure::UnexpectedAnswer),
        },
        Step::Done(result) => return result,
    };
    let (state, step) = state.advance(answer, body, secret, now);
    let answer = match step {
        Step::Ask(query) => match mongo_repo.read(&query) {
            Some(answer) => answer,
            None => return Err(Failure::UnexpectedAnswer),
        },
        Step::Done(result) => return result,
    };
    let (_, step) = state.advance(answer, body, secret, now);
    match step {
        Step::Ask(_) => Err(Failure::UnexpectedAnswer),
        Step::Done(result) => result,
    }
}

} // verus!
