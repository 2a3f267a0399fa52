use crate::common::object_id::ObjectId;
use crate::database::{
    find_one, first_match, lemma_first_match_is, lemma_first_match_none, MongoRepository,
    RepositoryError, RepositoryView,
};
use crate::user::model::{User, UserView};
use vstd::prelude::*;

verus! {

/// The filter that accepts the principal of a given identity, in any tenant.
pub open spec fn user_with_id(id: ObjectId) -> spec_fn(UserView) -> bool {
    |u: UserView| u.object_id == Some(id)
}

/// The filter that accepts the principal of a given identity within a tenant.
pub open spec fn user_of(store_id: ObjectId, id: ObjectId) -> spec_fn(UserView) -> bool {
    |u: UserView| u.object_id == Some(id) && u.store_id == Some(store_id)
}

/// The filter that accepts the principals of a given email within a tenant.
pub open spec fn user_with_email(store_id: ObjectId, email: Seq<char>) -> spec_fn(
    UserView,
) -> bool {
    |u: UserView| u.store_id == Some(store_id) && u.email == email
}

/// The filter that accepts the principals of a given login within a tenant.
pub open spec fn user_with_login(store_id: ObjectId, user_id: Seq<char>) -> spec_fn(
    UserView,
) -> bool {
    |u: UserView| u.store_id == Some(store_id) && u.user_id == user_id
}

impl RepositoryView {
    /// Whether a principal has that identity.
    pub open spec fn has_user_id(self, id: ObjectId) -> bool {
        first_match(self.users, user_with_id(id)) is Some
    }

    /// The document store after a principal was put in under the identity
    /// `id`.
    pub open spec fn with_user(self, user: UserView, id: ObjectId) -> RepositoryView {
        RepositoryView {
            users: self.users.push(UserView { object_id: Some(id), ..user }),
            ..self
        }
    }

    /// The principal of that identity within the tenant.
    pub open spec fn find_user_by_id(self, store_id: ObjectId, id: ObjectId) -> Option<UserView> {
        find_one(self.users, user_of(store_id, id))
    }

    /// The first principal of that email within the tenant.
    pub open spec fn find_user_by_email(self, store_id: ObjectId, email: Seq<char>) -> Option<
        UserView,
    > {
        find_one(self.users, user_with_email(store_id, email))
    }

    /// The first principal of that login within the tenant.
    pub open spec fn find_user_by_user_id(self, store_id: ObjectId, user_id: Seq<char>) -> Option<
        UserView,
    > {
        find_one(self.users, user_with_login(store_id, user_id))
    }
}

impl MongoRepository {
    /// Whether a principal has that identity.
    fn user_id_taken(&self, id: ObjectId) -> (r: bool)
        ensures
            r == self@.has_user_id(id),
    {
        let mut i: usize = 0;
        while i < self.user_collection.len()
            invariant
                i <= self.user_collection.len(),
                forall|j: int| 0 <= j < i ==> !user_with_id(id)(#[trigger] self@.users[j]),
            decreases self.user_collection.len() - i,
        {
            if self.user_collection[i].object_id == Some(id) {
                proof {
                    lemma_first_match_is(self@.users, user_with_id(id), i as int);
                }
                return true;
            }
            i = i + 1;
        }
        proof {
            lemma_first_match_none(self@.users, user_with_id(id));
        }
        false
    }

    /// Puts a principal in under the identity `id`, unless a principal has
    /// that identity already.
    pub fn create_user_with_id(&mut self, new_user: User, id: ObjectId) -> (r: Result<
        ObjectId,
        RepositoryError,
    >)
        ensures
            match r {
                Ok(given) => given == id && !old(self)@.has_user_id(id) && final(self)@
                    == old(self)@.with_user(new_user@, id),
                Err(e) => e == RepositoryError::DuplicateKey && old(self)@.has_user_id(id)
                    && final(self)@ == old(self)@,
            },
    {
        if self.user_id_taken(id) {
            return Err(RepositoryError::DuplicateKey);
        }
        let mut user = new_user;
        user.object_id = Some(id);
        self.user_collection.push(user);
        assert(self@.users =~= old(self)@.with_user(new_user@, id).users);
        Ok(id)
    }

    /// Puts a principal in under the identity it carries. Fails, and changes
    /// nothing, where it carries none or where the identity is taken.
    pub fn create_user(&mut self, new_user: User) -> (r: Result<ObjectId, RepositoryError>)
        ensures
            match new_user.object_id {
                Some(own) => if old(self)@.has_user_id(own) {
                    r == Err::<ObjectId, RepositoryError>(RepositoryError::DuplicateKey)
                        && final(self)@ == old(self)@
                } else {
                    r == Ok::<ObjectId, RepositoryError>(own) && final(self)@
                        == old(self)@.with_user(new_user@, own)
                },
                None => r == Err::<ObjectId, RepositoryError>(RepositoryError::MissingKey)
                    && final(self)@ == old(self)@,
            },
    {
        match new_user.object_id {
            Some(own) => self.create_user_with_id(new_user, own),
            None => Err(RepositoryError::MissingKey),
        }
    }

    /// The principal of that identity within the tenant.
    pub fn find_user_by_id(&self, store_id: &ObjectId, id: &ObjectId) -> (r: Option<User>)
        ensures
            r.deep_view() == self@.find_user_by_id(*store_id, *id),
    {
        let mut i: usize = 0;
        while i < self.user_collection.len()
            invariant
                i <= self.user_collection.len(),
                forall|j: int|
                    0 <= j < i ==> !user_of(*store_id, *id)(#[trigger] self@.users[j]),
            decreases self.user_collection.len() - i,
        {
            let user = &self.user_collection[i];
            if user.object_id == Some(*id) && user.store_id == Some(*store_id) {
                proof {
                    lemma_first_match_is(self@.users, user_of(*store_id, *id), i as int);
                }
                return Some(user.clone());
            }
            i = i + 1;
        }
        proof {
            lemma_first_match_none(self@.users, user_of(*store_id, *id));
        }
        None
    }

    /// The first principal of that email within the tenant.
    pub fn find_user_by_email(&self, store_id: &ObjectId, email: &str) -> (r: Option<User>)
        ensures
            r.deep_view() == self@.find_user_by_email(*store_id, email@),
    {
        let wanted = email.to_owned();
        let mut i: usize = 0;
        while i < self.user_collection.len()
            invariant
                i <= self.user_collection.len(),
                wanted@ == email@,
                forall|j: int|
                    0 <= j < i ==> !user_with_email(*store_id, email@)(#[trigger] self@.users[j]),
            decreases self.user_collection.len() - i,
        {
            let user = &self.user_collection[i];
            if user.store_id == Some(*store_id) && user.email == wanted {
                proof {
                    lemma_first_match_is(
                        self@.users,
                        user_with_email(*store_id, email@),
                        i as int,
                    );
                }
                return Some(user.clone());
            }
            i = i + 1;
        }
        proof {
            lemma_first_match_none(self@.users, user_with_email(*store_id, email@));
        }
        None
    }

    /// The first principal of that login within the tenant.
    pub fn find_user_by_user_id(&self, store_id: &ObjectId, user_id: &str) -> (r: Option<User>)
        ensures
            r.deep_view() == self@.find_user_by_user_id(*store_id, user_id@),
    {
        let wanted = user_id.to_owned();
        let mut i: usize = 0;
        while i < self.user_collection.len()
            invariant
                i <= self.user_collection.len(),
                wanted@ == user_id@,
                forall|j: int|
                    0 <= j < i ==> !user_with_login(*store_id, user_id@)(
                        #[trigger] self@.users[j],
                    ),
            decreases self.user_collection.len() - i,
        {
            let user = &self.user_collection[i];
            if user.store_id == Some(*store_id) && user.user_id == wanted {
                proof {
                    lemma_first_match_is(
                        self@.users,
                        user_with_login(*store_id, user_id@),
                        i as int,
                    );
                }
                return Some(user.clone());
            }
            i = i + 1;
        }
        proof {
            lemma_first_match_none(self@.users, user_with_login(*store_id, user_id@));
        }
        None
    }
}

} // verus!
