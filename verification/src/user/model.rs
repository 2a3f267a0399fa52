use crate::common::object_id::ObjectId;
use crate::common::types::Status;
use vstd::prelude::*;

verus! {

/// The privilege of a principal within its tenant:
/// `Customer` below `Vip` below `Administrator`.
#[derive(Clone, Copy, Debug, PartialEq, Eq, PartialOrd, Ord, Hash, Structural)]
pub enum Rank {
    Customer,
    Vip,
    Administrator,
}

impl Rank {
    /// The place of the rank in the order, from 0 for the lowest.
    pub open spec fn spec_level(self) -> int {
        match self {
            Rank::Customer => 0,
            Rank::Vip => 1,
            Rank::Administrator => 2,
        }
    }

    /// The place of the rank in the order, from 0 for the lowest.
    pub fn level(self) -> (r: u8)
        ensures
            r == self.spec_level(),
    {
        match self {
            Rank::Customer => 0,
            Rank::Vip => 1,
            Rank::Administrator => 2,
        }
    }

    /// Whether this rank is `minimum` or above it.
    pub open spec fn spec_at_least(self, minimum: Rank) -> bool {
        self.spec_level() >= minimum.spec_level()
    }

    /// Whether this rank is `minimum` or above it.
    #[verifier::when_used_as_spec(spec_at_least)]
    pub fn at_least(self, minimum: Rank) -> (r: bool)
        ensures
            r == self.spec_at_least(minimum),
    {
        self.level() >= minimum.level()
    }
}

/// The ranks are in one line: each is at least itself, of two ranks one is
/// at least the other, two ranks that are each at least the other are one
/// rank, and what is at least a rank is at least what that rank is at
/// least. `Administrator` stands above `Vip`, and `Vip` above `Customer`.
pub proof fn lemma_rank_order(a: Rank, b: Rank, c: Rank)
    ensures
        a.spec_at_least(a),
        a.spec_at_least(b) || b.spec_at_least(a),
        a.spec_at_least(b) && b.spec_at_least(a) ==> a == b,
        a.spec_at_least(b) && b.spec_at_least(c) ==> a.spec_at_least(c),
        Rank::Administrator.spec_at_least(Rank::Vip),
        Rank::Vip.spec_at_least(Rank::Customer),
        !Rank::Customer.spec_at_least(Rank::Vip),
        !Rank::Vip.spec_at_least(Rank::Administrator),
{
}

/// A principal: an actor that belongs to exactly one tenant.
#[derive(Debug)]
pub struct User {
    pub object_id: Option<ObjectId>,
    pub store_id: Option<ObjectId>,
    pub user_id: String,
    pub email: String,
    pub password: String,
    pub rank: Rank,
}

/// What the contracts see of a principal.
pub struct UserView {
    pub object_id: Option<ObjectId>,
    pub store_id: Option<ObjectId>,
    pub user_id: Seq<char>,
    pub email: Seq<char>,
    pub password: Seq<char>,
    pub rank: Rank,
}

impl View for User {
    type V = UserView;

    open spec fn view(&self) -> UserView {
        UserView {
            object_id: self.object_id,
            store_id: self.store_id,
            user_id: self.user_id@,
            email: self.email@,
            password: self.password@,
            rank: self.rank,
        }
    }
}

impl DeepView for User {
    type V = UserView;

    open spec fn deep_view(&self) -> UserView {
        self@
    }
}

impl Clone for User {
    fn clone(&self) -> (r: Self)
        ensures
            r@ == self@,
    {
        User {
            object_id: self.object_id,
            store_id: self.store_id,
            user_id: self.user_id.clone(),
            email: self.email.clone(),
            password: self.password.clone(),
            rank: self.rank,
        }
    }
}

/// The reply to a registration or a login: the token to present from then on.
#[derive(Debug)]
pub struct UserResponse {
    pub status: Status,
    pub token: String,
}

/// What a registration asks for.
#[derive(Debug)]
pub struct RegisterRequest {
    pub user_id: String,
    pub email: String,
    pub password: String,
    pub confirm_password: String,
}

impl Clone for RegisterRequest {
    fn clone(&self) -> (r: Self)
        ensures
            r.user_id@ == self.user_id@,
            r.email@ == self.email@,
            r.password@ == self.password@,
            r.confirm_password@ == self.confirm_password@,
    {
        RegisterRequest {
            user_id: self.user_id.clone(),
            email: self.email.clone(),
            password: self.password.clone(),
            confirm_password: self.confirm_password.clone(),
        }
    }
}

/// What a login asks for.
#[derive(Debug)]
pub struct LoginRequest {
    pub user_id: String,
    pub password: String,
}

} // verus!
