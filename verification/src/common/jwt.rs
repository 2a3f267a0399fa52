use crate::common::clock::{seconds_of, unix_time, Timestamp};
use crate::common::object_id::ObjectId;
use crate::common::response::{Failure, FailureView};
use vstd::prelude::*;

verus! {

/// How long a token stays good after it was issued: thirty days, in seconds.
pub const TOKEN_LIFETIME: u64 = 2592000;

/// What a token says: who presents it, which tenant it was issued for, and
/// the second at which it expires.
#[derive(Debug)]
pub struct Claims {
    pub id: String,
    pub store_id: String,
    pub exp: u64,
}

/// What the contracts see of the claims of a token.
pub struct ClaimsView {
    pub id: Seq<char>,
    pub store_id: Seq<char>,
    pub exp: u64,
}

impl View for Claims {
    type V = ClaimsView;

    open spec fn view(&self) -> ClaimsView {
        ClaimsView { id: self.id@, store_id: self.store_id@, exp: self.exp }
    }
}

impl DeepView for Claims {
    type V = ClaimsView;

    open spec fn deep_view(&self) -> ClaimsView {
        self@
    }
}

/// The three claims as they are found in a token whose signature holds: each
/// is absent where the token does not carry it in its proper type.
pub struct RawClaims {
    pub id: Option<String>,
    pub store_id: Option<String>,
    pub exp: Option<u64>,
}

/// What the contracts see of the claims as they are found in a token.
pub struct RawClaimsView {
    pub id: Option<Seq<char>>,
    pub store_id: Option<Seq<char>>,
    pub exp: Option<u64>,
}

impl View for RawClaims {
    type V = RawClaimsView;

    open spec fn view(&self) -> RawClaimsView {
        RawClaimsView {
            id: self.id.deep_view(),
            store_id: self.store_id.deep_view(),
            exp: self.exp,
        }
    }
}

/// `jsonwebtoken::errors::Error`: why a token was not signed or not taken.
/// Nothing is read of it.
#[verifier::external_type_specification]
#[verifier::external_body]
pub struct ExTokenError(jsonwebtoken::errors::Error);

/// The token that `jsonwebtoken::encode` makes of the three claims under a
/// secret, or nothing where it fails.
pub uninterp spec fn signed_token(
    id: Seq<char>,
    store_id: Seq<char>,
    exp: u64,
    secret: Seq<char>,
) -> Option<Seq<char>>;

/// The claims that `jsonwebtoken::decode` finds in a token under a secret
/// when it does not look at the clock, or nothing where it turns the token
/// down.
pub uninterp spec fn decoded_token(token: Seq<char>, secret: Seq<char>) -> Option<RawClaimsView>;

/// Whether a token that expires at the second `exp` is past its time at
/// the second `now`.
pub open spec fn expired(exp: u64, now: u64) -> bool {
    exp < now
}

/// The claims that a decoded token makes, where it carries all three and
/// has not expired.
pub open spec fn accepted_claims(decoded: Option<RawClaimsView>, now: u64) -> Option<ClaimsView> {
    match decoded {
        Some(raw) => if raw.id is Some && raw.store_id is Some && raw.exp is Some && !expired(
            raw.exp->0,
            now,
        ) {
            Some(ClaimsView { id: raw.id->0, store_id: raw.store_id->0, exp: raw.exp->0 })
        } else {
            None
        },
        None => None,
    }
}

/// The claims of a token that is good at `now` under a secret.
pub open spec fn verified_claims(token: Seq<char>, secret: Seq<char>, now: u64) -> Option<
    ClaimsView,
> {
    accepted_claims(decoded_token(token, secret), now)
}

/// The token issued at `now` to a principal of a tenant.
pub open spec fn issued_token(
    object_id: ObjectId,
    store_id: ObjectId,
    secret: Seq<char>,
    now: u64,
) -> Option<Seq<char>> {
    if now + TOKEN_LIFETIME > u64::MAX {
        None
    } else {
        signed_token(object_id.hex(), store_id.hex(), (now + TOKEN_LIFETIME) as u64, secret)
    }
}

/// Whether a token verifies as one that was issued at the second `now` to a
/// principal of a tenant: at every second up to its expiry it is taken
/// under the secret, and its claims name the principal, the tenant and the
/// expiry thirty days after `now`.
pub open spec fn verifies_as_issued(
    token: Seq<char>,
    object_id: ObjectId,
    store_id: ObjectId,
    secret: Seq<char>,
    now: u64,
) -> bool {
    forall|at: u64|
        at <= now + TOKEN_LIFETIME ==> #[trigger] verified_claims(token, secret, at) == Some(
            ClaimsView {
                id: object_id.hex(),
                store_id: store_id.hex(),
                exp: (now + TOKEN_LIFETIME) as u64,
            },
        )
}

/// Issues, at the second `now`, a token that names a principal and its
/// tenant and expires thirty days later; none where that second cannot be
/// counted. Until it expires the token verifies under the same secret, to
/// the claims it was issued with.
pub fn generate_jwt_at(object_id: ObjectId, store_id: ObjectId, secret: &str, now: u64) -> (r:
    Option<String>)
    ensures
        r.deep_view() == issued_token(object_id, store_id, secret@, now),
        r is Some <==> now + TOKEN_LIFETIME <= u64::MAX,
        r matches Some(token) ==> verifies_as_issued(token@, object_id, store_id, secret@, now),
{
    match now.checked_add(TOKEN_LIFETIME) {
        Some(exp) => {
            let id = object_id.to_hex();
            let tenant = store_id.to_hex();
            match sign(id.as_str(), tenant.as_str(), exp, secret) {
                Ok(token) => Some(token),
                Err(_) => None,
            }
        },
        None => None,
    }
}

/// Issues a token that names a principal and its tenant and expires thirty
/// days after the call. Gives nothing where the clock stands before 1970.
pub fn generate_jwt(object_id: ObjectId, store_id: ObjectId, secret: &str) -> (r: Option<String>)
    ensures
        exists|moment: Timestamp|
            match #[trigger] seconds_of(moment) {
                Some(now) => r matches Some(token) && issued_token(
                    object_id,
                    store_id,
                    secret@,
                    now,
                ) == Some(token@) && verifies_as_issued(
                    token@,
                    object_id,
                    store_id,
                    secret@,
                    now,
                ),
                None => r is None,
            },
{
    match unix_time() {
        Some(now) => generate_jwt_at(object_id, store_id, secret, now),
        None => None,
    }
}

/// Decides what a decoded token is worth at the second `now`.
pub fn accept_claims(decoded: Result<RawClaims, jsonwebtoken::errors::Error>, now: u64) -> (r:
    Result<Claims, Failure>)
    ensures
        match accepted_claims(
            match decoded {
                Ok(raw) => Some(raw@),
                Err(_) => None,
            },
            now,
        ) {
            Some(claims) => r matches Ok(c) && c@ == claims,
            None => r matches Err(f) && f@ == FailureView::InvalidToken,
        },
{
    match decoded {
        Ok(raw) => match (raw.id, raw.store_id, raw.exp) {
            (Some(id), Some(store_id), Some(exp)) => {
                if exp < now {
                    Err(Failure::InvalidToken)
                } else {
                    Ok(Claims { id, store_id, exp })
                }
            },
            _ => Err(Failure::InvalidToken),
        },
        Err(_) => Err(Failure::InvalidToken),
    }
}

/// Checks a token at the second `now`: its signature under the secret, its
/// three claims and its expiry.
pub fn validate_jwt_at(token: &str, secret: &str, now: u64) -> (r: Result<Claims, Failure>)
    ensures
        match verified_claims(token@, secret@, now) {
            Some(claims) => r matches Ok(c) && c@ == claims,
            None => r matches Err(f) && f@ == FailureView::InvalidToken,
        },
{
    accept_claims(decode(token, secret), now)
}

/// Checks a token at the moment of the call. Where the clock stands before
/// 1970 no token is taken.
pub fn validate_jwt(token: &str, secret: &str) -> (r: Result<Claims, Failure>)
    ensures
        match r {
            Ok(claims) => exists|now: u64| verified_claims(token@, secret@, now) == Some(claims@),
            Err(f) => f@ == FailureView::InvalidToken,
        },
{
    match unix_time() {
        Some(now) => validate_jwt_at(token, secret, now),
        None => Err(Failure::InvalidToken),
    }
}

/// Calls `jsonwebtoken::encode` with the default header, which names
/// HMAC-SHA256, on a JSON object of the three claims `id`, `store_id` and
/// `exp`, under the secret's bytes. What it returns depends on these four
/// values alone. It does not fail: the key is of the family that the header
/// names, a JSON object of two texts and a number is always written out,
/// and the signing itself has no failure. And `jsonwebtoken::decode` under
/// the same secret finds in the token the three claims that were signed:
/// it computes the same signature over the same two parts and reads the
/// same JSON object back.
#[verifier::external_body]
fn sign(id: &str, store_id: &str, exp: u64, secret: &str) -> (r: Result<
    String,
    jsonwebtoken::errors::Error,
>)
    ensures
        r is Ok,
        r matches Ok(token) ==> signed_token(id@, store_id@, exp, secret@) == Some(token@),
        r matches Ok(token) ==> decoded_token(token@, secret@) == Some(
            RawClaimsView { id: Some(id@), store_id: Some(store_id@), exp: Some(exp) },
        ),
{
    let mut claims = serde_json::Map::new();
    claims.insert("id".to_string(), serde_json::Value::from(id));
    claims.insert("store_id".to_string(), serde_json::Value::from(store_id));
    claims.insert("exp".to_string(), serde_json::Value::from(exp));
    let key = jsonwebtoken::EncodingKey::from_secret(secret.as_bytes());
    jsonwebtoken::encode(&jsonwebtoken::Header::default(), &claims, &key)
}

/// Calls `jsonwebtoken::decode` under the secret's bytes, with the default
/// validation but for the check of the expiry against the clock, which is
/// switched off: the token must have three parts, name HMAC-SHA256, bear the
/// right signature and hold a JSON payload with a numeric `exp`. The claims
/// `id` and `store_id` are handed out where they are strings, `exp` where it
/// is an unsigned integer. What it returns depends on the token and the
/// secret alone.
#[verifier::external_body]
fn decode(token: &str, secret: &str) -> (r: Result<RawClaims, jsonwebtoken::errors::Error>)
    ensures
        match r {
            Ok(raw) => decoded_token(token@, secret@) == Some(raw@),
            Err(_) => decoded_token(token@, secret@) is None,
        },
{
    let mut validation = jsonwebtoken::Validation::default();
    validation.validate_exp = false;
    let key = jsonwebtoken::DecodingKey::from_secret(secret.as_bytes());
    let data = jsonwebtoken::decode::<serde_json::Value>(token, &key, &validation)?;
    Ok(RawClaims {
        id: data.claims.get("id").and_then(|v| v.as_str()).map(|s| s.to_string()),
        store_id: data.claims.get("store_id").and_then(|v| v.as_str()).map(|s| s.to_string()),
        exp: data.claims.get("exp").and_then(|v| v.as_u64()),
    })
}

} // verus!
