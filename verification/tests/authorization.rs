use storefront::common::jwt::{generate_jwt_at, TOKEN_LIFETIME};
use storefront::common::object_id::ObjectId;
use storefront::common::response::Failure;
use storefront::common::types::RequestHeaders;
use storefront::config::Config;
use storefront::database::MongoRepository;
use storefront::store::model::Store;
use storefront::user::helper::{
    check_rank, parse_principal_id, validate_authorization, validate_user_rank,
};
use storefront::user::model::{Rank, User};

const NOW: u64 = 1_700_000_000;

fn config() -> Config {
    Config {
        server_port: "3000".to_string(),
        database_url: "mongodb://localhost".to_string(),
        database_name: "storefront".to_string(),
        jwt_secret: "secret".to_string(),
        resend_api_key: "unused".to_string(),
        vronix_security_key: "open sesame".to_string(),
    }
}

fn id(byte: u8) -> ObjectId {
    ObjectId { bytes: [byte; 12] }
}

fn user(store: ObjectId, login: &str, rank: Rank) -> User {
    User {
        object_id: None,
        store_id: Some(store),
        user_id: login.to_string(),
        email: format!("{}@example.com", login),
        password: "credential".to_string(),
        rank,
    }
}

fn request(store: &str, token: Option<String>) -> RequestHeaders {
    RequestHeaders { store_name: Some(store.to_string()), bearer_token: token, security_key: None }
}

/// Two tenants, acme (1) and globex (2); under acme a customer (11), a vip
/// (12) and an administrator (13); under globex an administrator (21).
fn two_tenants() -> MongoRepository {
    let mut repo = MongoRepository::init();
    repo.create_store_with_id(Store::new("acme".to_string()), id(1)).unwrap();
    repo.create_store_with_id(Store::new("globex".to_string()), id(2)).unwrap();
    repo.create_user_with_id(user(id(1), "carol", Rank::Customer), id(11)).unwrap();
    repo.create_user_with_id(user(id(1), "victor", Rank::Vip), id(12)).unwrap();
    repo.create_user_with_id(user(id(1), "alice", Rank::Administrator), id(13)).unwrap();
    repo.create_user_with_id(user(id(2), "gus", Rank::Administrator), id(21)).unwrap();
    repo
}

fn token(subject: ObjectId, tenant: ObjectId) -> Option<String> {
    generate_jwt_at(subject, tenant, "secret", NOW)
}

#[test]
fn ranks_stand_in_one_line() {
    let ranks = [Rank::Customer, Rank::Vip, Rank::Administrator];
    for (i, a) in ranks.iter().enumerate() {
        for (j, b) in ranks.iter().enumerate() {
            assert_eq!(a.at_least(*b), i >= j);
            assert_eq!(a.at_least(*b), a >= b);
        }
    }
    assert_eq!(Rank::Customer.level(), 0);
    assert_eq!(Rank::Vip.level(), 1);
    assert_eq!(Rank::Administrator.level(), 2);
}

#[test]
fn a_vip_requirement_lets_vips_and_administrators_pass_and_stops_customers() {
    let repo = two_tenants();
    let as_of = |subject: u8| request("acme", token(id(subject), id(1)));
    assert!(validate_user_rank(&as_of(12), Rank::Vip, &repo, &config(), NOW).is_ok());
    assert!(validate_user_rank(&as_of(13), Rank::Vip, &repo, &config(), NOW).is_ok());
    assert!(matches!(
        validate_user_rank(&as_of(11), Rank::Vip, &repo, &config(), NOW),
        Err(Failure::InsufficientRank)
    ));
    assert!(validate_user_rank(&as_of(11), Rank::Customer, &repo, &config(), NOW).is_ok());
    assert!(matches!(
        validate_user_rank(&as_of(12), Rank::Administrator, &repo, &config(), NOW),
        Err(Failure::InsufficientRank)
    ));
    assert!(validate_user_rank(&as_of(13), Rank::Administrator, &repo, &config(), NOW).is_ok());
}

#[test]
fn a_token_of_one_tenant_is_a_mismatch_at_another() {
    let repo = two_tenants();
    let acme_token = token(id(13), id(1));
    assert!(validate_user_rank(
        &request("acme", acme_token.clone()),
        Rank::Administrator,
        &repo,
        &config(),
        NOW
    )
    .is_ok());
    assert!(matches!(
        validate_user_rank(
            &request("globex", acme_token.clone()),
            Rank::Customer,
            &repo,
            &config(),
            NOW
        ),
        Err(Failure::TenantMismatch)
    ));
    assert!(matches!(
        validate_authorization(
            &request("globex", acme_token),
            &id(2).to_hex(),
            "secret",
            NOW
        ),
        Err(Failure::TenantMismatch)
    ));
}

#[test]
fn a_principal_of_one_tenant_is_not_found_under_another() {
    let repo = two_tenants();
    // A token that is signed for globex but names an administrator of acme.
    let forged = token(id(13), id(2));
    assert!(matches!(
        validate_user_rank(&request("globex", forged), Rank::Customer, &repo, &config(), NOW),
        Err(Failure::PrincipalNotFound)
    ));
    assert!(repo.find_user_by_id(&id(2), &id(13)).is_none());
    assert!(repo.find_user_by_id(&id(1), &id(13)).is_some());
    assert!(repo.find_user_by_user_id(&id(2), "alice").is_none());
    assert!(repo.find_user_by_email(&id(2), "alice@example.com").is_none());
    let alice = repo.find_user_by_email(&id(1), "alice@example.com").unwrap();
    assert_eq!(alice.object_id, Some(id(13)));
}

#[test]
fn each_step_of_the_authorization_has_its_failure() {
    let repo = two_tenants();
    let good = token(id(13), id(1));
    let check = |headers: RequestHeaders| {
        validate_user_rank(&headers, Rank::Administrator, &repo, &config(), NOW)
    };
    assert!(matches!(
        check(RequestHeaders { store_name: None, bearer_token: good.clone(), security_key: None }),
        Err(Failure::MissingTenantSelector)
    ));
    assert!(matches!(check(request("initech", good.clone())), Err(Failure::UnknownTenant)));
    assert!(matches!(check(request("acme", None)), Err(Failure::MissingAuthorization)));
    assert!(matches!(
        check(request("acme", Some("not a token".to_string()))),
        Err(Failure::InvalidToken)
    ));
    assert!(matches!(
        check(request("acme", generate_jwt_at(id(13), id(1), "other secret", NOW))),
        Err(Failure::InvalidToken)
    ));
    assert!(matches!(
        check(request("acme", token(id(99), id(1)))),
        Err(Failure::PrincipalNotFound)
    ));
    assert!(check(request("acme", good)).is_ok());
}

#[test]
fn an_expired_token_does_not_pass() {
    let repo = two_tenants();
    let headers = request("acme", token(id(13), id(1)));
    let last = NOW + TOKEN_LIFETIME;
    assert!(validate_user_rank(&headers, Rank::Administrator, &repo, &config(), last).is_ok());
    assert!(matches!(
        validate_user_rank(&headers, Rank::Administrator, &repo, &config(), last + 1),
        Err(Failure::InvalidToken)
    ));
}

#[test]
fn a_token_past_its_expiry_is_invalid_even_at_its_own_tenant() {
    let headers = request("acme", token(id(13), id(1)));
    let expiry = NOW + TOKEN_LIFETIME;
    assert!(validate_authorization(&headers, &id(1).to_hex(), "secret", expiry).is_ok());
    assert!(matches!(
        validate_authorization(&headers, &id(1).to_hex(), "secret", expiry + 1),
        Err(Failure::InvalidToken)
    ));
    assert!(matches!(
        validate_authorization(&headers, &id(2).to_hex(), "secret", expiry + 1),
        Err(Failure::InvalidToken)
    ));
}

#[test]
fn authentication_gives_the_tenant_and_the_subject() {
    let headers = request("acme", token(id(13), id(1)));
    let (tenant, subject) =
        validate_authorization(&headers, &id(1).to_hex(), "secret", NOW).unwrap();
    assert_eq!(tenant, "010101010101010101010101");
    assert_eq!(subject, "0d0d0d0d0d0d0d0d0d0d0d0d");
    // The tenant is compared as it is written, digit for digit.
    assert!(matches!(
        validate_authorization(&headers, "010101010101010101010101 ", "secret", NOW),
        Err(Failure::TenantMismatch)
    ));
}

#[test]
fn the_subject_of_a_token_must_write_out_an_identity() {
    assert_eq!(parse_principal_id("0d0d0d0d0d0d0d0d0d0d0d0d").unwrap(), id(13));
    assert!(matches!(parse_principal_id("alice"), Err(Failure::InvalidPrincipalId)));
    assert!(matches!(parse_principal_id(""), Err(Failure::InvalidPrincipalId)));
}

#[test]
fn the_rank_of_the_principal_found_decides() {
    let vip = Some(user(id(1), "victor", Rank::Vip));
    assert!(check_rank(&vip, Rank::Customer).is_ok());
    assert!(check_rank(&vip, Rank::Vip).is_ok());
    assert!(matches!(check_rank(&vip, Rank::Administrator), Err(Failure::InsufficientRank)));
    assert!(matches!(check_rank(&None, Rank::Customer), Err(Failure::PrincipalNotFound)));
}
