use storefront::common::jwt::validate_jwt_at;
use storefront::common::object_id::ObjectId;
use storefront::common::response::{Failure, StatusCode};
use storefront::common::types::{RequestHeaders, Status};
use storefront::config::Config;
use storefront::database::{MongoRepository, RepositoryError};
use storefront::store::model::Store;
use storefront::user::handler::{
    ensure_email_free, ensure_expiry_counted, ensure_login_free, ensure_passwords_match,
    identity_of, login_user, register_user, require_user, token_reply, user_registered,
    user_to_store,
};
use storefront::user::model::{LoginRequest, Rank, RegisterRequest, User};
use storefront::user::password::{check_password, hash_password, hashed};

const NOW: u64 = 1_700_000_000;

fn config() -> Config {
    Config {
        server_port: "3000".to_string(),
        database_url: "mongodb://localhost".to_string(),
        database_name: "storefront".to_string(),
        jwt_secret: "secret".to_string(),
        resend_api_key: "unused".to_string(),
        vronix_security_key: "open sesame".to_string(),
    }
}

fn fresh() -> ObjectId {
    ObjectId { bytes: bson::oid::ObjectId::new().bytes() }
}

fn id(byte: u8) -> ObjectId {
    ObjectId { bytes: [byte; 12] }
}

fn at(store: &str) -> RequestHeaders {
    RequestHeaders { store_name: Some(store.to_string()), bearer_token: None, security_key: None }
}

fn two_tenants() -> MongoRepository {
    let mut repo = MongoRepository::init();
    repo.create_store_with_id(Store::new("acme".to_string()), id(1)).unwrap();
    repo.create_store_with_id(Store::new("globex".to_string()), id(2)).unwrap();
    repo
}

fn registration(login: &str, email: &str, password: &str) -> RegisterRequest {
    RegisterRequest {
        user_id: login.to_string(),
        email: email.to_string(),
        password: password.to_string(),
        confirm_password: password.to_string(),
    }
}

#[test]
fn a_credential_matches_its_password_and_no_other() {
    let credential = hash_password("hunter2").unwrap();
    assert_ne!(credential, "hunter2");
    assert!(credential.starts_with("$2"));
    assert!(check_password("hunter2", &credential).is_ok());
    assert!(matches!(check_password("hunter3", &credential), Err(Failure::WrongPassword)));
    assert!(matches!(check_password("", &credential), Err(Failure::WrongPassword)));
    assert_ne!(hash_password("hunter2").unwrap(), credential);
}

#[test]
fn a_hashing_that_broke_off_is_a_failure() {
    assert_eq!(hashed(Ok("credential".to_string())).unwrap(), "credential");
    assert!(matches!(
        hashed(Err(bcrypt::BcryptError::CostNotAllowed(99))),
        Err(Failure::HashingFailed)
    ));
}

#[test]
fn a_known_credential_is_checked() {
    let credential = "$2b$04$EGdrhbKUv8Oc9vGiXX0HQOxSg445d458Muh7DAHskb6QbtCvdxcie";
    assert!(check_password("correctbatteryhorsestapler", credential).is_ok());
    assert!(matches!(
        check_password("wrongbatteryhorsestapler", credential),
        Err(Failure::WrongPassword)
    ));
}

#[test]
fn what_is_no_credential_cannot_be_checked() {
    assert!(matches!(check_password("hunter2", "hunter2"), Err(Failure::PasswordCheckFailed)));
    assert!(matches!(check_password("hunter2", ""), Err(Failure::PasswordCheckFailed)));
}

#[test]
fn registering_makes_a_customer_of_the_tenant_and_hands_out_its_token() {
    let mut repo = two_tenants();
    let body = registration("carol", "carol@example.com", "hunter2");
    let (code, reply) = register_user(&at("acme"), &mut repo, &body, &config(), NOW, fresh()).unwrap();
    assert_eq!(code, StatusCode::Succeeded);
    assert_eq!(reply.status, Status::Success);

    assert_eq!(repo.user_collection.len(), 1);
    let stored = &repo.user_collection[0];
    assert_eq!(stored.store_id, Some(id(1)));
    assert_eq!(stored.user_id, "carol");
    assert_eq!(stored.email, "carol@example.com");
    assert_eq!(stored.rank, Rank::Customer);
    assert_ne!(stored.password, "hunter2");
    assert!(check_password("hunter2", &stored.password).is_ok());

    let claims = validate_jwt_at(&reply.token, "secret", NOW).unwrap();
    assert_eq!(Some(claims.id), stored.object_id.map(|id| id.to_hex()));
    assert_eq!(claims.store_id, id(1).to_hex());
    assert_eq!(claims.exp, NOW + 2_592_000);
}

#[test]
fn a_registration_is_turned_down_for_each_of_its_reasons() {
    let mut repo = two_tenants();
    let body = registration("carol", "carol@example.com", "hunter2");
    register_user(&at("acme"), &mut repo, &body, &config(), NOW, fresh()).unwrap();

    let nowhere = RequestHeaders { store_name: None, bearer_token: None, security_key: None };
    assert!(matches!(
        register_user(&nowhere, &mut repo, &body, &config(), NOW, fresh()),
        Err(Failure::MissingTenantSelector)
    ));
    assert!(matches!(
        register_user(&at("initech"), &mut repo, &body, &config(), NOW, fresh()),
        Err(Failure::UnknownTenant)
    ));
    let mut mistyped = registration("dave", "dave@example.com", "hunter2");
    mistyped.confirm_password = "hunter3".to_string();
    assert!(matches!(
        register_user(&at("acme"), &mut repo, &mistyped, &config(), NOW, fresh()),
        Err(Failure::PasswordMismatch)
    ));
    assert!(matches!(
        register_user(
            &at("acme"),
            &mut repo,
            &registration("dave", "carol@example.com", "x"),
            &config(),
            NOW,
            fresh()
        ),
        Err(Failure::DuplicateEmail)
    ));
    assert!(matches!(
        register_user(
            &at("acme"),
            &mut repo,
            &registration("carol", "dave@example.com", "x"),
            &config(),
            NOW,
            fresh()
        ),
        Err(Failure::DuplicateUserId)
    ));
    assert_eq!(repo.user_collection.len(), 1);
}

#[test]
fn a_registration_that_cannot_end_in_a_token_stores_nothing() {
    let mut repo = two_tenants();
    let body = registration("carol", "carol@example.com", "hunter2");
    assert!(matches!(
        register_user(&at("acme"), &mut repo, &body, &config(), u64::MAX, fresh()),
        Err(Failure::TokenIssueFailed)
    ));
    assert!(repo.user_collection.is_empty());
    assert!(ensure_expiry_counted(u64::MAX - 2_592_000).is_ok());
    assert!(matches!(
        ensure_expiry_counted(u64::MAX - 2_591_999),
        Err(Failure::TokenIssueFailed)
    ));
}

#[test]
fn a_principal_is_not_registered_under_an_identity_that_is_taken() {
    let mut repo = two_tenants();
    let carol = registration("carol", "carol@example.com", "hunter2");
    register_user(&at("acme"), &mut repo, &carol, &config(), NOW, id(11)).unwrap();
    assert_eq!(repo.user_collection[0].object_id, Some(id(11)));
    let dave = registration("dave", "dave@example.com", "hunter2");
    assert!(matches!(
        register_user(&at("globex"), &mut repo, &dave, &config(), NOW, id(11)),
        Err(Failure::UserCreationFailed)
    ));
    assert_eq!(repo.user_collection.len(), 1);
}

#[test]
fn logins_and_emails_are_taken_within_a_tenant_only() {
    let mut repo = two_tenants();
    let body = registration("carol", "carol@example.com", "hunter2");
    register_user(&at("acme"), &mut repo, &body, &config(), NOW, fresh()).unwrap();
    assert!(register_user(&at("globex"), &mut repo, &body, &config(), NOW, fresh()).is_ok());
    assert_eq!(repo.user_collection.len(), 2);
    assert_eq!(repo.user_collection[1].store_id, Some(id(2)));
    assert_ne!(repo.user_collection[0].object_id, repo.user_collection[1].object_id);
}

#[test]
fn the_principal_of_a_registration_is_a_customer_with_the_hashed_password() {
    let body = registration("carol", "carol@example.com", "hunter2");
    assert!(matches!(
        user_to_store(id(1), &body, Err(Failure::HashingFailed)),
        Err(Failure::HashingFailed)
    ));
    let user = user_to_store(id(1), &body, Ok("credential".to_string())).unwrap();
    assert_eq!(user.object_id, None);
    assert_eq!(user.store_id, Some(id(1)));
    assert_eq!(user.user_id, "carol");
    assert_eq!(user.email, "carol@example.com");
    assert_eq!(user.password, "credential");
    assert_eq!(user.rank, Rank::Customer);
}

#[test]
fn the_steps_of_a_registration_stand_alone() {
    let mut body = registration("carol", "carol@example.com", "hunter2");
    assert!(ensure_passwords_match(&body).is_ok());
    body.confirm_password = "Hunter2".to_string();
    assert!(matches!(ensure_passwords_match(&body), Err(Failure::PasswordMismatch)));
    let stored = User {
        object_id: Some(id(11)),
        store_id: Some(id(1)),
        user_id: "carol".to_string(),
        email: "carol@example.com".to_string(),
        password: "credential".to_string(),
        rank: Rank::Customer,
    };
    assert!(ensure_email_free(&None).is_ok());
    assert!(ensure_login_free(&None).is_ok());
    assert!(matches!(ensure_email_free(&Some(stored.clone())), Err(Failure::DuplicateEmail)));
    assert!(matches!(ensure_login_free(&Some(stored.clone())), Err(Failure::DuplicateUserId)));
    assert!(matches!(
        user_registered(Err(RepositoryError::Unavailable), id(1), "secret", NOW),
        Err(Failure::UserCreationFailed)
    ));
    assert!(matches!(
        user_registered(Ok(id(11)), id(1), "secret", u64::MAX),
        Err(Failure::TokenIssueFailed)
    ));
    let (code, reply) = user_registered(Ok(id(11)), id(1), "secret", NOW).unwrap();
    assert_eq!(code, StatusCode::Succeeded);
    assert_eq!(validate_jwt_at(&reply.token, "secret", NOW).unwrap().id, id(11).to_hex());
    assert!(matches!(token_reply(None), Err(Failure::TokenIssueFailed)));
    assert_eq!(token_reply(Some("t".to_string())).unwrap().1.token, "t");
    assert!(matches!(require_user(None), Err(Failure::UnknownUser)));
    assert_eq!(require_user(Some(stored.clone())).unwrap().user_id, "carol");
    assert_eq!(identity_of(&stored).unwrap(), id(11));
    let mut malformed = stored;
    malformed.object_id = None;
    assert!(matches!(identity_of(&malformed), Err(Failure::InvalidUserRecord)));
}

#[test]
fn logging_in_takes_the_right_password_of_a_principal_of_the_tenant() {
    let mut repo = two_tenants();
    let body = registration("carol", "carol@example.com", "hunter2");
    register_user(&at("acme"), &mut repo, &body, &config(), NOW, fresh()).unwrap();
    let stored_id = repo.user_collection[0].object_id.unwrap();

    let login = LoginRequest { user_id: "carol".to_string(), password: "hunter2".to_string() };
    let (code, reply) = login_user(&at("acme"), &repo, &login, &config(), NOW + 5).unwrap();
    assert_eq!(code, StatusCode::Succeeded);
    assert_eq!(reply.status, Status::Success);
    let claims = validate_jwt_at(&reply.token, "secret", NOW + 5).unwrap();
    assert_eq!(claims.id, stored_id.to_hex());
    assert_eq!(claims.store_id, id(1).to_hex());
    assert_eq!(claims.exp, NOW + 5 + 2_592_000);

    let wrong = LoginRequest { user_id: "carol".to_string(), password: "hunter3".to_string() };
    assert!(matches!(
        login_user(&at("acme"), &repo, &wrong, &config(), NOW),
        Err(Failure::WrongPassword)
    ));
    let unknown = LoginRequest { user_id: "dave".to_string(), password: "hunter2".to_string() };
    assert!(matches!(
        login_user(&at("acme"), &repo, &unknown, &config(), NOW),
        Err(Failure::UnknownUser)
    ));
    // The principal belongs to acme: globex does not know it.
    assert!(matches!(
        login_user(&at("globex"), &repo, &login, &config(), NOW),
        Err(Failure::UnknownUser)
    ));
    assert!(matches!(
        login_user(&at("initech"), &repo, &login, &config(), NOW),
        Err(Failure::UnknownTenant)
    ));
    assert!(matches!(
        login_user(&at("acme"), &repo, &login, &config(), u64::MAX),
        Err(Failure::TokenIssueFailed)
    ));
}

#[test]
fn a_malformed_principal_cannot_log_in() {
    let mut repo = two_tenants();
    repo.user_collection.push(User {
        object_id: None,
        store_id: Some(id(1)),
        user_id: "ghost".to_string(),
        email: "ghost@example.com".to_string(),
        password: "$2b$04$EGdrhbKUv8Oc9vGiXX0HQOxSg445d458Muh7DAHskb6QbtCvdxcie".to_string(),
        rank: Rank::Customer,
    });
    repo.user_collection.push(User {
        object_id: Some(id(12)),
        store_id: Some(id(1)),
        user_id: "plain".to_string(),
        email: "plain@example.com".to_string(),
        password: "not a credential".to_string(),
        rank: Rank::Customer,
    });
    let ghost = LoginRequest {
        user_id: "ghost".to_string(),
        password: "correctbatteryhorsestapler".to_string(),
    };
    assert!(matches!(
        login_user(&at("acme"), &repo, &ghost, &config(), NOW),
        Err(Failure::InvalidUserRecord)
    ));
    let plain = LoginRequest { user_id: "plain".to_string(), password: "x".to_string() };
    assert!(matches!(
        login_user(&at("acme"), &repo, &plain, &config(), NOW),
        Err(Failure::PasswordCheckFailed)
    ));
}

#[test]
fn a_principal_keeps_its_own_identity_and_none_is_used_twice() {
    let mut repo = two_tenants();
    let carol = User {
        object_id: Some(id(11)),
        store_id: Some(id(1)),
        user_id: "carol".to_string(),
        email: "carol@example.com".to_string(),
        password: "credential".to_string(),
        rank: Rank::Vip,
    };
    assert_eq!(repo.create_user(carol.clone()), Ok(id(11)));
    assert_eq!(repo.create_user(carol.clone()), Err(RepositoryError::DuplicateKey));
    let mut anonymous = carol;
    anonymous.object_id = None;
    assert_eq!(repo.create_user(anonymous.clone()), Err(RepositoryError::MissingKey));
    let given = repo.create_user_with_id(anonymous, id(12)).unwrap();
    assert_ne!(given, id(11));
    assert_eq!(repo.user_collection.len(), 2);
    assert_eq!(repo.user_collection[1].object_id, Some(given));
    assert_eq!(repo.find_user_by_user_id(&id(1), "carol").unwrap().object_id, Some(id(11)));
    assert_eq!(repo.find_user_by_id(&id(1), &given).unwrap().rank, Rank::Vip);
}
