use storefront::common::clock::Timestamp;
use storefront::common::object_id::ObjectId;
use storefront::common::response::{Failure, StatusCode};
use storefront::common::types::{RequestHeaders, Status};
use storefront::config::Config;
use storefront::database::{MongoRepository, RepositoryError};
use storefront::store::handler::{create_store, ensure_store_name_free, store_created};
use storefront::store::helper::{get_store_from_headers, require_store, store_selector};
use storefront::store::model::{CreateStoreRequest, Store};
use storefront::user::helper::validate_security_key;

fn config() -> Config {
    Config {
        server_port: "3000".to_string(),
        database_url: "mongodb://localhost".to_string(),
        database_name: "storefront".to_string(),
        jwt_secret: "secret".to_string(),
        resend_api_key: "unused".to_string(),
        vronix_security_key: "open sesame".to_string(),
    }
}

fn with_key(key: Option<&str>) -> RequestHeaders {
    RequestHeaders { store_name: None, bearer_token: None, security_key: key.map(str::to_string) }
}

fn selecting(name: Option<&str>) -> RequestHeaders {
    RequestHeaders { store_name: name.map(str::to_string), bearer_token: None, security_key: None }
}

fn fresh() -> ObjectId {
    ObjectId { bytes: bson::oid::ObjectId::new().bytes() }
}

fn id(byte: u8) -> ObjectId {
    ObjectId { bytes: [byte; 12] }
}

#[test]
fn a_new_store_has_no_identity_and_one_moment() {
    let store = Store::new("acme".to_string());
    assert_eq!(store.object_id, None);
    assert_eq!(store.name, "acme");
    assert_eq!(store.create_at, store.update_at);
    assert!(store.create_at.secs > 1_577_836_800);
}

#[test]
fn a_store_is_created_and_touched_at_the_moment_given() {
    let then = Timestamp { secs: 1_700_000_000, nanos: 5 };
    let later = Timestamp { secs: 1_700_000_100, nanos: 7 };
    let mut store = Store::new_at("acme".to_string(), then);
    assert_eq!(store.object_id, None);
    assert_eq!(store.name, "acme");
    assert_eq!((store.create_at, store.update_at), (then, then));
    store.touch(later);
    assert_eq!(store.name, "acme");
    assert_eq!((store.create_at, store.update_at), (then, later));
}

#[test]
fn update_moves_only_the_moment_of_the_last_update() {
    let mut store = Store::new("acme".to_string());
    store.object_id = Some(id(1));
    let created = store.create_at;
    store.update();
    assert_eq!(store.object_id, Some(id(1)));
    assert_eq!(store.name, "acme");
    assert_eq!(store.create_at, created);
    assert!(
        (store.update_at.secs, store.update_at.nanos) >= (created.secs, created.nanos)
    );
}

#[test]
fn the_security_key_must_be_there_and_right() {
    assert!(validate_security_key(&with_key(Some("open sesame")), &config()).is_ok());
    assert!(matches!(
        validate_security_key(&with_key(None), &config()),
        Err(Failure::MissingSecurityKey)
    ));
    assert!(matches!(
        validate_security_key(&with_key(Some("open Sesame")), &config()),
        Err(Failure::InvalidSecurityKey)
    ));
    assert!(matches!(
        validate_security_key(&with_key(Some("")), &config()),
        Err(Failure::InvalidSecurityKey)
    ));
}

#[test]
fn creating_a_store_takes_the_key_and_a_free_name() {
    let mut repo = MongoRepository::init();
    let body = CreateStoreRequest { name: "acme".to_string() };
    let (code, reply) =
        create_store(&with_key(Some("open sesame")), &mut repo, &body, &config(), fresh()).unwrap();
    assert_eq!(code, StatusCode::Created);
    assert_eq!(reply.status, Status::Success);
    assert_eq!(reply.store.name, "acme");
    assert_eq!(reply.store.object_id, None);
    assert_eq!(repo.store_collection.len(), 1);
    assert_eq!(repo.store_collection[0].name, "acme");
    assert!(repo.store_collection[0].object_id.is_some());

    assert!(matches!(
        create_store(&with_key(Some("open sesame")), &mut repo, &body, &config(), fresh()),
        Err(Failure::DuplicateStoreName)
    ));
    assert!(matches!(
        create_store(&with_key(None), &mut repo, &body, &config(), fresh()),
        Err(Failure::MissingSecurityKey)
    ));
    let other = CreateStoreRequest { name: "globex".to_string() };
    assert!(matches!(
        create_store(&with_key(Some("wrong")), &mut repo, &other, &config(), fresh()),
        Err(Failure::InvalidSecurityKey)
    ));
    assert_eq!(repo.store_collection.len(), 1);
    let key = with_key(Some("open sesame"));
    let taken = repo.store_collection[0].object_id.unwrap();
    assert!(matches!(
        create_store(&key, &mut repo, &other, &config(), taken),
        Err(Failure::StoreCreationFailed)
    ));
    assert_eq!(repo.store_collection.len(), 1);
    assert!(create_store(&key, &mut repo, &other, &config(), id(9)).is_ok());
    assert_eq!(repo.store_collection[1].object_id, Some(id(9)));
    let nameless = Store::new("initech".to_string());
    assert_eq!(repo.create_store(nameless), Err(RepositoryError::MissingKey));
    assert_eq!(repo.store_collection.len(), 2);
    assert_ne!(repo.store_collection[0].object_id, repo.store_collection[1].object_id);
}

#[test]
fn the_reply_to_a_creation_follows_the_document_store() {
    let store = Store::new("acme".to_string());
    let (code, reply) = store_created(Ok(id(1)), store).unwrap();
    assert_eq!(code, StatusCode::Created);
    assert_eq!(reply.store.name, "acme");
    for error in [RepositoryError::DuplicateKey, RepositoryError::Unavailable] {
        assert!(matches!(
            store_created(Err(error), Store::new("acme".to_string())),
            Err(Failure::StoreCreationFailed)
        ));
    }
    assert!(ensure_store_name_free(&None).is_ok());
    assert!(matches!(
        ensure_store_name_free(&Some(Store::new("acme".to_string()))),
        Err(Failure::DuplicateStoreName)
    ));
}

#[test]
fn a_store_keeps_its_own_identity_and_none_is_used_twice() {
    let mut repo = MongoRepository::init();
    let mut acme = Store::new("acme".to_string());
    acme.object_id = Some(id(1));
    assert_eq!(repo.create_store(acme.clone()), Ok(id(1)));
    let mut globex = Store::new("globex".to_string());
    globex.object_id = Some(id(1));
    assert_eq!(repo.create_store(globex.clone()), Err(RepositoryError::DuplicateKey));
    assert_eq!(
        repo.create_store_with_id(globex.clone(), id(1)),
        Err(RepositoryError::DuplicateKey)
    );
    assert_eq!(repo.store_collection.len(), 1);
    assert_eq!(repo.create_store_with_id(globex, id(2)), Ok(id(2)));
    assert_eq!(repo.store_collection[1].object_id, Some(id(2)));
    assert_eq!(repo.store_collection[1].name, "globex");
}

#[test]
fn stores_are_found_deleted_and_renamed_by_name() {
    let mut repo = MongoRepository::init();
    repo.create_store_with_id(Store::new("acme".to_string()), id(1)).unwrap();
    repo.create_store_with_id(Store::new("globex".to_string()), id(2)).unwrap();
    repo.create_store_with_id(Store::new("acme".to_string()), id(3)).unwrap();

    assert_eq!(repo.find_store_by_name("acme").unwrap().object_id, Some(id(1)));
    assert_eq!(repo.find_store_by_name("globex").unwrap().object_id, Some(id(2)));
    assert!(repo.find_store_by_name("initech").is_none());

    assert_eq!(repo.rename_store("globex", "globex"), Ok(false));
    assert_eq!(repo.rename_store("initech", "hooli"), Ok(false));
    assert_eq!(repo.rename_store("globex", "hooli"), Ok(true));
    assert_eq!(repo.find_store_by_name("hooli").unwrap().object_id, Some(id(2)));
    assert!(repo.find_store_by_name("globex").is_none());

    assert_eq!(repo.delete_store("acme"), Ok(true));
    assert_eq!(repo.store_collection.len(), 2);
    assert_eq!(repo.find_store_by_name("acme").unwrap().object_id, Some(id(3)));
    assert_eq!(repo.delete_store("acme"), Ok(true));
    assert_eq!(repo.delete_store("acme"), Ok(false));
    assert_eq!(repo.store_collection.len(), 1);
    assert_eq!(repo.store_collection[0].name, "hooli");
}

#[test]
fn a_request_is_bound_to_the_store_it_names() {
    let mut repo = MongoRepository::init();
    repo.create_store_with_id(Store::new("acme".to_string()), id(1)).unwrap();
    repo.create_store_with_id(Store::new("globex".to_string()), id(2)).unwrap();

    assert_eq!(
        get_store_from_headers(&selecting(Some("globex")), &repo).unwrap().object_id,
        Some(id(2))
    );
    assert!(matches!(
        get_store_from_headers(&selecting(None), &repo),
        Err(Failure::MissingTenantSelector)
    ));
    assert!(matches!(
        get_store_from_headers(&selecting(Some("")), &repo),
        Err(Failure::MissingTenantSelector)
    ));
    assert!(matches!(
        get_store_from_headers(&selecting(Some("initech")), &repo),
        Err(Failure::UnknownTenant)
    ));
    assert!(matches!(
        get_store_from_headers(&selecting(Some("Acme")), &repo),
        Err(Failure::UnknownTenant)
    ));
    let unknown = get_store_from_headers(&selecting(Some("initech")), &repo).unwrap_err();
    let missing = get_store_from_headers(&selecting(None), &repo).unwrap_err();
    assert_eq!(unknown.status_code(), StatusCode::NotFound);
    assert_eq!(missing.status_code(), StatusCode::BadRequest);
}

#[test]
fn the_steps_of_the_resolution_stand_alone() {
    assert_eq!(store_selector(&selecting(Some("acme"))).unwrap(), "acme");
    assert!(matches!(store_selector(&selecting(None)), Err(Failure::MissingTenantSelector)));
    assert!(matches!(require_store(None), Err(Failure::UnknownTenant)));
    assert!(matches!(
        require_store(Some(Store::new("acme".to_string()))),
        Err(Failure::UnknownTenant)
    ));
    let mut stored = Store::new("acme".to_string());
    stored.object_id = Some(id(1));
    assert_eq!(require_store(Some(stored)).unwrap().name, "acme");
}
