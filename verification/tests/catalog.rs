use storefront::category::handler::{
    category_created, category_deleted, create_category, delete_category,
    ensure_category_name_free,
};
use storefront::category::model::{Category, CreateCategoryRequest, Product};
use storefront::category::product::handler::{
    create_product, delete_product, ensure_product_name_free, product_added, product_identity,
    product_of, product_removed,
};
use storefront::category::product::helper::{
    find_product_in_category, get_category_from_store, require_category,
};
use storefront::category::product::model::CreateProductRequest;
use storefront::category::product::repository::{product_position, product_position_by_id};
use storefront::category::product::stock::handler::{stock_updated, update_stock};
use storefront::common::jwt::generate_jwt_at;
use storefront::common::object_id::ObjectId;
use storefront::common::response::{Failure, StatusCode};
use storefront::common::types::{RequestHeaders, Status};
use storefront::config::Config;
use storefront::database::{MongoRepository, RepositoryError};
use storefront::store::handler::create_store;
use storefront::store::model::{CreateStoreRequest, Store};
use storefront::user::model::{Rank, User};

const NOW: u64 = 1_700_000_000;

fn config() -> Config {
    Config {
        server_port: "3000".to_string(),
        database_url: "mongodb://localhost".to_string(),
        database_name: "storefront".to_string(),
        jwt_secret: "secret".to_string(),
        resend_api_key: "unused".to_string(),
        vronix_security_key: "open sesame".to_string(),
    }
}

fn fresh() -> ObjectId {
    ObjectId { bytes: bson::oid::ObjectId::new().bytes() }
}

fn id(byte: u8) -> ObjectId {
    ObjectId { bytes: [byte; 12] }
}

fn at(store: &str) -> RequestHeaders {
    RequestHeaders { store_name: Some(store.to_string()), bearer_token: None, security_key: None }
}

fn as_of(store: &str, subject: ObjectId, tenant: ObjectId) -> RequestHeaders {
    RequestHeaders {
        store_name: Some(store.to_string()),
        bearer_token: generate_jwt_at(subject, tenant, "secret", NOW),
        security_key: None,
    }
}

fn user(store: ObjectId, login: &str, rank: Rank) -> User {
    User {
        object_id: None,
        store_id: Some(store),
        user_id: login.to_string(),
        email: format!("{}@example.com", login),
        password: "credential".to_string(),
        rank,
    }
}

/// Two tenants, acme (1) and globex (2), each with an administrator (13 and
/// 23); acme also has a customer (11).
fn two_tenants() -> MongoRepository {
    let mut repo = MongoRepository::init();
    repo.create_store_with_id(Store::new("acme".to_string()), id(1)).unwrap();
    repo.create_store_with_id(Store::new("globex".to_string()), id(2)).unwrap();
    repo.create_user_with_id(user(id(1), "carol", Rank::Customer), id(11)).unwrap();
    repo.create_user_with_id(user(id(1), "alice", Rank::Administrator), id(13)).unwrap();
    repo.create_user_with_id(user(id(2), "gus", Rank::Administrator), id(23)).unwrap();
    repo
}

fn acme_admin() -> RequestHeaders {
    as_of("acme", id(13), id(1))
}

fn category(name: &str) -> CreateCategoryRequest {
    CreateCategoryRequest { name: name.to_string(), description: format!("all {}", name) }
}

fn product(name: &str, price: f64) -> CreateProductRequest {
    CreateProductRequest {
        name: name.to_string(),
        description: format!("a {}", name),
        price: price.to_bits(),
    }
}

fn names(products: &[Product]) -> Vec<String> {
    products.iter().map(|p| p.name.clone()).collect()
}

fn lots(items: &[&str]) -> Vec<String> {
    items.iter().map(|s| s.to_string()).collect()
}

#[test]
fn a_new_category_belongs_to_its_tenant_and_is_empty() {
    let fruits = Category::new(id(1), "fruits".to_string(), "all fruits".to_string());
    assert_eq!(fruits.object_id, None);
    assert_eq!(fruits.store_id, Some(id(1)));
    assert_eq!(fruits.name, "fruits");
    assert_eq!(fruits.description, "all fruits");
    assert!(fruits.products.is_empty());
}

#[test]
fn a_new_product_has_no_identity_no_discount_and_no_stock() {
    let apple = Product::new("apple".to_string(), "an apple".to_string(), 10.0f64.to_bits());
    assert_eq!(apple.object_id, None);
    assert_eq!(apple.name, "apple");
    assert_eq!(apple.description, "an apple");
    assert_eq!(f64::from_bits(apple.price), 10.0);
    assert_eq!(apple.discount_rate, None);
    assert!(apple.stock.is_empty());
}

#[test]
fn products_are_added_behind_those_a_category_holds() {
    let mut fruits = Category::new(id(1), "fruits".to_string(), String::new());
    fruits.add_product(Product::new("apple".to_string(), String::new(), 1));
    fruits.add_product(Product::new("pear".to_string(), String::new(), 2));
    fruits.add_product(Product::new("apple".to_string(), String::new(), 3));
    assert_eq!(names(&fruits.products), ["apple", "pear", "apple"]);
    assert_eq!(fruits.products[2].price, 3);
    assert_eq!(fruits.name, "fruits");
}

#[test]
fn the_storefront_scenario() {
    let mut repo = MongoRepository::init();
    let key = RequestHeaders {
        store_name: None,
        bearer_token: None,
        security_key: Some("open sesame".to_string()),
    };
    for name in ["acme", "globex"] {
        let body = CreateStoreRequest { name: name.to_string() };
        let (code, _) = create_store(&key, &mut repo, &body, &config(), fresh()).unwrap();
        assert_eq!(code, StatusCode::Created);
    }
    let acme = repo.find_store_by_name("acme").unwrap().object_id.unwrap();
    let globex = repo.find_store_by_name("globex").unwrap().object_id.unwrap();
    assert_ne!(acme, globex);

    let (code, reply) = create_category(&at("acme"), &mut repo, &category("fruits"), fresh()).unwrap();
    assert_eq!(code, StatusCode::Created);
    assert_eq!(reply.status, Status::Success);
    assert_eq!(reply.category.name, "fruits");
    assert_eq!(reply.category.store_id, Some(acme));
    assert!(reply.category.products.is_empty());

    assert!(matches!(
        create_category(&at("acme"), &mut repo, &category("fruits"), fresh()),
        Err(Failure::DuplicateCategoryName)
    ));

    let (code, reply) = create_category(&at("globex"), &mut repo, &category("fruits"), fresh()).unwrap();
    assert_eq!(code, StatusCode::Created);
    assert_eq!(reply.category.store_id, Some(globex));
    assert_eq!(repo.category_collection.len(), 2);

    let admin =
        repo.create_user_with_id(user(acme, "alice", Rank::Administrator), fresh()).unwrap();
    let headers = as_of("acme", admin, acme);
    let (code, reply) =
        create_product(&headers, "fruits", &mut repo, &product("apple", 10.0), &config(), NOW, fresh())
            .unwrap();
    assert_eq!(code, StatusCode::Created);
    assert_eq!(reply.product.name, "apple");
    assert_eq!(f64::from_bits(reply.product.price), 10.0);
    assert!(reply.product.object_id.is_some());

    let list = lots(&["lot-1", "lot-2"]);
    let (code, reply) = update_stock(&at("acme"), "fruits", "apple", &mut repo, &list).unwrap();
    assert_eq!(code, StatusCode::Succeeded);
    assert_eq!(reply.status, Status::Success);
    assert_eq!(reply.message, "제품 'apple'의 재고가 성공적으로 업데이트되었습니다.");
    let fruits = repo.find_category_by_name(acme, "fruits").unwrap();
    assert_eq!(fruits.products.len(), 1);
    assert_eq!(fruits.products[0].stock, ["lot-1", "lot-2"]);
    assert!(repo.find_category_by_name(globex, "fruits").unwrap().products.is_empty());
}

#[test]
fn of_two_creations_of_one_name_one_succeeds_and_one_is_a_duplicate() {
    let mut repo = two_tenants();
    let first = create_category(&at("acme"), &mut repo, &category("fruits"), fresh());
    let second = create_category(&at("acme"), &mut repo, &category("fruits"), fresh());
    assert!(first.is_ok());
    assert!(matches!(second, Err(Failure::DuplicateCategoryName)));
    assert_eq!(repo.category_collection.len(), 1);
    assert!(create_category(&at("globex"), &mut repo, &category("fruits"), fresh()).is_ok());
    assert!(create_category(&at("acme"), &mut repo, &category("Fruits"), fresh()).is_ok());
    assert_eq!(repo.category_collection.len(), 3);
}

#[test]
fn a_category_is_created_only_for_a_tenant_that_resolves() {
    let mut repo = two_tenants();
    let nowhere = RequestHeaders { store_name: None, bearer_token: None, security_key: None };
    assert!(matches!(
        create_category(&nowhere, &mut repo, &category("fruits"), fresh()),
        Err(Failure::MissingTenantSelector)
    ));
    assert!(matches!(
        create_category(&at("initech"), &mut repo, &category("fruits"), fresh()),
        Err(Failure::UnknownTenant)
    ));
    assert!(repo.category_collection.is_empty());
}

#[test]
fn a_category_is_deleted_within_its_tenant_only() {
    let mut repo = two_tenants();
    create_category(&at("acme"), &mut repo, &category("fruits"), fresh()).unwrap();
    create_category(&at("globex"), &mut repo, &category("fruits"), fresh()).unwrap();
    create_category(&at("acme"), &mut repo, &category("tools"), fresh()).unwrap();

    assert!(matches!(
        delete_category(&at("globex"), "tools", &mut repo),
        Err(Failure::CategoryNotFound(name)) if name == "tools"
    ));
    assert_eq!(repo.category_collection.len(), 3);

    let (code, reply) = delete_category(&at("acme"), "fruits", &mut repo).unwrap();
    assert_eq!(code, StatusCode::Succeeded);
    assert_eq!(reply.status, Status::Success);
    assert_eq!(reply.message, "카테고리 'fruits' 삭제 성공.");
    assert!(repo.find_category_by_name(id(1), "fruits").is_none());
    assert!(repo.find_category_by_name(id(2), "fruits").is_some());
    assert!(repo.find_category_by_name(id(1), "tools").is_some());

    assert!(matches!(
        delete_category(&at("acme"), "fruits", &mut repo),
        Err(Failure::CategoryNotFound(name)) if name == "fruits"
    ));
    assert!(matches!(
        delete_category(&at("initech"), "fruits", &mut repo),
        Err(Failure::UnknownTenant)
    ));
}

#[test]
fn the_replies_of_the_category_steps_follow_the_document_store() {
    let fruits = Category::new(id(1), "fruits".to_string(), String::new());
    assert!(ensure_category_name_free(&None).is_ok());
    assert!(matches!(
        ensure_category_name_free(&Some(fruits.clone())),
        Err(Failure::DuplicateCategoryName)
    ));
    assert_eq!(category_created(Ok(id(5)), fruits.clone()).unwrap().0, StatusCode::Created);
    assert!(matches!(
        category_created(Err(RepositoryError::Unavailable), fruits.clone()),
        Err(Failure::CategoryCreationFailed)
    ));
    assert_eq!(category_deleted(Ok(true), "fruits").unwrap().1.message, "카테고리 'fruits' 삭제 성공.");
    assert!(matches!(
        category_deleted(Ok(false), "fruits"),
        Err(Failure::CategoryNotFound(name)) if name == "fruits"
    ));
    assert!(matches!(
        category_deleted(Err(RepositoryError::Unavailable), "fruits"),
        Err(Failure::CategoryDeletionFailed)
    ));
    assert!(matches!(
        require_category(None, "fruits"),
        Err(Failure::CategoryNotFound(name)) if name == "fruits"
    ));
    assert_eq!(require_category(Some(fruits), "fruits").unwrap().name, "fruits");
}

#[test]
fn a_category_keeps_its_own_identity_and_none_is_used_twice() {
    let mut repo = two_tenants();
    let mut fruits = Category::new(id(1), "fruits".to_string(), String::new());
    fruits.object_id = Some(id(5));
    assert_eq!(repo.create_category(fruits.clone()), Ok(id(5)));
    assert_eq!(repo.create_category(fruits.clone()), Err(RepositoryError::DuplicateKey));
    assert_eq!(
        repo.create_category_with_id(fruits.clone(), id(5)),
        Err(RepositoryError::DuplicateKey)
    );
    assert_eq!(repo.create_category_with_id(fruits, id(6)), Ok(id(6)));
    assert_eq!(repo.category_collection.len(), 2);
    assert_eq!(repo.delete_category(id(1), "fruits"), Ok(true));
    assert_eq!(repo.category_collection[0].object_id, Some(id(6)));
    assert_eq!(repo.delete_category(id(2), "fruits"), Ok(false));
}

#[test]
fn only_an_administrator_of_the_tenant_adds_a_product() {
    let mut repo = two_tenants();
    create_category(&at("acme"), &mut repo, &category("fruits"), fresh()).unwrap();
    let body = product("apple", 10.0);
    let mut attempt = |headers: RequestHeaders| {
        create_product(&headers, "fruits", &mut repo, &body, &config(), NOW, fresh())
    };
    assert!(matches!(attempt(at("acme")), Err(Failure::MissingAuthorization)));
    assert!(matches!(attempt(as_of("acme", id(11), id(1))), Err(Failure::InsufficientRank)));
    assert!(matches!(attempt(as_of("acme", id(23), id(2))), Err(Failure::TenantMismatch)));
    assert!(matches!(attempt(as_of("acme", id(23), id(1))), Err(Failure::PrincipalNotFound)));
    assert!(matches!(attempt(as_of("initech", id(13), id(1))), Err(Failure::UnknownTenant)));
    let (code, reply) = attempt(acme_admin()).unwrap();
    assert_eq!(code, StatusCode::Created);
    assert_eq!(reply.status, Status::Success);
    assert!(reply.product.object_id.is_some());
    assert_eq!(reply.product.name, "apple");
    assert_eq!(reply.product.description, "a apple");
    assert_eq!(reply.product.discount_rate, None);
    assert!(reply.product.stock.is_empty());
    assert!(matches!(
        attempt(acme_admin()),
        Err(Failure::DuplicateProductName(name)) if name == "apple"
    ));
    assert_eq!(repo.find_category_by_name(id(1), "fruits").unwrap().products.len(), 1);
}

#[test]
fn the_product_of_a_request_has_the_identity_it_is_given() {
    let apple = product_of(&product("apple", 10.0), id(31));
    assert_eq!(apple.object_id, Some(id(31)));
    assert_eq!(apple.name, "apple");
    assert_eq!(apple.description, "a apple");
    assert_eq!(f64::from_bits(apple.price), 10.0);
    assert_eq!(apple.discount_rate, None);
    assert!(apple.stock.is_empty());
}

#[test]
fn a_product_is_not_added_under_an_identity_that_the_category_holds() {
    let mut repo = two_tenants();
    create_category(&at("acme"), &mut repo, &category("fruits"), fresh()).unwrap();
    let add = |repo: &mut MongoRepository, name: &str, key: ObjectId| {
        create_product(&acme_admin(), "fruits", repo, &product(name, 1.0), &config(), NOW, key)
    };
    let (_, reply) = add(&mut repo, "apple", id(31)).unwrap();
    assert_eq!(reply.product.object_id, Some(id(31)));
    assert!(matches!(add(&mut repo, "pear", id(31)), Err(Failure::ProductCreationFailed)));
    assert!(add(&mut repo, "pear", id(32)).is_ok());
    assert_eq!(
        names(&repo.find_category_by_name(id(1), "fruits").unwrap().products),
        ["apple", "pear"]
    );
    assert_eq!(
        repo.add_product_to_category(&id(1), "fruits", product_of(&product("fig", 1.0), id(33))),
        Ok(true)
    );
    assert_eq!(
        repo.add_product_to_category(&id(2), "fruits", product_of(&product("fig", 1.0), id(34))),
        Ok(false)
    );
}

#[test]
fn a_category_is_not_created_under_an_identity_that_is_taken() {
    let mut repo = two_tenants();
    let (code, _) = create_category(&at("acme"), &mut repo, &category("fruits"), id(5)).unwrap();
    assert_eq!(code, StatusCode::Created);
    assert_eq!(repo.category_collection[0].object_id, Some(id(5)));
    assert!(matches!(
        create_category(&at("globex"), &mut repo, &category("tools"), id(5)),
        Err(Failure::CategoryCreationFailed)
    ));
    assert_eq!(repo.category_collection.len(), 1);
    let mut nameless = Category::new(id(1), "tools".to_string(), String::new());
    assert_eq!(repo.create_category(nameless.clone()), Err(RepositoryError::MissingKey));
    nameless.object_id = Some(id(6));
    assert_eq!(repo.create_category(nameless), Ok(id(6)));
}

#[test]
fn a_product_needs_its_category_under_the_tenant() {
    let mut repo = two_tenants();
    create_category(&at("globex"), &mut repo, &category("fruits"), fresh()).unwrap();
    assert!(matches!(
        create_product(&acme_admin(), "fruits", &mut repo, &product("apple", 1.0), &config(), NOW, fresh()),
        Err(Failure::CategoryNotFound(name)) if name == "fruits"
    ));
    assert!(repo.find_category_by_name(id(2), "fruits").unwrap().products.is_empty());
}

#[test]
fn adding_and_then_removing_a_product_leaves_the_list_as_it_was() {
    let mut repo = two_tenants();
    create_category(&at("acme"), &mut repo, &category("fruits"), fresh()).unwrap();
    for name in ["apple", "pear", "plum"] {
        create_product(&acme_admin(), "fruits", &mut repo, &product(name, 1.0), &config(), NOW, fresh())
            .unwrap();
    }
    update_stock(&at("acme"), "fruits", "pear", &mut repo, &lots(&["lot-9"])).unwrap();
    let before = repo.find_category_by_name(id(1), "fruits").unwrap().products;

    let (_, added) =
        create_product(&acme_admin(), "fruits", &mut repo, &product("fig", 2.0), &config(), NOW, fresh())
            .unwrap();
    let with_fig = repo.find_category_by_name(id(1), "fruits").unwrap().products;
    assert_eq!(names(&with_fig), ["apple", "pear", "plum", "fig"]);
    assert_eq!(with_fig[3].object_id, added.product.object_id);

    repo.remove_product_from_category(&id(1), "fruits", added.product.object_id.unwrap()).unwrap();
    let after = repo.find_category_by_name(id(1), "fruits").unwrap().products;
    assert_eq!(after.len(), before.len());
    for (kept, was) in after.iter().zip(before.iter()) {
        assert_eq!(kept.object_id, was.object_id);
        assert_eq!(kept.name, was.name);
        assert_eq!(kept.description, was.description);
        assert_eq!(kept.price, was.price);
        assert_eq!(kept.stock, was.stock);
    }
}

#[test]
fn a_product_is_removed_by_its_name_for_an_administrator() {
    let mut repo = two_tenants();
    create_category(&at("acme"), &mut repo, &category("fruits"), fresh()).unwrap();
    for name in ["apple", "pear", "plum"] {
        create_product(&acme_admin(), "fruits", &mut repo, &product(name, 1.0), &config(), NOW, fresh())
            .unwrap();
    }
    assert!(matches!(
        delete_product(&as_of("acme", id(11), id(1)), "fruits", "pear", &mut repo, &config(), NOW),
        Err(Failure::InsufficientRank)
    ));
    assert!(matches!(
        delete_product(&acme_admin(), "tools", "pear", &mut repo, &config(), NOW),
        Err(Failure::CategoryNotFound(name)) if name == "tools"
    ));
    assert!(matches!(
        delete_product(&acme_admin(), "fruits", "fig", &mut repo, &config(), NOW),
        Err(Failure::ProductNotFound(name)) if name == "fig"
    ));
    let (code, reply) =
        delete_product(&acme_admin(), "fruits", "pear", &mut repo, &config(), NOW).unwrap();
    assert_eq!(code, StatusCode::Succeeded);
    assert_eq!(reply.status, Status::Success);
    assert_eq!(reply.message, "제품 'pear' 삭제 성공.");
    assert_eq!(
        names(&repo.find_category_by_name(id(1), "fruits").unwrap().products),
        ["apple", "plum"]
    );
}

#[test]
fn a_product_without_identity_cannot_be_removed() {
    let mut repo = two_tenants();
    let mut fruits = Category::new(id(1), "fruits".to_string(), String::new());
    fruits.add_product(Product::new("apple".to_string(), String::new(), 1));
    repo.create_category_with_id(fruits, id(5)).unwrap();
    assert!(matches!(
        delete_product(&acme_admin(), "fruits", "apple", &mut repo, &config(), NOW),
        Err(Failure::InvalidProductReference)
    ));
    assert_eq!(repo.find_category_by_name(id(1), "fruits").unwrap().products.len(), 1);
    let nameless = Product::new("apple".to_string(), String::new(), 1);
    assert!(matches!(product_identity(&nameless), Err(Failure::InvalidProductReference)));
}

#[test]
fn removing_by_identity_takes_out_every_product_of_that_identity() {
    let mut repo = two_tenants();
    let mut fruits = Category::new(id(1), "fruits".to_string(), String::new());
    for (name, key) in [("apple", 31), ("pear", 32), ("plum", 31), ("fig", 33)] {
        let mut item = Product::new(name.to_string(), String::new(), 1);
        item.object_id = Some(id(key));
        fruits.add_product(item);
    }
    repo.create_category_with_id(fruits, id(5)).unwrap();
    assert_eq!(repo.find_product_in_category(&id(1), "fruits", id(31)).unwrap().name, "apple");
    assert!(repo.find_product_in_category(&id(2), "fruits", id(31)).is_none());
    assert!(repo.find_product_in_category(&id(1), "fruits", id(39)).is_none());
    assert_eq!(repo.remove_product_from_category(&id(2), "fruits", id(31)), Ok(false));
    assert_eq!(repo.remove_product_from_category(&id(1), "tools", id(31)), Ok(false));
    assert_eq!(repo.remove_product_from_category(&id(1), "fruits", id(39)), Ok(false));
    assert_eq!(repo.category_collection[0].products.len(), 4);
    assert_eq!(repo.remove_product_from_category(&id(1), "fruits", id(31)), Ok(true));
    assert_eq!(names(&repo.category_collection[0].products), ["pear", "fig"]);
    assert_eq!(repo.remove_product_from_category(&id(1), "fruits", id(31)), Ok(false));
    assert_eq!(names(&repo.category_collection[0].products), ["pear", "fig"]);
}

#[test]
fn replacing_a_stock_twice_is_replacing_it_once() {
    let mut repo = two_tenants();
    create_category(&at("acme"), &mut repo, &category("fruits"), fresh()).unwrap();
    create_product(&acme_admin(), "fruits", &mut repo, &product("apple", 1.0), &config(), NOW, fresh())
        .unwrap();
    create_product(&acme_admin(), "fruits", &mut repo, &product("pear", 1.0), &config(), NOW, fresh())
        .unwrap();
    update_stock(&at("acme"), "fruits", "apple", &mut repo, &lots(&["old-1", "old-2", "old-3"]))
        .unwrap();

    let list = lots(&["lot-1", "lot-2"]);
    update_stock(&at("acme"), "fruits", "apple", &mut repo, &list).unwrap();
    let once = repo.find_category_by_name(id(1), "fruits").unwrap().products;
    assert_eq!(once[0].stock, list);
    update_stock(&at("acme"), "fruits", "apple", &mut repo, &list).unwrap();
    let twice = repo.find_category_by_name(id(1), "fruits").unwrap().products;
    assert_eq!(twice[0].stock, list);
    assert!(twice[1].stock.is_empty());
    assert_eq!(names(&twice), ["apple", "pear"]);

    update_stock(&at("acme"), "fruits", "apple", &mut repo, &Vec::new()).unwrap();
    assert!(repo.find_category_by_name(id(1), "fruits").unwrap().products[0].stock.is_empty());
}

#[test]
fn a_stock_is_replaced_only_where_the_product_is() {
    let mut repo = two_tenants();
    create_category(&at("acme"), &mut repo, &category("fruits"), fresh()).unwrap();
    create_category(&at("globex"), &mut repo, &category("fruits"), fresh()).unwrap();
    create_product(&acme_admin(), "fruits", &mut repo, &product("apple", 1.0), &config(), NOW, fresh())
        .unwrap();
    let list = lots(&["lot-1"]);
    assert!(matches!(
        update_stock(&at("acme"), "tools", "apple", &mut repo, &list),
        Err(Failure::CategoryNotFound(name)) if name == "tools"
    ));
    assert!(matches!(
        update_stock(&at("acme"), "fruits", "pear", &mut repo, &list),
        Err(Failure::ProductNotFound(name)) if name == "pear"
    ));
    assert!(matches!(
        update_stock(&at("globex"), "fruits", "apple", &mut repo, &list),
        Err(Failure::ProductNotFound(name)) if name == "apple"
    ));
    assert!(matches!(
        update_stock(&at("initech"), "fruits", "apple", &mut repo, &list),
        Err(Failure::UnknownTenant)
    ));
    assert!(repo.find_category_by_name(id(1), "fruits").unwrap().products[0].stock.is_empty());
    assert_eq!(repo.update_product_stock(&id(2), "fruits", "apple", &list), Ok(false));
    assert_eq!(repo.update_product_stock(&id(1), "fruits", "pear", &list), Ok(false));
    assert_eq!(repo.update_product_stock(&id(1), "tools", "apple", &list), Ok(false));
    assert!(repo.find_category_by_name(id(1), "fruits").unwrap().products[0].stock.is_empty());
    assert_eq!(repo.update_product_stock(&id(1), "fruits", "apple", &list), Ok(true));
    assert_eq!(repo.find_category_by_name(id(1), "fruits").unwrap().products[0].stock, list);
}

#[test]
fn what_one_tenant_creates_another_does_not_see() {
    let mut repo = two_tenants();
    create_category(&at("acme"), &mut repo, &category("fruits"), fresh()).unwrap();
    let (_, added) =
        create_product(&acme_admin(), "fruits", &mut repo, &product("apple", 1.0), &config(), NOW, fresh())
            .unwrap();
    let apple = added.product.object_id.unwrap();

    assert!(repo.find_category_by_name(id(2), "fruits").is_none());
    assert!(get_category_from_store(&Some(id(2)), "fruits", &repo).is_err());
    assert!(repo.find_product_in_category(&id(2), "fruits", apple).is_none());
    assert!(repo.find_product_in_category(&id(1), "fruits", apple).is_some());

    create_category(&at("globex"), &mut repo, &category("fruits"), fresh()).unwrap();
    let seen = get_category_from_store(&Some(id(2)), "fruits", &repo).unwrap();
    assert_eq!(seen.store_id, Some(id(2)));
    assert!(seen.products.is_empty());
    assert!(repo.find_product_in_category(&id(2), "fruits", apple).is_none());

    let gus = as_of("globex", id(23), id(2));
    assert!(matches!(
        delete_product(&gus, "fruits", "apple", &mut repo, &config(), NOW),
        Err(Failure::ProductNotFound(name)) if name == "apple"
    ));
    assert!(delete_category(&at("globex"), "fruits", &mut repo).is_ok());
    assert_eq!(repo.find_category_by_name(id(1), "fruits").unwrap().products.len(), 1);
}

#[test]
fn a_product_is_found_in_a_category_by_its_name() {
    let mut fruits = Category::new(id(1), "fruits".to_string(), String::new());
    for (name, price) in [("apple", 1), ("pear", 2), ("apple", 3)] {
        let mut item = Product::new(name.to_string(), String::new(), price);
        item.object_id = Some(id(price as u8));
        fruits.add_product(item);
    }
    assert_eq!(product_position(&fruits.products, "apple"), Some(0));
    assert_eq!(product_position(&fruits.products, "pear"), Some(1));
    assert_eq!(product_position(&fruits.products, "fig"), None);
    assert_eq!(product_position_by_id(&fruits.products, id(3)), Some(2));
    assert_eq!(product_position_by_id(&fruits.products, id(4)), None);

    let found = find_product_in_category(&mut fruits, "apple").unwrap();
    assert_eq!(found.price, 1);
    found.stock = lots(&["lot-1"]);
    assert_eq!(fruits.products[0].stock, ["lot-1"]);
    assert!(fruits.products[2].stock.is_empty());
    assert!(matches!(
        find_product_in_category(&mut fruits, "fig"),
        Err(Failure::ProductNotFound(name)) if name == "fig"
    ));
    assert!(matches!(
        ensure_product_name_free(&fruits, "pear"),
        Err(Failure::DuplicateProductName(name)) if name == "pear"
    ));
    assert!(ensure_product_name_free(&fruits, "fig").is_ok());
    assert_eq!(product_identity(&fruits.products[1]).unwrap(), id(2));
}

#[test]
fn the_replies_of_the_product_steps_follow_the_document_store() {
    let apple = Product::new("apple".to_string(), String::new(), 1);
    let (code, reply) = product_added(Ok(true), apple.clone(), "fruits").unwrap();
    assert_eq!(code, StatusCode::Created);
    assert_eq!(reply.product.name, "apple");
    assert!(matches!(
        product_added(Err(RepositoryError::Unavailable), apple.clone(), "fruits"),
        Err(Failure::ProductCreationFailed)
    ));
    assert!(matches!(
        product_added(Ok(false), apple, "fruits"),
        Err(Failure::CategoryNotFound(name)) if name == "fruits"
    ));
    assert_eq!(product_removed(Ok(true), "apple").unwrap().1.message, "제품 'apple' 삭제 성공.");
    assert!(matches!(
        product_removed(Ok(false), "apple"),
        Err(Failure::ProductNotFound(name)) if name == "apple"
    ));
    assert!(matches!(
        product_removed(Err(RepositoryError::Unavailable), "apple"),
        Err(Failure::ProductDeletionFailed)
    ));
    assert_eq!(stock_updated(Ok(true), "apple").unwrap().0, StatusCode::Succeeded);
    assert!(matches!(
        stock_updated(Ok(false), "apple"),
        Err(Failure::ProductNotFound(name)) if name == "apple"
    ));
    assert!(matches!(
        stock_updated(Err(RepositoryError::Unavailable), "apple"),
        Err(Failure::StockUpdateFailed)
    ));
}
