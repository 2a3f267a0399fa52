use crate::category::model::Category;
use crate::category::product::model::Product;
use crate::common::object_id::ObjectId;
use crate::common::response::{Failure, FailureView, Reply};
use crate::database::{MongoRepository, RepositoryError, RepositoryView};
use crate::store::model::Store;
use crate::user::model::User;
use vstd::prelude::*;

verus! {

/// What the handling of a request asks of the document store. Every
/// question about a principal or a category names the tenant within which
/// it is asked.
#[derive(Debug)]
pub enum Query {
    FindStoreByName { name: String },
    CreateStore { store: Store },
    FindUserById { store_id: ObjectId, id: ObjectId },
    FindUserByEmail { store_id: ObjectId, email: String },
    FindUserByUserId { store_id: ObjectId, user_id: String },
    CreateUser { user: User },
    FindCategoryByName { store_id: ObjectId, name: String },
    CreateCategory { category: Category },
    DeleteCategory { store_id: ObjectId, name: String },
    AddProductToCategory { store_id: ObjectId, category_name: String, product: Product },
    RemoveProductFromCategory { store_id: ObjectId, category_name: String, product_id: ObjectId },
    UpdateProductStock {
        store_id: ObjectId,
        category_name: String,
        product_name: String,
        stock: Vec<String>,
    },
}

impl Query {
    /// Whether the question only reads.
    pub open spec fn reads(self) -> bool {
        self is FindStoreByName || self is FindUserById || self is FindUserByEmail
            || self is FindUserByUserId || self is FindCategoryByName
    }
}

/// What the document store answers.
#[derive(Debug)]
pub enum Answer {
    Store(Option<Store>),
    User(Option<User>),
    Category(Option<Category>),
    Created(Result<ObjectId, RepositoryError>),
    Deleted(Result<bool, RepositoryError>),
    Updated(Result<bool, RepositoryError>),
}

/// Where the handling of a request stands: it has a question for the
/// document store, or it is done and has its result.
#[derive(Debug)]
pub enum Step<R> {
    Ask(Query),
    Done(R),
}

/// Whether a step is the last, and turns the request down for `failure`.
pub open spec fn ends_with<T>(step: Step<Result<T, Failure>>, failure: FailureView) -> bool {
    step matches Step::Done(Err(f)) && f@ == failure
}

/// Whether a request was turned down for `failure`, and the document store
/// left as it was.
pub open spec fn turned_down<T>(
    reply: Reply<T>,
    failure: FailureView,
    before: RepositoryView,
    after: RepositoryView,
) -> bool {
    reply matches Err(f) && f@ == failure && after == before
}

impl RepositoryView {
    /// Whether `answer` is what the document store says to `query`, and
    /// `after` what it holds once it has said so. A lookup answers with the
    /// first document that matches and changes nothing. An insertion puts
    /// the document behind the others under the identity it carries, and
    /// fails, changing nothing, where it carries none or one that is taken.
    /// A deletion and an update go by the first document that matches and
    /// tell whether there was one.
    pub open spec fn answers(self, query: Query, answer: Answer, after: RepositoryView) -> bool {
        match query {
            Query::FindStoreByName { name } => {
                &&& answer matches Answer::Store(found)
                &&& found.deep_view() == self.find_store_by_name(name@)
                &&& after == self
            },
            Query::CreateStore { store } => {
                answer matches Answer::Created(created) && match store.object_id {
                    Some(id) => if self.has_store_id(id) {
                        created is Err && after == self
                    } else {
                        created == Ok::<ObjectId, RepositoryError>(id) && after == self.with_store(
                            store@,
                            id,
                        )
                    },
                    None => created is Err && after == self,
                }
            },
            Query::FindUserById { store_id, id } => {
                &&& answer matches Answer::User(found)
                &&& found.deep_view() == self.find_user_by_id(store_id, id)
                &&& after == self
            },
            Query::FindUserByEmail { store_id, email } => {
                &&& answer matches Answer::User(found)
                &&& found.deep_view() == self.find_user_by_email(store_id, email@)
                &&& after == self
            },
            Query::FindUserByUserId { store_id, user_id } => {
                &&& answer matches Answer::User(found)
                &&& found.deep_view() == self.find_user_by_user_id(store_id, user_id@)
                &&& after == self
            },
            Query::CreateUser { user } => {
                answer matches Answer::Created(created) && match user.object_id {
                    Some(id) => if self.has_user_id(id) {
                        created is Err && after == self
                    } else {
                        created == Ok::<ObjectId, RepositoryError>(id) && after == self.with_user(
                            user@,
                            id,
                        )
                    },
                    None => created is Err && after == self,
                }
            },
            Query::FindCategoryByName { store_id, name } => {
                &&& answer matches Answer::Category(found)
                &&& found.deep_view() == self.find_category_by_name(store_id, name@)
                &&& after == self
            },
            Query::CreateCategory { category } => {
                answer matches Answer::Created(created) && match category.object_id {
                    Some(id) => if self.has_category_id(id) {
                        created is Err && after == self
                    } else {
                        created == Ok::<ObjectId, RepositoryError>(id) && after
                            == self.with_category(category@, id)
                    },
                    None => created is Err && after == self,
                }
            },
            Query::DeleteCategory { store_id, name } => {
                &&& answer matches Answer::Deleted(Ok(deleted))
                &&& deleted == (self.find_category_by_name(store_id, name@) is Some)
                &&& after == self.delete_category(store_id, name@)
            },
            Query::AddProductToCategory { store_id, category_name, product } => {
                &&& answer matches Answer::Updated(Ok(matched))
                &&& matched == (self.find_category_by_name(store_id, category_name@) is Some)
                &&& after == self.add_product_to_category(store_id, category_name@, product@)
            },
            Query::RemoveProductFromCategory { store_id, category_name, product_id } => {
                &&& answer matches Answer::Updated(Ok(matched))
                &&& matched == self.holds_product(store_id, category_name@, product_id)
                &&& !matched ==> after == self
                &&& after == self.remove_product_from_category(
                    store_id,
                    category_name@,
                    product_id,
                )
            },
            Query::UpdateProductStock { store_id, category_name, product_name, stock } => {
                &&& answer matches Answer::Updated(Ok(matched))
                &&& matched == self.holds_product_named(store_id, category_name@, product_name@)
                &&& !matched ==> after == self
                &&& after == self.update_product_stock(
                    store_id,
                    category_name@,
                    product_name@,
                    stock.deep_view(),
                )
            },
        }
    }
}

impl MongoRepository {
    /// Answers a question that only reads; gives nothing for one that
    /// would change the document store.
    pub fn read(&self, query: &Query) -> (r: Option<Answer>)
        ensures
            r is Some <==> query.reads(),
            r matches Some(answer) ==> self@.answers(*query, answer, self@),
    {
        match query {
            Query::FindStoreByName { name } => Some(
                Answer::Store(self.find_store_by_name(name.as_str())),
            ),
            Query::FindUserById { store_id, id } => Some(
                Answer::User(self.find_user_by_id(store_id, id)),
            ),
            Query::FindUserByEmail { store_id, email } => Some(
                Answer::User(self.find_user_by_email(store_id, email.as_str())),
            ),
            Query::FindUserByUserId { store_id, user_id } => Some(
                Answer::User(self.find_user_by_user_id(store_id, user_id.as_str())),
            ),
            Query::FindCategoryByName { store_id, name } => Some(
                Answer::Category(self.find_category_by_name(*store_id, name.as_str())),
            ),
            _ => None,
        }
    }

    /// Answers a question: carries it out on the three collections and says
    /// what came of it.
    pub fn answer(&mut self, query: Query) -> (a: Answer)
        ensures
            old(self)@.answers(query, a, final(self)@),
    {
        match query {
            Query::FindStoreByName { name } => Answer::Store(
                self.find_store_by_name(name.as_str()),
            ),
            Query::CreateStore { store } => Answer::Created(self.create_store(store)),
            Query::FindUserById { store_id, id } => Answer::User(
                self.find_user_by_id(&store_id, &id),
            ),
            Query::FindUserByEmail { store_id, email } => Answer::User(
                self.find_user_by_email(&store_id, email.as_str()),
            ),
            Query::FindUserByUserId { store_id, user_id } => Answer::User(
                self.find_user_by_user_id(&store_id, user_id.as_str()),
            ),
            Query::CreateUser { user } => Answer::Created(self.create_user(user)),
            Query::FindCategoryByName { store_id, name } => Answer::Category(
                self.find_category_by_name(store_id, name.as_str()),
            ),
            Query::CreateCategory { category } => Answer::Created(self.create_category(category)),
            Query::DeleteCategory { store_id, name } => Answer::Deleted(
                self.delete_category(store_id, name.as_str()),
            ),
            Query::AddProductToCategory { store_id, category_name, product } => Answer::Updated(
                self.add_product_to_category(&store_id, category_name.as_str(), product),
            ),
            Query::RemoveProductFromCategory {
                store_id,
                category_name,
                product_id,
            } => Answer::Updated(
                self.remove_product_from_category(&store_id, category_name.as_str(), product_id),
            ),
            Query::UpdateProductStock {
                store_id,
                category_name,
                product_name,
                stock,
            } => Answer::Updated(
                self.update_product_stock(
                    &store_id,
                    category_name.as_str(),
                    product_name.as_str(),
                    &stock,
                ),
            ),
        }
    }
}

} // verus!
