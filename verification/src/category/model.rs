use crate::category::product::model::ProductView;
use crate::common::object_id::ObjectId;
use crate::common::types::Status;
use vstd::prelude::*;

pub use crate::category::product::model::Product;

verus! {

/// A category of a tenant's catalog, with the products it holds, in the order
/// in which they were added.
#[derive(Debug)]
pub struct Category {
    pub object_id: Option<ObjectId>,
    pub store_id: Option<ObjectId>,
    pub name: String,
    pub description: String,
    pub products: Vec<Product>,
}

/// What the contracts see of a category, with its products.
pub struct CategoryView {
    pub object_id: Option<ObjectId>,
    pub store_id: Option<ObjectId>,
    pub name: Seq<char>,
    pub description: Seq<char>,
    pub products: Seq<ProductView>,
}

impl View for Category {
    type V = CategoryView;

    open spec fn view(&self) -> CategoryView {
        CategoryView {
            object_id: self.object_id,
            store_id: self.store_id,
            name: self.name@,
            description: self.description@,
            products: self.products.deep_view(),
        }
    }
}

impl DeepView for Category {
    type V = CategoryView;

    open spec fn deep_view(&self) -> CategoryView {
        self@
    }
}

impl Clone for Category {
    fn clone(&self) -> (r: Self)
        ensures
            r@ == self@,
    {
        let products = self.products.clone();
        assert(products.deep_view() =~= self.products.deep_view());
        Category {
            object_id: self.object_id,
            store_id: self.store_id,
            name: self.name.clone(),
            description: self.description.clone(),
            products,
        }
    }
}

impl Category {
    /// A category of the given tenant that has not been stored yet and holds
    /// no product.
    pub fn new(store_id: ObjectId, name: String, description: String) -> (r: Category)
        ensures
            r@ == (CategoryView {
                object_id: None,
                store_id: Some(store_id),
                name: name@,
                description: description@,
                products: Seq::empty(),
            }),
    {
        let r = Category {
            object_id: None,
            store_id: Some(store_id),
            name,
            description,
            products: Vec::new(),
        };
        assert(r.products.deep_view() =~= Seq::<ProductView>::empty());
        r
    }

    /// Puts a product behind those the category holds.
    pub fn add_product(&mut self, product: Product)
        ensures
            final(self)@ == (CategoryView {
                products: old(self)@.products.push(product@),
                ..old(self)@
            }),
    {
        self.products.push(product);
        assert(self.products.deep_view() =~= old(self).products.deep_view().push(product@));
    }
}

/// What the creation of a category asks for.
#[derive(Debug)]
pub struct CreateCategoryRequest {
    pub name: String,
    pub description: String,
}

impl Clone for CreateCategoryRequest {
    fn clone(&self) -> (r: Self)
        ensures
            r.name@ == self.name@,
            r.description@ == self.description@,
    {
        CreateCategoryRequest { name: self.name.clone(), description: self.description.clone() }
    }
}

/// The reply that carries a category.
#[derive(Debug)]
pub struct CategoryResponse {
    pub status: Status,
    pub category: Category,
}

} // verus!
