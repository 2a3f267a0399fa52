use crate::common::object_id::ObjectId;
use crate::common::types::Status;
use vstd::prelude::*;

verus! {

/// A product of a category. The price and the discount rate are held as the
/// sixty-four bits of a double-precision number, which this library carries
/// and never computes with.
#[derive(Debug)]
pub struct Product {
    pub object_id: Option<ObjectId>,
    pub name: String,
    pub description: String,
    pub price: u64,
    pub discount_rate: Option<u64>,
    pub stock: Vec<String>,
}

/// What the contracts see of a product.
pub struct ProductView {
    pub object_id: Option<ObjectId>,
    pub name: Seq<char>,
    pub description: Seq<char>,
    pub price: u64,
    pub discount_rate: Option<u64>,
    pub stock: Seq<Seq<char>>,
}

impl View for Product {
    type V = ProductView;

    open spec fn view(&self) -> ProductView {
        ProductView {
            object_id: self.object_id,
            name: self.name@,
            description: self.description@,
            price: self.price,
            discount_rate: self.discount_rate,
            stock: self.stock.deep_view(),
        }
    }
}

impl DeepView for Product {
    type V = ProductView;

    open spec fn deep_view(&self) -> ProductView {
        self@
    }
}

impl Clone for Product {
    fn clone(&self) -> (r: Self)
        ensures
            r@ == self@,
    {
        Product {
            object_id: self.object_id,
            name: self.name.clone(),
            description: self.description.clone(),
            price: self.price,
            discount_rate: self.discount_rate,
            stock: self.stock.clone(),
        }
    }
}

impl Product {
    /// A product that has no identity, no discount and no stock yet.
    pub fn new(name: String, description: String, price: u64) -> (r: Product)
        ensures
            r@ == (ProductView {
                object_id: None,
                name: name@,
                description: description@,
                price,
                discount_rate: None,
                stock: Seq::empty(),
            }),
    {
        let r = Product {
            object_id: None,
            name,
            description,
            price,
            discount_rate: None,
            stock: Vec::new(),
        };
        assert(r.stock.deep_view() =~= Seq::<Seq<char>>::empty());
        r
    }
}

/// The reply that carries a product.
#[derive(Debug)]
pub struct ProductResponse {
    pub status: Status,
    pub product: Product,
}

/// What the creation of a product asks for.
#[derive(Debug)]
pub struct CreateProductRequest {
    pub name: String,
    pub description: String,
    pub price: u64,
}

} // verus!
