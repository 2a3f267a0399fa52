use crate::category::model::CategoryView;
use crate::category::product::model::{Product, ProductView};
use crate::category::repository::category_of;
use crate::common::object_id::ObjectId;
use crate::database::{
    find_one, first_match, lemma_first_match, lemma_first_match_is, lemma_first_match_none,
    lemma_first_match_update, update_one, MongoRepository, RepositoryError, RepositoryView,
};
use vstd::prelude::*;

verus! {

/// The filter that accepts the products of a given identity.
pub open spec fn product_with_id(id: ObjectId) -> spec_fn(ProductView) -> bool {
    |p: ProductView| p.object_id == Some(id)
}

/// The filter that accepts the products of a given name.
pub open spec fn product_named(name: Seq<char>) -> spec_fn(ProductView) -> bool {
    |p: ProductView| p.name == name
}

/// The products without those of a given identity, the others in their
/// order.
pub open spec fn without_id(products: Seq<ProductView>, id: ObjectId) -> Seq<ProductView>
    decreases products.len(),
{
    if products.len() == 0 {
        products
    } else if products.last().object_id == Some(id) {
        without_id(products.drop_last(), id)
    } else {
        without_id(products.drop_last(), id).push(products.last())
    }
}

/// The change that gives a product another stock.
pub open spec fn restocked(stock: Seq<Seq<char>>) -> spec_fn(ProductView) -> ProductView {
    |p: ProductView| ProductView { stock, ..p }
}

impl CategoryView {
    /// The first product of that name.
    pub open spec fn find_product(self, name: Seq<char>) -> Option<ProductView> {
        find_one(self.products, product_named(name))
    }

    /// The first product of that identity.
    pub open spec fn find_product_by_id(self, id: ObjectId) -> Option<ProductView> {
        find_one(self.products, product_with_id(id))
    }

    /// The category with a product put behind those it holds.
    pub open spec fn with_product(self, product: ProductView) -> CategoryView {
        CategoryView { products: self.products.push(product), ..self }
    }

    /// The category without its products of a given identity.
    pub open spec fn without_product(self, id: ObjectId) -> CategoryView {
        CategoryView { products: without_id(self.products, id), ..self }
    }

    /// The category with the stock of its first product of that name
    /// replaced.
    pub open spec fn with_stock(self, name: Seq<char>, stock: Seq<Seq<char>>) -> CategoryView {
        CategoryView {
            products: update_one(self.products, product_named(name), restocked(stock)),
            ..self
        }
    }
}

/// The filter that accepts the categories of a given name within a tenant
/// that hold a product of a given identity.
pub open spec fn category_holding_id(
    store_id: ObjectId,
    name: Seq<char>,
    product_id: ObjectId,
) -> spec_fn(CategoryView) -> bool {
    |c: CategoryView|
        c.store_id == Some(store_id) && c.name == name && c.find_product_by_id(product_id) is Some
}

/// The filter that accepts the categories of a given name within a tenant
/// that hold a product of a given name.
pub open spec fn category_holding_name(
    store_id: ObjectId,
    name: Seq<char>,
    product_name: Seq<char>,
) -> spec_fn(CategoryView) -> bool {
    |c: CategoryView|
        c.store_id == Some(store_id) && c.name == name && c.find_product(product_name) is Some
}

/// The change that puts a product behind those of a category.
pub open spec fn product_pushed(product: ProductView) -> spec_fn(CategoryView) -> CategoryView {
    |c: CategoryView| c.with_product(product)
}

/// The change that takes the products of a given identity out of a category.
pub open spec fn product_pulled(id: ObjectId) -> spec_fn(CategoryView) -> CategoryView {
    |c: CategoryView| c.without_product(id)
}

/// The change that replaces the stock of the first product of a given name.
pub open spec fn stock_set(name: Seq<char>, stock: Seq<Seq<char>>) -> spec_fn(
    CategoryView,
) -> CategoryView {
    |c: CategoryView| c.with_stock(name, stock)
}

impl RepositoryView {
    /// Whether the first category of that name within the tenant holds a
    /// product of a given identity.
    pub open spec fn holds_product(
        self,
        store_id: ObjectId,
        category_name: Seq<char>,
        product_id: ObjectId,
    ) -> bool {
        self.find_category_by_name(store_id, category_name) matches Some(category)
            && category.find_product_by_id(product_id) is Some
    }

    /// Whether a category of that name within the tenant holds a product of
    /// a given name.
    pub open spec fn holds_product_named(
        self,
        store_id: ObjectId,
        category_name: Seq<char>,
        product_name: Seq<char>,
    ) -> bool {
        first_match(
            self.categories,
            category_holding_name(store_id, category_name, product_name),
        ) is Some
    }

    /// The document store with a product put behind those of the first
    /// category of that name within the tenant.
    pub open spec fn add_product_to_category(
        self,
        store_id: ObjectId,
        category_name: Seq<char>,
        product: ProductView,
    ) -> RepositoryView {
        RepositoryView {
            categories: update_one(
                self.categories,
                category_of(store_id, category_name),
                product_pushed(product),
            ),
            ..self
        }
    }

    /// The document store with the products of a given identity taken out
    /// of the first category of that name within the tenant.
    pub open spec fn remove_product_from_category(
        self,
        store_id: ObjectId,
        category_name: Seq<char>,
        product_id: ObjectId,
    ) -> RepositoryView {
        RepositoryView {
            categories: update_one(
                self.categories,
                category_of(store_id, category_name),
                product_pulled(product_id),
            ),
            ..self
        }
    }

    /// The first product of a given identity in the first category of that
    /// name within the tenant that holds one.
    pub open spec fn find_product_in_category(
        self,
        store_id: ObjectId,
        category_name: Seq<char>,
        product_id: ObjectId,
    ) -> Option<ProductView> {
        match find_one(self.categories, category_holding_id(store_id, category_name, product_id)) {
            Some(c) => c.find_product_by_id(product_id),
            None => None,
        }
    }

    /// The document store with the stock replaced of the first product of a
    /// given name in the first category of that name within the tenant that
    /// holds one.
    pub open spec fn update_product_stock(
        self,
        store_id: ObjectId,
        category_name: Seq<char>,
        product_name: Seq<char>,
        stock: Seq<Seq<char>>,
    ) -> RepositoryView {
        RepositoryView {
            categories: update_one(
                self.categories,
                category_holding_name(store_id, category_name, product_name),
                stock_set(product_name, stock),
            ),
            ..self
        }
    }
}

/// Taking out the products of an identity that none of them has leaves
/// them as they are.
pub proof fn lemma_without_absent_id(products: Seq<ProductView>, id: ObjectId)
    requires
        first_match(products, product_with_id(id)) is None,
    ensures
        without_id(products, id) == products,
    decreases products.len(),
{
    if products.len() > 0 {
        lemma_without_absent_id(products.drop_last(), id);
        assert(products.drop_last().push(products.last()) =~= products);
    }
}

/// A product put behind the others and taken out again by its identity,
/// which none of the others has, leaves the others as they were: as many,
/// the same, in the same order.
pub proof fn lemma_push_then_pull(products: Seq<ProductView>, product: ProductView, id: ObjectId)
    requires
        product.object_id == Some(id),
        first_match(products, product_with_id(id)) is None,
    ensures
        without_id(products.push(product), id) == products,
{
    assert(products.push(product).drop_last() =~= products);
    lemma_without_absent_id(products, id);
}

/// Adding a product to a category and then removing it by its identity
/// leaves the document store as it was, provided that the category held no
/// product of that identity before.
pub proof fn lemma_add_then_remove(
    repo: RepositoryView,
    store_id: ObjectId,
    category_name: Seq<char>,
    product: ProductView,
    id: ObjectId,
)
    requires
        product.object_id == Some(id),
        repo.find_category_by_name(store_id, category_name) matches Some(category)
            ==> category.find_product_by_id(id) is None,
    ensures
        repo.add_product_to_category(
            store_id,
            category_name,
            product,
        ).remove_product_from_category(store_id, category_name, id) == repo,
{
    let filter = category_of(store_id, category_name);
    let added = repo.add_product_to_category(store_id, category_name, product);
    let removed = added.remove_product_from_category(store_id, category_name, id);
    lemma_first_match(repo.categories, filter);
    match first_match(repo.categories, filter) {
        Some(i) => {
            let category = repo.categories[i];
            lemma_first_match_update(repo.categories, filter, i, category.with_product(product));
            lemma_push_then_pull(category.products, product, id);
            assert(category.with_product(product).without_product(id) == category);
            assert(removed.categories =~= repo.categories);
        },
        None => {},
    }
}

/// The place of the first product of that name.
pub fn product_position(products: &Vec<Product>, name: &str) -> (r: Option<usize>)
    ensures
        match r {
            Some(i) => first_match(products.deep_view(), product_named(name@)) == Some(i as int)
                && i < products.len(),
            None => first_match(products.deep_view(), product_named(name@)) is None,
        },
{
    let wanted = name.to_owned();
    let mut i: usize = 0;
    while i < products.len()
        invariant
            i <= products.len(),
            wanted@ == name@,
            forall|j: int|
                0 <= j < i ==> !product_named(name@)(#[trigger] products.deep_view()[j]),
        decreases products.len() - i,
    {
        if products[i].name == wanted {
            proof {
                lemma_first_match_is(products.deep_view(), product_named(name@), i as int);
            }
            return Some(i);
        }
        i = i + 1;
    }
    proof {
        lemma_first_match_none(products.deep_view(), product_named(name@));
    }
    None
}

/// The place of the first product of that identity.
pub fn product_position_by_id(products: &Vec<Product>, id: ObjectId) -> (r: Option<usize>)
    ensures
        match r {
            Some(i) => first_match(products.deep_view(), product_with_id(id)) == Some(i as int)
                && i < products.len(),
            None => first_match(products.deep_view(), product_with_id(id)) is None,
        },
{
    let mut i: usize = 0;
    while i < products.len()
        invariant
            i <= products.len(),
            forall|j: int| 0 <= j < i ==> !product_with_id(id)(#[trigger] products.deep_view()[j]),
        decreases products.len() - i,
    {
        if products[i].object_id == Some(id) {
            proof {
                lemma_first_match_is(products.deep_view(), product_with_id(id), i as int);
            }
            return Some(i);
        }
        i = i + 1;
    }
    proof {
        lemma_first_match_none(products.deep_view(), product_with_id(id));
    }
    None
}

/// The products without those of a given identity.
fn products_without(products: &Vec<Product>, id: ObjectId) -> (r: Vec<Product>)
    ensures
        r.deep_view() == without_id(products.deep_view(), id),
{
    let mut kept: Vec<Product> = Vec::new();
    let mut i: usize = 0;
    assert(products.deep_view().take(0) =~= Seq::<ProductView>::empty());
    assert(kept.deep_view() =~= Seq::<ProductView>::empty());
    while i < products.len()
        invariant
            i <= products.len(),
            kept.deep_view() == without_id(products.deep_view().take(i as int), id),
        decreases products.len() - i,
    {
        let ghost before = kept.deep_view();
        assert(products.deep_view().take(i + 1).drop_last() =~= products.deep_view().take(
            i as int,
        ));
        assert(products.deep_view().take(i + 1).last() == products[i as int]@);
        if !(products[i].object_id == Some(id)) {
            kept.push(products[i].clone());
            assert(kept.deep_view() =~= before.push(products[i as int]@));
        }
        i = i + 1;
    }
    assert(products.deep_view().take(i as int) =~= products.deep_view());
    kept
}

impl MongoRepository {
    /// Puts a product behind those of the first category of that name
    /// within the tenant, and tells whether there was such a category; where
    /// there was none, nothing changes.
    pub fn add_product_to_category(
        &mut self,
        store_id: &ObjectId,
        category_name: &str,
        product: Product,
    ) -> (r: Result<bool, RepositoryError>)
        ensures
            r == Ok::<bool, RepositoryError>(
                old(self)@.find_category_by_name(*store_id, category_name@) is Some,
            ),
            final(self)@ == old(self)@.add_product_to_category(
                *store_id,
                category_name@,
                product@,
            ),
    {
        match self.category_position(store_id, category_name) {
            Some(i) => {
                let mut category = self.category_collection.remove(i);
                category.add_product(product);
                self.category_collection.insert(i, category);
                assert(self@.categories =~= update_one(
                    old(self)@.categories,
                    category_of(*store_id, category_name@),
                    product_pushed(product@),
                ));
                Ok(true)
            },
            None => Ok(false),
        }
    }

    /// Takes the products of a given identity out of the first category of
    /// that name within the tenant, and tells whether it took any out; where
    /// there is no such category or it holds no such product, nothing
    /// changes.
    pub fn remove_product_from_category(
        &mut self,
        store_id: &ObjectId,
        category_name: &str,
        product_id: ObjectId,
    ) -> (r: Result<bool, RepositoryError>)
        ensures
            r == Ok::<bool, RepositoryError>(
                old(self)@.holds_product(*store_id, category_name@, product_id),
            ),
            !old(self)@.holds_product(*store_id, category_name@, product_id) ==> final(self)@
                == old(self)@,
            final(self)@ == old(self)@.remove_product_from_category(
                *store_id,
                category_name@,
                product_id,
            ),
    {
        match self.category_position(store_id, category_name) {
            Some(i) => {
                let held = product_position_by_id(
                    &self.category_collection[i].products,
                    product_id,
                ).is_some();
                proof {
                    if !held {
                        lemma_without_absent_id(
                            old(self)@.categories[i as int].products,
                            product_id,
                        );
                    }
                }
                let mut category = self.category_collection.remove(i);
                category.products = products_without(&category.products, product_id);
                self.category_collection.insert(i, category);
                assert(self@.categories =~= update_one(
                    old(self)@.categories,
                    category_of(*store_id, category_name@),
                    product_pulled(product_id),
                ));
                proof {
                    if !held {
                        let before = old(self)@.categories[i as int];
                        assert(product_pulled(product_id)(before) == before);
                        assert(self@.categories =~= old(self)@.categories);
                    }
                }
                Ok(held)
            },
            None => Ok(false),
        }
    }

    /// The first product of a given identity in the first category of that
    /// name within the tenant that holds one.
    pub fn find_product_in_category(
        &self,
        store_id: &ObjectId,
        category_name: &str,
        product_id: ObjectId,
    ) -> (r: Option<Product>)
        ensures
            r.deep_view() == self@.find_product_in_category(
                *store_id,
                category_name@,
                product_id,
            ),
    {
        let wanted = category_name.to_owned();
        let ghost filter = category_holding_id(*store_id, category_name@, product_id);
        let mut i: usize = 0;
        while i < self.category_collection.len()
            invariant
                i <= self.category_collection.len(),
                wanted@ == category_name@,
                filter == category_holding_id(*store_id, category_name@, product_id),
                forall|j: int| 0 <= j < i ==> !filter(#[trigger] self@.categories[j]),
            decreases self.category_collection.len() - i,
        {
            let category = &self.category_collection[i];
            if category.store_id == Some(*store_id) && category.name == wanted {
                match product_position_by_id(&category.products, product_id) {
                    Some(k) => {
                        proof {
                            lemma_first_match_is(self@.categories, filter, i as int);
                        }
                        return Some(category.products[k].clone());
                    },
                    None => {},
                }
            }
            i = i + 1;
        }
        proof {
            lemma_first_match_none(self@.categories, filter);
        }
        None
    }

    /// Replaces the stock of the first product of a given name in the first
    /// category of that name within the tenant that holds one, and tells
    /// whether there was one; where there was none, nothing changes.
    pub fn update_product_stock(
        &mut self,
        store_id: &ObjectId,
        category_name: &str,
        product_name: &str,
        stock: &Vec<String>,
    ) -> (r: Result<bool, RepositoryError>)
        ensures
            r == Ok::<bool, RepositoryError>(
                old(self)@.holds_product_named(*store_id, category_name@, product_name@),
            ),
            !old(self)@.holds_product_named(*store_id, category_name@, product_name@)
                ==> final(self)@ == old(self)@,
            final(self)@ == old(self)@.update_product_stock(
                *store_id,
                category_name@,
                product_name@,
                stock.deep_view(),
            ),
    {
        let wanted = category_name.to_owned();
        let ghost filter = category_holding_name(*store_id, category_name@, product_name@);
        let mut i: usize = 0;
        while i < self.category_collection.len()
            invariant
                i <= self.category_collection.len(),
                wanted@ == category_name@,
                *self == *old(self),
                filter == category_holding_name(*store_id, category_name@, product_name@),
                forall|j: int| 0 <= j < i ==> !filter(#[trigger] self@.categories[j]),
            decreases self.category_collection.len() - i,
        {
            let category = &self.category_collection[i];
            if category.store_id == Some(*store_id) && category.name == wanted {
                match product_position(&category.products, product_name) {
                    Some(k) => {
                        proof {
                            lemma_first_match_is(self@.categories, filter, i as int);
                        }
                        let mut category = self.category_collection.remove(i);
                        let mut product = category.products.remove(k);
                        product.stock = stock.clone();
                        category.products.insert(k, product);
                        assert(category.products.deep_view() =~= update_one(
                            old(self)@.categories[i as int].products,
                            product_named(product_name@),
                            restocked(stock.deep_view()),
                        ));
                        self.category_collection.insert(i, category);
                        assert(self@.categories =~= update_one(
                            old(self)@.categories,
                            filter,
                            stock_set(product_name@, stock.deep_view()),
                        ));
                        return Ok(true);
                    },
                    None => {},
                }
            }
            i = i + 1;
        }
        proof {
            lemma_first_match_none(self@.categories, filter);
        }
        Ok(false)
    }
}

} // verus!
