//! Products fetched from the catalog, identified by their sku.

use vstd::prelude::*;

verus! {

/// Represents a product that can be purchased from the store.
///
/// Two products are the same entity exactly when their `sku` values are
/// equal: every other field (the price in particular) may change from one
/// observation of the entity to the next.
#[derive(Debug)]
pub struct Product {
    /// The name of the product.
    pub name: String,
    /// The barcode of the product.
    pub barcode: String,
    /// The sku of the product.
    pub sku: String,
    /// The current price of the product, in cents.
    pub per_unit_price: i32,
}

impl Product {
    /// True when the two products are the same entity: their skus agree.
    pub open spec fn same_entity(self, other: Product) -> bool {
        self.sku@ == other.sku@
    }
}

impl Clone for Product {
    fn clone(&self) -> (r: Self)
        ensures
            r == self,
    {
        Product {
            name: self.name.clone(),
            barcode: self.barcode.clone(),
            sku: self.sku.clone(),
            per_unit_price: self.per_unit_price,
        }
    }
}

impl PartialEq for Product {
    fn eq(&self, other: &Self) -> (r: bool) {
        self.sku == other.sku
    }
}

impl Eq for Product {}

impl vstd::std_specs::cmp::PartialEqSpecImpl for Product {
    open spec fn obeys_eq_spec() -> bool {
        true
    }

    open spec fn eq_spec(&self, other: &Product) -> bool {
        self.same_entity(*other)
    }
}

/// The skus of a sequence of products, in sequence order.
pub open spec fn skus_of(products: Seq<Product>) -> Seq<Seq<char>> {
    products.map_values(|p: Product| p.sku@)
}

/// The set of skus that a sequence of products carries.
pub open spec fn sku_set(products: Seq<Product>) -> Set<Seq<char>> {
    skus_of(products).to_set()
}

/// True when no sku occurs twice in the sequence.
pub open spec fn unique_skus(products: Seq<Product>) -> bool {
    forall|i: int, j: int|
        0 <= i < j < products.len() ==> products[i].sku@ != products[j].sku@
}

/// True when some product in the sequence carries the given sku.
pub open spec fn has_sku(products: Seq<Product>, sku: Seq<char>) -> bool {
    exists|i: int| 0 <= i < products.len() && products[i].sku@ == sku
}

/// Whether a sequence of products contains one with the given sku.
pub fn contains_sku(products: &Vec<Product>, sku: &String) -> (r: bool)
    ensures
        r == has_sku(products@, sku@),
{
    let mut i: usize = 0;
    while i < products.len()
        invariant
            0 <= i <= products@.len(),
            forall|j: int| 0 <= j < i ==> products@[j].sku@ != sku@,
        decreases products@.len() - i,
    {
        if products[i].sku == *sku {
            return true;
        }
        i = i + 1;
    }
    false
}

} // verus!
