//! Reconciling the merged product set against persisted storage: which
//! mapping rows a bulk insert needs, which price observations to append,
//! and which products have no stored identity.

use vstd::prelude::*;
use crate::product::{Product, contains_sku, unique_skus};
use crate::off_sale::spec_off_sale;
use crate::position::{find_position, spec_position};

verus! {

/// A durable row linking an internal storage identifier to the external
/// sku; created once per sku, never deleted.
#[derive(Debug)]
pub struct ProductMapping {
    /// The internal storage identifier of the product.
    pub storage_id: i32,
    /// The external sku the row is keyed by.
    pub sku: String,
}

impl Clone for ProductMapping {
    fn clone(&self) -> (r: Self)
        ensures
            r == self,
    {
        ProductMapping { storage_id: self.storage_id, sku: self.sku.clone() }
    }
}

/// True when some mapping row is keyed by the given sku.
pub open spec fn map_has(mapping: Seq<ProductMapping>, k: Seq<char>) -> bool {
    exists|i: int| 0 <= i < mapping.len() && mapping[i].sku@ == k
}

/// The storage identifier that the mapping assigns to the given sku.
/// Meaningful when the sku is mapped and no sku is mapped twice.
pub open spec fn map_id(mapping: Seq<ProductMapping>, k: Seq<char>) -> i32 {
    mapping[choose|i: int| 0 <= i < mapping.len() && mapping[i].sku@ == k].storage_id
}

/// True when no sku is mapped twice.
pub open spec fn unique_mapping(mapping: Seq<ProductMapping>) -> bool {
    forall|i: int, j: int|
        0 <= i < j < mapping.len() ==> mapping[i].sku@ != mapping[j].sku@
}

/// The fetched products that the mapping knows, in fetched order.
pub open spec fn spec_matched(products: Seq<Product>, mapping: Seq<ProductMapping>) -> Seq<Product>
    decreases products.len(),
{
    if products.len() == 0 {
        Seq::<Product>::empty()
    } else {
        let rest = spec_matched(products.drop_last(), mapping);
        if map_has(mapping, products.last().sku@) {
            rest.push(products.last())
        } else {
            rest
        }
    }
}

/// The skus of the fetched products that the mapping does not know, in
/// fetched order.
pub open spec fn spec_unmatched(products: Seq<Product>, mapping: Seq<ProductMapping>) -> Seq<
    String,
>
    decreases products.len(),
{
    if products.len() == 0 {
        Seq::<String>::empty()
    } else {
        let rest = spec_unmatched(products.drop_last(), mapping);
        if map_has(mapping, products.last().sku@) {
            rest
        } else {
            rest.push(products.last().sku)
        }
    }
}

/// What one reconciliation run would append: the price observations for
/// the products the mapping knows, and both directions of identity
/// mismatch.
#[derive(Debug)]
pub struct PricePlan {
    /// The storage identifiers of the matched products, in fetched order.
    pub product_ids: Vec<i32>,
    /// The observed costs in cents, parallel to `product_ids`.
    pub cost_in_cents: Vec<i32>,
    /// The skus of fetched products that storage does not know yet.
    pub unmatched: Vec<String>,
    /// The skus of mapping rows that no fetched product used.
    pub unconsumed: Vec<String>,
}

/// Maps each fetched product to its stored identity: a matched product
/// queues one price observation, an unknown one is recorded as unmatched
/// rather than failing, and stored rows that the crawl no longer uses are
/// reported as drift.
pub fn plan_save_prices(products: &Vec<Product>, mapping: &Vec<ProductMapping>) -> (r: PricePlan)
    requires
        unique_skus(products@),
        unique_mapping(mapping@),
    ensures
        r.product_ids@.len() == spec_matched(products@, mapping@).len(),
        r.cost_in_cents@.len() == spec_matched(products@, mapping@).len(),
        forall|i: int|
            0 <= i < r.product_ids@.len() ==> {
                &&& #[trigger] r.product_ids@[i] == map_id(
                    mapping@,
                    spec_matched(products@, mapping@)[i].sku@,
                )
                &&& r.cost_in_cents@[i] == spec_matched(products@, mapping@)[i].per_unit_price
            },
        r.unmatched@ == spec_unmatched(products@, mapping@),
        r.unconsumed@ == spec_off_sale(mapping@.map_values(|m: ProductMapping| m.sku), products@),
{
    let mut product_ids: Vec<i32> = Vec::new();
    let mut cost_in_cents: Vec<i32> = Vec::new();
    let mut unmatched: Vec<String> = Vec::new();

    proof {
        assert(spec_matched(products@.subrange(0, 0), mapping@) =~= Seq::<Product>::empty());
        assert(spec_unmatched(products@.subrange(0, 0), mapping@) =~= Seq::<String>::empty());
    }
    let mut i: usize = 0;
    while i < products.len()
        invariant
            0 <= i <= products@.len(),
            unique_mapping(mapping@),
            product_ids@.len() == spec_matched(products@.subrange(0, i as int), mapping@).len(),
            cost_in_cents@.len() == product_ids@.len(),
            forall|j: int|
                0 <= j < product_ids@.len() ==> {
                    &&& #[trigger] product_ids@[j] == map_id(
                        mapping@,
                        spec_matched(products@.subrange(0, i as int), mapping@)[j].sku@,
                    )
                    &&& cost_in_cents@[j] == spec_matched(
                        products@.subrange(0, i as int),
                        mapping@,
                    )[j].per_unit_price
                },
            unmatched@ == spec_unmatched(products@.subrange(0, i as int), mapping@),
        decreases products@.len() - i,
    {
        let ghost pre = products@.subrange(0, i as int);
        proof {
            assert(products@.subrange(0, i + 1).drop_last() =~= pre);
        }
        match lookup_mapping(mapping, &products[i].sku) {
            Some(id) => {
                product_ids.push(id);
                cost_in_cents.push(products[i].per_unit_price);
            },
            None => {
                unmatched.push(products[i].sku.clone());
            },
        }
        i = i + 1;
    }
    proof {
        assert(products@.subrange(0, products@.len() as int) =~= products@);
    }

    // report the stored rows that the crawl no longer uses
    let mut unconsumed: Vec<String> = Vec::new();
    proof {
        assert(mapping@.subrange(0, 0).map_values(|m: ProductMapping| m.sku) =~= Seq::<
            String,
        >::empty());
        assert(unconsumed@ =~= spec_off_sale(
            mapping@.subrange(0, 0).map_values(|m: ProductMapping| m.sku),
            products@,
        ));
    }
    let mut k: usize = 0;
    while k < mapping.len()
        invariant
            0 <= k <= mapping@.len(),
            unconsumed@ == spec_off_sale(
                mapping@.subrange(0, k as int).map_values(|m: ProductMapping| m.sku),
                products@,
            ),
        decreases mapping@.len() - k,
    {
        proof {
            assert(mapping@.subrange(0, k + 1).map_values(|m: ProductMapping| m.sku).drop_last()
                =~= mapping@.subrange(0, k as int).map_values(|m: ProductMapping| m.sku));
        }
        if !contains_sku(products, &mapping[k].sku) {
            unconsumed.push(mapping[k].sku.clone());
        }
        k = k + 1;
    }
    proof {
        assert(mapping@.subrange(0, mapping@.len() as int) =~= mapping@);
    }

    PricePlan { product_ids, cost_in_cents, unmatched, unconsumed }
}

/// Finds the storage identifier mapped to a sku, or reports the sku
/// unknown.
pub fn lookup_mapping(mapping: &Vec<ProductMapping>, sku: &String) -> (r: Option<i32>)
    requires
        unique_mapping(mapping@),
    ensures
        r is Some <==> map_has(mapping@, sku@),
        map_has(mapping@, sku@) ==> r == Some(map_id(mapping@, sku@)),
{
    let mut i: usize = 0;
    while i < mapping.len()
        invariant
            0 <= i <= mapping@.len(),
            unique_mapping(mapping@),
            forall|j: int| 0 <= j < i ==> mapping@[j].sku@ != sku@,
        decreases mapping@.len() - i,
    {
        if mapping[i].sku == *sku {
            proof {
                let c = choose|c: int| 0 <= c < mapping@.len() && mapping@[c].sku@ == sku@;
                assert(c == i);
            }
            return Some(mapping[i].storage_id);
        }
        i = i + 1;
    }
    None
}

/// The column arrays for the bulk insert of fetched products into storage.
pub struct ProductColumns {
    /// The product names, in fetched order.
    pub names: Vec<String>,
    /// The product barcodes, parallel to `names`.
    pub barcodes: Vec<String>,
    /// The product skus, parallel to `names`.
    pub skus: Vec<String>,
}

/// Splits the fetched products into the parallel column arrays that the
/// bulk mapping insert is handed.
pub fn plan_save_products(products: &Vec<Product>) -> (r: ProductColumns)
    ensures
        r.names@.len() == products@.len(),
        r.barcodes@.len() == products@.len(),
        r.skus@.len() == products@.len(),
        forall|i: int|
            0 <= i < products@.len() ==> {
                &&& #[trigger] r.names@[i] == products@[i].name
                &&& r.barcodes@[i] == products@[i].barcode
                &&& r.skus@[i] == products@[i].sku
            },
{
    let mut names: Vec<String> = Vec::new();
    let mut barcodes: Vec<String> = Vec::new();
    let mut skus: Vec<String> = Vec::new();
    let mut i: usize = 0;
    while i < products.len()
        invariant
            0 <= i <= products@.len(),
            names@.len() == i,
            barcodes@.len() == i,
            skus@.len() == i,
            forall|j: int| 0 <= j < i ==> #[trigger] names@[j] == products@[j].name,
            forall|j: int| 0 <= j < i ==> #[trigger] barcodes@[j] == products@[j].barcode,
            forall|j: int| 0 <= j < i ==> #[trigger] skus@[j] == products@[j].sku,
        decreases products@.len() - i,
    {
        names.push(products[i].name.clone());
        barcodes.push(products[i].barcode.clone());
        skus.push(products[i].sku.clone());
        i = i + 1;
    }
    ProductColumns { names, barcodes, skus }
}

/// The names of the freshly inserted products, at most `limit` of them:
/// each returned sku is looked up in the insert's sku column and resolves
/// to the name that stood at the same position; a sku the column does not
/// hold is skipped.
pub open spec fn spec_sample_names(
    new_skus: Seq<String>,
    skus: Seq<String>,
    names: Seq<String>,
    limit: nat,
) -> Seq<String>
    decreases new_skus.len(),
{
    if new_skus.len() == 0 || limit == 0 {
        Seq::<String>::empty()
    } else {
        match spec_position(skus, new_skus.first()@) {
            Some(p) => seq![names[p]] + spec_sample_names(
                new_skus.drop_first(),
                skus,
                names,
                (limit - 1) as nat,
            ),
            None => spec_sample_names(new_skus.drop_first(), skus, names, limit),
        }
    }
}

/// Resolves the skus that the bulk insert reported as new back to product
/// names for the diagnostic log, capped at `limit` entries.
pub fn sample_new_product_names(
    new_skus: &Vec<String>,
    columns: &ProductColumns,
    limit: usize,
) -> (r: Vec<String>)
    requires
        columns.names@.len() == columns.skus@.len(),
    ensures
        r@ == spec_sample_names(new_skus@, columns.skus@, columns.names@, limit as nat),
{
    let ghost all = new_skus@;
    let ghost skus = columns.skus@;
    let ghost names = columns.names@;
    let mut sample: Vec<String> = Vec::new();
    proof {
        assert(all.skip(0) =~= all);
    }
    let mut i: usize = 0;
    while i < new_skus.len()
        invariant
            0 <= i <= all.len(),
            all == new_skus@,
            skus == columns.skus@,
            names == columns.names@,
            names.len() == skus.len(),
            sample@.len() <= limit,
            spec_sample_names(all, skus, names, limit as nat) == sample@ + spec_sample_names(
                all.skip(i as int),
                skus,
                names,
                (limit - sample@.len()) as nat,
            ),
        decreases all.len() - i,
    {
        let ghost rest = all.skip(i as int);
        proof {
            assert(rest.len() > 0);
            assert(rest.first() == all[i as int]);
            assert(rest.drop_first() =~= all.skip(i + 1));
        }
        if sample.len() < limit {
            match find_position(columns.skus.as_slice(), &new_skus[i]) {
                Some(p) => {
                    proof {
                        assert(spec_position(skus, rest.first()@) == Some(p as int));
                        assert(spec_sample_names(rest, skus, names, (limit - sample@.len()) as nat)
                            =~= seq![names[p as int]] + spec_sample_names(
                            all.skip(i + 1),
                            skus,
                            names,
                            (limit - sample@.len() - 1) as nat,
                        ));
                        assert(sample@ + (seq![names[p as int]] + spec_sample_names(
                            all.skip(i + 1),
                            skus,
                            names,
                            (limit - sample@.len() - 1) as nat,
                        )) =~= sample@.push(names[p as int]) + spec_sample_names(
                            all.skip(i + 1),
                            skus,
                            names,
                            (limit - sample@.len() - 1) as nat,
                        ));
                    }
                    sample.push(columns.names[p].clone());
                },
                None => {
                    proof {
                        assert(spec_sample_names(rest, skus, names, (limit - sample@.len()) as nat)
                            =~= spec_sample_names(
                            all.skip(i + 1),
                            skus,
                            names,
                            (limit - sample@.len()) as nat,
                        ));
                    }
                },
            }
        } else {
            proof {
                assert((limit - sample@.len()) as nat == 0);
                assert(spec_sample_names(rest, skus, names, 0) =~= Seq::<String>::empty());
                assert(spec_sample_names(all.skip(i + 1), skus, names, 0) =~= Seq::<
                    String,
                >::empty());
            }
        }
        i = i + 1;
    }
    proof {
        assert(all.skip(all.len() as int) =~= Seq::<String>::empty());
        assert(spec_sample_names(
            Seq::<String>::empty(),
            skus,
            names,
            (limit - sample@.len()) as nat,
        ) =~= Seq::<String>::empty());
        assert(sample@ + Seq::<String>::empty() =~= sample@);
    }
    sample
}

/// A dry run never matches a product that storage does not know: every
/// fetched product without an existing mapping is reported as unmatched,
/// and the plan queues zero price observations for them.
pub proof fn lemma_reconcile_dry_run(products: Seq<Product>, mapping: Seq<ProductMapping>)
    requires
        forall|i: int| 0 <= i < products.len() ==> !map_has(mapping, products[i].sku@),
    ensures
        spec_matched(products, mapping).len() == 0,
        spec_unmatched(products, mapping) == products.map_values(|p: Product| p.sku),
    decreases products.len(),
{
    if products.len() == 0 {
        assert(spec_unmatched(products, mapping) =~= products.map_values(|p: Product| p.sku));
    } else {
        lemma_reconcile_dry_run(products.drop_last(), mapping);
        assert(spec_unmatched(products, mapping) =~= products.map_values(|p: Product| p.sku));
    }
}

/// After persisting, every fetched sku has just been upserted, so the
/// reloaded mapping covers all of them: every fetched product is matched,
/// produces exactly one price observation, and none is unmatched.
pub proof fn lemma_reconcile_after_persist(products: Seq<Product>, mapping: Seq<ProductMapping>)
    requires
        forall|i: int| 0 <= i < products.len() ==> map_has(mapping, products[i].sku@),
    ensures
        spec_matched(products, mapping) == products,
        spec_unmatched(products, mapping).len() == 0,
    decreases products.len(),
{
    if products.len() == 0 {
        assert(spec_matched(products, mapping) =~= products);
    } else {
        lemma_reconcile_after_persist(products.drop_last(), mapping);
        assert(spec_matched(products, mapping) =~= products);
    }
}

} // verus!
