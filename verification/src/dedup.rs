//! Merging the workers' page results into one product set keyed by sku.
//!
//! When two products carry the same sku, the one encountered first wins and
//! later duplicates are dropped without error: this is a first-write-wins
//! identity rule, not a merge of fields.

use vstd::prelude::*;
use crate::product::{Product, has_sku, sku_set, skus_of, unique_skus};

verus! {

/// First-write-wins deduplication of a sequence of products, keyed by sku:
/// a product is kept exactly when no earlier product carries its sku.
pub open spec fn spec_dedup(s: Seq<Product>) -> Seq<Product>
    decreases s.len(),
{
    if s.len() == 0 {
        Seq::<Product>::empty()
    } else {
        let prefix = spec_dedup(s.drop_last());
        if has_sku(prefix, s.last().sku@) {
            prefix
        } else {
            prefix.push(s.last())
        }
    }
}

/// Deduplication keeps exactly the skus of its input, and what it keeps
/// has no sku twice.
pub proof fn lemma_dedup_skus(s: Seq<Product>)
    ensures
        sku_set(spec_dedup(s)) == sku_set(s),
        unique_skus(spec_dedup(s)),
        forall|k: Seq<char>| has_sku(spec_dedup(s), k) == has_sku(s, k),
    decreases s.len(),
{
    if s.len() == 0 {
        assert(sku_set(spec_dedup(s)) =~= sku_set(s));
    } else {
        lemma_dedup_skus(s.drop_last());
        let prefix = spec_dedup(s.drop_last());
        assert forall|k: Seq<char>| has_sku(spec_dedup(s), k) == has_sku(s, k) by {
            lemma_has_sku_extend(s, k);
            if has_sku(prefix, s.last().sku@) {
            } else {
                lemma_has_sku_extend(prefix.push(s.last()), k);
                assert(prefix.push(s.last()).drop_last() =~= prefix);
            }
        }
        lemma_sku_set_is_has_sku(spec_dedup(s));
        lemma_sku_set_is_has_sku(s);
        assert(sku_set(spec_dedup(s)) =~= sku_set(s));
    }
}

/// A sku is in the sku set exactly when some product carries it.
pub proof fn lemma_sku_set_is_has_sku(s: Seq<Product>)
    ensures
        forall|k: Seq<char>| #[trigger] sku_set(s).contains(k) == has_sku(s, k),
{
    assert forall|k: Seq<char>| #[trigger] sku_set(s).contains(k) == has_sku(s, k) by {
        if has_sku(s, k) {
            let i = choose|i: int| 0 <= i < s.len() && s[i].sku@ == k;
            assert(skus_of(s)[i] == k);
            assert(skus_of(s).contains(k));
        }
        if sku_set(s).contains(k) {
            let i = choose|i: int| 0 <= i < skus_of(s).len() && skus_of(s)[i] == k;
            assert(s[i].sku@ == k);
        }
    }
}

proof fn lemma_has_sku_extend(s: Seq<Product>, k: Seq<char>)
    requires
        s.len() > 0,
    ensures
        has_sku(s, k) == (has_sku(s.drop_last(), k) || s.last().sku@ == k),
{
    if has_sku(s.drop_last(), k) {
        let i = choose|i: int| 0 <= i < s.drop_last().len() && s.drop_last()[i].sku@ == k;
        assert(s[i].sku@ == k);
    }
    if has_sku(s, k) && s.last().sku@ != k {
        let i = choose|i: int| 0 <= i < s.len() && s[i].sku@ == k;
        assert(s.drop_last()[i].sku@ == k);
    }
}

/// A sequence with no repeated sku is already deduplicated.
pub proof fn lemma_dedup_of_unique(s: Seq<Product>)
    requires
        unique_skus(s),
    ensures
        spec_dedup(s) == s,
    decreases s.len(),
{
    if s.len() > 0 {
        lemma_dedup_of_unique(s.drop_last());
        lemma_dedup_skus(s.drop_last());
        assert(!has_sku(s.drop_last(), s.last().sku@));
        assert(spec_dedup(s) =~= s);
    }
}

/// Deduplicating again after appending more products is the same as
/// deduplicating the whole input at once.
pub proof fn lemma_dedup_absorb(s: Seq<Product>, t: Seq<Product>)
    ensures
        spec_dedup(spec_dedup(s) + t) == spec_dedup(s + t),
    decreases t.len(),
{
    if t.len() == 0 {
        lemma_dedup_skus(s);
        lemma_dedup_of_unique(spec_dedup(s));
        assert(spec_dedup(s) + t =~= spec_dedup(s));
        assert(s + t =~= s);
    } else {
        lemma_dedup_absorb(s, t.drop_last());
        assert((spec_dedup(s) + t).drop_last() =~= spec_dedup(s) + t.drop_last());
        assert((s + t).drop_last() =~= s + t.drop_last());
        assert((spec_dedup(s) + t).last() == t.last());
        assert((s + t).last() == t.last());
    }
}

/// Merges one page's products into an accumulator, dropping every product
/// whose sku the accumulator already holds.
pub fn merge_products(acc: &mut Vec<Product>, page: &Vec<Product>)
    requires
        unique_skus(old(acc)@),
    ensures
        final(acc)@ == spec_dedup(old(acc)@ + page@),
        unique_skus(final(acc)@),
{
    proof {
        lemma_dedup_of_unique(old(acc)@);
        assert(old(acc)@ + page@.subrange(0, 0) =~= old(acc)@);
    }
    let ghost orig = acc@;
    let mut i: usize = 0;
    while i < page.len()
        invariant
            0 <= i <= page@.len(),
            acc@ == spec_dedup(orig + page@.subrange(0, i as int)),
            orig == old(acc)@,
        decreases page@.len() - i,
    {
        let ghost pre = orig + page@.subrange(0, i as int);
        proof {
            assert(orig + page@.subrange(0, i + 1) =~= pre.push(page@[i as int]));
            assert(pre.push(page@[i as int]).drop_last() =~= pre);
        }
        if !crate::product::contains_sku(acc, &page[i].sku) {
            acc.push(page[i].clone());
        }
        i = i + 1;
    }
    proof {
        assert(page@.subrange(0, page@.len() as int) =~= page@);
        lemma_dedup_skus(orig + page@);
    }
}

/// Feeding two products with identical sku but differing fields (the
/// price, say) yields exactly one entity: whichever was inserted first.
pub proof fn lemma_first_write_wins(p1: Product, p2: Product)
    requires
        p1.sku@ == p2.sku@,
    ensures
        spec_dedup(seq![p1, p2]) == seq![p1],
{
    assert(seq![p1, p2].drop_last() =~= seq![p1]);
    assert(seq![p1].drop_last() =~= Seq::<Product>::empty());
    assert(!has_sku(Seq::<Product>::empty(), p1.sku@));
    assert(spec_dedup(Seq::<Product>::empty()) =~= Seq::<Product>::empty());
    assert(spec_dedup(seq![p1]) =~= Seq::<Product>::empty().push(p1));
    assert(spec_dedup(seq![p1]) =~= seq![p1]);
    assert(has_sku(seq![p1], p2.sku@)) by {
        assert(seq![p1][0].sku@ == p2.sku@);
    }
}

/// Running the crawl with one worker or with many yields the same merged
/// set: any two drains of the same upstream pages observe the same skus,
/// however the pages were interleaved or split among workers, and merging
/// them keeps exactly those skus, one entity per sku.
pub proof fn lemma_merge_order_independent(s1: Seq<Product>, s2: Seq<Product>)
    requires
        sku_set(s1) == sku_set(s2),
    ensures
        sku_set(spec_dedup(s1)) == sku_set(spec_dedup(s2)),
        unique_skus(spec_dedup(s1)),
        unique_skus(spec_dedup(s2)),
{
    lemma_dedup_skus(s1);
    lemma_dedup_skus(s2);
}

/// With upstream responses fixed, the crawl is idempotent: two runs whose
/// workers accumulated the same page products — however differently the
/// pages were split among the workers — merge to the same product set.
pub proof fn lemma_crawl_idempotent(b1: Seq<Vec<Product>>, b2: Seq<Vec<Product>>)
    requires
        spec_flatten_batches(b1) == spec_flatten_batches(b2),
    ensures
        spec_dedup(spec_flatten_batches(b1)) == spec_dedup(spec_flatten_batches(b2)),
{
}

/// The per-worker page results, flattened in worker order.
pub open spec fn spec_flatten_batches(batches: Seq<Vec<Product>>) -> Seq<Product> {
    batches.map_values(|v: Vec<Product>| v@).flatten()
}

/// Merges all the workers' accumulated results into one product set keyed
/// by sku, first write wins.
pub fn dedup_products(batches: &Vec<Vec<Product>>) -> (r: Vec<Product>)
    ensures
        r@ == spec_dedup(spec_flatten_batches(batches@)),
        unique_skus(r@),
        sku_set(r@) == sku_set(spec_flatten_batches(batches@)),
{
    let mut acc: Vec<Product> = Vec::new();
    proof {
        assert(batches@.subrange(0, 0).map_values(|v: Vec<Product>| v@) =~= Seq::<
            Seq<Product>,
        >::empty());
        assert(spec_flatten_batches(batches@.subrange(0, 0)) =~= Seq::<Product>::empty());
        assert(acc@ =~= spec_dedup(spec_flatten_batches(batches@.subrange(0, 0))));
    }
    let mut i: usize = 0;
    while i < batches.len()
        invariant
            0 <= i <= batches@.len(),
            acc@ == spec_dedup(spec_flatten_batches(batches@.subrange(0, i as int))),
            unique_skus(acc@),
        decreases batches@.len() - i,
    {
        let ghost pre = spec_flatten_batches(batches@.subrange(0, i as int));
        merge_products(&mut acc, &batches[i]);
        proof {
            lemma_dedup_absorb(pre, batches@[i as int]@);
            assert(batches@.subrange(0, i + 1).map_values(|v: Vec<Product>| v@) =~= batches@
                .subrange(0, i as int)
                .map_values(|v: Vec<Product>| v@)
                .push(batches@[i as int]@));
            batches@.subrange(0, i as int).map_values(|v: Vec<Product>| v@).lemma_flatten_push(
                batches@[i as int]@,
            );
            assert(spec_flatten_batches(batches@.subrange(0, i + 1)) =~= pre
                + batches@[i as int]@);
        }
        i = i + 1;
    }
    proof {
        assert(batches@.subrange(0, batches@.len() as int) =~= batches@);
        lemma_dedup_skus(spec_flatten_batches(batches@));
    }
    acc
}

} // verus!
