//! The off-sale detector: previously persisted skus that the current crawl
//! no longer observes.
//!
//! The detector is purely informational. It never deletes or mutates
//! persisted rows; it only reports the lost identifiers.

use vstd::prelude::*;
use crate::product::{Product, contains_sku, has_sku, sku_set};

verus! {

/// The set of character sequences that a sequence of strings carries.
pub open spec fn str_set(strings: Seq<String>) -> Set<Seq<char>> {
    strings.map_values(|s: String| s@).to_set()
}

/// True when some string in the sequence reads as the given characters.
pub open spec fn has_str(strings: Seq<String>, k: Seq<char>) -> bool {
    exists|i: int| 0 <= i < strings.len() && strings[i]@ == k
}

/// The stored skus that no fetched product carries, in stored order.
pub open spec fn spec_off_sale(stored: Seq<String>, fetched: Seq<Product>) -> Seq<String>
    decreases stored.len(),
{
    if stored.len() == 0 {
        Seq::<String>::empty()
    } else {
        let rest = spec_off_sale(stored.drop_last(), fetched);
        if has_sku(fetched, stored.last()@) {
            rest
        } else {
            rest.push(stored.last())
        }
    }
}

/// Computes all the skus that are now off-sale against historically known
/// skus, by comparing against a list of known products that are currently
/// on sale.
pub fn get_off_sale_skus(stored_skus: &Vec<String>, fetched_products: &Vec<Product>) -> (r: Vec<
    String,
>)
    ensures
        r@ == spec_off_sale(stored_skus@, fetched_products@),
{
    let mut lost: Vec<String> = Vec::new();
    proof {
        assert(lost@ =~= spec_off_sale(stored_skus@.subrange(0, 0), fetched_products@));
    }
    let mut i: usize = 0;
    while i < stored_skus.len()
        invariant
            0 <= i <= stored_skus@.len(),
            lost@ == spec_off_sale(stored_skus@.subrange(0, i as int), fetched_products@),
        decreases stored_skus@.len() - i,
    {
        proof {
            assert(stored_skus@.subrange(0, i + 1).drop_last() =~= stored_skus@.subrange(
                0,
                i as int,
            ));
        }
        if !contains_sku(fetched_products, &stored_skus[i]) {
            lost.push(stored_skus[i].clone());
        }
        i = i + 1;
    }
    proof {
        assert(stored_skus@.subrange(0, stored_skus@.len() as int) =~= stored_skus@);
    }
    lost
}

/// The detector reports exactly the previously known skus minus the
/// currently fetched ones: a stored sku is reported when no fetched
/// product carries it, and a sku never stored — however freshly fetched —
/// is not reported.
pub proof fn lemma_off_sale_is_difference(stored: Seq<String>, fetched: Seq<Product>)
    ensures
        str_set(spec_off_sale(stored, fetched)) == str_set(stored).difference(sku_set(fetched)),
    decreases stored.len(),
{
    crate::dedup::lemma_sku_set_is_has_sku(fetched);
    lemma_str_set_is_has_str(spec_off_sale(stored, fetched));
    lemma_str_set_is_has_str(stored);
    assert forall|k: Seq<char>|
        has_str(spec_off_sale(stored, fetched), k) == (has_str(stored, k) && !has_sku(
            fetched,
            k,
        )) by {
        lemma_off_sale_membership(stored, fetched, k);
    }
    assert(str_set(spec_off_sale(stored, fetched)) =~= str_set(stored).difference(
        sku_set(fetched),
    ));
}

proof fn lemma_off_sale_membership(stored: Seq<String>, fetched: Seq<Product>, k: Seq<char>)
    ensures
        has_str(spec_off_sale(stored, fetched), k) == (has_str(stored, k) && !has_sku(fetched, k)),
    decreases stored.len(),
{
    if stored.len() == 0 {
    } else {
        lemma_off_sale_membership(stored.drop_last(), fetched, k);
        let rest = spec_off_sale(stored.drop_last(), fetched);
        lemma_has_str_extend(stored, k);
        if !has_sku(fetched, stored.last()@) {
            lemma_has_str_extend(rest.push(stored.last()), k);
            assert(rest.push(stored.last()).drop_last() =~= rest);
        }
    }
}

proof fn lemma_has_str_extend(s: Seq<String>, k: Seq<char>)
    requires
        s.len() > 0,
    ensures
        has_str(s, k) == (has_str(s.drop_last(), k) || s.last()@ == k),
{
    if has_str(s.drop_last(), k) {
        let i = choose|i: int| 0 <= i < s.drop_last().len() && s.drop_last()[i]@ == k;
        assert(s[i]@ == k);
    }
    if has_str(s, k) && s.last()@ != k {
        let i = choose|i: int| 0 <= i < s.len() && s[i]@ == k;
        assert(s.drop_last()[i]@ == k);
    }
}

/// A string reads as some member of the string set exactly when some entry
/// carries those characters.
pub proof fn lemma_str_set_is_has_str(s: Seq<String>)
    ensures
        forall|k: Seq<char>| #[trigger] str_set(s).contains(k) == has_str(s, k),
{
    assert forall|k: Seq<char>| #[trigger] str_set(s).contains(k) == has_str(s, k) by {
        let mapped = s.map_values(|x: String| x@);
        if has_str(s, k) {
            let i = choose|i: int| 0 <= i < s.len() && s[i]@ == k;
            assert(mapped[i] == k);
            assert(mapped.contains(k));
        }
        if str_set(s).contains(k) {
            let i = choose|i: int| 0 <= i < mapped.len() && mapped[i] == k;
            assert(s[i]@ == k);
        }
    }
}

} // verus!
