//! Turning one catalog page into domain products and continuation
//! information.
//!
//! The page itself arrives over HTTP; only its already-decoded items, the
//! declared total item count and the page number are handled here.

use vstd::prelude::*;
use vstd::string::StringExecFns;
use crate::product::{Product, unique_skus};
use crate::dedup::{merge_products, spec_dedup};

verus! {

/// Failures of the worker pool to retrieve all products.
#[derive(Debug)]
pub enum ProductRetrievalError {
    Join,
    ProductRetrieval,
}

impl ProductRetrievalError {
    /// The description that the failure is reported with.
    pub open spec fn spec_message(self) -> Seq<char> {
        match self {
            ProductRetrievalError::Join => "Failed to join all products after querying"@,
            ProductRetrievalError::ProductRetrieval => "Failed to retrieve a product"@,
        }
    }

    /// A human-readable description of the failure.
    pub fn message(&self) -> (r: String)
        ensures
            r@ == self.spec_message(),
    {
        match self {
            ProductRetrievalError::Join => String::from_str(
                "Failed to join all products after querying",
            ),
            ProductRetrievalError::ProductRetrieval => String::from_str(
                "Failed to retrieve a product",
            ),
        }
    }
}

/// The number of items requested for each page.
pub const PAGE_SIZE: i64 = 120;

/// One entry of a page's item list: a tagged union in which only the
/// product variant carries a purchasable product.
pub enum PageItem {
    /// A single product that can be purchased, its price already in cents.
    Product(Product),
    /// A promotional item.
    PromoTile {},
    /// A carousel item of products, usually contained within a group.
    PromotionalCarousel {},
}

/// The products of a page's item list, in page order: every non-product
/// item is discarded silently.
pub open spec fn spec_page_products(items: Seq<PageItem>) -> Seq<Product>
    decreases items.len(),
{
    if items.len() == 0 {
        Seq::<Product>::empty()
    } else {
        let rest = spec_page_products(items.drop_last());
        match items.last() {
            PageItem::Product(p) => rest.push(p),
            _ => rest,
        }
    }
}

/// How many pages of size [`PAGE_SIZE`] the declared total item count
/// announces: their number rounded upward.
pub open spec fn spec_total_pages(total_items: int) -> int {
    (total_items + PAGE_SIZE - 1) / (PAGE_SIZE as int)
}

/// Whether a page is terminal for its category: either the declared total
/// is already exhausted, or the page carried no product at all. The second
/// guard is required because the declared total may be stale.
pub open spec fn spec_is_end(page_number: int, total_items: int, product_count: nat) -> bool {
    page_number * PAGE_SIZE > total_items || product_count == 0
}

/// The response for a request to browse one page of the store.
#[derive(Debug)]
pub struct GetProductResponse {
    /// The current page's products, one per sku, first write wins.
    pub products: Vec<Product>,
    /// The next page number, or None if we have reached the end.
    pub next_page: Option<i64>,
    /// The total amount of pages that may exist.
    ///
    /// Note that the API may not fully return all of these pages, it is an
    /// upper limit.
    pub total_pages: i64,
}

/// Builds the domain view of one fetched page: keeps the product items
/// (first write per sku wins), computes the page count that the declared
/// total announces, and decides whether a further page is owed.
pub fn build_product_response(items: Vec<PageItem>, total_items: i64, page_number: i64) -> (r:
    GetProductResponse)
    requires
        0 <= total_items <= i32::MAX,
        1 <= page_number <= i32::MAX,
    ensures
        r.products@ == spec_dedup(spec_page_products(items@)),
        unique_skus(r.products@),
        r.total_pages == spec_total_pages(total_items as int),
        r.next_page == (if spec_is_end(page_number as int, total_items as int, r.products@.len()) {
            Option::<i64>::None
        } else {
            Option::<i64>::Some((page_number + 1) as i64)
        }),
{
    let mut filtered: Vec<Product> = Vec::new();
    proof {
        assert(filtered@ =~= spec_page_products(items@.subrange(0, 0)));
    }
    let mut i: usize = 0;
    while i < items.len()
        invariant
            0 <= i <= items@.len(),
            filtered@ == spec_page_products(items@.subrange(0, i as int)),
        decreases items@.len() - i,
    {
        proof {
            assert(items@.subrange(0, i + 1).drop_last() =~= items@.subrange(0, i as int));
        }
        match &items[i] {
            PageItem::Product(p) => {
                filtered.push(p.clone());
            },
            _ => {},
        }
        i = i + 1;
    }
    proof {
        assert(items@.subrange(0, items@.len() as int) =~= items@);
    }

    let mut products: Vec<Product> = Vec::new();
    merge_products(&mut products, &filtered);
    proof {
        assert(Seq::<Product>::empty() + filtered@ =~= filtered@);
    }

    let is_end = page_number * PAGE_SIZE > total_items || products.len() == 0;

    GetProductResponse {
        products,
        next_page: if is_end {
            None
        } else {
            Some(page_number + 1)
        },
        total_pages: (total_items + PAGE_SIZE - 1) / PAGE_SIZE,
    }
}

} // verus!
