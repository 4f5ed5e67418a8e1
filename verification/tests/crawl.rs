use supermarket_tracker::category::Category;
use supermarket_tracker::dedup::dedup_products;
use supermarket_tracker::fetch::{build_product_response, PageItem, PAGE_SIZE};
use supermarket_tracker::product::Product;
use supermarket_tracker::queue::{continuation_tasks, expansion_tasks, PageRequestTask, TaskQueue};

fn product(name: &str, sku: &str, price: i32) -> Product {
    Product {
        name: name.to_string(),
        barcode: format!("b-{sku}"),
        sku: sku.to_string(),
        per_unit_price: price,
    }
}

fn category(name: &str, url: &str) -> Category {
    Category { name: name.to_string(), url: url.to_string() }
}

fn product_page(count: usize, offset: usize) -> Vec<PageItem> {
    (0..count).map(|i| PageItem::Product(product(&format!("item {}", offset + i), &format!("sku-{}", offset + i), 100 + i as i32))).collect()
}

#[test]
fn page_size_is_120() {
    assert_eq!(PAGE_SIZE, 120);
}

#[test]
fn full_first_page_owes_a_follow_up() {
    // category with totalItems = 130: page 1 returns 120 products
    let res = build_product_response(product_page(120, 0), 130, 1);
    assert_eq!(res.products.len(), 120);
    assert_eq!(res.next_page, Some(2));
    assert_eq!(res.total_pages, 2);
}

#[test]
fn second_page_of_130_items_is_terminal() {
    // page 2 returns the remaining 10 products; 2 * 120 > 130
    let res = build_product_response(product_page(10, 120), 130, 2);
    assert_eq!(res.products.len(), 10);
    assert_eq!(res.next_page, None);
    assert_eq!(res.total_pages, 2);
}

#[test]
fn empty_page_is_terminal_despite_stale_total() {
    // totalItems says more pages exist, but the page carried no product
    let res = build_product_response(vec![], 480, 1);
    assert_eq!(res.products.len(), 0);
    assert_eq!(res.next_page, None);
    assert_eq!(res.total_pages, 4);
}

#[test]
fn non_product_items_are_discarded() {
    let items = vec![
        PageItem::PromoTile {},
        PageItem::Product(product("apples", "a-1", 250)),
        PageItem::PromotionalCarousel {},
        PageItem::Product(product("pears", "a-2", 300)),
    ];
    let res = build_product_response(items, 2, 1);
    assert_eq!(res.products.len(), 2);
    assert_eq!(res.products[0].name, "apples");
    assert_eq!(res.products[1].name, "pears");
}

#[test]
fn duplicate_sku_within_a_page_keeps_the_first() {
    let items = vec![
        PageItem::Product(product("first", "dup", 100)),
        PageItem::Product(product("second", "dup", 900)),
    ];
    let res = build_product_response(items, 2, 1);
    assert_eq!(res.products.len(), 1);
    assert_eq!(res.products[0].name, "first");
    assert_eq!(res.products[0].per_unit_price, 100);
}

#[test]
fn total_pages_rounds_upward() {
    assert_eq!(build_product_response(product_page(1, 0), 1, 1).total_pages, 1);
    assert_eq!(build_product_response(product_page(120, 0), 120, 1).total_pages, 1);
    assert_eq!(build_product_response(product_page(120, 0), 121, 1).total_pages, 2);
    assert_eq!(build_product_response(vec![], 0, 1).total_pages, 0);
}

#[test]
fn queue_is_seeded_with_one_first_page_task_per_category() {
    let cats = vec![category("Fruit & Veg", "specials/fruit-veg"), category("Pantry", "specials/pantry")];
    let mut queue = TaskQueue::seed(cats);
    assert_eq!(queue.len(), 2);
    let first = queue.pop_front().unwrap();
    assert_eq!(first.category.name, "Fruit & Veg");
    assert_eq!(first.page, 1);
    assert!(first.expand);
    let second = queue.pop_front().unwrap();
    assert_eq!(second.category.name, "Pantry");
    assert_eq!(second.page, 1);
    assert!(second.expand);
    assert!(queue.pop_front().is_none());
}

#[test]
fn push_many_appends_in_order() {
    let mut queue = TaskQueue::seed(vec![category("Pantry", "specials/pantry")]);
    let extra = expansion_tasks(&category("Pantry", "specials/pantry"), 3);
    queue.push_many(extra);
    assert_eq!(queue.len(), 3);
    assert_eq!(queue.pop_front().unwrap().page, 1);
    assert_eq!(queue.pop_front().unwrap().page, 2);
    assert_eq!(queue.pop_front().unwrap().page, 3);
}

#[test]
fn expansion_covers_pages_two_through_total() {
    let cat = category("Pantry", "specials/pantry");
    let tasks = expansion_tasks(&cat, 4);
    assert_eq!(tasks.len(), 3);
    for (i, task) in tasks.iter().enumerate() {
        assert_eq!(task.page, i as i64 + 2);
        assert_eq!(task.category.name, "Pantry");
        assert!(!task.expand);
    }
    assert_eq!(expansion_tasks(&cat, 1).len(), 0);
    assert_eq!(expansion_tasks(&cat, 0).len(), 0);
}

#[test]
fn only_first_page_tasks_expand() {
    let res = build_product_response(product_page(120, 0), 130, 1);
    let seeded = PageRequestTask { category: category("Fruit & Veg", "specials/fruit-veg"), page: 1, expand: true };
    let follow_ups = continuation_tasks(&seeded, &res);
    assert_eq!(follow_ups.len(), 1);
    assert_eq!(follow_ups[0].page, 2);
    assert!(!follow_ups[0].expand);

    let res2 = build_product_response(product_page(10, 120), 130, 2);
    let not_expanding = &follow_ups[0];
    assert_eq!(continuation_tasks(not_expanding, &res2).len(), 0);
}

#[test]
fn dedup_is_first_write_wins() {
    // two products with identical sku but differing price
    let batches = vec![vec![product("milk", "m-1", 250)], vec![product("milk", "m-1", 310)]];
    let merged = dedup_products(&batches);
    assert_eq!(merged.len(), 1);
    assert_eq!(merged[0].per_unit_price, 250);
}

#[test]
fn dedup_keeps_distinct_skus() {
    let batches = vec![
        vec![product("milk", "m-1", 250), product("bread", "b-1", 180)],
        vec![product("milk", "m-1", 310), product("eggs", "e-1", 700)],
    ];
    let merged = dedup_products(&batches);
    let skus: Vec<&str> = merged.iter().map(|p| p.sku.as_str()).collect();
    assert_eq!(skus, vec!["m-1", "b-1", "e-1"]);
}

/// The upstream data of one category: what each page returns when fetched.
struct MockedCategory {
    category: Category,
    total_items: i64,
    pages: Vec<Vec<PageItem>>,
}

fn page_of(mocked: &MockedCategory, page: i64) -> Vec<PageItem> {
    let idx = (page - 1) as usize;
    mocked.pages.get(idx).map(|items| clone_items(items)).unwrap_or_default()
}

fn clone_items(items: &[PageItem]) -> Vec<PageItem> {
    items
        .iter()
        .map(|item| match item {
            PageItem::Product(p) => PageItem::Product(p.clone()),
            PageItem::PromoTile {} => PageItem::PromoTile {},
            PageItem::PromotionalCarousel {} => PageItem::PromotionalCarousel {},
        })
        .collect()
}

/// Drains the queue the way the worker pool does, with `workers` local
/// accumulators served round-robin, against fixed upstream data.
fn run_crawl(upstream: &[MockedCategory], workers: usize) -> Vec<Product> {
    let mut queue = TaskQueue::seed(upstream.iter().map(|m| m.category.clone()).collect());
    let mut accumulators: Vec<Vec<Product>> = vec![Vec::new(); workers];
    let mut turn = 0;
    while let Some(task) = queue.pop_front() {
        let mocked = upstream
            .iter()
            .find(|m| m.category.name == task.category.name)
            .expect("task for an unknown category");
        let res = build_product_response(page_of(mocked, task.page), mocked.total_items, task.page);
        queue.push_many(continuation_tasks(&task, &res));
        supermarket_tracker::dedup::merge_products(&mut accumulators[turn % workers], &res.products);
        turn += 1;
    }
    dedup_products(&accumulators)
}

fn fruit_and_veg_upstream() -> Vec<MockedCategory> {
    // category "Fruit & Veg", totalItems = 130: page 1 returns 120
    // products, page 2 the remaining 10 plus a promo tile
    let mut page2 = product_page(10, 120);
    page2.push(PageItem::PromoTile {});
    vec![MockedCategory {
        category: category("Fruit & Veg", "specials/fruit-veg"),
        total_items: 130,
        pages: vec![product_page(120, 0), page2],
    }]
}

#[test]
fn crawl_scenario_fruit_and_veg() {
    let merged = run_crawl(&fruit_and_veg_upstream(), 1);
    assert_eq!(merged.len(), 130);
}

#[test]
fn crawl_issues_no_more_requests_than_announced() {
    // ceil(130 / 120) = 2 pages; the queue never holds a page beyond 2
    let upstream = fruit_and_veg_upstream();
    let mut queue = TaskQueue::seed(vec![upstream[0].category.clone()]);
    let mut requests = 0;
    while let Some(task) = queue.pop_front() {
        assert!(task.page <= 2);
        requests += 1;
        let res = build_product_response(page_of(&upstream[0], task.page), upstream[0].total_items, task.page);
        queue.push_many(continuation_tasks(&task, &res));
    }
    assert_eq!(requests, 2);
}

#[test]
fn crawl_result_does_not_depend_on_worker_count() {
    let mut upstream = fruit_and_veg_upstream();
    upstream.push(MockedCategory {
        category: category("Pantry", "specials/pantry"),
        total_items: 3,
        pages: vec![vec![
            PageItem::Product(product("flour", "p-1", 199)),
            PageItem::Product(product("sugar", "p-2", 249)),
            PageItem::Product(product("sku-5 again", "sku-5", 999)),
        ]],
    });
    let alone = run_crawl(&upstream, 1);
    let crowd = run_crawl(&upstream, 4);
    let mut alone_skus: Vec<String> = alone.iter().map(|p| p.sku.clone()).collect();
    let mut crowd_skus: Vec<String> = crowd.iter().map(|p| p.sku.clone()).collect();
    alone_skus.sort();
    crowd_skus.sort();
    assert_eq!(alone_skus, crowd_skus);
}

#[test]
fn no_page_is_requested_twice() {
    let mut upstream = fruit_and_veg_upstream();
    upstream.push(MockedCategory {
        category: category("Pantry", "specials/pantry"),
        total_items: 250,
        pages: vec![product_page(120, 200), product_page(120, 320), product_page(10, 440)],
    });
    let mut queue = TaskQueue::seed(upstream.iter().map(|m| m.category.clone()).collect());
    let mut seen: Vec<(String, i64)> = Vec::new();
    while let Some(task) = queue.pop_front() {
        let pair = (task.category.name.clone(), task.page);
        assert!(!seen.contains(&pair), "page requested twice: {pair:?}");
        seen.push(pair);
        let mocked = upstream.iter().find(|m| m.category.name == task.category.name).unwrap();
        let res = build_product_response(page_of(mocked, task.page), mocked.total_items, task.page);
        queue.push_many(continuation_tasks(&task, &res));
    }
    // 2 pages for the first category, ceil(250 / 120) = 3 for the second
    assert_eq!(seen.len(), 5);
}

#[test]
fn crawl_is_idempotent_across_runs() {
    let upstream = fruit_and_veg_upstream();
    let first = run_crawl(&upstream, 2);
    let second = run_crawl(&upstream, 2);
    assert_eq!(first.len(), second.len());
    for (a, b) in first.iter().zip(second.iter()) {
        assert_eq!(a.sku, b.sku);
        assert_eq!(a.name, b.name);
        assert_eq!(a.per_unit_price, b.per_unit_price);
    }
}
