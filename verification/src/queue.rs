//! The queue of pending page requests, and how a fetched page expands it.
//!
//! The queue is seeded with exactly one first-page task per category. A
//! worker that completes a first-page task learns the category's true page
//! count and pushes one follow-up task for each of the remaining pages;
//! only first-page tasks ever owe such an expansion, so no page is
//! requested twice.

use vstd::prelude::*;
use crate::category::Category;
use crate::fetch::{GetProductResponse, PAGE_SIZE, spec_total_pages};

verus! {

/// One pending page request: a category, a page number, and whether the
/// task still owes the expansion of its category's remaining pages (true
/// only for the seeded first-page tasks).
#[derive(Debug)]
pub struct PageRequestTask {
    /// The category whose page is requested.
    pub category: Category,
    /// The page number to request, counted from 1.
    pub page: i64,
    /// Whether the worker that completes the request must push the
    /// category's follow-up pages onto the queue.
    pub expand: bool,
}

/// An ordered collection of pending page requests, drained from the front
/// and grown at the back. Workers share one queue behind a lock held only
/// for the duration of a pop or a batch push.
pub struct TaskQueue {
    tasks: Vec<PageRequestTask>,
}

impl View for TaskQueue {
    type V = Seq<PageRequestTask>;

    closed spec fn view(&self) -> Seq<PageRequestTask> {
        self.tasks@
    }
}

impl TaskQueue {
    /// Seeds the queue with one first-page task per category, each owing
    /// its category's expansion.
    pub fn seed(categories: Vec<Category>) -> (q: TaskQueue)
        ensures
            q@.len() == categories@.len(),
            forall|i: int|
                0 <= i < categories@.len() ==> {
                    &&& (#[trigger] q@[i]).category == categories@[i]
                    &&& q@[i].page == 1
                    &&& q@[i].expand
                },
    {
        let mut tasks: Vec<PageRequestTask> = Vec::new();
        let mut i: usize = 0;
        while i < categories.len()
            invariant
                0 <= i <= categories@.len(),
                tasks@.len() == i,
                forall|j: int|
                    0 <= j < i ==> {
                        &&& (#[trigger] tasks@[j]).category == categories@[j]
                        &&& tasks@[j].page == 1
                        &&& tasks@[j].expand
                    },
            decreases categories@.len() - i,
        {
            tasks.push(PageRequestTask { category: categories[i].clone(), page: 1, expand: true });
            i = i + 1;
        }
        TaskQueue { tasks }
    }

    /// Appends a batch of tasks at the back of the queue.
    pub fn push_many(&mut self, tasks: Vec<PageRequestTask>)
        ensures
            final(self)@ == old(self)@ + tasks@,
    {
        let mut rest = tasks;
        let ghost all = rest@;
        let mut i: usize = 0;
        while i < rest.len()
            invariant
                0 <= i <= all.len(),
                rest@ == all,
                self@ == old(self)@ + all.subrange(0, i as int),
            decreases all.len() - i,
        {
            proof {
                assert((old(self)@ + all.subrange(0, i as int)).push(all[i as int]) =~= old(self)@
                    + all.subrange(0, i + 1));
            }
            self.tasks.push(rest[i].clone());
            i = i + 1;
        }
        proof {
            assert(all.subrange(0, all.len() as int) =~= all);
        }
    }

    /// Takes the task at the front of the queue, or reports the queue
    /// empty.
    pub fn pop_front(&mut self) -> (r: Option<PageRequestTask>)
        ensures
            old(self)@.len() == 0 ==> r is None && final(self)@ == old(self)@,
            old(self)@.len() > 0 ==> r == Some(old(self)@[0]) && final(self)@ == old(
                self,
            )@.drop_first(),
    {
        if self.tasks.len() == 0 {
            return None;
        }
        let task = self.tasks.remove(0);
        proof {
            assert(old(self)@.remove(0) =~= old(self)@.drop_first());
        }
        Some(task)
    }

    /// How many tasks are pending.
    pub fn len(&self) -> (r: usize)
        ensures
            r == self@.len(),
    {
        self.tasks.len()
    }
}

impl Clone for PageRequestTask {
    fn clone(&self) -> (r: Self)
        ensures
            r == self,
    {
        PageRequestTask { category: self.category.clone(), page: self.page, expand: self.expand }
    }
}

/// The follow-up tasks for a category whose first page announced
/// `total_pages` pages in all: one task per page of `2..=total_pages`,
/// none of them owing a further expansion.
pub fn expansion_tasks(category: &Category, total_pages: i64) -> (r: Vec<PageRequestTask>)
    requires
        total_pages <= i32::MAX,
    ensures
        r@.len() == (if total_pages >= 2 {
            total_pages - 1
        } else {
            0
        }),
        forall|i: int|
            0 <= i < r@.len() ==> {
                &&& (#[trigger] r@[i]).category == *category
                &&& r@[i].page == i + 2
                &&& !r@[i].expand
            },
{
    let mut tasks: Vec<PageRequestTask> = Vec::new();
    let mut page: i64 = 2;
    while page <= total_pages
        invariant
            2 <= page,
            total_pages >= 2 ==> page <= total_pages + 1,
            total_pages < 2 ==> page == 2,
            total_pages <= i32::MAX,
            tasks@.len() == page - 2,
            forall|i: int|
                0 <= i < tasks@.len() ==> {
                    &&& (#[trigger] tasks@[i]).category == *category
                    &&& tasks@[i].page == i + 2
                    &&& !tasks@[i].expand
                },
        decreases total_pages - page + 1,
    {
        tasks.push(PageRequestTask { category: category.clone(), page, expand: false });
        page = page + 1;
    }
    tasks
}

/// The worker's expansion step after completing a task: a first-page task
/// is expanded with its category's remaining pages, any other task adds
/// nothing.
pub fn continuation_tasks(task: &PageRequestTask, response: &GetProductResponse) -> (r: Vec<
    PageRequestTask,
>)
    requires
        response.total_pages <= i32::MAX,
    ensures
        task.expand ==> {
            &&& r@.len() == (if response.total_pages >= 2 {
                response.total_pages - 1
            } else {
                0
            })
            &&& forall|i: int|
                0 <= i < r@.len() ==> {
                    &&& (#[trigger] r@[i]).category == task.category
                    &&& r@[i].page == i + 2
                    &&& !r@[i].expand
                }
        },
        !task.expand ==> r@.len() == 0,
{
    if task.expand {
        expansion_tasks(&task.category, response.total_pages)
    } else {
        Vec::new()
    }
}

/// For every category that declares at least one item, the crawl issues
/// exactly the announced number of page requests: the seeded first page
/// plus one follow-up per remaining page add up to the total item count
/// divided by [`PAGE_SIZE`], rounded upward.
pub proof fn lemma_requests_per_category(total_items: int)
    requires
        1 <= total_items <= i32::MAX,
    ensures
        ({
            let follow_ups = if spec_total_pages(total_items) >= 2 {
                spec_total_pages(total_items) - 1
            } else {
                0
            };
            1 + follow_ups == spec_total_pages(total_items)
        }),
        spec_total_pages(total_items) >= 1,
{
    assert(spec_total_pages(total_items) >= 1);
}

} // verus!
