//! Selecting the browsable categories out of the store's navigation shell.
//!
//! The shell arrives over HTTP as a navigation tree; only the already
//! decoded tree is handled here: the menu named "Browse" holds the
//! categories that the crawl will walk.

use vstd::prelude::*;
use vstd::string::StringExecFns;
use crate::category::Category;

verus! {

/// API response for a specific navigation item.
pub struct NavigationItem {
    /// The categories the navigation item offers.
    pub items: Vec<Category>,
}

/// API response for one navigation menu of the shell.
pub struct ShellNav {
    /// The label of the menu.
    pub name: String,
    /// The menu's navigation items, absent on menus that hold none.
    pub navigation_items: Option<Vec<NavigationItem>>,
}

/// Failures to select the categories from the shell.
#[derive(Debug)]
pub enum GetCategoriesError {
    HttpError,
    DecodeError,
}

impl GetCategoriesError {
    /// The description that the failure is reported with.
    pub open spec fn spec_message(self) -> Seq<char> {
        match self {
            GetCategoriesError::HttpError => "Failed to perform an HTTP request."@,
            GetCategoriesError::DecodeError
                => "Failed to decode the JSON response to an appropriate type"@,
        }
    }

    /// A human-readable description of the failure.
    pub fn message(&self) -> (r: String)
        ensures
            r@ == self.spec_message(),
    {
        match self {
            GetCategoriesError::HttpError => String::from_str("Failed to perform an HTTP request."),
            GetCategoriesError::DecodeError => String::from_str(
                "Failed to decode the JSON response to an appropriate type",
            ),
        }
    }
}

/// The first position of the menu named "Browse" in the shell's menus.
pub open spec fn spec_browse_position(navs: Seq<ShellNav>) -> Option<int>
    decreases navs.len(),
{
    if navs.len() == 0 {
        Option::<int>::None
    } else {
        match spec_browse_position(navs.drop_last()) {
            Some(i) => Some(i),
            None => if navs.last().name@ == "Browse"@ {
                Some(navs.len() - 1)
            } else {
                None
            },
        }
    }
}

proof fn lemma_browse_position_none(navs: Seq<ShellNav>)
    requires
        forall|j: int| 0 <= j < navs.len() ==> navs[j].name@ != "Browse"@,
    ensures
        spec_browse_position(navs) is None,
    decreases navs.len(),
{
    if navs.len() > 0 {
        lemma_browse_position_none(navs.drop_last());
    }
}

proof fn lemma_browse_position_found(navs: Seq<ShellNav>, i: int)
    requires
        0 <= i < navs.len(),
        navs[i].name@ == "Browse"@,
        forall|j: int| 0 <= j < i ==> navs[j].name@ != "Browse"@,
    ensures
        spec_browse_position(navs) == Some(i),
    decreases navs.len(),
{
    if i < navs.len() - 1 {
        lemma_browse_position_found(navs.drop_last(), i);
    } else {
        lemma_browse_position_none(navs.drop_last());
    }
}

/// All the categories of a menu's navigation items, flattened in order.
pub open spec fn spec_flat_categories(items: Seq<NavigationItem>) -> Seq<Category>
    decreases items.len(),
{
    if items.len() == 0 {
        Seq::<Category>::empty()
    } else {
        spec_flat_categories(items.drop_last()) + items.last().items@
    }
}

/// Finds the first menu labelled "Browse".
fn find_browse_menu(main_navs: &Vec<ShellNav>) -> (r: Option<usize>)
    ensures
        r matches Some(p) ==> p < main_navs@.len() && spec_browse_position(main_navs@) == Some(
            p as int,
        ),
        r is None ==> spec_browse_position(main_navs@) is None,
{
    let browse = String::from_str("Browse");
    let mut pos: usize = 0;
    while pos < main_navs.len()
        invariant
            0 <= pos <= main_navs@.len(),
            browse@ == "Browse"@,
            forall|j: int| 0 <= j < pos ==> main_navs@[j].name@ != "Browse"@,
        decreases main_navs@.len() - pos,
    {
        if main_navs[pos].name == browse {
            proof {
                lemma_browse_position_found(main_navs@, pos as int);
            }
            return Some(pos);
        }
        pos = pos + 1;
    }
    proof {
        lemma_browse_position_none(main_navs@);
    }
    None
}

/// Retrieves all the categories in the store, given its decoded shell: the
/// categories of the menu named "Browse", flattened in order. A shell
/// without such a menu, or one whose menu carries no navigation items, has
/// lost the structure the decoder expected.
pub fn get_categories(main_navs: &Vec<ShellNav>) -> (r: Result<Vec<Category>, GetCategoriesError>)
    ensures
        spec_browse_position(main_navs@) is None ==> r == Err::<Vec<Category>, GetCategoriesError>(
            GetCategoriesError::DecodeError,
        ),
        spec_browse_position(main_navs@) matches Some(p) ==> match main_navs@[p].navigation_items {
            Option::None => r == Err::<Vec<Category>, GetCategoriesError>(
                GetCategoriesError::DecodeError,
            ),
            Option::Some(items) => r matches Ok(cats) && cats@ == spec_flat_categories(items@),
        },
{
    // read the menu labelled "Browse"
    let found = match find_browse_menu(main_navs) {
        Option::None => {
            return Err(GetCategoriesError::DecodeError);
        },
        Option::Some(p) => p,
    };

    // read the menu's navigation items
    let lists = match &main_navs[found].navigation_items {
        Option::None => {
            return Err(GetCategoriesError::DecodeError);
        },
        Option::Some(lists) => lists,
    };

    // flatten the categories the items offer
    let mut cats: Vec<Category> = Vec::new();
    proof {
        assert(cats@ =~= spec_flat_categories(lists@.subrange(0, 0)));
    }
    let mut i: usize = 0;
    while i < lists.len()
        invariant
            0 <= i <= lists@.len(),
            cats@ == spec_flat_categories(lists@.subrange(0, i as int)),
        decreases lists@.len() - i,
    {
        proof {
            assert(lists@.subrange(0, i + 1).drop_last() =~= lists@.subrange(0, i as int));
        }
        let inner = &lists[i].items;
        let ghost before = cats@;
        let mut j: usize = 0;
        while j < inner.len()
            invariant
                0 <= j <= inner@.len(),
                inner@ == lists@[i as int].items@,
                cats@ == before + inner@.subrange(0, j as int),
            decreases inner@.len() - j,
        {
            proof {
                assert((before + inner@.subrange(0, j as int)).push(inner@[j as int]) =~= before
                    + inner@.subrange(0, j + 1));
            }
            cats.push(inner[j].clone());
            j = j + 1;
        }
        proof {
            assert(inner@.subrange(0, inner@.len() as int) =~= inner@);
        }
        i = i + 1;
    }
    proof {
        assert(lists@.subrange(0, lists@.len() as int) =~= lists@);
    }
    Ok(cats)
}

} // verus!
