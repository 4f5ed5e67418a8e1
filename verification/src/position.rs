//! Finding the first occurrence of a string in a column of strings.

use vstd::prelude::*;

verus! {

/// The first position at which the column holds the given characters.
pub open spec fn spec_position(column: Seq<String>, k: Seq<char>) -> Option<int>
    decreases column.len(),
{
    if column.len() == 0 {
        Option::<int>::None
    } else {
        match spec_position(column.drop_last(), k) {
            Some(i) => Some(i),
            None => if column.last()@ == k {
                Some(column.len() - 1)
            } else {
                None
            },
        }
    }
}

/// A column without the characters has no position for them.
pub proof fn lemma_position_none(column: Seq<String>, k: Seq<char>)
    requires
        forall|j: int| 0 <= j < column.len() ==> column[j]@ != k,
    ensures
        spec_position(column, k) is None,
    decreases column.len(),
{
    if column.len() > 0 {
        lemma_position_none(column.drop_last(), k);
    }
}

/// An entry that no earlier entry repeats stands at the first position.
pub proof fn lemma_position_found(column: Seq<String>, k: Seq<char>, i: int)
    requires
        0 <= i < column.len(),
        column[i]@ == k,
        forall|j: int| 0 <= j < i ==> column[j]@ != k,
    ensures
        spec_position(column, k) == Some(i),
    decreases column.len(),
{
    if i < column.len() - 1 {
        lemma_position_found(column.drop_last(), k, i);
    } else {
        lemma_position_none(column.drop_last(), k);
    }
}

/// Finds the first position at which the column holds the given string.
pub fn find_position(column: &[String], value: &String) -> (r: Option<usize>)
    ensures
        r matches Some(p) ==> p < column@.len() && spec_position(column@, value@) == Some(p as int),
        r is None ==> spec_position(column@, value@) is None,
{
    let mut i: usize = 0;
    while i < column.len()
        invariant
            0 <= i <= column@.len(),
            forall|j: int| 0 <= j < i ==> column@[j]@ != value@,
        decreases column@.len() - i,
    {
        if column[i] == *value {
            proof {
                lemma_position_found(column@, value@, i as int);
            }
            return Some(i);
        }
        i = i + 1;
    }
    proof {
        lemma_position_none(column@, value@);
    }
    None
}

} // verus!
