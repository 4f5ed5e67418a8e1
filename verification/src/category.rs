//! Categories of the catalog, and the department filter derived from them.

use vstd::prelude::*;
use vstd::string::StrSliceExecFns;
use vstd::string::StringExecFns;

verus! {

/// Describes a category which can be searched.
#[derive(Debug)]
pub struct Category {
    /// The name of the category.
    pub name: String,
    /// The url path to browse the category.
    pub url: String,
}

impl Clone for Category {
    fn clone(&self) -> (r: Self)
        ensures
            r == self,
    {
        Category { name: self.name.clone(), url: self.url.clone() }
    }
}

/// The characters after the last `/` of the sequence; the whole sequence
/// when it has no `/`.
pub open spec fn spec_last_segment(s: Seq<char>) -> Seq<char>
    decreases s.len(),
{
    if s.len() == 0 {
        s
    } else if s.last() == '/' {
        Seq::<char>::empty()
    } else {
        spec_last_segment(s.drop_last()).push(s.last())
    }
}

proof fn lemma_last_segment_after_slash(s: Seq<char>, k: int)
    requires
        0 <= k < s.len(),
        s[k] == '/',
        forall|j: int| k < j < s.len() ==> s[j] != '/',
    ensures
        spec_last_segment(s) == s.subrange(k + 1, s.len() as int),
    decreases s.len(),
{
    if k == s.len() - 1 {
        assert(spec_last_segment(s) =~= s.subrange(k + 1, s.len() as int));
    } else {
        lemma_last_segment_after_slash(s.drop_last(), k);
        assert(spec_last_segment(s) =~= s.subrange(k + 1, s.len() as int));
    }
}

proof fn lemma_last_segment_no_slash(s: Seq<char>)
    requires
        forall|j: int| 0 <= j < s.len() ==> s[j] != '/',
    ensures
        spec_last_segment(s) == s,
    decreases s.len(),
{
    if s.len() > 0 {
        lemma_last_segment_no_slash(s.drop_last());
        assert(spec_last_segment(s) =~= s);
    }
}

/// The last path segment of a url: the characters after its last `/`, or
/// the whole url when it has none.
pub fn last_path_segment(url: &str) -> (r: String)
    ensures
        r@ == spec_last_segment(url@),
{
    let len = url.unicode_len();
    let mut i = len;
    while i > 0
        invariant
            0 <= i <= len,
            len == url@.len(),
            forall|j: int| i <= j < len ==> url@[j] != '/',
        decreases i,
    {
        if url.get_char(i - 1) == '/' {
            proof {
                lemma_last_segment_after_slash(url@, i - 1);
            }
            return url.substring_char(i, len).to_owned();
        }
        i = i - 1;
    }
    proof {
        lemma_last_segment_no_slash(url@);
    }
    url.to_owned()
}

/// The department filter handed to the catalog page request: the last path
/// segment of the category's url, framed as a `dasFilter` value.
pub fn department_filter(category: &Category) -> (r: String)
    ensures
        r@ == "Department;;"@ + spec_last_segment(category.url@) + ";false"@,
{
    let mut s = String::from_str("Department;;");
    let segment = last_path_segment(category.url.as_str());
    s.append(segment.as_str());
    s.append(";false");
    s
}

} // verus!
