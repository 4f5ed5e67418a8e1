//! Assembling the query parameters of one catalog page request.

use vstd::prelude::*;
use vstd::string::StringExecFns;
use crate::category::{department_filter, spec_last_segment, Category};
use crate::fetch::PAGE_SIZE;

verus! {

/// The character a decimal digit is written as.
pub open spec fn spec_digit_char(d: nat) -> char {
    if d == 0 {
        '0'
    } else if d == 1 {
        '1'
    } else if d == 2 {
        '2'
    } else if d == 3 {
        '3'
    } else if d == 4 {
        '4'
    } else if d == 5 {
        '5'
    } else if d == 6 {
        '6'
    } else if d == 7 {
        '7'
    } else if d == 8 {
        '8'
    } else {
        '9'
    }
}

/// The decimal notation of a number: its digits in reading order, without
/// a sign and without leading zeros (zero itself is written "0").
pub open spec fn spec_decimal(n: nat) -> Seq<char>
    decreases n,
{
    if n < 10 {
        seq![spec_digit_char(n)]
    } else {
        spec_decimal(n / 10).push(spec_digit_char(n % 10))
    }
}

/// One decimal digit, as a string.
fn digit_string(d: u64) -> (r: String)
    requires
        d < 10,
    ensures
        r@ == seq![spec_digit_char(d as nat)],
{
    let r = match d {
        0 => String::from_str("0"),
        1 => String::from_str("1"),
        2 => String::from_str("2"),
        3 => String::from_str("3"),
        4 => String::from_str("4"),
        5 => String::from_str("5"),
        6 => String::from_str("6"),
        7 => String::from_str("7"),
        8 => String::from_str("8"),
        _ => String::from_str("9"),
    };
    proof {
        reveal_strlit("0");
        reveal_strlit("1");
        reveal_strlit("2");
        reveal_strlit("3");
        reveal_strlit("4");
        reveal_strlit("5");
        reveal_strlit("6");
        reveal_strlit("7");
        reveal_strlit("8");
        reveal_strlit("9");
        assert(r@ =~= seq![spec_digit_char(d as nat)]);
    }
    r
}

/// Writes a number in decimal notation.
pub fn decimal_string(n: u64) -> (r: String)
    ensures
        r@ == spec_decimal(n as nat),
    decreases n,
{
    if n < 10 {
        digit_string(n)
    } else {
        let mut s = decimal_string(n / 10);
        let d = digit_string(n % 10);
        s.append(d.as_str());
        proof {
            assert(s@ =~= spec_decimal((n / 10) as nat).push(spec_digit_char((n % 10) as nat)));
        }
        s
    }
}

/// The query parameters of one catalog page request: the fixed page size, a
/// browse target mode, the page number, and the department filter derived
/// from the category's url.
pub fn page_query_params(page_number: i64, category: &Category) -> (r: Vec<(String, String)>)
    requires
        1 <= page_number,
    ensures
        r@.len() == 4,
        r@[0].0@ == "size"@ && r@[0].1@ == spec_decimal(PAGE_SIZE as nat),
        r@[1].0@ == "target"@ && r@[1].1@ == "browse"@,
        r@[2].0@ == "page"@ && r@[2].1@ == spec_decimal(page_number as nat),
        r@[3].0@ == "dasFilter"@ && r@[3].1@ == "Department;;"@ + spec_last_segment(category.url@)
            + ";false"@,
{
    let mut params: Vec<(String, String)> = Vec::new();
    params.push((String::from_str("size"), decimal_string(PAGE_SIZE as u64)));
    params.push((String::from_str("target"), String::from_str("browse")));
    params.push((String::from_str("page"), decimal_string(page_number as u64)));
    params.push((String::from_str("dasFilter"), department_filter(category)));
    params
}

} // verus!
