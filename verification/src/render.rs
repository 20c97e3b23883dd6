//! Text renderings of a vector of numbers: the bracketed one-line
//! listing, the pretty multi-line listing with one indented element per
//! line, and a plain run of numbers each followed by a space.

use vstd::prelude::*;
use vstd::string::StringExecFns;
use crate::decimal::{i32_to_string, spec_signed_decimal};

verus! {

/// The decimal numerals of the elements from index `i` on, joined by a
/// comma and a space.
pub open spec fn spec_joined_from(s: Seq<i32>, i: int) -> Seq<char>
    decreases s.len() - i,
{
    if i < 0 || i >= s.len() {
        Seq::empty()
    } else if i == s.len() - 1 {
        spec_signed_decimal(s[i] as int)
    } else {
        spec_signed_decimal(s[i] as int) + seq![',', ' '] + spec_joined_from(s, i + 1)
    }
}

/// The one-line listing: the joined numerals between square brackets.
pub open spec fn spec_compact_listing(s: Seq<i32>) -> Seq<char> {
    seq!['['] + spec_joined_from(s, 0) + seq![']']
}

/// The decimal numerals of the elements from index `i` on, each followed
/// by a single space.
pub open spec fn spec_numbers_from(s: Seq<i32>, i: int) -> Seq<char>
    decreases s.len() - i,
{
    if i < 0 || i >= s.len() {
        Seq::empty()
    } else {
        spec_signed_decimal(s[i] as int) + seq![' '] + spec_numbers_from(s, i + 1)
    }
}

fn joined_from(v: &Vec<i32>, i: usize) -> (r: String)
    requires
        i <= v.len(),
    ensures
        r@ == spec_joined_from(v@, i as int),
    decreases v@.len() - i,
{
    if i >= v.len() {
        String::new()
    } else if i == v.len() - 1 {
        i32_to_string(v[i])
    } else {
        let mut s = i32_to_string(v[i]);
        s.append(", ");
        s.append(joined_from(v, i + 1).as_str());
        proof {
            reveal_strlit(", ");
            assert(", "@ =~= seq![',', ' ']);
        }
        s
    }
}

/// Renders the vector on one line, as in `[0, 1, 2]`.
pub fn compact_listing(v: &Vec<i32>) -> (r: String)
    ensures
        r@ == spec_compact_listing(v@),
{
    let mut s = String::from_str("[");
    s.append(joined_from(v, 0).as_str());
    s.append("]");
    proof {
        reveal_strlit("[");
        reveal_strlit("]");
        assert("["@ =~= seq!['[']);
        assert("]"@ =~= seq![']']);
    }
    s
}

/// Renders the vector as lines: an opening bracket, one indented element
/// per line with a trailing comma, and a closing bracket.
pub fn pretty_listing_lines(v: &Vec<i32>) -> (r: Vec<String>)
    ensures
        r@.len() == v@.len() + 2,
        r@[0]@ == seq!['['],
        forall|k: int|
            0 <= k < v@.len() ==> #[trigger] r@[k + 1]@ == seq![' ', ' ', ' ', ' ']
                + spec_signed_decimal(v@[k] as int) + seq![','],
        r@[v@.len() as int + 1]@ == seq![']'],
{
    let mut lines: Vec<String> = Vec::new();
    lines.push(String::from_str("["));
    proof {
        reveal_strlit("[");
        assert("["@ =~= seq!['[']);
    }
    let mut i: usize = 0;
    while i < v.len()
        invariant
            i <= v@.len(),
            lines@.len() == i + 1,
            lines@[0]@ == seq!['['],
            forall|k: int|
                0 <= k < i ==> #[trigger] lines@[k + 1]@ == seq![' ', ' ', ' ', ' ']
                    + spec_signed_decimal(v@[k] as int) + seq![','],
        decreases v@.len() - i,
    {
        let mut line = String::from_str("    ");
        line.append(i32_to_string(v[i]).as_str());
        line.append(",");
        proof {
            reveal_strlit("    ");
            reveal_strlit(",");
            assert("    "@ =~= seq![' ', ' ', ' ', ' ']);
            assert(","@ =~= seq![',']);
        }
        lines.push(line);
        i = i + 1;
    }
    lines.push(String::from_str("]"));
    proof {
        reveal_strlit("]");
        assert("]"@ =~= seq![']']);
    }
    lines
}

fn numbers_from(v: &Vec<i32>, i: usize) -> (r: String)
    requires
        i <= v.len(),
    ensures
        r@ == spec_numbers_from(v@, i as int),
    decreases v@.len() - i,
{
    if i >= v.len() {
        String::new()
    } else {
        let mut s = i32_to_string(v[i]);
        s.append(" ");
        s.append(numbers_from(v, i + 1).as_str());
        proof {
            reveal_strlit(" ");
            assert(" "@ =~= seq![' ']);
        }
        s
    }
}

/// Renders the vector as a plain run of numbers, each followed by a
/// single space, as in `1 2 3 `.
pub fn numbers_line(v: &Vec<i32>) -> (r: String)
    ensures
        r@ == spec_numbers_from(v@, 0),
{
    numbers_from(v, 0)
}

} // verus!
