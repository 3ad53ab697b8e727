//! Locating the first balanced `{...}` span of a text.

use vstd::prelude::*;

verus! {

pub open spec fn brace_delta(c: char) -> int {
    if c == '{' {
        1
    } else if c == '}' {
        -1
    } else {
        0
    }
}

/// Scanning from `j` at nesting depth `d`, the position where depth first
/// falls to zero.
pub open spec fn balance_end(s: Seq<char>, j: int, d: int) -> Option<int>
    decreases s.len() - j,
{
    if j < 0 || j >= s.len() {
        None
    } else if d + brace_delta(s[j]) == 0 {
        Some(j)
    } else {
        balance_end(s, j + 1, d + brace_delta(s[j]))
    }
}

/// The first balanced span at or after `i`: the first `{` from which the
/// nesting depth comes back to zero, and the `}` where it does.
pub open spec fn first_span(s: Seq<char>, i: int) -> Option<(int, int)>
    decreases s.len() - i,
{
    if i < 0 || i >= s.len() {
        None
    } else if s[i] == '{' && balance_end(s, i + 1, 1) is Some {
        Some((i, balance_end(s, i + 1, 1)->Some_0))
    } else {
        first_span(s, i + 1)
    }
}

/// The first balanced `{...}` span of a text, or the whole text when it has
/// none.
pub open spec fn json_span(s: Seq<char>) -> Seq<char> {
    match first_span(s, 0) {
        Some((i, j)) => s.subrange(i, j + 1),
        None => s,
    }
}

proof fn lemma_balance_end_range(s: Seq<char>, j: int, d: int)
    ensures
        balance_end(s, j, d) matches Some(k) ==> j <= k < s.len(),
    decreases s.len() - j,
{
    if 0 <= j < s.len() && d + brace_delta(s[j]) != 0 {
        lemma_balance_end_range(s, j + 1, d + brace_delta(s[j]));
    }
}

fn balance_end_exec(s: &Vec<char>, j: usize) -> (r: Option<usize>)
    requires
        1 <= j <= s@.len(),
    ensures
        r matches Some(k) ==> balance_end(s@, j as int, 1) == Some(k as int),
        r is None ==> balance_end(s@, j as int, 1) is None,
{
    let mut k = j;
    let mut d: usize = 1;
    while k < s.len()
        invariant
            j <= k <= s@.len(),
            1 <= j,
            1 <= d <= k - j + 1,
            balance_end(s@, j as int, 1) == balance_end(s@, k as int, d as int),
        decreases s@.len() - k,
    {
        let c = s[k];
        let nd: usize = if c == '{' {
            d + 1
        } else if c == '}' {
            d - 1
        } else {
            d
        };
        if nd == 0 {
            return Some(k);
        }
        d = nd;
        k = k + 1;
    }
    None
}

/// The first balanced `{...}` span of the characters, or all of them.
pub fn json_span_chars(s: &Vec<char>) -> (r: (usize, usize))
    ensures
        r.0 <= r.1 <= s@.len(),
        s@.subrange(r.0 as int, r.1 as int) == json_span(s@),
{
    let mut i: usize = 0;
    while i < s.len()
        invariant
            i <= s@.len(),
            first_span(s@, 0) == first_span(s@, i as int),
        decreases s@.len() - i,
    {
        if s[i] == '{' {
            match balance_end_exec(s, i + 1) {
                Some(k) => {
                    proof {
                        lemma_balance_end_range(s@, i + 1, 1);
                    }
                    return (i, k + 1);
                },
                None => {},
            }
        }
        i = i + 1;
    }
    assert(s@.subrange(0, s@.len() as int) == s@);
    (0, s.len())
}

} // verus!
