//! Dispatch of the confirmation dialog's payload.
//!
//! A confirmation request carries one string of the form
//! `«task index»,«display id»`; the dialog hands it back unchanged when the
//! user confirms, and the removal it stands for is then resolved here.

use vstd::prelude::*;

use crate::config::{spec_parse_u32, parse_u32};

verus! {

/// Index of the first comma of `p` at or after `i`, or `p.len()`.
pub open spec fn spec_comma_ix(p: Seq<char>, i: int) -> int
    decreases p.len() - i,
{
    if i < 0 || i >= p.len() {
        p.len() as int
    } else if p[i] == ',' {
        i
    } else {
        spec_comma_ix(p, i + 1)
    }
}

/// The text before and after the first comma, if there is one.
pub open spec fn spec_split_payload(p: Seq<char>) -> Option<(Seq<char>, Seq<char>)> {
    let k = spec_comma_ix(p, 0);
    if k == p.len() {
        None
    } else {
        Some((p.take(k), p.skip(k + 1)))
    }
}

fn split_once_comma(s: &str) -> (r: Option<(String, String)>)
    ensures
        match r {
            None => spec_split_payload(s@) is None,
            Some((a, b)) => {
                &&& spec_split_payload(s@) matches Some((x, y))
                &&& a@ == x
                &&& b@ == y
            },
        },
{
    let n = s.unicode_len();
    let mut k: usize = 0;
    while k < n && s.get_char(k) != ','
        invariant
            k <= n,
            n == s@.len(),
            spec_comma_ix(s@, 0) == spec_comma_ix(s@, k as int),
        decreases n - k,
    {
        k = k + 1;
    }
    if k == n {
        None
    } else {
        let a = s.substring_char(0, k);
        let b = s.substring_char(k + 1, n);
        proof {
            assert(s@.take(k as int) =~= s@.subrange(0, k as int));
            assert(s@.skip(k + 1) =~= s@.subrange(k + 1, n as int));
        }
        Some((a.to_owned(), b.to_owned()))
    }
}

/// Resolves a confirmed removal payload into the task index and the display
/// identifier it names; a payload without a comma, or whose index is not a
/// number, resolves to nothing.
pub fn parse_remove_payload(s: &str) -> (r: Option<(u32, String)>)
    ensures
        match r {
            None => spec_split_payload(s@) is None || (spec_split_payload(s@) matches Some((
                x,
                _y,
            )) && spec_parse_u32(x) is None),
            Some((ix, uuid)) => {
                &&& spec_split_payload(s@) matches Some((x, y))
                &&& spec_parse_u32(x) == Some(ix)
                &&& uuid@ == y
            },
        },
{
    match split_once_comma(s) {
        None => None,
        Some((a, b)) => {
            match parse_u32(a.as_str()) {
                None => None,
                Some(ix) => Some((ix, b)),
            }
        },
    }
}

} // verus!
