//! File-name and file-size helpers shared by the catalog and the fetcher.

use vstd::prelude::*;

verus! {

pub const K: u64 = 1024;
pub const M: u64 = 1024 * 1024;
pub const G: u64 = 1024 * 1024 * 1024;

/// Relies on `String::push`: appends exactly one character to the string.
#[verifier::external_body]
pub(crate) fn push_char(s: &mut String, c: char)
    ensures
        final(s)@ == old(s)@ + seq![c],
{
    s.push(c);
}

/// The decimal digit character for `d`.
pub open spec fn digit_char(d: int) -> char {
    if d == 0 { '0' }
    else if d == 1 { '1' }
    else if d == 2 { '2' }
    else if d == 3 { '3' }
    else if d == 4 { '4' }
    else if d == 5 { '5' }
    else if d == 6 { '6' }
    else if d == 7 { '7' }
    else if d == 8 { '8' }
    else { '9' }
}

/// The decimal representation of `n`, most significant digit first.
pub open spec fn spec_dec(n: nat) -> Seq<char>
    decreases n,
{
    if n < 10 {
        seq![digit_char(n as int)]
    } else {
        spec_dec(n / 10) + seq![digit_char((n % 10) as int)]
    }
}

fn digit(d: u64) -> (c: char)
    requires
        d < 10,
    ensures
        c == digit_char(d as int),
{
    if d == 0 { '0' }
    else if d == 1 { '1' }
    else if d == 2 { '2' }
    else if d == 3 { '3' }
    else if d == 4 { '4' }
    else if d == 5 { '5' }
    else if d == 6 { '6' }
    else if d == 7 { '7' }
    else if d == 8 { '8' }
    else { '9' }
}

/// Writes `n` in decimal.
pub fn u64_to_dec(n: u64) -> (s: String)
    ensures
        s@ == spec_dec(n as nat),
    decreases n,
{
    if n < 10 {
        let mut s = String::new();
        push_char(&mut s, digit(n));
        assert(s@ =~= spec_dec(n as nat));
        s
    } else {
        let mut s = u64_to_dec(n / 10);
        push_char(&mut s, digit(n % 10));
        assert(s@ =~= spec_dec(n as nat));
        s
    }
}

/// Human-scale rendering of a byte count, binary-prefixed: sizes below `M`
/// fall in the `K` bucket and sizes below `G` in the `M` bucket, both rounded
/// down; sizes of `G` and above are shown in gibibytes with two decimal
/// places, rounded to the nearest hundredth (ties rounding up).
pub open spec fn spec_pretty_size(size: u64) -> Seq<char> {
    if size >= G {
        let cents0 = ((size as int % (G as int)) * 100 + (G as int) / 2) / (G as int);
        let whole = size as int / (G as int) + if cents0 == 100 { 1int } else { 0int };
        let cents = if cents0 == 100 { 0int } else { cents0 };
        spec_dec(whole as nat) + seq!['.'] + seq![digit_char(cents / 10), digit_char(cents % 10)] + seq!['G']
    } else if size >= M {
        spec_dec((size / M) as nat) + seq!['M']
    } else {
        spec_dec((size / K) as nat) + seq!['K']
    }
}

/// Formats a byte count as the catalog shows it.
pub fn pretty_size(size: u64) -> (s: String)
    ensures
        s@ == spec_pretty_size(size),
{
    if size >= G {
        let whole0 = size / G;
        let rem = size % G;
        let cents0 = (rem * 100 + G / 2) / G;
        assert(cents0 <= 100) by (nonlinear_arith)
            requires
                cents0 as int == (rem as int * 100 + (G as int) / 2) / (G as int),
                (rem as int) < (G as int),
                G as int == 1024 * 1024 * 1024,
        ;
        assert(whole0 <= 0x400000000) by (nonlinear_arith)
            requires
                whole0 as int == size as int / (G as int),
                G as int == 1024 * 1024 * 1024,
                size as int <= 0xFFFFFFFFFFFFFFFF,
        ;
        let whole = if cents0 == 100 { whole0 + 1 } else { whole0 };
        let cents = if cents0 == 100 { 0 } else { cents0 };
        let mut s = u64_to_dec(whole);
        push_char(&mut s, '.');
        push_char(&mut s, digit(cents / 10));
        push_char(&mut s, digit(cents % 10));
        push_char(&mut s, 'G');
        assert(s@ =~= spec_pretty_size(size));
        s
    } else if size >= M {
        let mut s = u64_to_dec(size / M);
        push_char(&mut s, 'M');
        assert(s@ =~= spec_pretty_size(size));
        s
    } else {
        let mut s = u64_to_dec(size / K);
        push_char(&mut s, 'K');
        assert(s@ =~= spec_pretty_size(size));
        s
    }
}

/// Index just past the last character of `p[..n]` once trailing separators
/// are dropped.
pub open spec fn trimmed_end(p: Seq<char>, n: int) -> int
    decreases n,
{
    if 0 < n <= p.len() && p[n - 1] == '/' {
        trimmed_end(p, n - 1)
    } else {
        n
    }
}

/// Index of the first character of the final path component of `p[..n]`.
pub open spec fn name_start(p: Seq<char>, n: int) -> int
    decreases n,
{
    if 0 < n <= p.len() && p[n - 1] != '/' {
        name_start(p, n - 1)
    } else {
        n
    }
}

/// The final component of a path: the text after the last separator, with
/// trailing separators ignored. Empty paths and the components `.` and `..`
/// name no file.
pub open spec fn spec_filename(p: Seq<char>) -> Option<Seq<char>> {
    let e = trimmed_end(p, p.len() as int);
    let s = name_start(p, e);
    let name = p.subrange(s, e);
    if name.len() == 0 || name == seq!['.'] || name == seq!['.', '.'] {
        None
    } else {
        Some(name)
    }
}

/// The file name named by `path`, if any.
pub fn filename(path: &str) -> (r: Option<String>)
    ensures
        r is Some <==> spec_filename(path@) is Some,
        r is Some ==> r->0@ == spec_filename(path@)->0,
{
    let n = path.unicode_len();
    let mut e = n;
    while e > 0 && path.get_char(e - 1) == '/'
        invariant
            e <= n,
            n == path@.len(),
            trimmed_end(path@, n as int) == trimmed_end(path@, e as int),
        decreases e,
    {
        e = e - 1;
    }
    assert(trimmed_end(path@, e as int) == e as int);
    let mut s = e;
    while s > 0 && path.get_char(s - 1) != '/'
        invariant
            s <= e <= n,
            n == path@.len(),
            name_start(path@, e as int) == name_start(path@, s as int),
        decreases s,
    {
        s = s - 1;
    }
    assert(name_start(path@, s as int) == s as int);
    let name = path.substring_char(s, e);
    let len = e - s;
    if len == 0 {
        None
    } else if len == 1 && name.get_char(0) == '.' {
        assert(name@ =~= seq!['.']);
        None
    } else if len == 2 && name.get_char(0) == '.' && name.get_char(1) == '.' {
        assert(name@ =~= seq!['.', '.']);
        None
    } else {
        assert(name@ != seq!['.'] && name@ != seq!['.', '.']);
        Some(name.to_owned())
    }
}

/// `dir` and `name` joined by a path separator.
pub open spec fn spec_join(dir: Seq<char>, name: Seq<char>) -> Seq<char> {
    dir + seq!['/'] + name
}

/// Joins a directory and a file name into one path.
pub fn join_path(dir: &str, name: &str) -> (r: String)
    ensures
        r@ == spec_join(dir@, name@),
{
    let mut s = dir.to_owned();
    push_char(&mut s, '/');
    s.append(name);
    assert(s@ =~= spec_join(dir@, name@));
    s
}

} // verus!
