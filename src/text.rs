//! Small text operations on character sequences.
use vstd::prelude::*;
use vstd::string::StrSliceExecFns;

verus! {

/// `s` without its leading run of `c`.
pub open spec fn trim_start(s: Seq<char>, c: char) -> Seq<char>
    decreases s.len(),
{
    if s.len() > 0 && s[0] == c {
        trim_start(s.drop_first(), c)
    } else {
        s
    }
}

/// `s` without its trailing run of `c`.
pub open spec fn trim_end(s: Seq<char>, c: char) -> Seq<char>
    decreases s.len(),
{
    if s.len() > 0 && s.last() == c {
        trim_end(s.drop_last(), c)
    } else {
        s
    }
}

/// Removes every leading `c` from `s`.
pub fn trim_start_char(s: &str, c: char) -> (r: String)
    ensures
        r@ == trim_start(s@, c),
{
    let n = s.unicode_len();
    let mut i: usize = 0;
    assert(s@.skip(0) =~= s@);
    while i < n && s.get_char(i) == c
        invariant
            n == s@.len(),
            i <= n,
            trim_start(s@, c) == trim_start(s@.skip(i as int), c),
        decreases n - i,
    {
        assert(s@.skip(i as int).drop_first() =~= s@.skip(i + 1));
        i = i + 1;
    }
    let r = s.substring_char(i, n);
    assert(r@ =~= s@.skip(i as int));
    r.to_string()
}

/// Removes every trailing `c` from `s`.
pub fn trim_end_char(s: &str, c: char) -> (r: String)
    ensures
        r@ == trim_end(s@, c),
{
    let n = s.unicode_len();
    let mut j: usize = n;
    assert(s@.take(n as int) =~= s@);
    while j > 0 && s.get_char(j - 1) == c
        invariant
            n == s@.len(),
            j <= n,
            trim_end(s@, c) == trim_end(s@.take(j as int), c),
        decreases j,
    {
        assert(s@.take(j as int).drop_last() =~= s@.take(j - 1));
        j = j - 1;
    }
    let r = s.substring_char(0, j);
    assert(r@ =~= s@.take(j as int));
    r.to_string()
}

} // verus!
