//! Character-level helpers shared by the rest of the library.

use vstd::prelude::*;

verus! {

/// Number of non-overlapping occurrences of `p` in `s`, found left to right.
pub open spec fn count_matches(s: Seq<char>, p: Seq<char>) -> nat
    decreases s.len(),
{
    if p.len() == 0 || s.len() < p.len() {
        0
    } else if s.subrange(0, p.len() as int) == p {
        1 + count_matches(s.subrange(p.len() as int, s.len() as int), p)
    } else {
        count_matches(s.subrange(1, s.len() as int), p)
    }
}

/// The characters of `s`, in order.
pub fn chars_of(s: &str) -> (r: Vec<char>)
    ensures
        r@ == s@,
{
    let n = s.unicode_len();
    let mut out: Vec<char> = Vec::new();
    let mut i: usize = 0;
    while i < n
        invariant
            n == s@.len(),
            i <= n,
            out@ == s@.subrange(0, i as int),
        decreases n - i,
    {
        let c = s.get_char(i);
        out.push(c);
        i = i + 1;
    }
    assert(out@ =~= s@);
    out
}

/// Whether `p` occurs in `s` starting at position `i`.
pub fn occurs_at(s: &Vec<char>, i: usize, p: &Vec<char>) -> (r: bool)
    requires
        i <= s.len(),
    ensures
        r == (p.len() <= s.len() - i && s@.subrange(i as int, i + p.len()) == p@),
{
    if p.len() > s.len() - i {
        return false;
    }
    let mut j: usize = 0;
    while j < p.len()
        invariant
            p.len() <= s.len() - i,
            j <= p.len(),
            forall|k: int| 0 <= k < j ==> s@[i + k] == p@[k],
        decreases p.len() - j,
    {
        if s[i + j] != p[j] {
            assert(s@.subrange(i as int, i + p.len())[j as int] != p@[j as int]);
            return false;
        }
        j = j + 1;
    }
    assert(s@.subrange(i as int, i + p.len()) =~= p@);
    true
}

/// Counts the non-overlapping occurrences of a non-empty pattern.
pub fn count_occurrences(s: &Vec<char>, p: &Vec<char>) -> (r: usize)
    requires
        p.len() > 0,
    ensures
        r == count_matches(s@, p@),
{
    let mut i: usize = 0;
    let mut n: usize = 0;
    assert(s@.subrange(0, s.len() as int) =~= s@);
    while i < s.len()
        invariant
            p.len() > 0,
            i <= s.len(),
            n <= i,
            n + count_matches(s@.subrange(i as int, s.len() as int), p@) == count_matches(s@, p@),
        decreases s.len() - i,
    {
        let rest = Ghost(s@.subrange(i as int, s.len() as int));
        if occurs_at(s, i, p) {
            assert(rest@.subrange(0, p.len() as int) =~= s@.subrange(i as int, i + p.len()));
            assert(rest@.subrange(p.len() as int, rest@.len() as int) =~= s@.subrange(
                i + p.len(),
                s.len() as int,
            ));
            n = n + 1;
            i = i + p.len();
        } else {
            assert(rest@.len() >= p@.len() ==> rest@.subrange(0, p@.len() as int) =~= s@.subrange(
                i as int,
                i + p@.len(),
            ));
            assert(rest@.subrange(1, rest@.len() as int) =~= s@.subrange(i + 1, s.len() as int));
            proof {
                if rest@.len() < p.len() {
                    lemma_count_short(s@.subrange(i + 1, s.len() as int), p@);
                }
            }
            i = i + 1;
        }
    }
    assert(s@.subrange(i as int, s.len() as int).len() == 0);
    n
}

proof fn lemma_count_short(s: Seq<char>, p: Seq<char>)
    requires
        s.len() < p.len(),
    ensures
        count_matches(s, p) == 0,
{
}

/// Relies on `String::push`: appends one character.
#[verifier::external_body]
fn push_char(s: &mut String, c: char)
    ensures
        final(s)@ == old(s)@.push(c),
{
    s.push(c)
}

/// A string holding the given characters.
pub fn string_from_chars(v: &Vec<char>) -> (r: String)
    ensures
        r@ == v@,
{
    let mut out = String::new();
    let mut i: usize = 0;
    while i < v.len()
        invariant
            i <= v.len(),
            out@ == v@.subrange(0, i as int),
        decreases v.len() - i,
    {
        push_char(&mut out, v[i]);
        assert(out@ =~= v@.subrange(0, i + 1));
        i = i + 1;
    }
    assert(v@.subrange(0, v@.len() as int) =~= v@);
    out
}

/// `s` with every non-overlapping occurrence of the non-empty pattern `p`,
/// found left to right, replaced by `r`.
pub open spec fn replace_all(s: Seq<char>, p: Seq<char>, r: Seq<char>) -> Seq<char>
    decreases s.len(),
{
    if p.len() == 0 || s.len() < p.len() {
        s
    } else if s.subrange(0, p.len() as int) == p {
        r + replace_all(s.subrange(p.len() as int, s.len() as int), p, r)
    } else {
        seq![s[0]] + replace_all(s.subrange(1, s.len() as int), p, r)
    }
}

proof fn lemma_replace_short(s: Seq<char>, p: Seq<char>, r: Seq<char>)
    requires
        s.len() < p.len(),
    ensures
        replace_all(s, p, r) == s,
{
}

/// Replaces every occurrence of a non-empty pattern, as `str::replace` does.
pub fn replace_chars(s: &Vec<char>, p: &Vec<char>, r: &Vec<char>) -> (out: Vec<char>)
    requires
        p.len() > 0,
    ensures
        out@ == replace_all(s@, p@, r@),
{
    let mut out: Vec<char> = Vec::new();
    let mut i: usize = 0;
    assert(s@.subrange(0, s.len() as int) =~= s@);
    while i < s.len()
        invariant
            p.len() > 0,
            i <= s.len(),
            out@ + replace_all(s@.subrange(i as int, s.len() as int), p@, r@) == replace_all(
                s@,
                p@,
                r@,
            ),
        decreases s.len() - i,
    {
        let rest = Ghost(s@.subrange(i as int, s.len() as int));
        if occurs_at(s, i, p) {
            assert(rest@.subrange(0, p.len() as int) =~= s@.subrange(i as int, i + p.len()));
            assert(rest@.subrange(p.len() as int, rest@.len() as int) =~= s@.subrange(
                i + p.len(),
                s.len() as int,
            ));
            let ghost before = out@;
            let mut k: usize = 0;
            while k < r.len()
                invariant
                    k <= r.len(),
                    out@ == before + r@.subrange(0, k as int),
                decreases r.len() - k,
            {
                out.push(r[k]);
                assert(out@ =~= before + r@.subrange(0, k + 1));
                k = k + 1;
            }
            assert(r@.subrange(0, r@.len() as int) =~= r@);
            assert(out@ + replace_all(s@.subrange(i + p.len(), s.len() as int), p@, r@) =~= before
                + replace_all(rest@, p@, r@));
            i = i + p.len();
        } else {
            assert(rest@.len() >= p@.len() ==> rest@.subrange(0, p@.len() as int) =~= s@.subrange(
                i as int,
                i + p@.len(),
            ));
            assert(rest@.subrange(1, rest@.len() as int) =~= s@.subrange(i + 1, s.len() as int));
            let ghost before = out@;
            out.push(s[i]);
            proof {
                if rest@.len() < p.len() {
                    lemma_replace_short(rest@, p@, r@);
                    lemma_replace_short(s@.subrange(i + 1, s.len() as int), p@, r@);
                    assert(rest@ =~= seq![s@[i as int]] + s@.subrange(i + 1, s.len() as int));
                }
            }
            assert(out@ + replace_all(s@.subrange(i + 1, s.len() as int), p@, r@) =~= before
                + replace_all(rest@, p@, r@));
            i = i + 1;
        }
    }
    assert(s@.subrange(i as int, s.len() as int) =~= Seq::<char>::empty());
    assert(out@ + Seq::<char>::empty() =~= out@);
    out
}

/// `s` without leading and trailing `c`.
pub open spec fn trim_char(s: Seq<char>, c: char) -> Seq<char>
    decreases s.len(),
{
    if s.len() > 0 && s[0] == c {
        trim_char(s.subrange(1, s.len() as int), c)
    } else {
        trim_end_char(s, c)
    }
}

/// `s` without trailing `c`.
pub open spec fn trim_end_char(s: Seq<char>, c: char) -> Seq<char>
    decreases s.len(),
{
    if s.len() > 0 && s[s.len() - 1] == c {
        trim_end_char(s.drop_last(), c)
    } else {
        s
    }
}

/// Drops trailing `c`, as `str::trim_end_matches` with a character does.
pub fn trim_end_chars(s: &Vec<char>, c: char) -> (r: Vec<char>)
    ensures
        r@ == trim_end_char(s@, c),
{
    let mut end: usize = s.len();
    assert(s@.subrange(0, end as int) =~= s@);
    while end > 0 && s[end - 1] == c
        invariant
            end <= s.len(),
            trim_end_char(s@.subrange(0, end as int), c) == trim_end_char(s@, c),
        decreases end,
    {
        assert(s@.subrange(0, end as int).drop_last() =~= s@.subrange(0, end - 1));
        end = end - 1;
    }
    let mut out: Vec<char> = Vec::new();
    let mut i: usize = 0;
    while i < end
        invariant
            i <= end <= s.len(),
            out@ == s@.subrange(0, i as int),
        decreases end - i,
    {
        out.push(s[i]);
        i = i + 1;
    }
    out
}

/// Drops leading and trailing `c`, as `str::trim_matches` with a character
/// does.
pub fn trim_chars(s: &Vec<char>, c: char) -> (r: Vec<char>)
    ensures
        r@ == trim_char(s@, c),
{
    let mut start: usize = 0;
    assert(s@.subrange(0, s.len() as int) =~= s@);
    while start < s.len() && s[start] == c
        invariant
            start <= s.len(),
            trim_char(s@.subrange(start as int, s.len() as int), c) == trim_char(s@, c),
        decreases s.len() - start,
    {
        assert(s@.subrange(start as int, s.len() as int).subrange(1, s.len() - start) =~= s@.subrange(
            start + 1,
            s.len() as int,
        ));
        start = start + 1;
    }
    let mut rest: Vec<char> = Vec::new();
    let mut i: usize = start;
    while i < s.len()
        invariant
            start <= i <= s.len(),
            rest@ == s@.subrange(start as int, i as int),
        decreases s.len() - i,
    {
        rest.push(s[i]);
        assert(rest@ =~= s@.subrange(start as int, i + 1));
        i = i + 1;
    }
    trim_end_chars(&rest, c)
}

} // verus!
