//! Verified helpers over string slices: trimming, prefix and substring
//! matching, and equality, all specified over `Seq<char>` views.

use vstd::prelude::*;
use vstd::string::StrSliceExecFns;

verus! {

/// A character the classifier treats as separator whitespace.
pub open spec fn is_space_char(c: char) -> bool {
    c == ' ' || c == '\t' || c == '\n' || c == '\r'
}

/// The sequence without its leading whitespace.
pub open spec fn trim_start_spec(s: Seq<char>) -> Seq<char>
    decreases s.len(),
{
    if s.len() > 0 && is_space_char(s[0]) {
        trim_start_spec(s.drop_first())
    } else {
        s
    }
}

/// The sequence without its trailing whitespace.
pub open spec fn trim_end_spec(s: Seq<char>) -> Seq<char>
    decreases s.len(),
{
    if s.len() > 0 && is_space_char(s.last()) {
        trim_end_spec(s.drop_last())
    } else {
        s
    }
}

/// The sequence without leading or trailing whitespace.
pub open spec fn trim_spec(s: Seq<char>) -> Seq<char> {
    trim_end_spec(trim_start_spec(s))
}

pub proof fn lemma_trim_start_subrange(s: Seq<char>, k: int)
    requires
        0 <= k <= s.len(),
        forall|i: int| 0 <= i < k ==> is_space_char(s[i]),
        k < s.len() ==> !is_space_char(s[k]),
    ensures
        trim_start_spec(s) =~= s.subrange(k, s.len() as int),
    decreases s.len(),
{
    if s.len() > 0 && is_space_char(s[0]) {
        assert(k >= 1) by {
            if k == 0 {
                assert(!is_space_char(s[0]));
            }
        }
        lemma_trim_start_subrange(s.drop_first(), k - 1);
        assert(s.drop_first().subrange(k - 1, s.drop_first().len() as int) =~= s.subrange(
            k,
            s.len() as int,
        ));
    } else {
        assert(k == 0) by {
            if k > 0 {
                assert(is_space_char(s[0]));
            }
        }
        assert(s.subrange(0, s.len() as int) =~= s);
    }
}

pub proof fn lemma_trim_end_subrange(s: Seq<char>, k: int)
    requires
        0 <= k <= s.len(),
        forall|i: int| k <= i < s.len() ==> is_space_char(s[i]),
        k > 0 ==> !is_space_char(s[k - 1]),
    ensures
        trim_end_spec(s) =~= s.subrange(0, k),
    decreases s.len(),
{
    if s.len() > 0 && is_space_char(s.last()) {
        assert(k < s.len()) by {
            if k == s.len() {
                assert(!is_space_char(s[k - 1]));
            }
        }
        lemma_trim_end_subrange(s.drop_last(), k);
        assert(s.drop_last().subrange(0, k) =~= s.subrange(0, k));
    } else {
        assert(k == s.len()) by {
            if k < s.len() {
                assert(is_space_char(s[s.len() - 1]));
            }
        }
        assert(s.subrange(0, s.len() as int) =~= s);
    }
}

/// A sequence with no leading or trailing whitespace trims to itself.
pub proof fn lemma_trim_noop(s: Seq<char>)
    requires
        s.len() > 0 ==> !is_space_char(s[0]),
        s.len() > 0 ==> !is_space_char(s.last()),
    ensures
        trim_spec(s) == s,
{
    lemma_trim_start_subrange(s, 0);
    assert(trim_start_spec(s) =~= s);
    lemma_trim_end_subrange(s, s.len() as int);
    assert(trim_end_spec(s) =~= s);
}

/// Trimming never lengthens a sequence.
pub proof fn lemma_trim_start_len(s: Seq<char>)
    ensures
        trim_start_spec(s).len() <= s.len(),
    decreases s.len(),
{
    if s.len() > 0 && is_space_char(s[0]) {
        lemma_trim_start_len(s.drop_first());
    }
}

/// Trimming never lengthens a sequence.
pub proof fn lemma_trim_end_len(s: Seq<char>)
    ensures
        trim_end_spec(s).len() <= s.len(),
    decreases s.len(),
{
    if s.len() > 0 && is_space_char(s.last()) {
        lemma_trim_end_len(s.drop_last());
    }
}

/// Trimming never lengthens a sequence.
pub proof fn lemma_trim_len(s: Seq<char>)
    ensures
        trim_spec(s).len() <= s.len(),
{
    lemma_trim_start_len(s);
    lemma_trim_end_len(trim_start_spec(s));
}

/// Whether `c` is an ASCII whitespace separator.
pub fn is_space(c: char) -> (r: bool)
    ensures
        r == is_space_char(c),
{
    c == ' ' || c == '\t' || c == '\n' || c == '\r'
}

/// The slice without leading or trailing whitespace.
pub fn trim(s: &str) -> (r: &str)
    ensures
        r@ == trim_spec(s@),
{
    let n = s.unicode_len();
    let mut a: usize = 0;
    while a < n && is_space(s.get_char(a))
        invariant
            0 <= a <= n,
            n == s@.len(),
            forall|i: int| 0 <= i < a ==> is_space_char(s@[i]),
        decreases n - a,
    {
        a = a + 1;
    }
    let mut b: usize = n;
    while b > a && is_space(s.get_char(b - 1))
        invariant
            a <= b <= n,
            n == s@.len(),
            a < n ==> !is_space_char(s@[a as int]),
            forall|i: int| 0 <= i < a ==> is_space_char(s@[i]),
            forall|i: int| b <= i < n ==> is_space_char(s@[i]),
        decreases b,
    {
        b = b - 1;
    }
    let r = s.substring_char(a, b);
    proof {
        if a == n {
            // the whole string is whitespace
            lemma_trim_start_subrange(s@, a as int);
            assert(trim_start_spec(s@) =~= Seq::<char>::empty());
            lemma_trim_end_subrange(Seq::<char>::empty(), 0);
            assert(r@ =~= trim_spec(s@));
        } else {
            lemma_trim_start_subrange(s@, a as int);
            let t = s@.subrange(a as int, n as int);
            assert(b > a) by {
                if b == a {
                    assert(is_space_char(s@[a as int]));
                }
            }
            lemma_trim_end_subrange(t, b - a);
            assert(t.subrange(0, b - a) =~= s@.subrange(a as int, b as int));
            assert(r@ =~= trim_spec(s@));
        }
    }
    r
}

/// Whether `p` is a prefix of `s`.
pub open spec fn starts_with_spec(s: Seq<char>, p: Seq<char>) -> bool {
    s.len() >= p.len() && s.subrange(0, p.len() as int) =~= p
}

/// Whether the slice begins with the given prefix.
pub fn starts_with(s: &str, p: &str) -> (r: bool)
    ensures
        r == starts_with_spec(s@, p@),
{
    let n = s.unicode_len();
    let m = p.unicode_len();
    if n < m {
        return false;
    }
    let mut i: usize = 0;
    while i < m
        invariant
            0 <= i <= m,
            m <= n,
            n == s@.len(),
            m == p@.len(),
            forall|j: int| 0 <= j < i ==> s@[j] == p@[j],
        decreases m - i,
    {
        if s.get_char(i) != p.get_char(i) {
            assert(!starts_with_spec(s@, p@)) by {
                if starts_with_spec(s@, p@) {
                    assert(s@.subrange(0, p@.len() as int)[i as int] == p@[i as int]);
                }
            }
            return false;
        }
        i = i + 1;
    }
    assert(s@.subrange(0, m as int) =~= p@);
    true
}

/// Whether `p` is a suffix of `s`.
pub open spec fn ends_with_spec(s: Seq<char>, p: Seq<char>) -> bool {
    s.len() >= p.len() && s.subrange(s.len() - p.len(), s.len() as int) =~= p
}

/// Whether the slice ends with the given suffix.
pub fn ends_with(s: &str, p: &str) -> (r: bool)
    ensures
        r == ends_with_spec(s@, p@),
{
    let n = s.unicode_len();
    let m = p.unicode_len();
    if n < m {
        return false;
    }
    let off = n - m;
    let mut i: usize = 0;
    while i < m
        invariant
            0 <= i <= m,
            off == n - m,
            m <= n,
            n == s@.len(),
            m == p@.len(),
            forall|j: int| 0 <= j < i ==> s@[off + j] == p@[j],
        decreases m - i,
    {
        if s.get_char(off + i) != p.get_char(i) {
            assert(!ends_with_spec(s@, p@)) by {
                if ends_with_spec(s@, p@) {
                    assert(s@.subrange(n - m, n as int)[i as int] == p@[i as int]);
                }
            }
            return false;
        }
        i = i + 1;
    }
    assert(s@.subrange(n - m, n as int) =~= p@);
    true
}

/// Whether `p` occurs in `s` starting at position `i`.
pub open spec fn matches_at(s: Seq<char>, p: Seq<char>, i: int) -> bool {
    0 <= i && i + p.len() <= s.len() && s.subrange(i, i + p.len()) =~= p
}

/// Whether `p` occurs somewhere in `s`.
pub open spec fn contains_spec(s: Seq<char>, p: Seq<char>) -> bool {
    exists|i: int| matches_at(s, p, i)
}

/// Whether the slice contains the given substring.
pub fn contains_sub(s: &str, p: &str) -> (r: bool)
    ensures
        r == contains_spec(s@, p@),
{
    let n = s.unicode_len();
    let m = p.unicode_len();
    if m > n {
        assert(!contains_spec(s@, p@)) by {
            if contains_spec(s@, p@) {
                let i = choose|i: int| matches_at(s@, p@, i);
                assert(i + p@.len() <= s@.len());
            }
        }
        return false;
    }
    let mut start: usize = 0;
    while start <= n - m
        invariant
            0 <= start <= n - m + 1,
            m <= n,
            n == s@.len(),
            m == p@.len(),
            forall|i: int| 0 <= i < start ==> !matches_at(s@, p@, i),
        decreases n + 1 - start,
    {
        let mut j: usize = 0;
        let mut all_eq = true;
        while j < m
            invariant
                0 <= j <= m,
                start + m <= n,
                n == s@.len(),
                m == p@.len(),
                all_eq ==> forall|k: int| 0 <= k < j ==> s@[start + k] == p@[k],
                !all_eq ==> !matches_at(s@, p@, start as int),
            decreases m - j,
        {
            if s.get_char(start + j) != p.get_char(j) {
                assert(!matches_at(s@, p@, start as int)) by {
                    if matches_at(s@, p@, start as int) {
                        assert(s@.subrange(start as int, start + p@.len())[j as int]
                            == p@[j as int]);
                    }
                }
                all_eq = false;
                j = m;
            } else {
                j = j + 1;
            }
        }
        if all_eq {
            assert(s@.subrange(start as int, start + m) =~= p@);
            assert(matches_at(s@, p@, start as int));
            return true;
        }
        start = start + 1;
    }
    assert(!contains_spec(s@, p@)) by {
        if contains_spec(s@, p@) {
            let i = choose|i: int| matches_at(s@, p@, i);
            assert(i + p@.len() <= s@.len());
            assert(!matches_at(s@, p@, i));
        }
    }
    false
}

/// Whether two slices hold the same characters.
pub fn str_eq(s: &str, t: &str) -> (r: bool)
    ensures
        r == (s@ == t@),
{
    let n = s.unicode_len();
    let m = t.unicode_len();
    if n != m {
        return false;
    }
    let mut i: usize = 0;
    while i < n
        invariant
            0 <= i <= n,
            n == s@.len(),
            n == t@.len(),
            forall|j: int| 0 <= j < i ==> s@[j] == t@[j],
        decreases n - i,
    {
        if s.get_char(i) != t.get_char(i) {
            return false;
        }
        i = i + 1;
    }
    assert(s@ =~= t@);
    true
}

/// The character subrange of a slice, by character positions.
pub fn substr(s: &str, from: usize, to: usize) -> (r: &str)
    requires
        from <= to <= s@.len(),
    ensures
        r@ == s@.subrange(from as int, to as int),
{
    s.substring_char(from, to)
}

/// The number of characters in a slice.
pub fn char_len(s: &str) -> (n: usize)
    ensures
        n == s@.len(),
{
    s.unicode_len()
}

/// The character at a position.
pub fn char_at(s: &str, i: usize) -> (c: char)
    requires
        i < s@.len(),
    ensures
        c == s@[i as int],
{
    s.get_char(i)
}

} // verus!
