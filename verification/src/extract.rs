//! Extractors over type spellings: balanced-delimiter scanning for the
//! top-level separators of tuples, mappings and result types, and the inner
//! spellings of vector, optional, indirection and slice types.
//!
//! Scans track nesting of both angle brackets and parentheses, so a comma
//! inside a nested generic or tuple is never taken for an element separator.

use vstd::prelude::*;

use crate::strutil::{char_at, char_len, matches_at, starts_with, starts_with_spec, substr, trim,
    trim_spec};

verus! {

/// The nesting contribution of a character.
pub open spec fn depth_delta(c: char) -> int {
    if c == '<' || c == '(' {
        1
    } else if c == '>' || c == ')' {
        -1
    } else {
        0
    }
}

/// The nesting depth just before position `i`.
pub open spec fn depth_at(s: Seq<char>, i: int) -> int
    decreases i,
{
    if i <= 0 {
        0
    } else {
        depth_at(s, i - 1) + depth_delta(s[i - 1])
    }
}

/// Whether position `i` holds a separator comma at nesting depth zero.
pub open spec fn is_top_comma(s: Seq<char>, i: int) -> bool {
    0 <= i < s.len() && s[i] == ',' && depth_at(s, i) == 0
}

/// The first top-level comma at or after position `i`.
pub open spec fn first_top_comma_from(s: Seq<char>, i: int) -> Option<int>
    decreases s.len() - i,
{
    if i >= s.len() {
        None
    } else if is_top_comma(s, i) {
        Some(i)
    } else {
        first_top_comma_from(s, i + 1)
    }
}

/// The position of the first top-level comma, if any.
pub fn find_top_comma(s: &str) -> (r: Option<usize>)
    ensures
        match r {
            Some(i) => first_top_comma_from(s@, 0) == Some(i as int),
            None => first_top_comma_from(s@, 0) is None,
        },
{
    let n = char_len(s);
    let mut i: usize = 0;
    let mut depth: i128 = 0;
    while i < n
        invariant
            0 <= i <= n,
            n == s@.len(),
            n <= usize::MAX,
            depth == depth_at(s@, i as int),
            -(i as int) <= depth <= i as int,
            first_top_comma_from(s@, 0) == first_top_comma_from(s@, i as int),
        decreases n - i,
    {
        let c = char_at(s, i);
        if c == ',' && depth == 0 {
            return Some(i);
        }
        proof {
            assert(!is_top_comma(s@, i as int));
            assert(first_top_comma_from(s@, i as int) == first_top_comma_from(s@, i + 1));
        }
        if c == '<' || c == '(' {
            depth = depth + 1;
        } else if c == '>' || c == ')' {
            depth = depth - 1;
        }
        i = i + 1;
    }
    None
}

/// The elements produced by splitting at top-level commas, scanning from
/// position `i` with the current element starting at `start`: each comma
/// yields the trimmed text since `start`, and a trailing element is kept
/// only if it is nonempty after trimming.
pub open spec fn split_top_from(s: Seq<char>, i: int, start: int) -> Seq<Seq<char>>
    decreases s.len() - i,
{
    if i >= s.len() {
        let last = trim_spec(s.subrange(start, s.len() as int));
        if last.len() > 0 {
            seq![last]
        } else {
            Seq::empty()
        }
    } else if is_top_comma(s, i) {
        seq![trim_spec(s.subrange(start, i))] + split_top_from(s, i + 1, i + 1)
    } else {
        split_top_from(s, i + 1, start)
    }
}

/// The pieces of `s` between top-level commas, each trimmed.
pub open spec fn spec_split_top(s: Seq<char>) -> Seq<Seq<char>> {
    split_top_from(s, 0, 0)
}

/// Splits a spelling at its top-level commas.
pub fn split_top(s: &str) -> (r: Vec<String>)
    ensures
        r.deep_view() == spec_split_top(s@),
{
    let n = char_len(s);
    let mut out: Vec<String> = Vec::new();
    let mut start: usize = 0;
    let mut i: usize = 0;
    let mut depth: i128 = 0;
    while i < n
        invariant
            0 <= start <= i <= n,
            n == s@.len(),
            depth == depth_at(s@, i as int),
            -(i as int) <= depth <= i as int,
            spec_split_top(s@) == out.deep_view() + split_top_from(s@, i as int, start as int),
        decreases n - i,
    {
        let c = char_at(s, i);
        if c == ',' && depth == 0 {
            let piece = trim(substr(s, start, i)).to_owned();
            let ghost prev = out.deep_view();
            out.push(piece);
            proof {
                assert(out.deep_view() =~= prev.push(piece@));
                assert(is_top_comma(s@, i as int));
                assert(split_top_from(s@, i as int, start as int) =~= seq![
                    trim_spec(s@.subrange(start as int, i as int)),
                ] + split_top_from(s@, i + 1, i + 1));
                assert(prev + split_top_from(s@, i as int, start as int) =~= prev.push(piece@)
                    + split_top_from(s@, i + 1, i + 1));
            }
            start = i + 1;
        } else {
            proof {
                assert(!is_top_comma(s@, i as int));
                assert(split_top_from(s@, i as int, start as int) == split_top_from(
                    s@,
                    i + 1,
                    start as int,
                ));
            }
            if c == '<' || c == '(' {
                depth = depth + 1;
            } else if c == '>' || c == ')' {
                depth = depth - 1;
            }
        }
        i = i + 1;
    }
    let last = trim(substr(s, start, n));
    if char_len(last) > 0 {
        let piece = last.to_owned();
        let ghost prev = out.deep_view();
        out.push(piece);
        proof {
            assert(out.deep_view() =~= prev.push(piece@));
            assert(spec_split_top(s@) =~= out.deep_view());
        }
    } else {
        proof {
            assert(spec_split_top(s@) =~= out.deep_view());
        }
    }
    out
}

/// The inner spelling of a vector type, if the spelling is one.
pub open spec fn spec_extract_vec_inner(s: Seq<char>) -> Option<Seq<char>> {
    let t = trim_spec(s);
    if starts_with_spec(t, "Vec <"@) {
        if t.len() >= 6 {
            Some(trim_spec(t.subrange(5, t.len() - 1)))
        } else {
            None
        }
    } else if starts_with_spec(t, "Vec<"@) {
        if t.len() >= 5 {
            Some(trim_spec(t.subrange(4, t.len() - 1)))
        } else {
            None
        }
    } else {
        None
    }
}

/// The element type of a vector spelling.
pub fn extract_vec_inner(ty: &str) -> (r: Option<String>)
    ensures
        r.deep_view() == spec_extract_vec_inner(ty@),
{
    let t = trim(ty);
    let n = char_len(t);
    if starts_with(t, "Vec <") {
        if n >= 6 {
            Some(trim(substr(t, 5, n - 1)).to_owned())
        } else {
            None
        }
    } else if starts_with(t, "Vec<") {
        if n >= 5 {
            Some(trim(substr(t, 4, n - 1)).to_owned())
        } else {
            None
        }
    } else {
        None
    }
}

/// The inner spelling of an optional type, if the spelling is one.
pub open spec fn spec_extract_option_inner(s: Seq<char>) -> Option<Seq<char>> {
    let t = trim_spec(s);
    if starts_with_spec(t, "Option <"@) {
        if t.len() >= 9 {
            Some(trim_spec(t.subrange(8, t.len() - 1)))
        } else {
            None
        }
    } else if starts_with_spec(t, "Option<"@) {
        if t.len() >= 8 {
            Some(trim_spec(t.subrange(7, t.len() - 1)))
        } else {
            None
        }
    } else {
        None
    }
}

/// The payload type of an optional spelling.
pub fn extract_option_inner(ty: &str) -> (r: Option<String>)
    ensures
        r.deep_view() == spec_extract_option_inner(ty@),
{
    let t = trim(ty);
    let n = char_len(t);
    if starts_with(t, "Option <") {
        if n >= 9 {
            Some(trim(substr(t, 8, n - 1)).to_owned())
        } else {
            None
        }
    } else if starts_with(t, "Option<") {
        if n >= 8 {
            Some(trim(substr(t, 7, n - 1)).to_owned())
        } else {
            None
        }
    } else {
        None
    }
}

/// The inner spelling of an owning-indirection type, if the spelling is one.
pub open spec fn spec_extract_box_inner(s: Seq<char>) -> Option<Seq<char>> {
    let t = trim_spec(s);
    if starts_with_spec(t, "Box <"@) {
        if t.len() >= 6 {
            Some(trim_spec(t.subrange(5, t.len() - 1)))
        } else {
            None
        }
    } else if starts_with_spec(t, "Box<"@) {
        if t.len() >= 5 {
            Some(trim_spec(t.subrange(4, t.len() - 1)))
        } else {
            None
        }
    } else {
        None
    }
}

/// The pointee type of an owning-indirection spelling.
pub fn extract_box_inner(ty: &str) -> (r: Option<String>)
    ensures
        r.deep_view() == spec_extract_box_inner(ty@),
{
    let t = trim(ty);
    let n = char_len(t);
    if starts_with(t, "Box <") {
        if n >= 6 {
            Some(trim(substr(t, 5, n - 1)).to_owned())
        } else {
            None
        }
    } else if starts_with(t, "Box<") {
        if n >= 5 {
            Some(trim(substr(t, 4, n - 1)).to_owned())
        } else {
            None
        }
    } else {
        None
    }
}

/// The inner spelling of a borrowed slice type, if the spelling is one.
pub open spec fn spec_extract_slice_inner(s: Seq<char>) -> Option<Seq<char>> {
    let t = trim_spec(s);
    if starts_with_spec(t, "& ["@) {
        if t.len() >= 4 {
            Some(trim_spec(t.subrange(3, t.len() - 1)))
        } else {
            None
        }
    } else if starts_with_spec(t, "&["@) {
        if t.len() >= 3 {
            Some(trim_spec(t.subrange(2, t.len() - 1)))
        } else {
            None
        }
    } else {
        None
    }
}

/// The element type of a borrowed slice spelling.
pub fn extract_slice_inner(ty: &str) -> (r: Option<String>)
    ensures
        r.deep_view() == spec_extract_slice_inner(ty@),
{
    let t = trim(ty);
    let n = char_len(t);
    if starts_with(t, "& [") {
        if n >= 4 {
            Some(trim(substr(t, 3, n - 1)).to_owned())
        } else {
            None
        }
    } else if starts_with(t, "&[") {
        if n >= 3 {
            Some(trim(substr(t, 2, n - 1)).to_owned())
        } else {
            None
        }
    } else {
        None
    }
}

/// The success spelling of a result's argument list: the trimmed text before
/// the first top-level comma.
pub open spec fn result_ok_of(inner: Seq<char>) -> Option<Seq<char>> {
    match first_top_comma_from(inner, 0) {
        Some(i) => Some(trim_spec(inner.subrange(0, i))),
        None => None,
    }
}

/// The success spelling of a result type, if the spelling is one and its
/// argument list has a top-level separator.
pub open spec fn spec_extract_result_ok(s: Seq<char>) -> Option<Seq<char>> {
    let t = trim_spec(s);
    if starts_with_spec(t, "Result <"@) {
        if t.len() >= 9 {
            result_ok_of(t.subrange(8, t.len() - 1))
        } else {
            None
        }
    } else if starts_with_spec(t, "Result<"@) {
        if t.len() >= 8 {
            result_ok_of(t.subrange(7, t.len() - 1))
        } else {
            None
        }
    } else {
        None
    }
}

/// The success type of a result spelling.
pub fn extract_result_ok(ty: &str) -> (r: Option<String>)
    ensures
        r.deep_view() == spec_extract_result_ok(ty@),
{
    let t = trim(ty);
    let n = char_len(t);
    let inner = if starts_with(t, "Result <") {
        if n >= 9 {
            substr(t, 8, n - 1)
        } else {
            return None;
        }
    } else if starts_with(t, "Result<") {
        if n >= 8 {
            substr(t, 7, n - 1)
        } else {
            return None;
        }
    } else {
        return None;
    };
    match find_top_comma(inner) {
        Some(i) => {
            proof {
                lemma_first_top_comma_in_range(inner@, 0);
            }
            Some(trim(substr(inner, 0, i)).to_owned())
        },
        None => None,
    }
}

/// The elements of a tuple spelling: the trimmed pieces between top-level
/// commas of the parenthesized list, or nothing when the spelling is not
/// parenthesized.
pub open spec fn spec_extract_tuple_elements(s: Seq<char>) -> Seq<Seq<char>> {
    let t = trim_spec(s);
    if t.len() >= 2 && t[0] == '(' && t.last() == ')' {
        spec_split_top(t.subrange(1, t.len() - 1))
    } else {
        Seq::empty()
    }
}

/// The element types of a tuple spelling.
pub fn extract_tuple_elements(ty: &str) -> (r: Vec<String>)
    ensures
        r.deep_view() == spec_extract_tuple_elements(ty@),
{
    let t = trim(ty);
    let n = char_len(t);
    if n >= 2 && char_at(t, 0) == '(' && char_at(t, n - 1) == ')' {
        split_top(substr(t, 1, n - 1))
    } else {
        Vec::new()
    }
}

/// The first position at or after `i` where `p` occurs in `s`.
pub open spec fn find_sub_from(s: Seq<char>, p: Seq<char>, i: int) -> Option<int>
    decreases s.len() - i + 1,
{
    if i + p.len() > s.len() {
        None
    } else if matches_at(s, p, i) {
        Some(i)
    } else {
        find_sub_from(s, p, i + 1)
    }
}

/// The position of the first occurrence of `p` in `s`.
pub fn find_sub(s: &str, p: &str) -> (r: Option<usize>)
    ensures
        match r {
            Some(i) => find_sub_from(s@, p@, 0) == Some(i as int),
            None => find_sub_from(s@, p@, 0) is None,
        },
{
    let n = char_len(s);
    let m = char_len(p);
    if m > n {
        proof {
            assert(find_sub_from(s@, p@, 0) is None);
        }
        return None;
    }
    let mut start: usize = 0;
    while start <= n - m
        invariant
            0 <= start <= n - m + 1,
            m <= n,
            n == s@.len(),
            m == p@.len(),
            find_sub_from(s@, p@, 0) == find_sub_from(s@, p@, start as int),
        decreases n + 1 - start,
    {
        let mut j: usize = 0;
        let mut all_eq = true;
        while j < m
            invariant
                0 <= j <= m,
                start + m <= n,
                n == s@.len(),
                m == p@.len(),
                all_eq ==> forall|k: int| 0 <= k < j ==> s@[start + k] == p@[k],
                !all_eq ==> !matches_at(s@, p@, start as int),
            decreases m - j,
        {
            if char_at(s, start + j) != char_at(p, j) {
                assert(!matches_at(s@, p@, start as int)) by {
                    if matches_at(s@, p@, start as int) {
                        assert(s@.subrange(start as int, start + p@.len())[j as int]
                            == p@[j as int]);
                    }
                }
                all_eq = false;
                j = m;
            } else {
                j = j + 1;
            }
        }
        if all_eq {
            proof {
                assert(s@.subrange(start as int, start + m) =~= p@);
                assert(matches_at(s@, p@, start as int));
            }
            return Some(start);
        }
        proof {
            assert(find_sub_from(s@, p@, start as int) == find_sub_from(s@, p@, start + 1));
        }
        start = start + 1;
    }
    proof {
        assert(find_sub_from(s@, p@, start as int) is None);
    }
    None
}

/// The first position of character `c` at or after `i`.
pub open spec fn find_char_from(s: Seq<char>, c: char, i: int) -> Option<int>
    decreases s.len() - i,
{
    if i >= s.len() {
        None
    } else if s[i] == c {
        Some(i)
    } else {
        find_char_from(s, c, i + 1)
    }
}

/// The position of the first occurrence of a character.
pub fn find_char(s: &str, c: char) -> (r: Option<usize>)
    ensures
        match r {
            Some(i) => find_char_from(s@, c, 0) == Some(i as int),
            None => find_char_from(s@, c, 0) is None,
        },
{
    let n = char_len(s);
    let mut i: usize = 0;
    while i < n
        invariant
            0 <= i <= n,
            n == s@.len(),
            find_char_from(s@, c, 0) == find_char_from(s@, c, i as int),
        decreases n - i,
    {
        if char_at(s, i) == c {
            return Some(i);
        }
        proof {
            assert(find_char_from(s@, c, i as int) == find_char_from(s@, c, i + 1));
        }
        i = i + 1;
    }
    None
}

/// The last position of character `c` strictly before `i`.
pub open spec fn rfind_char_before(s: Seq<char>, c: char, i: int) -> Option<int>
    decreases i,
{
    if i <= 0 {
        None
    } else if s[i - 1] == c {
        Some(i - 1)
    } else {
        rfind_char_before(s, c, i - 1)
    }
}

/// The position of the last occurrence of a character.
pub fn rfind_char(s: &str, c: char) -> (r: Option<usize>)
    ensures
        match r {
            Some(i) => rfind_char_before(s@, c, s@.len() as int) == Some(i as int),
            None => rfind_char_before(s@, c, s@.len() as int) is None,
        },
{
    let n = char_len(s);
    let mut i: usize = n;
    while i > 0
        invariant
            0 <= i <= n,
            n == s@.len(),
            rfind_char_before(s@, c, n as int) == rfind_char_before(s@, c, i as int),
        decreases i,
    {
        if char_at(s, i - 1) == c {
            return Some(i - 1);
        }
        proof {
            assert(rfind_char_before(s@, c, i as int) == rfind_char_before(s@, c, i - 1));
        }
        i = i - 1;
    }
    None
}

/// The key and value spellings of a mapping's argument list.
pub open spec fn hashmap_kv_of(inner: Seq<char>) -> Option<(Seq<char>, Seq<char>)> {
    match first_top_comma_from(inner, 0) {
        Some(i) => Some(
            (trim_spec(inner.subrange(0, i)), trim_spec(inner.subrange(i + 1, inner.len() as int))),
        ),
        None => None,
    }
}

/// The key and value spellings of a mapping type: the trimmed pieces around
/// the first top-level comma between the mapping's angle brackets.
pub open spec fn spec_extract_hashmap_kv(s: Seq<char>) -> Option<(Seq<char>, Seq<char>)> {
    let t = trim_spec(s);
    match find_sub_from(t, "HashMap"@, 0) {
        None => None,
        Some(h) => {
            let rest = t.subrange(h + 7, t.len() as int);
            match find_char_from(rest, '<', 0) {
                None => None,
                Some(a) => match rfind_char_before(rest, '>', rest.len() as int) {
                    None => None,
                    Some(b) => if a + 1 <= b {
                        hashmap_kv_of(rest.subrange(a + 1, b))
                    } else {
                        None
                    },
                },
            }
        },
    }
}

/// The key and value types of a mapping spelling.
pub fn extract_hashmap_kv(ty: &str) -> (r: Option<(String, String)>)
    ensures
        match r {
            Some(kv) => spec_extract_hashmap_kv(ty@) == Some((kv.0@, kv.1@)),
            None => spec_extract_hashmap_kv(ty@) is None,
        },
{
    let t = trim(ty);
    let h = match find_sub(t, "HashMap") {
        Some(h) => h,
        None => {
            return None;
        },
    };
    proof {
        reveal_strlit("HashMap");
        let r0 = find_sub_from(t@, "HashMap"@, 0);
        lemma_find_sub_in_range(t@, "HashMap"@, 0);
    }
    let n = char_len(t);
    let rest = substr(t, h + 7, n);
    let a = match find_char(rest, '<') {
        Some(a) => a,
        None => {
            return None;
        },
    };
    let b = match rfind_char(rest, '>') {
        Some(b) => b,
        None => {
            return None;
        },
    };
    proof {
        lemma_find_char_in_range(rest@, '<', 0);
        lemma_rfind_char_in_range(rest@, '>', rest@.len() as int);
    }
    if a + 1 > b {
        return None;
    }
    let inner = substr(rest, a + 1, b);
    match find_top_comma(inner) {
        Some(i) => {
            proof {
                lemma_first_top_comma_in_range(inner@, 0);
            }
            let k = trim(substr(inner, 0, i)).to_owned();
            let v = trim(substr(inner, i + 1, char_len(inner))).to_owned();
            Some((k, v))
        },
        None => None,
    }
}

/// A found occurrence lies within the scanned text.
pub proof fn lemma_find_sub_in_range(s: Seq<char>, p: Seq<char>, i: int)
    requires
        0 <= i,
    ensures
        match find_sub_from(s, p, i) {
            Some(j) => i <= j && j + p.len() <= s.len(),
            None => true,
        },
    decreases s.len() - i + 1,
{
    if i + p.len() > s.len() {
    } else if matches_at(s, p, i) {
    } else {
        lemma_find_sub_in_range(s, p, i + 1);
    }
}

/// A found character lies within the scanned text.
pub proof fn lemma_find_char_in_range(s: Seq<char>, c: char, i: int)
    requires
        0 <= i,
    ensures
        match find_char_from(s, c, i) {
            Some(j) => i <= j < s.len(),
            None => true,
        },
    decreases s.len() - i,
{
    if i >= s.len() {
    } else if s[i] == c {
    } else {
        lemma_find_char_in_range(s, c, i + 1);
    }
}

/// A found character lies before the scan's bound.
pub proof fn lemma_rfind_char_in_range(s: Seq<char>, c: char, i: int)
    requires
        i <= s.len(),
    ensures
        match rfind_char_before(s, c, i) {
            Some(j) => 0 <= j < i,
            None => true,
        },
    decreases i,
{
    if i <= 0 {
    } else if s[i - 1] == c {
    } else {
        lemma_rfind_char_in_range(s, c, i - 1);
    }
}

/// A found top-level comma lies within the scanned text.
pub proof fn lemma_first_top_comma_in_range(s: Seq<char>, i: int)
    requires
        0 <= i,
    ensures
        match first_top_comma_from(s, i) {
            Some(j) => i <= j < s.len() && is_top_comma(s, j),
            None => true,
        },
    decreases s.len() - i,
{
    if i >= s.len() {
    } else if is_top_comma(s, i) {
    } else {
        lemma_first_top_comma_in_range(s, i + 1);
    }
}

/// The total character count of a list of spellings.
pub open spec fn sum_lens(elems: Seq<Seq<char>>) -> int
    decreases elems.len(),
{
    if elems.len() == 0 {
        0
    } else {
        elems[0].len() + sum_lens(elems.drop_first())
    }
}

/// A total of lengths is never negative.
pub proof fn lemma_sum_lens_nonneg(elems: Seq<Seq<char>>)
    ensures
        sum_lens(elems) >= 0,
    decreases elems.len(),
{
    if elems.len() > 0 {
        lemma_sum_lens_nonneg(elems.drop_first());
    }
}

/// Each element's length is bounded by the total.
pub proof fn lemma_elem_le_sum(elems: Seq<Seq<char>>, k: int)
    requires
        0 <= k < elems.len(),
    ensures
        elems[k].len() <= sum_lens(elems),
    decreases elems.len(),
{
    if k == 0 {
        lemma_sum_lens_nonneg(elems.drop_first());
    } else {
        lemma_elem_le_sum(elems.drop_first(), k - 1);
        assert(elems.drop_first()[k - 1] == elems[k]);
    }
}

/// Splitting a text yields pieces whose total length is bounded by the text
/// remaining from the current element's start.
pub proof fn lemma_split_sum(s: Seq<char>, i: int, start: int)
    requires
        0 <= start <= i <= s.len(),
    ensures
        sum_lens(split_top_from(s, i, start)) <= s.len() - start,
    decreases s.len() - i,
{
    if i >= s.len() {
        let last = trim_spec(s.subrange(start, s.len() as int));
        crate::strutil::lemma_trim_len(s.subrange(start, s.len() as int));
        if last.len() > 0 {
            assert(seq![last].drop_first() =~= Seq::<Seq<char>>::empty());
            assert(sum_lens(seq![last]) == last.len() + sum_lens(Seq::<Seq<char>>::empty()));
            assert(sum_lens(Seq::<Seq<char>>::empty()) == 0);
        } else {
            assert(sum_lens(Seq::<Seq<char>>::empty()) == 0);
        }
    } else if is_top_comma(s, i) {
        let piece = trim_spec(s.subrange(start, i));
        crate::strutil::lemma_trim_len(s.subrange(start, i));
        let rest = split_top_from(s, i + 1, i + 1);
        lemma_split_sum(s, i + 1, i + 1);
        assert((seq![piece] + rest).drop_first() =~= rest);
        assert((seq![piece] + rest)[0] == piece);
        assert(sum_lens(seq![piece] + rest) == piece.len() + sum_lens(rest));
        assert(split_top_from(s, i, start) == seq![piece] + rest);
    } else {
        lemma_split_sum(s, i + 1, start);
        assert(split_top_from(s, i, start) == split_top_from(s, i + 1, start));
    }
}

/// The struct name inside a spelling: trimmed, with reference markers removed.
pub open spec fn spec_extract_struct_name(s: Seq<char>) -> Seq<char> {
    trim_spec(crate::classify::strip_mut_spec(trim_spec(crate::classify::strip_amp_spec(
        trim_spec(s),
    ))))
}

/// The bare struct name of a possibly-referenced struct spelling.
pub fn extract_struct_name(ty: &str) -> (r: String)
    ensures
        r@ == spec_extract_struct_name(ty@),
{
    let t = trim(ty);
    let u = crate::classify::strip_amp(t);
    let v = trim(u);
    let w = crate::classify::strip_mut(v);
    trim(w).to_owned()
}

} // verus!
