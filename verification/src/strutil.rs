//! Verified helpers for working with strings viewed as `Seq<char>`.

use vstd::prelude::*;

verus! {

/// Compares two string slices character by character.
pub fn str_eq(a: &str, b: &str) -> (r: bool)
    ensures
        r == (a@ == b@),
{
    let alen = a.unicode_len();
    let blen = b.unicode_len();
    if alen != blen {
        return false;
    }
    let mut i: usize = 0;
    while i < alen
        invariant
            alen == a@.len(),
            alen == b@.len(),
            i <= alen,
            forall|j: int| 0 <= j < i ==> a@[j] == b@[j],
        decreases alen - i,
    {
        if a.get_char(i) != b.get_char(i) {
            return false;
        }
        i += 1;
    }
    proof {
        assert(a@ =~= b@);
    }
    true
}

/// Index of the first occurrence of `c` in `s`, if any.
pub open spec fn first_idx_of(s: Seq<char>, c: char) -> Option<int>
    decreases s.len(),
{
    if s.len() == 0 {
        None
    } else if s[0] == c {
        Some(0int)
    } else {
        match first_idx_of(s.drop_first(), c) {
            Some(i) => Some(i + 1),
            None => None,
        }
    }
}

proof fn lemma_first_idx_of_found(s: Seq<char>, c: char, i: int)
    requires
        0 <= i < s.len(),
        s[i] == c,
        forall|j: int| 0 <= j < i ==> s[j] != c,
    ensures
        first_idx_of(s, c) == Some(i),
    decreases i,
{
    if i == 0 {
    } else {
        lemma_first_idx_of_found(s.drop_first(), c, i - 1);
    }
}

/// A found index lies inside the string and carries the character.
pub proof fn lemma_first_idx_of_in_bounds(s: Seq<char>, c: char, i: int)
    requires
        first_idx_of(s, c) == Some(i),
    ensures
        0 <= i < s.len(),
        s[i] == c,
    decreases s.len(),
{
    if s.len() > 0 && s[0] != c {
        lemma_first_idx_of_in_bounds(s.drop_first(), c, i - 1);
    }
}

proof fn lemma_first_idx_of_none(s: Seq<char>, c: char)
    requires
        forall|j: int| 0 <= j < s.len() ==> s[j] != c,
    ensures
        first_idx_of(s, c) is None,
    decreases s.len(),
{
    if s.len() > 0 {
        lemma_first_idx_of_none(s.drop_first(), c);
    }
}

/// Finds the first occurrence of a character, scanning from the front.
pub fn find_char(s: &str, c: char) -> (r: Option<usize>)
    ensures
        match r {
            Some(i) => first_idx_of(s@, c) == Some(i as int),
            None => first_idx_of(s@, c) is None,
        },
{
    let len = s.unicode_len();
    let mut i: usize = 0;
    while i < len
        invariant
            len == s@.len(),
            i <= len,
            forall|j: int| 0 <= j < i ==> s@[j] != c,
        decreases len - i,
    {
        if s.get_char(i) == c {
            proof {
                lemma_first_idx_of_found(s@, c, i as int);
            }
            return Some(i);
        }
        i += 1;
    }
    proof {
        lemma_first_idx_of_none(s@, c);
    }
    None
}

/// A decimal digit.
pub open spec fn is_digit(c: char) -> bool {
    '0' <= c && c <= '9'
}

/// Every character of `s` is a decimal digit.
pub open spec fn all_digits(s: Seq<char>) -> bool {
    forall|i: int| 0 <= i < s.len() ==> is_digit(s[i])
}

/// The value of `s` read as a decimal number, most significant digit first.
pub open spec fn digits_val(s: Seq<char>) -> int
    decreases s.len(),
{
    if s.len() == 0 {
        0
    } else {
        digits_val(s.drop_last()) * 10 + (s.last() as int - '0' as int)
    }
}

proof fn lemma_digits_val_nonneg(s: Seq<char>)
    requires
        all_digits(s),
    ensures
        digits_val(s) >= 0,
    decreases s.len(),
{
    if s.len() > 0 {
        assert(all_digits(s.drop_last()));
        lemma_digits_val_nonneg(s.drop_last());
    }
}

proof fn lemma_digits_val_prefix_le(s: Seq<char>, n: int)
    requires
        all_digits(s),
        0 <= n <= s.len(),
    ensures
        digits_val(s.subrange(0, n)) <= digits_val(s),
    decreases s.len() - n,
{
    if n == s.len() {
        assert(s.subrange(0, n) =~= s);
    } else {
        lemma_digits_val_prefix_le(s, n + 1);
        let p = s.subrange(0, n + 1);
        assert(p.drop_last() =~= s.subrange(0, n));
        assert(all_digits(p.drop_last()));
        lemma_digits_val_nonneg(p.drop_last());
        assert(digits_val(p) == digits_val(p.drop_last()) * 10 + (p.last() as int - '0' as int));
    }
}

/// Parses a string of decimal digits as a 32-bit unsigned integer.
/// Succeeds exactly on non-empty all-digit strings whose value fits.
pub fn parse_u32(s: &str) -> (r: Option<u32>)
    ensures
        match r {
            Some(v) => s@.len() > 0 && all_digits(s@) && digits_val(s@) == v as int,
            None => s@.len() == 0 || !all_digits(s@) || digits_val(s@) > u32::MAX,
        },
{
    let len = s.unicode_len();
    if len == 0 {
        return None;
    }
    let mut acc: u64 = 0;
    let mut i: usize = 0;
    while i < len
        invariant
            len == s@.len(),
            0 < len,
            i <= len,
            all_digits(s@.subrange(0, i as int)),
            acc == digits_val(s@.subrange(0, i as int)),
            acc <= u32::MAX,
        decreases len - i,
    {
        let c = s.get_char(i);
        if c < '0' || c > '9' {
            assert(!is_digit(s@[i as int]));
            return None;
        }
        let d: u64 = (c as u32 as u64) - 48;
        acc = acc * 10 + d;
        proof {
            let p = s@.subrange(0, i + 1);
            assert(p.drop_last() =~= s@.subrange(0, i as int));
            assert(p.last() == s@[i as int]);
        }
        i += 1;
        if acc > u32::MAX as u64 {
            proof {
                if all_digits(s@) {
                    lemma_digits_val_prefix_le(s@, i as int);
                    assert(s@.subrange(0, i as int) =~= s@.subrange(0, i as int));
                }
            }
            return None;
        }
    }
    proof {
        assert(s@.subrange(0, len as int) =~= s@);
    }
    Some(acc as u32)
}

/// The characters that the trimming and splitting operations treat as
/// whitespace: the Unicode `White_Space` set.
pub open spec fn is_ws_char(c: char) -> bool {
    c == ' ' || c == '\t' || c == '\n' || c == '\u{b}' || c == '\u{c}' || c == '\r' || c == '\u{85}'
        || c == '\u{a0}' || c == '\u{1680}' || ('\u{2000}' <= c && c <= '\u{200a}') || c
        == '\u{2028}' || c == '\u{2029}' || c == '\u{202f}' || c == '\u{205f}' || c == '\u{3000}'
}

/// Executable test for [`is_ws_char`].
pub fn is_whitespace_char(c: char) -> (r: bool)
    ensures
        r == is_ws_char(c),
{
    c == ' ' || c == '\t' || c == '\n' || c == '\u{b}' || c == '\u{c}' || c == '\r' || c == '\u{85}'
        || c == '\u{a0}' || c == '\u{1680}' || ('\u{2000}' <= c && c <= '\u{200a}') || c
        == '\u{2028}' || c == '\u{2029}' || c == '\u{202f}' || c == '\u{205f}' || c == '\u{3000}'
}

/// `s` without leading and trailing whitespace.
pub open spec fn trim_spec(s: Seq<char>) -> Seq<char>
    decreases s.len(),
{
    if s.len() == 0 {
        s
    } else if is_ws_char(s[0]) {
        trim_spec(s.drop_first())
    } else if is_ws_char(s.last()) {
        trim_spec(s.drop_last())
    } else {
        s
    }
}

proof fn lemma_trim_spec_subrange(s: Seq<char>, start: int, end: int)
    requires
        0 <= start <= end <= s.len(),
        forall|j: int| 0 <= j < start ==> is_ws_char(s[j]),
        forall|j: int| end <= j < s.len() ==> is_ws_char(s[j]),
        start == end || (!is_ws_char(s[start]) && !is_ws_char(s[end - 1])),
    ensures
        trim_spec(s) == s.subrange(start, end),
    decreases s.len(),
{
    if s.len() == 0 {
        assert(s.subrange(0, 0) =~= s);
    } else if is_ws_char(s[0]) {
        let t = s.drop_first();
        if start == 0 {
            lemma_trim_spec_subrange(t, 0, 0);
            assert(t.subrange(0, 0) =~= s.subrange(0, 0));
        } else {
            lemma_trim_spec_subrange(t, start - 1, end - 1);
            assert(t.subrange(start - 1, end - 1) =~= s.subrange(start, end));
        }
    } else if is_ws_char(s.last()) {
        let t = s.drop_last();
        if start == end {
            lemma_trim_spec_subrange(t, 0, 0);
            assert(t.subrange(0, 0) =~= s.subrange(start, end));
        } else {
            lemma_trim_spec_subrange(t, start, end);
            assert(t.subrange(start, end) =~= s.subrange(start, end));
        }
    } else {
        assert(end == s.len());
        assert(s.subrange(0, s.len() as int) =~= s);
    }
}

/// The slice left after removing leading and trailing whitespace.
pub fn trim(s: &str) -> (r: &str)
    ensures
        r@ == trim_spec(s@),
{
    let len = s.unicode_len();
    let mut start: usize = 0;
    while start < len && is_whitespace_char(s.get_char(start))
        invariant
            len == s@.len(),
            start <= len,
            forall|j: int| 0 <= j < start ==> is_ws_char(s@[j]),
        decreases len - start,
    {
        start += 1;
    }
    let mut end: usize = len;
    while end > start && is_whitespace_char(s.get_char(end - 1))
        invariant
            len == s@.len(),
            start <= end <= len,
            forall|j: int| end <= j < len ==> is_ws_char(s@[j]),
        decreases end,
    {
        end -= 1;
    }
    proof {
        lemma_trim_spec_subrange(s@, start as int, end as int);
    }
    s.substring_char(start, end)
}

/// The whitespace-separated words of `s[i..]`, given the word `cur` read so
/// far and the words `acc` already collected.
pub open spec fn split_ws_acc(s: Seq<char>, i: int, cur: Seq<char>, acc: Seq<Seq<char>>) -> Seq<
    Seq<char>,
>
    decreases s.len() - i,
{
    if i < 0 || i >= s.len() {
        if cur.len() > 0 {
            acc.push(cur)
        } else {
            acc
        }
    } else if is_ws_char(s[i]) {
        if cur.len() > 0 {
            split_ws_acc(s, i + 1, Seq::empty(), acc.push(cur))
        } else {
            split_ws_acc(s, i + 1, Seq::empty(), acc)
        }
    } else {
        split_ws_acc(s, i + 1, cur.push(s[i]), acc)
    }
}

/// The whitespace-separated words of `s`, in order.
pub open spec fn split_ws_spec(s: Seq<char>) -> Seq<Seq<char>> {
    split_ws_acc(s, 0, Seq::empty(), Seq::empty())
}

/// Splits a string on whitespace into its words.
pub fn split_ws(s: &str) -> (r: Vec<String>)
    ensures
        r.deep_view() == split_ws_spec(s@),
{
    let len = s.unicode_len();
    let mut r: Vec<String> = Vec::new();
    proof {
        assert(r.deep_view() =~= Seq::<Seq<char>>::empty());
    }
    let mut i: usize = 0;
    let mut start: usize = 0;
    let mut in_token: bool = false;
    while i < len
        invariant
            len == s@.len(),
            i <= len,
            in_token ==> start < i,
            split_ws_acc(
                s@,
                i as int,
                if in_token {
                    s@.subrange(start as int, i as int)
                } else {
                    Seq::empty()
                },
                r.deep_view(),
            ) == split_ws_spec(s@),
        decreases len - i,
    {
        let ghost cur: Seq<char> = if in_token {
            s@.subrange(start as int, i as int)
        } else {
            Seq::empty()
        };
        let c = s.get_char(i);
        if is_whitespace_char(c) {
            if in_token {
                let tok = s.substring_char(start, i).to_owned();
                let ghost old_deep = r.deep_view();
                r.push(tok);
                proof {
                    assert(r.deep_view() =~= old_deep.push(cur));
                }
                in_token = false;
            }
        } else {
            if !in_token {
                start = i;
                in_token = true;
            }
            proof {
                assert(s@.subrange(start as int, i + 1) =~= cur.push(s@[i as int]));
            }
        }
        i += 1;
    }
    if in_token {
        let tok = s.substring_char(start, len).to_owned();
        let ghost old_deep = r.deep_view();
        r.push(tok);
        proof {
            assert(r.deep_view() =~= old_deep.push(s@.subrange(start as int, len as int)));
        }
    }
    r
}

} // verus!
