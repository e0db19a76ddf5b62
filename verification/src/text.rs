//! Small verified helpers on `&str`: equality, trimming, splitting and
//! searching, each proved against a direct specification over `Seq<char>`.

use vstd::prelude::*;

verus! {

/// The ASCII whitespace characters that surrounding-whitespace trimming removes.
pub open spec fn is_ws(c: char) -> bool {
    c == ' ' || c == '\t' || c == '\n' || c == '\r' || c == '\u{b}' || c == '\u{c}'
}

/// `s` with leading whitespace removed.
pub open spec fn spec_trim_front(s: Seq<char>) -> Seq<char>
    decreases s.len(),
{
    if s.len() > 0 && is_ws(s[0]) {
        spec_trim_front(s.drop_first())
    } else {
        s
    }
}

/// `s` with trailing whitespace removed.
pub open spec fn spec_trim_back(s: Seq<char>) -> Seq<char>
    decreases s.len(),
{
    if s.len() > 0 && is_ws(s[s.len() - 1]) {
        spec_trim_back(s.drop_last())
    } else {
        s
    }
}

/// `s` with surrounding whitespace removed.
pub open spec fn spec_trim(s: Seq<char>) -> Seq<char> {
    spec_trim_back(spec_trim_front(s))
}

/// Index of the first occurrence of `c` in `s`, or `s.len()` if absent.
pub open spec fn find_first(s: Seq<char>, c: char) -> int
    decreases s.len(),
{
    if s.len() == 0 {
        0
    } else if s[0] == c {
        0
    } else {
        1 + find_first(s.drop_first(), c)
    }
}

/// A sequence without `c` has its first occurrence index at the length.
pub proof fn lemma_find_first_absent(s: Seq<char>, c: char)
    requires
        forall|i: int| 0 <= i < s.len() ==> s[i] != c,
    ensures
        find_first(s, c) == s.len(),
    decreases s.len(),
{
    if s.len() > 0 {
        assert forall|i: int| 0 <= i < s.drop_first().len() implies s.drop_first()[i] != c by {
            assert(s.drop_first()[i] == s[i + 1]);
        }
        lemma_find_first_absent(s.drop_first(), c);
    }
}

/// In `a + c + r` with `c` absent from `a`, the first occurrence of `c`
/// is exactly at the end of `a`.
pub proof fn lemma_find_first_concat(a: Seq<char>, r: Seq<char>, c: char)
    requires
        forall|i: int| 0 <= i < a.len() ==> a[i] != c,
    ensures
        find_first(a + seq![c] + r, c) == a.len(),
    decreases a.len(),
{
    let s = a + seq![c] + r;
    if a.len() == 0 {
        assert(s[0] == c);
    } else {
        assert(s[0] == a[0]);
        assert forall|i: int| 0 <= i < a.drop_first().len() implies a.drop_first()[i] != c by {
            assert(a.drop_first()[i] == a[i + 1]);
        }
        lemma_find_first_concat(a.drop_first(), r, c);
        assert(s.drop_first() =~= a.drop_first() + seq![c] + r);
    }
}

/// `s` split on every occurrence of `sep`; adjacent separators produce empty
/// pieces, and the result always has at least one piece.
pub open spec fn spec_split(s: Seq<char>, sep: char) -> Seq<Seq<char>>
    decreases s.len(),
{
    let i = find_first(s, sep);
    if 0 <= i < s.len() {
        seq![s.subrange(0, i)] + spec_split(s.subrange(i + 1, s.len() as int), sep)
    } else {
        seq![s]
    }
}

/// Whether `c` is one of the trimmed whitespace characters.
pub fn is_ws_char(c: char) -> (r: bool)
    ensures
        r == is_ws(c),
{
    c == ' ' || c == '\t' || c == '\n' || c == '\r' || c == '\u{b}' || c == '\u{c}'
}

fn trim_front(s: &str) -> (r: &str)
    ensures
        r@ == spec_trim_front(s@),
    decreases s@.len(),
{
    let len = s.unicode_len();
    if len > 0 && is_ws_char(s.get_char(0)) {
        let rest = s.substring_char(1, len);
        proof {
            assert(rest@ =~= s@.drop_first());
        }
        trim_front(rest)
    } else {
        s
    }
}

fn trim_back(s: &str) -> (r: &str)
    ensures
        r@ == spec_trim_back(s@),
    decreases s@.len(),
{
    let len = s.unicode_len();
    if len > 0 && is_ws_char(s.get_char(len - 1)) {
        let rest = s.substring_char(0, len - 1);
        proof {
            assert(rest@ =~= s@.drop_last());
        }
        trim_back(rest)
    } else {
        s
    }
}

/// `s` with surrounding whitespace removed.
pub fn trim_str(s: &str) -> (r: &str)
    ensures
        r@ == spec_trim(s@),
{
    trim_back(trim_front(s))
}

/// Index of the first occurrence of `c`, or the length of `s` if absent.
pub fn find_char(s: &str, c: char) -> (i: usize)
    ensures
        i == find_first(s@, c),
        i <= s@.len(),
    decreases s@.len(),
{
    let len = s.unicode_len();
    if len == 0 {
        0
    } else if s.get_char(0) == c {
        0
    } else {
        let rest = s.substring_char(1, len);
        proof {
            assert(rest@ =~= s@.drop_first());
        }
        1 + find_char(rest, c)
    }
}

/// `s` split on every occurrence of `sep`, as owned pieces.
pub fn split_str(s: &str, sep: char) -> (r: Vec<String>)
    ensures
        r.deep_view() == spec_split(s@, sep),
    decreases s@.len(),
{
    let len = s.unicode_len();
    let i = find_char(s, sep);
    if i < len {
        let head = s.substring_char(0, i);
        let tail = s.substring_char(i + 1, len);
        let mut pieces = split_str(tail, sep);
        pieces.insert(0, head.to_owned());
        proof {
            assert(pieces.deep_view() =~= spec_split(s@, sep));
        }
        pieces
    } else {
        let mut pieces: Vec<String> = Vec::new();
        pieces.push(s.to_owned());
        proof {
            assert(pieces.deep_view() =~= spec_split(s@, sep));
        }
        pieces
    }
}

/// Splitting a sequence that holds no separator yields that sequence as
/// its single piece.
pub proof fn lemma_split_single(s: Seq<char>, sep: char)
    requires
        forall|i: int| 0 <= i < s.len() ==> s[i] != sep,
    ensures
        spec_split(s, sep) == seq![s],
{
    lemma_find_first_absent(s, sep);
}

/// Splitting `a + sep + r` where `a` holds no separator yields `a`
/// followed by the pieces of `r`.
pub proof fn lemma_split_concat(a: Seq<char>, r: Seq<char>, sep: char)
    requires
        forall|i: int| 0 <= i < a.len() ==> a[i] != sep,
    ensures
        spec_split(a + seq![sep] + r, sep) == seq![a] + spec_split(r, sep),
{
    let s = a + seq![sep] + r;
    lemma_find_first_concat(a, r, sep);
    assert(s.subrange(0, a.len() as int) =~= a);
    assert(s.subrange(a.len() as int + 1, s.len() as int) =~= r);
}

/// Trimming does not change a sequence that starts and ends with
/// non-whitespace characters.
pub proof fn lemma_trim_identity(s: Seq<char>)
    requires
        s.len() > 0,
        !is_ws(s[0]),
        !is_ws(s[s.len() - 1]),
    ensures
        spec_trim(s) == s,
{
}

/// ASCII lowercasing of one character; other characters are unchanged.
pub open spec fn spec_to_lower(c: char) -> char {
    if 65 <= c as u32 && c as u32 <= 90 {
        (((c as u32) + 32) as u8) as char
    } else {
        c
    }
}

/// ASCII lowercasing of a character sequence.
pub open spec fn spec_lower(s: Seq<char>) -> Seq<char> {
    s.map_values(|c: char| spec_to_lower(c))
}

fn to_lower_char(c: char) -> (r: char)
    ensures
        r == spec_to_lower(c),
{
    let code = c as u32;
    if 65 <= code && code <= 90 {
        ((code + 32) as u8) as char
    } else {
        c
    }
}

/// Whether `a`, lowercased (ASCII), equals `b` exactly.
pub fn eq_lower(a: &str, b: &str) -> (r: bool)
    ensures
        r == (spec_lower(a@) == b@),
{
    let alen = a.unicode_len();
    let blen = b.unicode_len();
    if alen != blen {
        proof {
            assert(spec_lower(a@).len() == a@.len());
        }
        return false;
    }
    let mut i: usize = 0;
    while i < alen
        invariant
            alen == a@.len(),
            alen == b@.len(),
            i <= alen,
            forall|j: int| 0 <= j < i ==> spec_to_lower(a@[j]) == b@[j],
        decreases alen - i,
    {
        if to_lower_char(a.get_char(i)) != b.get_char(i) {
            proof {
                assert(spec_lower(a@)[i as int] == spec_to_lower(a@[i as int]));
            }
            return false;
        }
        i += 1;
    }
    proof {
        assert(spec_lower(a@) =~= b@);
    }
    true
}

/// Character-by-character string equality, proved to decide view equality.
pub fn str_eq(a: &str, b: &str) -> (r: bool)
    ensures
        r == (a@ == b@),
{
    let alen = a.unicode_len();
    let blen = b.unicode_len();
    if alen != blen {
        return false;
    }
    let mut i: usize = 0;
    while i < alen
        invariant
            alen == a@.len(),
            alen == b@.len(),
            i <= alen,
            forall|j: int| 0 <= j < i ==> a@[j] == b@[j],
        decreases alen - i,
    {
        if a.get_char(i) != b.get_char(i) {
            return false;
        }
        i += 1;
    }
    proof {
        assert(a@ =~= b@);
    }
    true
}

} // verus!

