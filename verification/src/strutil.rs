use vstd::prelude::*;

verus! {

/// Character-by-character string equality.
pub fn str_eq(a: &str, b: &str) -> (r: bool)
    ensures
        r == (a@ == b@),
{
    let na = a.unicode_len();
    let nb = b.unicode_len();
    if na != nb {
        return false;
    }
    let mut i: usize = 0;
    while i < na
        invariant
            na == a@.len(),
            na == b@.len(),
            0 <= i <= na,
            forall|j: int| 0 <= j < i ==> a@[j] == b@[j],
        decreases na - i,
    {
        if a.get_char(i) != b.get_char(i) {
            return false;
        }
        i += 1;
    }
    proof {
        assert(a@ =~= b@);
    }
    true
}

/// Whether `needle` occurs as a contiguous substring of `hay`.
pub open spec fn spec_contains(hay: Seq<char>, needle: Seq<char>) -> bool {
    exists|i: int|
        0 <= i && i + needle.len() <= hay.len() && #[trigger] hay.subrange(i, i + needle.len())
            == needle
}

/// Substring containment, the match the SQL `LIKE '%needle%'` filter
/// performs on a text column.
pub fn str_contains(hay: &str, needle: &str) -> (r: bool)
    ensures
        r == spec_contains(hay@, needle@),
{
    let nh = hay.unicode_len();
    let nn = needle.unicode_len();
    if nn == 0 {
        proof {
            assert(hay@.subrange(0, 0 + needle@.len() as int) =~= needle@);
            assert(spec_contains(hay@, needle@));
        }
        return true;
    }
    if nn > nh {
        proof {
            assert forall|i: int|
                !(0 <= i && i + needle@.len() <= hay@.len() && #[trigger] hay@.subrange(
                    i,
                    i + needle@.len(),
                ) == needle@) by {}
        }
        return false;
    }
    let mut i: usize = 0;
    // try every start position in turn
    while i <= nh - nn
        invariant
            nh == hay@.len(),
            nn == needle@.len(),
            1 <= nn <= nh,
            0 <= i <= nh - nn + 1,
            forall|s: int|
                0 <= s < i ==> #[trigger] hay@.subrange(s, s + needle@.len()) != needle@,
        decreases nh + 1 - i,
    {
        let mut k: usize = 0;
        let mut matched = true;
        while k < nn && matched
            invariant
                nh == hay@.len(),
                nn == needle@.len(),
                i + nn <= nh,
                0 <= k <= nn,
                matched ==> forall|j: int| 0 <= j < k ==> hay@[i + j] == needle@[j],
                !matched ==> hay@.subrange(i as int, i + needle@.len()) != needle@,
            decreases (if matched { 1int } else { 0int }), nn - k,
        {
            if hay.get_char(i + k) != needle.get_char(k) {
                matched = false;
                proof {
                    assert(hay@.subrange(i as int, i + needle@.len())[k as int] != needle@[
                        k as int
                    ]);
                }
            } else {
                k += 1;
            }
        }
        if matched {
            assert(k == nn);
            proof {
                assert(hay@.subrange(i as int, i + needle@.len()) =~= needle@);
            }
            return true;
        }
        i += 1;
    }
    proof {
        assert forall|s: int|
            0 <= s && s + needle@.len() <= hay@.len() implies #[trigger] hay@.subrange(
            s,
            s + needle@.len(),
        ) != needle@ by {
            assert(s < i);
        }
    }
    false
}

/// The characters that trimming removes: the Unicode `White_Space`
/// set, the same set `char::is_whitespace` accepts.
pub open spec fn spec_is_ws(c: char) -> bool {
    c == ' ' || c == '\t' || c == '\n' || c == '\r' || c == '\u{b}' || c == '\u{c}' || c
        == '\u{85}' || c == '\u{a0}' || c == '\u{1680}' || (0x2000 <= c as int && c as int
        <= 0x200a) || c == '\u{2028}' || c == '\u{2029}' || c == '\u{202f}' || c == '\u{205f}'
        || c == '\u{3000}'
}

/// Whether the character counts as whitespace for trimming.
pub fn is_ws(c: char) -> (r: bool)
    ensures
        r == spec_is_ws(c),
{
    c == ' ' || c == '\t' || c == '\n' || c == '\r' || c == '\u{b}' || c == '\u{c}' || c
        == '\u{85}' || c == '\u{a0}' || c == '\u{1680}' || (0x2000 <= c as u32 && c as u32
        <= 0x200a) || c == '\u{2028}' || c == '\u{2029}' || c == '\u{202f}' || c == '\u{205f}'
        || c == '\u{3000}'
}

/// `s` with leading and trailing whitespace removed: the subrange from
/// the first non-whitespace character to the last one, or empty when
/// every character is whitespace.
#[verifier::opaque]
pub open spec fn spec_trimmed(s: Seq<char>) -> Seq<char> {
    if forall|i: int| 0 <= i < s.len() ==> spec_is_ws(#[trigger] s[i]) {
        Seq::empty()
    } else {
        let lo = choose|lo: int|
            0 <= lo < s.len() && !spec_is_ws(s[lo]) && forall|j: int|
                0 <= j < lo ==> spec_is_ws(#[trigger] s[j]);
        let hi = choose|hi: int|
            0 <= hi < s.len() && !spec_is_ws(s[hi]) && forall|j: int|
                hi < j < s.len() ==> spec_is_ws(#[trigger] s[j]);
        s.subrange(lo, hi + 1)
    }
}

/// Removes leading and trailing whitespace.
pub fn trim(s: &str) -> (r: String)
    ensures
        r@ == spec_trimmed(s@),
{
    let n = s.unicode_len();
    let mut lo: usize = 0;
    while lo < n && is_ws(s.get_char(lo))
        invariant
            n == s@.len(),
            0 <= lo <= n,
            forall|j: int| 0 <= j < lo ==> spec_is_ws(#[trigger] s@[j]),
        decreases n - lo,
    {
        lo += 1;
    }
    if lo == n {
        // every character is whitespace
        let r = String::new();
        proof {
            reveal(spec_trimmed);
            assert(r@ =~= spec_trimmed(s@));
        }
        return r;
    }
    let mut hi: usize = n - 1;
    while hi > lo && is_ws(s.get_char(hi))
        invariant
            n == s@.len(),
            lo <= hi < n,
            !spec_is_ws(s@[lo as int]),
            forall|j: int| hi < j < n ==> spec_is_ws(#[trigger] s@[j]),
        decreases hi,
    {
        hi -= 1;
    }
    // hi now points at the last non-whitespace character
    let sub = s.substring_char(lo, hi + 1);
    let r = sub.to_owned();
    proof {
        reveal(spec_trimmed);
        let glo = choose|glo: int|
            0 <= glo < s@.len() && !spec_is_ws(s@[glo]) && forall|j: int|
                0 <= j < glo ==> spec_is_ws(#[trigger] s@[j]);
        let ghi = choose|ghi: int|
            0 <= ghi < s@.len() && !spec_is_ws(s@[ghi]) && forall|j: int|
                ghi < j < s@.len() ==> spec_is_ws(#[trigger] s@[j]);
        assert(glo == lo as int);
        assert(ghi == hi as int);
        assert(r@ =~= spec_trimmed(s@));
    }
    r
}

} // verus!
