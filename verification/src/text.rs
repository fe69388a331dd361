//! Small verified text utilities: equality, whitespace trimming, substring
//! search, and the number parses that sysfs and manifest text need.

use vstd::prelude::*;

verus! {

/// ASCII whitespace, the only whitespace sysfs text carries.
pub open spec fn is_space(c: char) -> bool {
    c == ' ' || c == '\t' || c == '\n' || c == '\r'
}

/// The sequence with its leading whitespace removed.
pub open spec fn trim_front(s: Seq<char>) -> Seq<char>
    decreases s.len(),
{
    if s.len() > 0 && is_space(s.first()) {
        trim_front(s.drop_first())
    } else {
        s
    }
}

/// The sequence with its trailing whitespace removed.
pub open spec fn trim_back(s: Seq<char>) -> Seq<char>
    decreases s.len(),
{
    if s.len() > 0 && is_space(s.last()) {
        trim_back(s.drop_last())
    } else {
        s
    }
}

/// The sequence with whitespace removed from both ends.
pub open spec fn trimmed(s: Seq<char>) -> Seq<char> {
    trim_back(trim_front(s))
}

pub fn is_space_char(c: char) -> (r: bool)
    ensures
        r == is_space(c),
{
    c == ' ' || c == '\t' || c == '\n' || c == '\r'
}

proof fn lemma_trim_front_skips(s: Seq<char>, i: int)
    requires
        0 <= i <= s.len(),
        forall|k: int| 0 <= k < i ==> is_space(s[k]),
        i == s.len() || !is_space(s[i]),
    ensures
        trim_front(s) == s.subrange(i, s.len() as int),
    decreases i,
{
    if i == 0 {
        if s.len() > 0 && is_space(s.first()) {
            assert(false);
        }
        assert(s.subrange(0, s.len() as int) =~= s);
    } else {
        assert(is_space(s.first()));
        let t = s.drop_first();
        assert(forall|k: int| 0 <= k < i - 1 ==> is_space(t[k]));
        lemma_trim_front_skips(t, i - 1);
        assert(t.subrange(i - 1, t.len() as int) =~= s.subrange(i, s.len() as int));
    }
}

proof fn lemma_trim_back_skips(s: Seq<char>, j: int)
    requires
        0 <= j <= s.len(),
        forall|k: int| j <= k < s.len() ==> is_space(s[k]),
        j == 0 || !is_space(s[j - 1]),
    ensures
        trim_back(s) == s.subrange(0, j),
    decreases s.len(),
{
    if j == s.len() {
        if s.len() > 0 && is_space(s.last()) {
            assert(false);
        }
        assert(s.subrange(0, j) =~= s);
    } else {
        assert(is_space(s.last()));
        let t = s.drop_last();
        assert(forall|k: int| j <= k < t.len() ==> t[k] == s[k]);
        lemma_trim_back_skips(t, j);
        assert(t.subrange(0, j) =~= s.subrange(0, j));
    }
}

/// Remove ASCII whitespace from both ends of a string.
pub fn trim_text(s: &str) -> (r: String)
    ensures
        r@ == trimmed(s@),
{
    let len = s.unicode_len();
    let mut start: usize = 0;
    while start < len && is_space_char(s.get_char(start))
        invariant
            len == s@.len(),
            start <= len,
            forall|k: int| 0 <= k < start ==> is_space(s@[k]),
        decreases len - start,
    {
        start = start + 1;
    }
    if start == len {
        proof {
            lemma_trim_front_skips(s@, len as int);
            assert(trim_front(s@) =~= Seq::<char>::empty());
        }
        return String::new();
    }
    proof {
        lemma_trim_front_skips(s@, start as int);
    }
    let mut end: usize = len;
    while end > start && is_space_char(s.get_char(end - 1))
        invariant
            len == s@.len(),
            start <= end <= len,
            !is_space(s@[start as int]),
            forall|k: int| end <= k < len ==> is_space(s@[k]),
        decreases end,
    {
        end = end - 1;
    }
    let part = s.substring_char(start, end);
    proof {
        let front = s@.subrange(start as int, len as int);
        assert(forall|k: int|
            end - start <= k < front.len() ==> is_space(#[trigger] front[k]));
        assert(!is_space(front[end - start - 1]));
        lemma_trim_back_skips(front, end - start);
        assert(front.subrange(0, end - start) =~= s@.subrange(start as int, end as int));
    }
    part.to_owned()
}

/// Verified string equality over the character sequences.
pub fn str_eq(a: &str, b: &str) -> (r: bool)
    ensures
        r == (a@ == b@),
{
    let a_len = a.unicode_len();
    let b_len = b.unicode_len();
    if a_len != b_len {
        return false;
    }
    let mut i: usize = 0;
    while i < a_len
        invariant
            a_len == a@.len(),
            b_len == b@.len(),
            a_len == b_len,
            i <= a_len,
            forall|k: int| 0 <= k < i ==> a@[k] == b@[k],
        decreases a_len - i,
    {
        if s_ne(a.get_char(i), b.get_char(i)) {
            return false;
        }
        i = i + 1;
    }
    proof {
        assert(a@ =~= b@);
    }
    true
}

fn s_ne(a: char, b: char) -> (r: bool)
    ensures
        r == (a != b),
{
    a != b
}

/// `needle` occurs somewhere inside `hay`.
pub open spec fn has_substring(hay: Seq<char>, needle: Seq<char>) -> bool {
    exists|i: int|
        0 <= i && i + needle.len() <= hay.len() && #[trigger] hay.subrange(
            i,
            i + needle.len() as int,
        ) == needle
}

/// Verified substring search.
pub fn contains_text(hay: &str, needle: &str) -> (r: bool)
    ensures
        r == has_substring(hay@, needle@),
{
    let h_len = hay.unicode_len();
    let n_len = needle.unicode_len();
    if n_len > h_len {
        return false;
    }
    if n_len == 0 {
        proof {
            assert(hay@.subrange(0, 0 + needle@.len() as int) =~= needle@);
        }
        return true;
    }
    let mut i: usize = 0;
    while i <= h_len - n_len
        invariant
            h_len == hay@.len(),
            n_len == needle@.len(),
            n_len <= h_len,
            i <= h_len - n_len + 1,
            forall|k: int|
                0 <= k < i ==> #[trigger] hay@.subrange(k, k + needle@.len() as int)
                    != needle@,
        decreases h_len - i,
    {
        let mut j: usize = 0;
        let mut matched = true;
        let ghost mut bad: int = 0;
        while j < n_len
            invariant
                h_len == hay@.len(),
                n_len == needle@.len(),
                i + n_len <= h_len,
                j <= n_len,
                matched ==> forall|k: int| 0 <= k < j ==> hay@[i + k] == needle@[k],
                !matched ==> 0 <= bad < n_len && hay@[i + bad] != needle@[bad],
            decreases n_len - j,
        {
            if s_ne(hay.get_char(i + j), needle.get_char(j)) {
                proof {
                    bad = j as int;
                }
                matched = false;
                j = n_len;
            } else {
                j = j + 1;
            }
        }
        if matched {
            proof {
                assert(hay@.subrange(i as int, i + needle@.len() as int) =~= needle@);
            }
            return true;
        }
        proof {
            let sub = hay@.subrange(i as int, i + needle@.len() as int);
            assert(sub[bad] == hay@[i + bad]);
            assert(sub != needle@);
        }
        i = i + 1;
    }
    false
}

/// A hexadecimal digit, upper or lower case.
pub open spec fn is_hex_digit(c: char) -> bool {
    let v = c as u32;
    (48 <= v && v <= 57) || (97 <= v && v <= 102) || (65 <= v && v <= 70)
}

/// The value of one hexadecimal digit.
pub open spec fn hex_digit_val(c: char) -> int {
    let v = c as u32;
    if 48 <= v && v <= 57 {
        v - 48
    } else if 97 <= v && v <= 102 {
        v - 87
    } else if 65 <= v && v <= 70 {
        v - 55
    } else {
        0
    }
}

pub open spec fn all_hex(s: Seq<char>) -> bool {
    forall|k: int| 0 <= k < s.len() ==> is_hex_digit(#[trigger] s[k])
}

/// The number a sequence of hexadecimal digits denotes.
pub open spec fn hex_val(s: Seq<char>) -> int
    decreases s.len(),
{
    if s.len() == 0 {
        0
    } else {
        hex_val(s.drop_last()) * 16 + hex_digit_val(s.last())
    }
}

/// What parsing a string of hexadecimal digits yields: a value when the
/// string is non-empty, made of digits alone, and fits in 32 bits.
pub open spec fn spec_parse_hex(s: Seq<char>) -> Option<u32> {
    if s.len() > 0 && all_hex(s) && hex_val(s) <= u32::MAX {
        Some(hex_val(s) as u32)
    } else {
        None
    }
}

proof fn lemma_hex_val_nonneg(s: Seq<char>)
    ensures
        hex_val(s) >= 0,
    decreases s.len(),
{
    if s.len() > 0 {
        lemma_hex_val_nonneg(s.drop_last());
    }
}

fn hex_digit_of(c: char) -> (r: Option<u8>)
    ensures
        r is Some <==> is_hex_digit(c),
        r matches Some(d) ==> d == hex_digit_val(c),
{
    let v = c as u32;
    if 48 <= v && v <= 57 {
        Some((v - 48) as u8)
    } else if 97 <= v && v <= 102 {
        Some((v - 87) as u8)
    } else if 65 <= v && v <= 70 {
        Some((v - 55) as u8)
    } else {
        None
    }
}

/// Parse a string of hexadecimal digits into a 32-bit value.  Digits alone
/// are accepted: no sign, no prefix, no surrounding whitespace.
pub fn parse_hex_u32(s: &str) -> (r: Option<u32>)
    ensures
        r == spec_parse_hex(s@),
{
    let len = s.unicode_len();
    if len == 0 {
        return None;
    }
    let mut acc: u64 = 0;
    let mut too_big = false;
    let mut i: usize = 0;
    while i < len
        invariant
            len == s@.len(),
            i <= len,
            all_hex(s@.subrange(0, i as int)),
            !too_big ==> acc == hex_val(s@.subrange(0, i as int)) && acc <= u32::MAX,
            too_big ==> hex_val(s@.subrange(0, i as int)) > u32::MAX,
        decreases len - i,
    {
        let c = s.get_char(i);
        let ghost pre = s@.subrange(0, i as int);
        let ghost cur = s@.subrange(0, i + 1 as int);
        proof {
            assert(cur.drop_last() =~= pre);
            assert(cur.last() == s@[i as int]);
        }
        match hex_digit_of(c) {
            None => {
                proof {
                    assert(!all_hex(s@));
                }
                return None;
            },
            Some(d) => {
                if too_big {
                    proof {
                        lemma_hex_val_nonneg(pre);
                        assert(hex_val(cur) == hex_val(pre) * 16 + hex_digit_val(cur.last()));
                        assert(hex_val(pre) * 16 >= hex_val(pre)) by {
                            assert(hex_val(pre) * 16 - hex_val(pre) == 15 * hex_val(pre));
                            assert(15 * hex_val(pre) >= 0) by (nonlinear_arith)
                                requires
                                    hex_val(pre) >= 0,
                            ;
                        }
                    }
                } else {
                    let next = acc * 16 + (d as u64);
                    if next > 0xFFFF_FFFF {
                        too_big = true;
                    } else {
                        acc = next;
                    }
                }
            },
        }
        i = i + 1;
    }
    proof {
        assert(s@.subrange(0, len as int) =~= s@);
    }
    if too_big {
        None
    } else {
        Some(acc as u32)
    }
}

/// A decimal digit.
pub open spec fn is_dec_digit(c: char) -> bool {
    let v = c as u32;
    48 <= v && v <= 57
}

pub open spec fn all_dec(s: Seq<char>) -> bool {
    forall|k: int| 0 <= k < s.len() ==> is_dec_digit(#[trigger] s[k])
}

/// The value of one decimal digit.
pub open spec fn dec_digit_val(c: char) -> int {
    if is_dec_digit(c) {
        c as u32 - 48
    } else {
        0
    }
}

/// The number a sequence of decimal digits denotes.
pub open spec fn dec_val(s: Seq<char>) -> int
    decreases s.len(),
{
    if s.len() == 0 {
        0
    } else {
        dec_val(s.drop_last()) * 10 + dec_digit_val(s.last())
    }
}

/// What parsing a string of decimal digits yields, with `0` standing in for
/// every failure: an empty string, a stray character, or a value over 32
/// bits.
pub open spec fn spec_parse_dec_or_zero(s: Seq<char>) -> u32 {
    if s.len() > 0 && all_dec(s) && dec_val(s) <= u32::MAX {
        dec_val(s) as u32
    } else {
        0
    }
}

proof fn lemma_dec_val_nonneg(s: Seq<char>)
    ensures
        dec_val(s) >= 0,
    decreases s.len(),
{
    if s.len() > 0 {
        lemma_dec_val_nonneg(s.drop_last());
    }
}

/// Parse a string of decimal digits into a 32-bit value, yielding `0` on any
/// failure.
pub fn parse_dec_or_zero(s: &str) -> (r: u32)
    ensures
        r == spec_parse_dec_or_zero(s@),
{
    let len = s.unicode_len();
    if len == 0 {
        return 0;
    }
    let mut acc: u64 = 0;
    let mut too_big = false;
    let mut i: usize = 0;
    while i < len
        invariant
            len == s@.len(),
            i <= len,
            all_dec(s@.subrange(0, i as int)),
            !too_big ==> acc == dec_val(s@.subrange(0, i as int)) && acc <= u32::MAX,
            too_big ==> dec_val(s@.subrange(0, i as int)) > u32::MAX,
        decreases len - i,
    {
        let c = s.get_char(i);
        let ghost pre = s@.subrange(0, i as int);
        let ghost cur = s@.subrange(0, i + 1 as int);
        proof {
            assert(cur.drop_last() =~= pre);
            assert(cur.last() == s@[i as int]);
        }
        let v = c as u32;
        if 48 <= v && v <= 57 {
            if too_big {
                proof {
                    lemma_dec_val_nonneg(pre);
                    assert(dec_val(cur) == dec_val(pre) * 10 + dec_digit_val(cur.last()));
                    assert(dec_val(pre) * 10 >= dec_val(pre)) by {
                        assert(dec_val(pre) * 10 - dec_val(pre) == 9 * dec_val(pre));
                        assert(9 * dec_val(pre) >= 0) by (nonlinear_arith)
                            requires
                                dec_val(pre) >= 0,
                        ;
                    }
                }
            } else {
                let next = acc * 10 + ((v - 48) as u64);
                if next > 0xFFFF_FFFF {
                    too_big = true;
                } else {
                    acc = next;
                }
            }
        } else {
            proof {
                assert(!all_dec(s@));
            }
            return 0;
        }
        i = i + 1;
    }
    proof {
        assert(s@.subrange(0, len as int) =~= s@);
    }
    if too_big {
        0
    } else {
        acc as u32
    }
}

/// The prefix of `s` that stands before the first occurrence of `ch`, or all
/// of `s` when `ch` does not occur.
pub open spec fn prefix_before(s: Seq<char>, ch: char) -> Seq<char>
    decreases s.len(),
{
    if s.len() == 0 {
        s
    } else if s.first() == ch {
        Seq::empty()
    } else {
        seq![s.first()] + prefix_before(s.drop_first(), ch)
    }
}

proof fn lemma_prefix_before_subrange(s: Seq<char>, ch: char, i: int)
    requires
        0 <= i <= s.len(),
        forall|k: int| 0 <= k < i ==> s[k] != ch,
        i == s.len() || s[i] == ch,
    ensures
        prefix_before(s, ch) == s.subrange(0, i),
    decreases i,
{
    if i == 0 {
        assert(s.subrange(0, 0) =~= Seq::<char>::empty());
        if s.len() > 0 {
            assert(s.first() == ch);
        }
    } else {
        let t = s.drop_first();
        assert(forall|k: int| 0 <= k < i - 1 ==> t[k] != ch);
        lemma_prefix_before_subrange(t, ch, i - 1);
        assert(seq![s.first()] + t.subrange(0, i - 1) =~= s.subrange(0, i));
    }
}

/// The part of `s` that stands before the first `ch`.
pub fn text_before(s: &str, ch: char) -> (r: String)
    ensures
        r@ == prefix_before(s@, ch),
{
    let len = s.unicode_len();
    let mut i: usize = 0;
    while i < len && s_ne(s.get_char(i), ch)
        invariant
            len == s@.len(),
            i <= len,
            forall|k: int| 0 <= k < i ==> s@[k] != ch,
        decreases len - i,
    {
        i = i + 1;
    }
    proof {
        lemma_prefix_before_subrange(s@, ch, i as int);
    }
    let part = s.substring_char(0, i);
    part.to_owned()
}

/// `s` with every leading `0x` marker removed, the way a repeated
/// prefix-strip leaves it.
pub open spec fn strip_hex_prefix(s: Seq<char>) -> Seq<char>
    decreases s.len(),
{
    if s.len() >= 2 && s[0] == '0' && s[1] == 'x' {
        strip_hex_prefix(s.subrange(2, s.len() as int))
    } else {
        s
    }
}

/// Remove every leading `0x` marker from `s`.
pub fn strip_hex_prefix_text(s: &str) -> (r: String)
    ensures
        r@ == strip_hex_prefix(s@),
{
    let len = s.unicode_len();
    let mut off: usize = 0;
    proof {
        assert(s@.subrange(0, len as int) =~= s@);
    }
    while len - off >= 2 && s.get_char(off) == '0' && s.get_char(off + 1) == 'x'
        invariant
            len == s@.len(),
            off <= len,
            strip_hex_prefix(s@) == strip_hex_prefix(
                s@.subrange(off as int, len as int),
            ),
        decreases len - off,
    {
        proof {
            let cur = s@.subrange(off as int, len as int);
            let nxt = s@.subrange(off + 2 as int, len as int);
            assert(cur[0] == s@[off as int] && cur[1] == s@[off + 1 as int]);
            assert(cur.subrange(2, cur.len() as int) =~= nxt);
        }
        off = off + 2;
    }
    proof {
        let cur = s@.subrange(off as int, len as int);
        if cur.len() >= 2 {
            assert(cur[0] == s@[off as int] && cur[1] == s@[off + 1 as int]);
        }
        assert(strip_hex_prefix(cur) == cur);
    }
    let part = s.substring_char(off, len);
    part.to_owned()
}

} // verus!
