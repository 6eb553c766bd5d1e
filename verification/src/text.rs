//! Text helpers over `Seq<char>` models.

use vstd::prelude::*;
use vstd::string::*;

verus! {

/// The characters of a text, in order.
pub fn chars_of(s: &str) -> (v: Vec<char>)
    ensures
        v@ == s@,
{
    let mut v: Vec<char> = Vec::new();
    for c in it: s.chars()
        invariant
            v@ == it.seq().take(it.index() as int),
            it.seq() == s@,
    {
        v.push(c);
    }
    v
}

/// The texts of a list, in order.
pub open spec fn texts_view(texts: Seq<String>) -> Seq<Seq<char>> {
    Seq::new(texts.len(), |i: int| texts[i]@)
}

/// The text of an optional field; empty where the field is absent.
pub open spec fn text_or_empty(field: Option<String>) -> Seq<char> {
    match field {
        Some(s) => s@,
        None => Seq::empty(),
    }
}

/// A copy of an optional field's text: see [`text_or_empty`].
pub fn owned_or_empty(field: &Option<String>) -> (r: String)
    ensures
        r@ == text_or_empty(*field),
{
    match field {
        Some(s) => s.clone(),
        None => String::new(),
    }
}

/// Whether two texts hold the same characters.
pub fn text_eq(a: &str, b: &str) -> (r: bool)
    ensures
        r == (a@ == b@),
{
    let x = String::from_str(a);
    let y = String::from_str(b);
    x == y
}

pub open spec fn is_digit(c: char) -> bool {
    '0' <= c && c <= '9'
}

pub open spec fn all_digits(s: Seq<char>) -> bool {
    forall|i: int| 0 <= i < s.len() ==> is_digit(#[trigger] s[i])
}

/// The number that a run of decimal digits writes, most significant first.
pub open spec fn digits_value(s: Seq<char>) -> int
    decreases s.len(),
{
    if s.len() == 0 {
        0
    } else {
        digits_value(s.drop_last()) * 10 + (s.last() as int - '0' as int)
    }
}

/// The digits of a signed decimal text: what follows an optional sign.
pub open spec fn unsigned_part(s: Seq<char>) -> Seq<char> {
    if s.len() > 0 && (s[0] == '+' || s[0] == '-') {
        s.skip(1)
    } else {
        s
    }
}

/// The integer that a text writes: an optional `+` or `-`, then one or more
/// decimal digits and nothing else. Any other text writes none.
pub open spec fn int_of_text(s: Seq<char>) -> Option<int> {
    let digits = unsigned_part(s);
    if digits.len() > 0 && all_digits(digits) {
        if s[0] == '-' {
            Some(-digits_value(digits))
        } else {
            Some(digits_value(digits))
        }
    } else {
        None
    }
}

pub open spec fn i64_of_text(s: Seq<char>) -> Option<i64> {
    match int_of_text(s) {
        Some(v) => if i64::MIN <= v <= i64::MAX {
            Some(v as i64)
        } else {
            None
        },
        None => None,
    }
}

pub open spec fn i32_of_text(s: Seq<char>) -> Option<i32> {
    match int_of_text(s) {
        Some(v) => if i32::MIN <= v <= i32::MAX {
            Some(v as i32)
        } else {
            None
        },
        None => None,
    }
}

proof fn lemma_digits_grow(s: Seq<char>, k: int)
    requires
        all_digits(s),
        0 <= k <= s.len(),
    ensures
        0 <= digits_value(s.take(k)) <= digits_value(s),
    decreases s.len() - k,
{
    if k == s.len() {
        assert(s.take(k) == s);
        lemma_digits_nonneg(s);
    } else {
        lemma_digits_grow(s, k + 1);
        let longer = s.take(k + 1);
        assert(longer.drop_last() == s.take(k));
        assert(is_digit(s[k]));
        assert(longer.last() == s[k]);
        lemma_digits_nonneg(s.take(k));
    }
}

proof fn lemma_digits_nonneg(s: Seq<char>)
    requires
        all_digits(s),
    ensures
        digits_value(s) >= 0,
    decreases s.len(),
{
    if s.len() > 0 {
        assert(is_digit(s[s.len() - 1]));
        lemma_digits_nonneg(s.drop_last());
    }
}

/// Reads a signed decimal integer, as `str::parse::<i64>` does.
pub fn parse_i64(s: &str) -> (r: Option<i64>)
    ensures
        r == i64_of_text(s@),
{
    let chars = chars_of(s);
    let n = chars.len();
    if n == 0 {
        return None;
    }
    let negative = chars[0] == '-';
    let start: usize = if chars[0] == '+' || chars[0] == '-' {
        1
    } else {
        0
    };
    if start == n {
        return None;
    }
    let ghost digits = unsigned_part(s@);
    assert(digits == s@.skip(start as int));
    // The magnitude may reach 2^63 for a negative number.
    let limit: u128 = if negative {
        9223372036854775808
    } else {
        9223372036854775807
    };
    let mut acc: u128 = 0;
    let mut i: usize = start;
    while i < n
        invariant
            start <= i <= n,
            n == chars@.len(),
            chars@ == s@,
            s@.len() > 0,
            digits == unsigned_part(s@),
            digits.len() == n - start,
            negative == (s@[0] == '-'),
            limit == if negative { 9223372036854775808u128 } else { 9223372036854775807u128 },
            all_digits(digits.take(i - start)),
            acc == digits_value(digits.take(i - start)),
            acc <= limit,
        decreases n - i,
    {
        let c = chars[i];
        if !('0' <= c && c <= '9') {
            assert(!is_digit(digits[i - start]));
            return None;
        }
        let d: u128 = ((c as u32) - ('0' as u32)) as u128;
        let next: u128 = acc * 10 + d;
        proof {
            let longer = digits.take(i - start + 1);
            assert(longer.drop_last() == digits.take(i - start));
            assert(longer.last() == c);
            assert(all_digits(longer)) by {
                assert forall|j: int| 0 <= j < longer.len() implies is_digit(
                    #[trigger] longer[j],
                ) by {
                    if j < i - start {
                        assert(longer[j] == digits.take(i - start)[j]);
                    }
                }
            }
            assert(next == digits_value(longer));
        }
        if next > limit {
            proof {
                // Once over the limit, further digits only grow the value;
                // a non-digit later on fails the text as well.
                if all_digits(digits) {
                    lemma_digits_grow(digits, i - start + 1);
                }
            }
            return None;
        }
        acc = next;
        i = i + 1;
    }
    assert(digits.take(n - start) == digits);
    if negative {
        if acc == 9223372036854775808 {
            Some(i64::MIN)
        } else {
            Some(-(acc as i64))
        }
    } else {
        Some(acc as i64)
    }
}

/// Reads a signed decimal integer, as `str::parse::<i32>` does.
pub fn parse_i32(s: &str) -> (r: Option<i32>)
    ensures
        r == i32_of_text(s@),
{
    match parse_i64(s) {
        Some(v) => {
            if -2147483648 <= v && v <= 2147483647 {
                Some(v as i32)
            } else {
                None
            }
        },
        // A text that writes no 64-bit integer writes no 32-bit integer.
        None => None,
    }
}

/// The place of the last `c` in `s`, or -1 where `s` holds none.
pub open spec fn last_index_of(s: Seq<char>, c: char) -> int
    decreases s.len(),
{
    if s.len() == 0 {
        -1
    } else if s.last() == c {
        s.len() - 1
    } else {
        last_index_of(s.drop_last(), c)
    }
}

/// What follows the last `c` in `s`; all of `s` where it holds no `c`.
pub open spec fn after_last(s: Seq<char>, c: char) -> Seq<char> {
    s.skip(last_index_of(s, c) + 1)
}

pub proof fn lemma_last_index_of(s: Seq<char>, c: char)
    ensures
        -1 <= last_index_of(s, c) < s.len(),
        last_index_of(s, c) >= 0 ==> s[last_index_of(s, c)] == c,
        forall|i: int| last_index_of(s, c) < i < s.len() ==> s[i] != c,
        last_index_of(s, c) >= 0 <==> s.contains(c),
    decreases s.len(),
{
    if s.len() > 0 {
        lemma_last_index_of(s.drop_last(), c);
        if s.last() == c {
            assert(s[s.len() - 1] == c);
        } else {
            let shorter = s.drop_last();
            assert forall|i: int| last_index_of(s, c) < i < s.len() implies s[i] != c by {
                if i < s.len() - 1 {
                    assert(shorter[i] == s[i]);
                }
            }
            if shorter.contains(c) {
                let k = choose|k: int| 0 <= k < shorter.len() && shorter[k] == c;
                assert(s[k] == c);
            }
            if s.contains(c) {
                let k = choose|k: int| 0 <= k < s.len() && s[k] == c;
                assert(shorter[k] == c);
            }
        }
    }
}

/// A text that ends in `c`, followed by a tail free of `c`, has that tail
/// after its last `c`.
pub proof fn lemma_after_last_of_join(head: Seq<char>, c: char, tail: Seq<char>)
    requires
        !tail.contains(c),
    ensures
        after_last(head.push(c) + tail, c) == tail,
{
    let s = head.push(c) + tail;
    lemma_last_index_of(s, c);
    let k = last_index_of(s, c);
    assert(s[head.len() as int] == c);
    if k > head.len() {
        assert(tail[k - head.len() - 1] == s[k]);
        assert(tail.contains(c));
    }
    assert(k == head.len());
    assert(s.skip(k + 1) =~= tail);
}

/// Whether `c` occurs in `s`.
pub fn contains_char(s: &str, c: char) -> (r: bool)
    ensures
        r == s@.contains(c),
{
    let chars = chars_of(s);
    let mut i: usize = 0;
    while i < chars.len()
        invariant
            i <= chars@.len(),
            chars@ == s@,
            forall|j: int| 0 <= j < i ==> s@[j] != c,
        decreases chars.len() - i,
    {
        if chars[i] == c {
            return true;
        }
        i = i + 1;
    }
    false
}

/// The part of `s` after its last `c`: see [`after_last`].
pub fn tail_after_last(s: &str, c: char) -> (r: String)
    ensures
        r@ == after_last(s@, c),
{
    let chars = chars_of(s);
    let n = chars.len();
    let mut i: usize = n;
    while i > 0 && chars[i - 1] != c
        invariant
            i <= n,
            n == chars@.len(),
            chars@ == s@,
            forall|j: int| i <= j < n ==> s@[j] != c,
        decreases i,
    {
        i = i - 1;
    }
    proof {
        lemma_last_index_of(s@, c);
        let k = last_index_of(s@, c);
        if i > 0 {
            assert(s@[i - 1] == c);
            assert(k == i - 1);
        } else {
            assert(k == -1);
        }
        assert(s@.skip(i as int) == s@.subrange(i as int, n as int));
    }
    String::from_str(s.substring_char(i, n))
}

/// Whether `needle` occurs in `hay` as a run of adjacent characters.
pub open spec fn has_infix(hay: Seq<char>, needle: Seq<char>) -> bool {
    exists|i: int|
        0 <= i && i + needle.len() <= hay.len() && #[trigger] hay.subrange(
            i,
            i + needle.len(),
        ) == needle
}

fn matches_at(hay: &Vec<char>, needle: &Vec<char>, at: usize) -> (r: bool)
    requires
        at + needle@.len() <= hay@.len(),
    ensures
        r == (hay@.subrange(at as int, at + needle@.len()) == needle@),
{
    let m = needle.len();
    let mut j: usize = 0;
    while j < m
        invariant
            j <= m,
            m == needle@.len(),
            at + m <= hay.len(),
            forall|k: int| 0 <= k < j ==> hay@[at + k] == needle@[k],
        decreases m - j,
    {
        if hay[at + j] != needle[j] {
            assert(hay@.subrange(at as int, at + m)[j as int] != needle@[j as int]);
            return false;
        }
        j = j + 1;
    }
    assert(hay@.subrange(at as int, at + m) =~= needle@);
    true
}

/// Whether `needle` occurs in `hay`: see [`has_infix`].
pub fn contains_text(hay: &str, needle: &str) -> (r: bool)
    ensures
        r == has_infix(hay@, needle@),
{
    let h = chars_of(hay);
    let p = chars_of(needle);
    if p.len() > h.len() {
        return false;
    }
    let last: usize = h.len() - p.len();
    let mut i: usize = 0;
    loop
        invariant
            i <= last,
            last == h@.len() - p@.len(),
            h@ == hay@,
            p@ == needle@,
            forall|k: int| 0 <= k < i ==> #[trigger] hay@.subrange(k, k + needle@.len()) != needle@,
        decreases last - i,
    {
        if matches_at(&h, &p, i) {
            return true;
        }
        if i == last {
            return false;
        }
        i = i + 1;
    }
}

/// `a` followed by `b`.
pub fn joined(a: &str, b: &str) -> (r: String)
    ensures
        r@ == a@ + b@,
{
    let mut r = String::from_str(a);
    r.append(b);
    r
}

/// Whether a character is white space: the characters with the Unicode
/// property `White_Space`.
pub open spec fn is_white_space(c: char) -> bool {
    ||| '\u{9}' <= c && c <= '\u{D}'
    ||| c == ' '
    ||| c == '\u{85}'
    ||| c == '\u{A0}'
    ||| c == '\u{1680}'
    ||| '\u{2000}' <= c && c <= '\u{200A}'
    ||| c == '\u{2028}'
    ||| c == '\u{2029}'
    ||| c == '\u{202F}'
    ||| c == '\u{205F}'
    ||| c == '\u{3000}'
}

/// Where the text starts once the white space from place `k` on is
/// skipped.
pub open spec fn kept_from(s: Seq<char>, k: int) -> int
    decreases s.len() - k,
{
    if 0 <= k < s.len() && is_white_space(s[k]) {
        kept_from(s, k + 1)
    } else {
        k
    }
}

/// Where the text ends once the white space before place `k` is dropped.
pub open spec fn kept_until(s: Seq<char>, k: int) -> int
    decreases k,
{
    if 0 < k <= s.len() && is_white_space(s[k - 1]) {
        kept_until(s, k - 1)
    } else {
        k
    }
}

/// A text without its leading and trailing white space, as `str::trim`
/// gives it.
pub open spec fn trimmed(s: Seq<char>) -> Seq<char> {
    let from = kept_from(s, 0);
    let until = kept_until(s, s.len() as int);
    if from < until {
        s.subrange(from, until)
    } else {
        Seq::empty()
    }
}

/// What trimming means: the text is white space up to `kept_from(s, 0)`,
/// then the trimmed text, then white space, and the trimmed text neither
/// begins nor ends with white space.
pub proof fn law_trim_strips_both_ends(s: Seq<char>)
    ensures
        trimmed(s).len() > 0 ==> !is_white_space(trimmed(s)[0]) && !is_white_space(
            trimmed(s).last(),
        ),
        0 <= kept_from(s, 0) && kept_from(s, 0) + trimmed(s).len() <= s.len(),
        s.subrange(kept_from(s, 0), kept_from(s, 0) + trimmed(s).len()) == trimmed(s),
        forall|i: int| 0 <= i < kept_from(s, 0) ==> is_white_space(#[trigger] s[i]),
        forall|i: int|
            kept_from(s, 0) + trimmed(s).len() <= i < s.len() ==> is_white_space(#[trigger] s[i]),
{
    let from = kept_from(s, 0);
    let until = kept_until(s, s.len() as int);
    lemma_kept_from(s, 0);
    lemma_kept_until(s, s.len() as int);
    if from < until {
        assert(s.subrange(from, from + trimmed(s).len()) == trimmed(s));
    } else {
        // Nothing is kept: every character is white space.
        if from < s.len() {
            assert(!is_white_space(s[from]));
            assert(until <= from);
        }
        assert(from == s.len());
        assert(s.subrange(from, from + 0) =~= Seq::<char>::empty());
    }
}

proof fn lemma_kept_from(s: Seq<char>, k: int)
    requires
        0 <= k <= s.len(),
    ensures
        k <= kept_from(s, k) <= s.len(),
        forall|i: int| k <= i < kept_from(s, k) ==> is_white_space(#[trigger] s[i]),
        kept_from(s, k) < s.len() ==> !is_white_space(s[kept_from(s, k)]),
    decreases s.len() - k,
{
    if k < s.len() && is_white_space(s[k]) {
        lemma_kept_from(s, k + 1);
    }
}

proof fn lemma_kept_until(s: Seq<char>, k: int)
    requires
        0 <= k <= s.len(),
    ensures
        0 <= kept_until(s, k) <= k,
        forall|i: int| kept_until(s, k) <= i < k ==> is_white_space(#[trigger] s[i]),
        kept_until(s, k) > 0 ==> !is_white_space(s[kept_until(s, k) - 1]),
    decreases k,
{
    if 0 < k && is_white_space(s[k - 1]) {
        lemma_kept_until(s, k - 1);
    }
}

/// Whether a character is white space: see [`is_white_space`].
pub fn is_space(c: char) -> (r: bool)
    ensures
        r == is_white_space(c),
{
    ('\u{9}' <= c && c <= '\u{D}') || c == ' ' || c == '\u{85}' || c == '\u{A0}' || c
        == '\u{1680}' || ('\u{2000}' <= c && c <= '\u{200A}') || c == '\u{2028}' || c
        == '\u{2029}' || c == '\u{202F}' || c == '\u{205F}' || c == '\u{3000}'
}

/// A text without its leading and trailing white space: see [`trimmed`].
pub fn trim(s: &str) -> (r: String)
    ensures
        r@ == trimmed(s@),
{
    let chars = chars_of(s);
    let n = chars.len();
    let mut from: usize = 0;
    while from < n && is_space(chars[from])
        invariant
            from <= n,
            n == chars@.len(),
            chars@ == s@,
            kept_from(s@, 0) == kept_from(s@, from as int),
        decreases n - from,
    {
        from = from + 1;
    }
    let mut until: usize = n;
    while until > 0 && is_space(chars[until - 1])
        invariant
            until <= n,
            n == chars@.len(),
            chars@ == s@,
            kept_until(s@, n as int) == kept_until(s@, until as int),
        decreases until,
    {
        until = until - 1;
    }
    if from < until {
        String::from_str(s.substring_char(from, until))
    } else {
        String::new()
    }
}

/// The result of `str::to_uppercase` on a text.
pub uninterp spec fn uppercased(s: Seq<char>) -> Seq<char>;

/// The result of `str::to_lowercase` on a text.
pub uninterp spec fn lowercased(s: Seq<char>) -> Seq<char>;

/// Calls `str::to_uppercase`, the Unicode upper-case mapping of the whole
/// text. The contract only names the result.
#[verifier::external_body]
pub(crate) fn to_uppercase(s: &str) -> (r: String)
    ensures
        r@ == uppercased(s@),
{
    s.to_uppercase()
}

/// Calls `str::to_lowercase`, the Unicode lower-case mapping of the whole
/// text. The contract only names the result.
#[verifier::external_body]
pub(crate) fn to_lowercase(s: &str) -> (r: String)
    ensures
        r@ == lowercased(s@),
{
    s.to_lowercase()
}

} // verus!
