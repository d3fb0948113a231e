//! The lexical forms that the lowering reads out of token text: quoted
//! strings, language tags and non-negative integers.

use vstd::prelude::*;

verus! {

/// Builds a string out of characters, as `String::from_iter` does: the
/// result holds exactly the given characters, in order.
#[verifier::external_body]
pub(crate) fn string_of(chars: &Vec<char>) -> (r: String)
    ensures
        r@ == chars@,
{
    String::from_iter(chars.iter())
}

/// The characters of `s`, in order.
pub fn to_chars(s: &str) -> (r: Vec<char>)
    ensures
        r@ == s@,
{
    let mut out: Vec<char> = Vec::new();
    for c in it: s.chars()
        invariant
            it.seq() == s@,
            out@ == s@.take(it.index() as int),
    {
        out.push(c);
        assert(s@.take(it.index() + 1) =~= s@.take(it.index() as int).push(c));
    }
    assert(s@.take(s@.len() as int) =~= s@);
    out
}

/// Whether the two strings hold the same characters.
pub fn str_eq(a: &str, b: &str) -> (r: bool)
    ensures
        r == (a@ == b@),
{
    let x = a.as_bytes();
    let y = b.as_bytes();
    proof {
        vstd::utf8::encode_utf8_decode_utf8(a@);
        vstd::utf8::encode_utf8_decode_utf8(b@);
    }
    if x.len() != y.len() {
        return false;
    }
    let mut i: usize = 0;
    while i < x.len()
        invariant
            0 <= i <= x.len(),
            x@.len() == y@.len(),
            x@ == vstd::utf8::encode_utf8(a@),
            y@ == vstd::utf8::encode_utf8(b@),
            forall|j: int| 0 <= j < i ==> x@[j] == y@[j],
        decreases x.len() - i,
    {
        if x[i] != y[i] {
            assert(x@[i as int] != y@[i as int]);
            return false;
        }
        i += 1;
    }
    assert(x@ =~= y@);
    true
}

/// `s` with every occurrence of the pair `a b` replaced by `to`, scanning from
/// the left and never looking again at what a replacement consumed.
pub open spec fn replace_pair(s: Seq<char>, a: char, b: char, to: char) -> Seq<char>
    decreases s.len(),
{
    if s.len() == 0 {
        s
    } else if s.len() >= 2 && s[0] == a && s[1] == b {
        seq![to] + replace_pair(s.skip(2), a, b, to)
    } else {
        seq![s[0]] + replace_pair(s.skip(1), a, b, to)
    }
}

/// The payload of a quoted string with its two escape sequences resolved:
/// first every `\\` becomes `\`, then every `\"` becomes `"`. Any other
/// backslash stays as it is.
pub open spec fn unescaped(s: Seq<char>) -> Seq<char> {
    replace_pair(replace_pair(s, '\\', '\\', '\\'), '\\', '"', '"')
}

/// What a quoted-string token stands for: the text between its first and last
/// character, unescaped. A token of fewer than two characters has no payload.
pub open spec fn quoted_payload(token: Seq<char>) -> Option<Seq<char>> {
    if token.len() >= 2 {
        Some(unescaped(token.subrange(1, token.len() - 1)))
    } else {
        None
    }
}

/// Whether `c` has the Unicode property `White_Space`.
pub open spec fn is_space(c: char) -> bool {
    let n = c as u32;
    ||| 0x09 <= n <= 0x0D
    ||| n == 0x20
    ||| n == 0x85
    ||| n == 0xA0
    ||| n == 0x1680
    ||| 0x2000 <= n <= 0x200A
    ||| n == 0x2028
    ||| n == 0x2029
    ||| n == 0x202F
    ||| n == 0x205F
    ||| n == 0x3000
}

/// `s` without its leading white space.
pub open spec fn trim_start(s: Seq<char>) -> Seq<char>
    decreases s.len(),
{
    if s.len() > 0 && is_space(s[0]) {
        trim_start(s.skip(1))
    } else {
        s
    }
}

/// `s` without its trailing white space.
pub open spec fn trim_end(s: Seq<char>) -> Seq<char>
    decreases s.len(),
{
    if s.len() > 0 && is_space(s.last()) {
        trim_end(s.drop_last())
    } else {
        s
    }
}

/// `s` without the white space around it.
pub open spec fn trimmed(s: Seq<char>) -> Seq<char> {
    trim_end(trim_start(s))
}

/// What a language-tag token stands for: the text after its first character
/// (the `@`), trimmed. An empty token stands for nothing.
pub open spec fn language_of(token: Seq<char>) -> Option<Seq<char>> {
    if token.len() >= 1 {
        Some(trimmed(token.skip(1)))
    } else {
        None
    }
}

/// Whether `c` is one of the ten decimal digits.
pub open spec fn is_digit(c: char) -> bool {
    '0' <= c <= '9'
}

/// The number that a sequence of decimal digits writes.
pub open spec fn digits_value(s: Seq<char>) -> nat
    decreases s.len(),
{
    if s.len() == 0 {
        0
    } else {
        digits_value(s.drop_last()) * 10 + ((s.last() as u32 - '0' as u32) as nat)
    }
}

/// What a non-negative-integer token stands for: the value of its digits,
/// provided that there is at least one character, that all of them are
/// digits, and that the value fits in 32 bits.
pub open spec fn decimal_of(token: Seq<char>) -> Option<u32> {
    if token.len() > 0 && (forall|i: int| 0 <= i < token.len() ==> is_digit(#[trigger] token[i]))
        && digits_value(token) <= u32::MAX {
        Some(digits_value(token) as u32)
    } else {
        None
    }
}

/// The value of a prefix of a digit sequence never exceeds that of the whole.
pub proof fn lemma_digits_value_grows(s: Seq<char>, k: int)
    requires
        0 <= k <= s.len(),
        forall|i: int| 0 <= i < s.len() ==> is_digit(#[trigger] s[i]),
    ensures
        digits_value(s.take(k)) <= digits_value(s),
    decreases s.len() - k,
{
    if k == s.len() {
        assert(s.take(k) =~= s);
    } else {
        lemma_digits_value_grows(s, k + 1);
        assert(s.take(k + 1).drop_last() =~= s.take(k));
        assert(is_digit(s[k]));
        assert(s.take(k + 1).last() == s[k]);
    }
}

/// Replaces every `a b` in `v` by `to`.
pub fn replace_pair_in(v: &Vec<char>, a: char, b: char, to: char) -> (r: Vec<char>)
    ensures
        r@ == replace_pair(v@, a, b, to),
{
    let mut out: Vec<char> = Vec::new();
    let mut i: usize = 0;
    proof {
        assert(v@.skip(0) =~= v@);
        assert(out@ + replace_pair(v@, a, b, to) =~= replace_pair(v@, a, b, to));
    }
    while i < v.len()
        invariant
            0 <= i <= v.len(),
            out@ + replace_pair(v@.skip(i as int), a, b, to) == replace_pair(v@, a, b, to),
        decreases v.len() - i,
    {
        let ghost rest = v@.skip(i as int);
        if i + 1 < v.len() && v[i] == a && v[i + 1] == b {
            proof {
                assert(rest.skip(2) =~= v@.skip(i + 2));
                assert(out@.push(to) + replace_pair(v@.skip(i + 2), a, b, to) =~= out@ + (seq![to]
                    + replace_pair(rest.skip(2), a, b, to)));
            }
            out.push(to);
            i += 2;
        } else {
            proof {
                assert(rest.skip(1) =~= v@.skip(i + 1));
                assert(out@.push(v@[i as int]) + replace_pair(v@.skip(i + 1), a, b, to) =~= out@ + (
                seq![rest[0]] + replace_pair(rest.skip(1), a, b, to)));
            }
            out.push(v[i]);
            i += 1;
        }
    }
    assert(out@ + replace_pair(v@.skip(i as int), a, b, to) =~= out@);
    out
}

/// Reads a quoted-string token.
pub fn read_quoted(token: &str) -> (r: Option<String>)
    ensures
        match r {
            Some(s) => quoted_payload(token@) == Some(s@),
            None => quoted_payload(token@) is None,
        },
{
    let chars = to_chars(token);
    if chars.len() < 2 {
        return None;
    }
    let mut inner: Vec<char> = Vec::new();
    let mut i: usize = 1;
    while i < chars.len() - 1
        invariant
            chars.len() >= 2,
            1 <= i <= chars.len() - 1,
            inner@ == chars@.subrange(1, i as int),
        decreases chars.len() - i,
    {
        inner.push(chars[i]);
        assert(chars@.subrange(1, i + 1) =~= chars@.subrange(1, i as int).push(chars@[i as int]));
        i += 1;
    }
    let once = replace_pair_in(&inner, '\\', '\\', '\\');
    let twice = replace_pair_in(&once, '\\', '"', '"');
    Some(string_of(&twice))
}

/// Whether `c` is white space.
pub fn char_is_space(c: char) -> (r: bool)
    ensures
        r == is_space(c),
{
    let n: u32 = c as u32;
    (0x09 <= n && n <= 0x0D) || n == 0x20 || n == 0x85 || n == 0xA0 || n == 0x1680 || (0x2000 <= n
        && n <= 0x200A) || n == 0x2028 || n == 0x2029 || n == 0x202F || n == 0x205F || n == 0x3000
}

/// Reads a language-tag token.
pub fn read_language(token: &str) -> (r: Option<String>)
    ensures
        match r {
            Some(s) => language_of(token@) == Some(s@),
            None => language_of(token@) is None,
        },
{
    let chars = to_chars(token);
    if chars.len() < 1 {
        return None;
    }
    let mut lo: usize = 1;
    while lo < chars.len() && char_is_space(chars[lo])
        invariant
            1 <= lo <= chars.len(),
            trim_start(chars@.skip(1)) == trim_start(chars@.skip(lo as int)),
        decreases chars.len() - lo,
    {
        assert(chars@.skip(lo as int).skip(1) =~= chars@.skip(lo + 1));
        lo += 1;
    }
    let mut hi: usize = chars.len();
    proof {
        assert(chars@.skip(lo as int) =~= chars@.subrange(lo as int, hi as int));
        assert(trim_start(chars@.skip(lo as int)) == chars@.skip(lo as int));
    }
    while hi > lo && char_is_space(chars[hi - 1])
        invariant
            lo <= hi <= chars.len(),
            trimmed(chars@.skip(1)) == trim_end(chars@.subrange(lo as int, hi as int)),
        decreases hi,
    {
        assert(chars@.subrange(lo as int, hi as int).drop_last() =~= chars@.subrange(
            lo as int,
            hi - 1,
        ));
        hi -= 1;
    }
    let mut out: Vec<char> = Vec::new();
    let mut i: usize = lo;
    while i < hi
        invariant
            lo <= i <= hi <= chars.len(),
            out@ == chars@.subrange(lo as int, i as int),
        decreases hi - i,
    {
        out.push(chars[i]);
        assert(chars@.subrange(lo as int, i + 1) =~= chars@.subrange(lo as int, i as int).push(
            chars@[i as int],
        ));
        i += 1;
    }
    Some(string_of(&out))
}

/// Reads a non-negative-integer token.
pub fn read_decimal(token: &str) -> (r: Option<u32>)
    ensures
        r == decimal_of(token@),
{
    let chars = to_chars(token);
    if chars.len() == 0 {
        return None;
    }
    let mut acc: u64 = 0;
    let mut i: usize = 0;
    while i < chars.len()
        invariant
            0 <= i <= chars.len(),
            chars@ == token@,
            forall|j: int| 0 <= j < i ==> is_digit(#[trigger] chars@[j]),
            acc == digits_value(chars@.take(i as int)),
            acc <= u32::MAX,
        decreases chars.len() - i,
    {
        let c = chars[i];
        if !('0' <= c && c <= '9') {
            return None;
        }
        let d: u64 = (c as u32 - '0' as u32) as u64;
        let next: u64 = acc * 10 + d;
        proof {
            assert(chars@.take(i + 1).drop_last() =~= chars@.take(i as int));
            assert(chars@.take(i + 1).last() == c);
            assert(next == digits_value(chars@.take(i + 1)));
        }
        if next > 0xFFFF_FFFF {
            proof {
                if forall|j: int| 0 <= j < chars@.len() ==> is_digit(#[trigger] chars@[j]) {
                    lemma_digits_value_grows(chars@, i + 1);
                }
            }
            return None;
        }
        acc = next;
        i += 1;
    }
    assert(chars@.take(chars@.len() as int) =~= chars@);
    Some(acc as u32)
}

} // verus!
