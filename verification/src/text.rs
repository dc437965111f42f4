//! Text helpers: decimal rendering, UTF-8 decoding of C strings, and the
//! character classes the version parser needs.

use vstd::prelude::*;
use vstd::utf8::*;

verus! {

/// The decimal digit character for `d` (`d < 10`).
pub open spec fn digit_char(d: nat) -> char {
    seq!['0', '1', '2', '3', '4', '5', '6', '7', '8', '9'][d as int]
}

/// The shortest decimal rendering of `n`, as `Display` writes it.
pub open spec fn decimal(n: nat) -> Seq<char>
    decreases n,
{
    if n < 10 {
        seq![digit_char(n)]
    } else {
        decimal(n / 10).push(digit_char(n % 10))
    }
}

/// The decimal rendering of a signed integer, with a leading `-` when negative.
pub open spec fn signed_decimal(v: int) -> Seq<char> {
    if v < 0 {
        seq!['-'] + decimal((-v) as nat)
    } else {
        decimal(v as nat)
    }
}

/// What `String::from_utf8_lossy` makes of a byte sequence.
pub uninterp spec fn utf8_lossy(bytes: Seq<u8>) -> Seq<char>;

/// `String::push`: appends one character.
#[verifier::external_body]
pub fn push_char(s: &mut String, c: char)
    ensures
        final(s)@ == old(s)@.push(c),
{
    s.push(c);
}

/// `String::from_utf8_lossy`, made owned. The result is named by
/// `utf8_lossy`; the standard library documents that valid UTF-8 input comes
/// back unchanged, which is the second clause, and that invalid sequences are
/// replaced by U+FFFD, so a NUL character only comes from a NUL byte, which
/// is the third. Which replacement characters invalid input gets is left to
/// the name.
#[verifier::external_body]
pub fn string_from_utf8_lossy(bytes: &[u8]) -> (s: String)
    ensures
        s@ == utf8_lossy(bytes@),
        valid_utf8(bytes@) ==> s@ == decode_utf8(bytes@),
        (forall|i: int| 0 <= i < bytes@.len() ==> bytes@[i] != 0) ==> (forall|j: int|
            0 <= j < s@.len() ==> s@[j] != '\0'),
{
    String::from_utf8_lossy(bytes).into_owned()
}

fn digit(d: u64) -> (c: char)
    requires
        d < 10,
    ensures
        c == digit_char(d as nat),
{
    match d {
        0 => '0',
        1 => '1',
        2 => '2',
        3 => '3',
        4 => '4',
        5 => '5',
        6 => '6',
        7 => '7',
        8 => '8',
        _ => '9',
    }
}

/// Appends the decimal rendering of `n`.
pub fn push_decimal(s: &mut String, n: u64)
    ensures
        final(s)@ == old(s)@ + decimal(n as nat),
    decreases n,
{
    if n >= 10 {
        push_decimal(s, n / 10);
    }
    push_char(s, digit(n % 10));
    proof {
        if n < 10 {
            assert(decimal(n as nat) =~= seq![digit_char(n as nat)]);
        }
    }
    assert(s@ =~= old(s)@ + decimal(n as nat));
}

/// Appends the decimal rendering of `v`, with a `-` when negative.
pub fn push_signed_decimal(s: &mut String, v: i64)
    ensures
        final(s)@ == old(s)@ + signed_decimal(v as int),
{
    if v < 0 {
        push_char(s, '-');
        let magnitude: u64 = (-(v as i128)) as u64;
        push_decimal(s, magnitude);
        assert(s@ =~= old(s)@ + signed_decimal(v as int));
    } else {
        push_decimal(s, v as u64);
    }
}

/// `s` followed by the decimal rendering of `n`.
pub fn with_decimal(s: &str, n: u64) -> (r: String)
    ensures
        r@ == s@ + decimal(n as nat),
{
    let mut r = String::from_str(s);
    push_decimal(&mut r, n);
    r
}

/// `s` followed by the decimal rendering of `v`.
pub fn with_signed_decimal(s: &str, v: i32) -> (r: String)
    ensures
        r@ == s@ + signed_decimal(v as int),
{
    let mut r = String::from_str(s);
    push_signed_decimal(&mut r, v as i64);
    r
}

/// The characters of `s`, in order.
pub fn chars_of(s: &str) -> (v: Vec<char>)
    ensures
        v@ == s@,
{
    broadcast use vstd::string::group_string_axioms;

    let mut v: Vec<char> = Vec::new();
    for c in it: s.chars()
        invariant
            it.seq() == s@,
            v@ == it.seq().take(it.index() as int),
    {
        v.push(c);
        assert(v@ =~= it.seq().take(it.index() + 1));
    }
    assert(v@ =~= s@);
    v
}

/// `char::is_whitespace`: the Unicode `White_Space` property.
pub open spec fn is_ws(c: char) -> bool {
    let u = c as u32;
    (0x09 <= u <= 0x0d) || u == 0x20 || u == 0x85 || u == 0xa0 || u == 0x1680 || (0x2000 <= u
        <= 0x200a) || u == 0x2028 || u == 0x2029 || u == 0x202f || u == 0x205f || u == 0x3000
}

/// Whether `c` has the Unicode `White_Space` property.
pub fn is_whitespace(c: char) -> (b: bool)
    ensures
        b == is_ws(c),
{
    let u = c as u32;
    (0x09 <= u && u <= 0x0d) || u == 0x20 || u == 0x85 || u == 0xa0 || u == 0x1680 || (0x2000 <= u
        && u <= 0x200a) || u == 0x2028 || u == 0x2029 || u == 0x202f || u == 0x205f || u == 0x3000
}

/// Whether `c` is an ASCII decimal digit.
pub open spec fn is_digit(c: char) -> bool {
    '0' <= c && c <= '9'
}

/// The value of an ASCII digit.
pub open spec fn digit_value(c: char) -> int {
    (c as u32) - 48
}

/// The value of a sequence of decimal digits (0 for none).
pub open spec fn digits_value(d: Seq<char>) -> int
    decreases d.len(),
{
    if d.len() == 0 {
        0
    } else {
        digits_value(d.drop_last()) * 10 + digit_value(d.last())
    }
}

/// The digits that `u32::from_str` reads: all of `s` after one optional `+`.
pub open spec fn unsigned_digits(s: Seq<char>) -> Seq<char> {
    if s.len() > 0 && s[0] == '+' {
        s.drop_first()
    } else {
        s
    }
}

/// What `str::parse::<u32>` makes of `s`: an optional `+`, then one or more
/// ASCII digits whose value fits in a `u32`; anything else is an error.
pub open spec fn parse_u32(s: Seq<char>) -> Option<u32> {
    let d = unsigned_digits(s);
    if d.len() == 0 || !(forall|i: int| 0 <= i < d.len() ==> is_digit(#[trigger] d[i]))
        || digits_value(d) > u32::MAX {
        None
    } else {
        Some(digits_value(d) as u32)
    }
}

/// A digit string is worth at least as much as any of its prefixes.
pub proof fn lemma_digits_value_prefix(d: Seq<char>, k: int)
    requires
        0 <= k <= d.len(),
        forall|i: int| 0 <= i < d.len() ==> is_digit(#[trigger] d[i]),
    ensures
        digits_value(d) >= digits_value(d.take(k)),
        digits_value(d) >= 0,
    decreases d.len(),
{
    if d.len() == 0 {
        assert(d.take(k) =~= d);
    } else {
        let p = d.drop_last();
        assert(is_digit(d[d.len() - 1]));
        if k == d.len() {
            assert(d.take(k) =~= d);
            lemma_digits_value_prefix(p, 0);
        } else {
            lemma_digits_value_prefix(p, k);
            assert(p.take(k) =~= d.take(k));
        }
    }
}

/// Parses the characters `cs[lo..hi]` as `str::parse::<u32>` would.
pub fn parse_u32_range(cs: &Vec<char>, lo: usize, hi: usize) -> (r: Option<u32>)
    requires
        lo <= hi <= cs@.len(),
    ensures
        r == parse_u32(cs@.subrange(lo as int, hi as int)),
{
    let ghost s = cs@.subrange(lo as int, hi as int);
    let ghost d = unsigned_digits(s);
    let mut j = lo;
    if j < hi && cs[j] == '+' {
        j = j + 1;
    }
    let start = j;
    assert(d =~= cs@.subrange(start as int, hi as int));
    if j == hi {
        return None;
    }
    let mut acc: u32 = 0;
    while j < hi
        invariant
            lo <= start <= j <= hi <= cs@.len(),
            start < hi,
            d == cs@.subrange(start as int, hi as int),
            d == unsigned_digits(cs@.subrange(lo as int, hi as int)),
            forall|i: int| 0 <= i < j - start ==> is_digit(#[trigger] d[i]),
            acc as int == digits_value(d.take(j - start)),
        decreases hi - j,
    {
        let c = cs[j];
        if !('0' <= c && c <= '9') {
            assert(!is_digit(d[j - start]));
            return None;
        }
        let dv: u32 = (c as u32) - 48;
        let ghost k = j - start;
        assert(d.take(k + 1).drop_last() =~= d.take(k));
        assert(d.take(k + 1).last() == c);
        match acc.checked_mul(10) {
            None => {
                proof {
                    if forall|i: int| 0 <= i < d.len() ==> is_digit(#[trigger] d[i]) {
                        lemma_digits_value_prefix(d, k + 1);
                    }
                }
                return None;
            },
            Some(a10) => match a10.checked_add(dv) {
                None => {
                    proof {
                        if forall|i: int| 0 <= i < d.len() ==> is_digit(#[trigger] d[i]) {
                            lemma_digits_value_prefix(d, k + 1);
                        }
                    }
                    return None;
                },
                Some(next) => {
                    acc = next;
                },
            },
        }
        j = j + 1;
    }
    assert(d.take(j - start) =~= d);
    Some(acc)
}

/// The items of a byte list as `Debug` writes them: decimal values separated
/// by `", "`.
pub open spec fn byte_list_items(b: Seq<u8>) -> Seq<char>
    decreases b.len(),
{
    if b.len() == 0 {
        Seq::empty()
    } else if b.len() == 1 {
        decimal(b[0] as nat)
    } else {
        byte_list_items(b.drop_last()) + seq![',', ' '] + decimal(b.last() as nat)
    }
}

/// A byte list as `Debug` writes it, e.g. `[65, 67, 75, 0]`.
pub open spec fn byte_list(b: Seq<u8>) -> Seq<char> {
    seq!['['] + byte_list_items(b) + seq![']']
}

/// Appends the `Debug` rendering of a byte list.
pub fn push_byte_list(s: &mut String, b: &[u8])
    ensures
        final(s)@ == old(s)@ + byte_list(b@),
{
    push_char(s, '[');
    let n = b.len();
    let mut i: usize = 0;
    while i < n
        invariant
            n == b@.len(),
            i <= n,
            s@ == old(s)@ + seq!['['] + byte_list_items(b@.take(i as int)),
        decreases n - i,
    {
        let ghost before = s@;
        if i > 0 {
            push_char(s, ',');
            push_char(s, ' ');
        }
        push_decimal(s, b[i] as u64);
        i = i + 1;
        proof {
            let t = b@.take(i as int);
            assert(t.drop_last() =~= b@.take(i - 1));
            if i == 1 {
                assert(byte_list_items(b@.take(0)) =~= Seq::<char>::empty());
                assert(s@ =~= old(s)@ + seq!['['] + byte_list_items(t));
            } else {
                assert(s@ =~= old(s)@ + seq!['['] + byte_list_items(t));
            }
        }
    }
    assert(b@.take(n as int) =~= b@);
    push_char(s, ']');
    assert(s@ =~= old(s)@ + byte_list(b@));
}

/// The decimal rendering of `n` is a non-empty string of digits worth `n`,
/// which `str::parse::<u32>` reads back as `n`.
pub proof fn lemma_decimal_parses(n: u32)
    ensures
        decimal(n as nat).len() >= 1,
        forall|i: int| 0 <= i < decimal(n as nat).len() ==> is_digit(#[trigger] decimal(n as nat)[i]),
        digits_value(decimal(n as nat)) == n,
        parse_u32(decimal(n as nat)) == Some(n),
{
    lemma_decimal_digits(n as nat);
    assert(unsigned_digits(decimal(n as nat)) == decimal(n as nat)) by {
        assert(is_digit(decimal(n as nat)[0]));
    }
}

/// The decimal rendering of `n` is a non-empty string of digits worth `n`.
pub proof fn lemma_decimal_digits(n: nat)
    ensures
        decimal(n).len() >= 1,
        forall|i: int| 0 <= i < decimal(n).len() ==> is_digit(#[trigger] decimal(n)[i]),
        digits_value(decimal(n)) == n,
    decreases n,
{
    assert('0' as u32 == 48 && '1' as u32 == 49 && '2' as u32 == 50 && '3' as u32 == 51 && '4' as u32
        == 52 && '5' as u32 == 53 && '6' as u32 == 54 && '7' as u32 == 55 && '8' as u32 == 56
        && '9' as u32 == 57);
    let d = n % 10;
    assert(is_digit(digit_char(d)) && digit_value(digit_char(d)) == d) by {
        assert(0 <= d < 10);
        if d == 0 {
        } else if d == 1 {
        } else if d == 2 {
        } else if d == 3 {
        } else if d == 4 {
        } else if d == 5 {
        } else if d == 6 {
        } else if d == 7 {
        } else if d == 8 {
        } else {
        }
    }
    if n < 10 {
        let s = decimal(n);
        assert(s =~= seq![digit_char(n)]);
        assert(s.drop_last() =~= Seq::<char>::empty());
        assert(d == n);
        assert(s.last() == digit_char(n));
        assert(digits_value(s.drop_last()) == 0);
        assert(digits_value(s) == digits_value(s.drop_last()) * 10 + digit_value(s.last()));
    } else {
        lemma_decimal_digits(n / 10);
        let p = decimal(n / 10);
        let s = decimal(n);
        assert(s == p.push(digit_char(d)));
        assert(s.drop_last() =~= p);
        assert((n / 10) * 10 + n % 10 == n) by (nonlinear_arith);
        assert(s.last() == digit_char(d));
        assert(digits_value(s) == digits_value(s.drop_last()) * 10 + digit_value(s.last()));
        assert forall|i: int| 0 <= i < s.len() implies is_digit(#[trigger] s[i]) by {
            if i < p.len() {
                assert(s[i] == p[i]);
            }
        }
    }
}

} // verus!
