//! Decimal numbers in text: reading integers and booleans out of form
//! fields and writing integers back as text.
//!
//! The readers accept exactly what `str::parse` accepts for the same type:
//! an optional sign (`+` for every type, `-` for signed types only) followed
//! by at least one ASCII digit, with a value that fits the type.

use vstd::prelude::*;
use crate::text::chars_of;

verus! {

pub open spec fn is_digit(c: char) -> bool {
    '0' <= c && c <= '9'
}

pub open spec fn digit_value(c: char) -> int {
    (c as int) - ('0' as int)
}

pub open spec fn all_digits(s: Seq<char>) -> bool {
    forall|i: int| 0 <= i < s.len() ==> is_digit(#[trigger] s[i])
}

/// The value of a string of decimal digits, most significant first.
pub open spec fn digits_value(s: Seq<char>) -> int
    decreases s.len(),
{
    if s.len() == 0 {
        0
    } else {
        10 * digits_value(s.drop_last()) + digit_value(s.last())
    }
}

/// Whether `s` is a non-empty run of decimal digits.
pub open spec fn is_numeral(s: Seq<char>) -> bool {
    s.len() > 0 && all_digits(s)
}

/// The value of `s` read as a signed decimal integer, when it has that form.
pub open spec fn signed_decimal(s: Seq<char>) -> Option<int> {
    if s.len() > 0 && s[0] == '-' {
        if is_numeral(s.skip(1)) { Some(-digits_value(s.skip(1))) } else { None }
    } else if s.len() > 0 && s[0] == '+' {
        if is_numeral(s.skip(1)) { Some(digits_value(s.skip(1))) } else { None }
    } else if is_numeral(s) {
        Some(digits_value(s))
    } else {
        None
    }
}

/// The value of `s` read as an unsigned decimal integer, when it has that form.
pub open spec fn unsigned_decimal(s: Seq<char>) -> Option<int> {
    if s.len() > 0 && s[0] == '+' {
        if is_numeral(s.skip(1)) { Some(digits_value(s.skip(1))) } else { None }
    } else if is_numeral(s) {
        Some(digits_value(s))
    } else {
        None
    }
}

/// What `s.parse::<i32>()` gives, as an option.
pub open spec fn parse_i32_spec(s: Seq<char>) -> Option<i32> {
    match signed_decimal(s) {
        Some(v) => if i32::MIN <= v <= i32::MAX { Some(v as i32) } else { None },
        None => None,
    }
}

/// What `s.parse::<u32>()` gives, as an option.
pub open spec fn parse_u32_spec(s: Seq<char>) -> Option<u32> {
    match unsigned_decimal(s) {
        Some(v) => if 0 <= v <= u32::MAX { Some(v as u32) } else { None },
        None => None,
    }
}

/// What `s.parse::<bool>()` gives, as an option.
pub open spec fn parse_bool_spec(s: Seq<char>) -> Option<bool> {
    if s == seq!['t', 'r', 'u', 'e'] {
        Some(true)
    } else if s == seq!['f', 'a', 'l', 's', 'e'] {
        Some(false)
    } else {
        None
    }
}

/// The character of a digit value below ten.
pub open spec fn digit_char(d: int) -> char {
    (('0' as int) + d) as char
}

/// The decimal digits of `n`, without leading zeros (`0` is written `0`).
pub open spec fn decimal_digits(n: nat) -> Seq<char>
    decreases n,
{
    if n < 10 {
        seq![digit_char(n as int)]
    } else {
        decimal_digits(n / 10).push(digit_char((n % 10) as int))
    }
}

/// The text that `to_string` gives for a signed integer.
pub open spec fn signed_text(n: int) -> Seq<char> {
    if n < 0 {
        seq!['-'] + decimal_digits((-n) as nat)
    } else {
        decimal_digits(n as nat)
    }
}

proof fn lemma_digits_value_prefix_monotone(s: Seq<char>, k: int)
    requires
        all_digits(s),
        0 <= k <= s.len(),
    ensures
        0 <= digits_value(s.take(k)) <= digits_value(s),
    decreases s.len() - k,
{
    if k < s.len() {
        lemma_digits_value_prefix_monotone(s, k + 1);
        assert(s.take(k + 1).drop_last() =~= s.take(k));
        assert(is_digit(s[k]));
        lemma_digits_value_nonneg(s.take(k));
    } else {
        assert(s.take(k) =~= s);
        lemma_digits_value_nonneg(s);
    }
}

proof fn lemma_digits_value_nonneg(s: Seq<char>)
    requires
        all_digits(s),
    ensures
        digits_value(s) >= 0,
    decreases s.len(),
{
    if s.len() > 0 {
        assert(all_digits(s.drop_last()));
        lemma_digits_value_nonneg(s.drop_last());
        assert(is_digit(s[s.len() - 1]));
    }
}

/// Reads `chars[start..]` as decimal digits. `Some(v)` when they are a
/// numeral whose value `v` is at most `limit`; `None` otherwise.
fn read_digits(chars: &Vec<char>, start: usize, limit: u64) -> (res: Option<u64>)
    requires
        start <= chars.len(),
        limit <= 0x1_0000_0000u64,
    ensures
        match res {
            Some(v) => is_numeral(chars@.skip(start as int)) && v == digits_value(
                chars@.skip(start as int),
            ) && v <= limit,
            None => !(is_numeral(chars@.skip(start as int)) && digits_value(
                chars@.skip(start as int),
            ) <= limit),
        },
{
    let ghost body = chars@.skip(start as int);
    if start == chars.len() {
        return None;
    }
    let mut acc: u64 = 0;
    let mut i: usize = start;
    while i < chars.len()
        invariant
            start < chars.len(),
            body == chars@.skip(start as int),
            start <= i <= chars.len(),
            limit <= 0x1_0000_0000u64,
            all_digits(body.take(i - start)),
            acc == digits_value(body.take(i - start)),
            acc <= limit,
        decreases chars.len() - i,
    {
        let c = chars[i];
        proof {
            assert(body.take(i - start + 1).drop_last() =~= body.take(i - start));
            assert(body[i - start] == c);
        }
        if c < '0' || c > '9' {
            assert(!is_digit(body[i - start]));
            return None;
        }
        let d = (c as u32 - '0' as u32) as u64;
        assert(d == digit_value(c));
        let next = acc * 10 + d;
        proof {
            assert(all_digits(body.take(i - start + 1)));
            assert(next == digits_value(body.take(i - start + 1)));
        }
        if next > limit {
            proof {
                let k = i - start + 1;
                if all_digits(body) {
                    lemma_digits_value_prefix_monotone(body, k);
                }
            }
            return None;
        }
        acc = next;
        i = i + 1;
    }
    assert(body.take(i - start) =~= body);
    Some(acc)
}

/// Reads a signed 32-bit integer the way `str::parse::<i32>` does.
pub fn parse_i32(s: &str) -> (res: Option<i32>)
    ensures
        res == parse_i32_spec(s@),
{
    let chars = chars_of(s);
    if chars.len() == 0 {
        return None;
    }
    if chars[0] == '-' {
        match read_digits(&chars, 1, 2147483648) {
            Some(v) => {
                let r = (0i64 - v as i64) as i32;
                Some(r)
            },
            None => None,
        }
    } else if chars[0] == '+' {
        match read_digits(&chars, 1, 2147483647) {
            Some(v) => Some(v as i32),
            None => None,
        }
    } else {
        assert(chars@.skip(0) =~= chars@);
        match read_digits(&chars, 0, 2147483647) {
            Some(v) => Some(v as i32),
            None => {
                assert(chars@.skip(0) =~= chars@);
                None
            },
        }
    }
}

/// Reads an unsigned 32-bit integer the way `str::parse::<u32>` does.
pub fn parse_u32(s: &str) -> (res: Option<u32>)
    ensures
        res == parse_u32_spec(s@),
{
    let chars = chars_of(s);
    if chars.len() == 0 {
        return None;
    }
    if chars[0] == '+' {
        match read_digits(&chars, 1, 4294967295) {
            Some(v) => Some(v as u32),
            None => None,
        }
    } else {
        assert(chars@.skip(0) =~= chars@);
        match read_digits(&chars, 0, 4294967295) {
            Some(v) => Some(v as u32),
            None => {
                assert(chars@.skip(0) =~= chars@);
                None
            },
        }
    }
}

/// Reads a boolean the way `str::parse::<bool>` does: exactly `true` or `false`.
pub fn parse_bool(s: &str) -> (res: Option<bool>)
    ensures
        res == parse_bool_spec(s@),
{
    let chars = chars_of(s);
    if chars.len() == 4 && chars[0] == 't' && chars[1] == 'r' && chars[2] == 'u' && chars[3] == 'e' {
        assert(chars@ =~= seq!['t', 'r', 'u', 'e']);
        Some(true)
    } else if chars.len() == 5 && chars[0] == 'f' && chars[1] == 'a' && chars[2] == 'l'
        && chars[3] == 's' && chars[4] == 'e' {
        assert(chars@ =~= seq!['f', 'a', 'l', 's', 'e']);
        Some(false)
    } else {
        proof {
            if chars@ == seq!['t', 'r', 'u', 'e'] {
                assert(chars@.len() == 4);
                assert(chars@[0] == 't' && chars@[1] == 'r' && chars@[2] == 'u' && chars@[3] == 'e');
            }
            if chars@ == seq!['f', 'a', 'l', 's', 'e'] {
                assert(chars@.len() == 5);
                assert(chars@[0] == 'f' && chars@[1] == 'a' && chars@[2] == 'l' && chars@[3] == 's'
                    && chars@[4] == 'e');
            }
        }
        None
    }
}

proof fn lemma_decimal_digits_numeral(n: nat)
    ensures
        is_numeral(decimal_digits(n)),
        digits_value(decimal_digits(n)) == n,
    decreases n,
{
    if n < 10 {
        let d = decimal_digits(n);
        assert(d.drop_last() =~= Seq::<char>::empty());
        assert(digits_value(d.drop_last()) == 0);
        assert(digit_value(digit_char(n as int)) == n);
    } else {
        lemma_decimal_digits_numeral(n / 10);
        let d = decimal_digits(n);
        let c = digit_char((n % 10) as int);
        assert(d.drop_last() =~= decimal_digits(n / 10));
        assert(digit_value(c) == n % 10);
        assert(d.last() == c);
        vstd::arithmetic::div_mod::lemma_fundamental_div_mod(n as int, 10);
        assert(forall|i: int| 0 <= i < d.len() ==> is_digit(#[trigger] d[i])) by {
            assert forall|i: int| 0 <= i < d.len() implies is_digit(#[trigger] d[i]) by {
                if i < d.len() - 1 {
                    assert(d[i] == decimal_digits(n / 10)[i]);
                }
            }
        }
    }
}

/// Writing an unsigned integer as text and reading it back gives the same integer.
pub proof fn lemma_u32_text_roundtrip(n: u32)
    ensures
        parse_u32_spec(decimal_digits(n as nat)) == Some(n),
{
    lemma_decimal_digits_numeral(n as nat);
    let d = decimal_digits(n as nat);
    assert(d[0] != '+');
}

/// Writing a signed integer as text and reading it back gives the same integer.
pub proof fn lemma_i32_text_roundtrip(n: i32)
    ensures
        parse_i32_spec(signed_text(n as int)) == Some(n),
{
    if n < 0 {
        let m = (-(n as int)) as nat;
        lemma_decimal_digits_numeral(m);
        let t = signed_text(n as int);
        assert(t.skip(1) =~= decimal_digits(m));
    } else {
        lemma_decimal_digits_numeral(n as nat);
        let d = decimal_digits(n as nat);
        assert(d[0] != '+' && d[0] != '-');
    }
}

fn push_decimal(n: u32, out: &mut Vec<char>)
    ensures
        final(out)@ == old(out)@ + decimal_digits(n as nat),
    decreases n,
{
    if n >= 10 {
        push_decimal(n / 10, out);
    }
    let d = (n % 10) as u8;
    let c = (48u8 + d) as char;
    assert(c == digit_char((n % 10) as int));
    out.push(c);
    proof {
        if n >= 10 {
            assert(decimal_digits(n as nat) == decimal_digits((n / 10) as nat).push(c));
        } else {
            assert(n % 10 == n);
        }
    }
    assert(final(out)@ =~= old(out)@ + decimal_digits(n as nat)) by {
        if n < 10 {
            assert(decimal_digits(n as nat) =~= seq![c]);
        }
    }
}

/// The text of an unsigned integer, as `u32::to_string` writes it.
pub fn u32_to_text(n: u32) -> (res: String)
    ensures
        res@ == decimal_digits(n as nat),
{
    let mut v: Vec<char> = Vec::new();
    push_decimal(n, &mut v);
    assert(v@ =~= decimal_digits(n as nat));
    crate::text::string_from_chars(&v)
}

/// The text of a signed integer, as `i32::to_string` writes it.
pub fn i32_to_text(n: i32) -> (res: String)
    ensures
        res@ == signed_text(n as int),
{
    let mut v: Vec<char> = Vec::new();
    if n < 0 {
        v.push('-');
        let m: u32 = if n == i32::MIN { 2147483648u32 } else { (-n) as u32 };
        push_decimal(m, &mut v);
        assert(v@ =~= signed_text(n as int));
    } else {
        push_decimal(n as u32, &mut v);
        assert(v@ =~= signed_text(n as int));
    }
    crate::text::string_from_chars(&v)
}

} // verus!
