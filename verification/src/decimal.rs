//! Decimal text to unsigned integers, as `str::parse::<u64>` reads it: an
//! optional `+` followed by one or more ASCII digits whose value fits in a
//! `u64`.

use vstd::prelude::*;

verus! {

pub open spec fn is_digit(c: char) -> bool {
    '0' <= c && c <= '9'
}

pub open spec fn all_digits(s: Seq<char>) -> bool {
    forall|i: int| 0 <= i < s.len() ==> is_digit(#[trigger] s[i])
}

pub open spec fn digit_value(c: char) -> nat {
    (c as int - '0' as int) as nat
}

/// The number that a run of decimal digits spells.
pub open spec fn decimal_value(s: Seq<char>) -> nat
    decreases s.len(),
{
    if s.len() == 0 {
        0
    } else {
        decimal_value(s.drop_last()) * 10 + digit_value(s.last())
    }
}

/// The text after an optional leading `+`.
pub open spec fn unsigned_digits(s: Seq<char>) -> Seq<char> {
    if s.len() > 0 && s[0] == '+' {
        s.drop_first()
    } else {
        s
    }
}

/// What `str::parse::<u64>` gives for `s`: the value of the digits after an
/// optional `+`, where there is at least one digit, nothing else, and the
/// value fits in a `u64`.
pub open spec fn spec_parse_u64(s: Seq<char>) -> Option<u64> {
    let d = unsigned_digits(s);
    if d.len() > 0 && all_digits(d) && decimal_value(d) <= u64::MAX {
        Some(decimal_value(d) as u64)
    } else {
        None
    }
}

/// The value of a run of digits is at least the value of any of its prefixes.
pub proof fn lemma_decimal_value_prefix(s: Seq<char>, k: int)
    requires
        all_digits(s),
        0 <= k <= s.len(),
    ensures
        decimal_value(s.take(k)) <= decimal_value(s),
    decreases s.len(),
{
    if k < s.len() {
        assert(s.drop_last().take(k) =~= s.take(k));
        lemma_decimal_value_prefix(s.drop_last(), k);
    } else {
        assert(s.take(k) =~= s);
    }
}

/// The digit character for `d < 10`.
pub open spec fn digit_char(d: nat) -> char {
    ('0' as int + d) as char
}

/// The decimal text of `n`, without sign or leading zeros.
pub open spec fn decimal_text(n: nat) -> Seq<char>
    decreases n,
{
    if n < 10 {
        seq![digit_char(n)]
    } else {
        decimal_text(n / 10).push(digit_char(n % 10))
    }
}

proof fn lemma_decimal_text_digits(n: nat)
    ensures
        decimal_text(n).len() > 0,
        all_digits(decimal_text(n)),
        decimal_value(decimal_text(n)) == n,
    decreases n,
{
    if n < 10 {
        let t = decimal_text(n);
        assert(t.drop_last() =~= Seq::<char>::empty());
        assert(digit_value(digit_char(n)) == n);
        assert(decimal_value(t) == decimal_value(t.drop_last()) * 10 + digit_value(t.last()));
    } else {
        lemma_decimal_text_digits(n / 10);
        let t = decimal_text(n);
        assert(t.drop_last() =~= decimal_text(n / 10));
        assert(digit_value(digit_char(n % 10)) == n % 10);
        assert((n / 10) * 10 + n % 10 == n);
        assert(t.last() == digit_char(n % 10));
        assert(decimal_value(t) == decimal_value(decimal_text(n / 10)) * 10 + digit_value(
            digit_char(n % 10),
        ));
        assert forall|i: int| 0 <= i < t.len() implies is_digit(#[trigger] t[i]) by {
            if i < t.len() - 1 {
                assert(t[i] == decimal_text(n / 10)[i]);
            }
        }
    }
}

/// Reading the decimal text of any `u64` gives that number back.
pub proof fn lemma_parse_decimal_text(n: u64)
    ensures
        spec_parse_u64(decimal_text(n as nat)) == Some(n),
{
    lemma_decimal_text_digits(n as nat);
    let t = decimal_text(n as nat);
    assert(is_digit(t[0]));
    assert(unsigned_digits(t) == t);
}

/// Text with a character that is neither a digit nor a leading `+` is no
/// number.
pub proof fn law_parse_refuses_non_digit(s: Seq<char>, i: int)
    requires
        0 <= i < s.len(),
        !is_digit(s[i]),
        !(i == 0 && s[i] == '+'),
    ensures
        spec_parse_u64(s) is None,
{
    let d = unsigned_digits(s);
    if s.len() > 0 && s[0] == '+' {
        assert(d[i - 1] == s[i]);
    } else {
        assert(d[i] == s[i]);
    }
}

/// Empty text, and a `+` alone, are no number; a `+` before the decimal
/// text of `n` reads as `n`.
pub proof fn law_parse_sign(n: u64)
    ensures
        spec_parse_u64(Seq::<char>::empty()) is None,
        spec_parse_u64(seq!['+']) is None,
        spec_parse_u64(seq!['+'] + decimal_text(n as nat)) == Some(n),
{
    lemma_parse_decimal_text(n);
    lemma_decimal_text_digits(n as nat);
    let t = decimal_text(n as nat);
    assert(is_digit(t[0]));
    assert(unsigned_digits(t) == t);
    assert((seq!['+'] + t).drop_first() =~= t);
    assert(unsigned_digits(seq!['+'] + t) == t);
    assert(seq!['+'].drop_first() =~= Seq::<char>::empty());
}

/// A single digit reads as its value: its character code less that of `0`.
pub proof fn law_parse_single_digit(c: char)
    requires
        '0' <= c && c <= '9',
    ensures
        spec_parse_u64(seq![c]) == Some((c as int - 48) as u64),
{
    let t = seq![c];
    assert(t.drop_last() =~= Seq::<char>::empty());
    assert(unsigned_digits(t) == t);
    assert(decimal_value(t) == decimal_value(t.drop_last()) * 10 + digit_value(t.last()));
    assert('0' as int == 48);
    assert(all_digits(t));
}

/// Appending a digit to a number's text multiplies the number by ten and
/// adds the digit's value, where the result fits.
pub proof fn law_parse_append_digit(s: Seq<char>, c: char, m: u64)
    requires
        spec_parse_u64(s) == Some(m),
        '0' <= c && c <= '9',
        m * 10 + (c as int - 48) <= u64::MAX,
    ensures
        spec_parse_u64(s.push(c)) == Some((m * 10 + (c as int - 48)) as u64),
{
    let d = unsigned_digits(s);
    let e = unsigned_digits(s.push(c));
    if s.len() > 0 && s[0] == '+' {
        assert(s.push(c)[0] == '+');
        assert(e =~= d.push(c));
    } else {
        assert(e =~= d.push(c));
    }
    assert(e.drop_last() =~= d);
    assert forall|i: int| 0 <= i < e.len() implies is_digit(#[trigger] e[i]) by {
        if i < d.len() {
            assert(e[i] == d[i]);
        }
    }
}

/// Parses unsigned decimal text as `str::parse::<u64>` does.
pub fn parse_u64(s: &str) -> (r: Option<u64>)
    ensures
        r == spec_parse_u64(s@),
{
    if !s.is_ascii() {
        proof {
            let d = unsigned_digits(s@);
            if d.len() > 0 && all_digits(d) {
                assert forall|i: int| 0 <= i < s@.len() implies '\0' <= #[trigger] s@[i] <= '\u{7f}' by {
                    if i > 0 || s@[0] != '+' {
                        if s@.len() > 0 && s@[0] == '+' {
                            assert(s@[i] == d[i - 1]);
                        } else {
                            assert(s@[i] == d[i]);
                        }
                    }
                }
                assert(false);
            }
        }
        return None;
    }
    let len = s.unicode_len();
    let mut start: usize = 0;
    if len > 0 && s.get_ascii(0) == 43u8 {
        start = 1;
    }
    let ghost d = unsigned_digits(s@);
    assert(d =~= s@.subrange(start as int, len as int));
    if start >= len {
        return None;
    }
    let mut acc: u64 = 0;
    let mut i: usize = start;
    assert(d.take(0) =~= Seq::<char>::empty());
    while i < len
        invariant
            s.is_ascii(),
            len == s@.len(),
            start <= i <= len,
            d == unsigned_digits(s@),
            d =~= s@.subrange(start as int, len as int),
            all_digits(d.take(i - start)),
            acc as nat == decimal_value(d.take(i - start)),
        decreases len - i,
    {
        let b = s.get_ascii(i);
        let ghost c = s@[i as int];
        assert(d[i - start] == c);
        assert((c as u8) as int == c as int);
        if b < 48u8 || b > 57u8 {
            assert(!is_digit(d[i - start]));
            return None;
        }
        let ghost k = (i - start) as int;
        assert(d.take(k + 1).drop_last() =~= d.take(k));
        assert(d.take(k + 1).last() == c);
        assert(all_digits(d.take(k + 1)));
        let digit = (b - 48u8) as u64;
        assert(digit == digit_value(c));
        let next = match acc.checked_mul(10) {
            Some(m) => m.checked_add(digit),
            None => None,
        };
        match next {
            Some(v) => {
                acc = v;
            },
            None => {
                proof {
                    if all_digits(d) {
                        lemma_decimal_value_prefix(d, k + 1);
                    }
                }
                return None;
            },
        }
        i = i + 1;
    }
    assert(d.take(len - start) =~= d);
    Some(acc)
}

} // verus!
