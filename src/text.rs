use vstd::prelude::*;

verus! {

/// The character of a digit below sixteen; letters in upper or lower case.
pub open spec fn digit_char(d: nat, upper: bool) -> char {
    if d < 10 {
        (('0' as u8) + d) as char
    } else if upper {
        (('A' as u8) + (d - 10)) as char
    } else {
        (('a' as u8) + (d - 10)) as char
    }
}

/// Decimal digits of `n`, most significant first, without leading zeros.
pub open spec fn decimal(n: nat) -> Seq<char>
    decreases n,
{
    if n < 10 {
        seq![digit_char(n, true)]
    } else {
        decimal(n / 10).push(digit_char(n % 10, true))
    }
}

/// Decimal digits of `n`, left-padded with zeros to at least `width` digits.
pub open spec fn zero_padded(n: nat, width: nat) -> Seq<char>
    decreases width,
{
    if width <= 1 {
        decimal(n)
    } else {
        zero_padded(n / 10, (width - 1) as nat).push(digit_char(n % 10, true))
    }
}

/// Hexadecimal digits of `n`, most significant first, without leading zeros.
pub open spec fn hexadecimal(n: nat, upper: bool) -> Seq<char>
    decreases n,
{
    if n < 16 {
        seq![digit_char(n, upper)]
    } else {
        hexadecimal(n / 16, upper).push(digit_char(n % 16, upper))
    }
}

/// A signed integer in decimal, with a leading `-` when negative.
pub open spec fn signed_decimal(v: int) -> Seq<char> {
    if v < 0 {
        seq!['-'] + decimal((-v) as nat)
    } else {
        decimal(v as nat)
    }
}

/// The number that a string of decimal digits stands for.
pub open spec fn decimal_value(s: Seq<char>) -> nat
    decreases s.len(),
{
    if s.len() == 0 {
        0
    } else {
        decimal_value(s.drop_last()) * 10 + ((s.last() as u8) - ('0' as u8)) as nat
    }
}

/// A character among `0` to `9`.
pub open spec fn is_digit(c: char) -> bool {
    '0' <= c && c <= '9'
}

/// Relies on String::push: the character is added at the end.
#[verifier::external_body]
pub(crate) fn push_char(s: &mut String, c: char)
    ensures
        final(s)@ == old(s)@.push(c),
{
    s.push(c)
}

/// The character of the digit `d`.
pub fn digit_of(d: u64, upper: bool) -> (c: char)
    requires
        d < 16,
    ensures
        c == digit_char(d as nat, upper),
{
    if d < 10 {
        (('0' as u8) + d as u8) as char
    } else if upper {
        (('A' as u8) + (d - 10) as u8) as char
    } else {
        (('a' as u8) + (d - 10) as u8) as char
    }
}

/// Appends the decimal digits of `n`.
pub fn push_decimal(s: &mut String, n: u64)
    ensures
        final(s)@ == old(s)@ + decimal(n as nat),
    decreases n,
{
    if n >= 10 {
        push_decimal(s, n / 10);
    }
    push_char(s, digit_of(n % 10, true));
    assert(final(s)@ =~= old(s)@ + decimal(n as nat));
}

/// Appends the decimal digits of `n`, zero-padded to at least `width` digits.
pub fn push_zero_padded(s: &mut String, n: u64, width: u64)
    ensures
        final(s)@ == old(s)@ + zero_padded(n as nat, width as nat),
    decreases width,
{
    if width <= 1 {
        push_decimal(s, n);
    } else {
        push_zero_padded(s, n / 10, width - 1);
        push_char(s, digit_of(n % 10, true));
        assert(final(s)@ =~= old(s)@ + zero_padded(n as nat, width as nat));
    }
}

/// Appends the hexadecimal digits of `n`.
pub fn push_hexadecimal(s: &mut String, n: u64, upper: bool)
    ensures
        final(s)@ == old(s)@ + hexadecimal(n as nat, upper),
    decreases n,
{
    if n >= 16 {
        push_hexadecimal(s, n / 16, upper);
    }
    push_char(s, digit_of(n % 16, upper));
    assert(final(s)@ =~= old(s)@ + hexadecimal(n as nat, upper));
}

/// Appends a signed integer in decimal.
pub fn push_signed_decimal(s: &mut String, v: i64)
    ensures
        final(s)@ == old(s)@ + signed_decimal(v as int),
{
    if v < 0 {
        push_char(s, '-');
        let m: u64 = (0i128 - v as i128) as u64;
        push_decimal(s, m);
        assert(final(s)@ =~= old(s)@ + signed_decimal(v as int));
    } else {
        push_decimal(s, v as u64);
    }
}

/// Every character of a zero-padded number is a digit.
pub proof fn lemma_zero_padded_digits(n: nat, width: nat)
    ensures
        forall|i: int| 0 <= i < zero_padded(n, width).len() ==> is_digit(#[trigger] zero_padded(n, width)[i]),
    decreases width,
{
    if width <= 1 {
        lemma_decimal_digits(n);
    } else {
        lemma_zero_padded_digits(n / 10, (width - 1) as nat);
        lemma_digit(n % 10);
        let s = zero_padded(n / 10, (width - 1) as nat);
        assert forall|i: int| 0 <= i < zero_padded(n, width).len() implies is_digit(#[trigger] zero_padded(n, width)[i]) by {
            if i < s.len() {
                assert(zero_padded(n, width)[i] == s[i]);
            }
        }
    }
}

/// Every character of a decimal number is a digit.
pub proof fn lemma_decimal_digits(n: nat)
    ensures
        forall|i: int| 0 <= i < decimal(n).len() ==> is_digit(#[trigger] decimal(n)[i]),
    decreases n,
{
    lemma_digit(n % 10);
    if n >= 10 {
        lemma_decimal_digits(n / 10);
        let s = decimal(n / 10);
        assert forall|i: int| 0 <= i < decimal(n).len() implies is_digit(#[trigger] decimal(n)[i]) by {
            if i < s.len() {
                assert(decimal(n)[i] == s[i]);
            }
        }
    }
}

/// A digit below ten is a decimal digit character with that value.
pub proof fn lemma_digit(d: nat)
    requires
        d < 10,
    ensures
        is_digit(digit_char(d, true)),
        ((digit_char(d, true) as u8) - ('0' as u8)) as nat == d,
{
    assert((('0' as u8) + d) as char as u32 == 48 + d);
}

/// Reading back the decimal digits gives the number.
pub proof fn lemma_decimal_value(n: nat)
    ensures
        decimal_value(decimal(n)) == n,
    decreases n,
{
    lemma_digit(n % 10);
    if n < 10 {
        assert(decimal(n).drop_last() =~= Seq::<char>::empty());
        assert(decimal_value(Seq::<char>::empty()) == 0);
    } else {
        lemma_decimal_value(n / 10);
        assert(decimal(n).drop_last() =~= decimal(n / 10));
        assert((n / 10) * 10 + n % 10 == n);
    }
}

/// Reading back the zero-padded digits gives the number: padding loses nothing.
pub proof fn lemma_zero_padded_value(n: nat, width: nat)
    ensures
        decimal_value(zero_padded(n, width)) == n,
    decreases width,
{
    if width <= 1 {
        lemma_decimal_value(n);
    } else {
        lemma_zero_padded_value(n / 10, (width - 1) as nat);
        lemma_digit(n % 10);
        assert(zero_padded(n, width).drop_last() =~= zero_padded(n / 10, (width - 1) as nat));
    }
}

/// A number below ten to the `width` takes exactly `width` padded digits.
pub proof fn lemma_zero_padded_len(n: nat, width: nat)
    requires
        1 <= width <= 4,
        n < pow10(width),
    ensures
        zero_padded(n, width).len() == width,
    decreases width,
{
    if width > 1 {
        assert(n / 10 < pow10((width - 1) as nat));
        lemma_zero_padded_len(n / 10, (width - 1) as nat);
    } else {
        assert(pow10(0) == 1);
    }
}

/// Ten to the `k`, for small `k`.
pub open spec fn pow10(k: nat) -> nat
    decreases k,
{
    if k == 0 {
        1
    } else {
        10 * pow10((k - 1) as nat)
    }
}

} // verus!
