//! Decimal and hexadecimal numerals for messages.
use vstd::prelude::*;

verus! {

/// The digits `0..=9`, then `A..=F`.
pub open spec fn digit(d: int) -> char {
    seq!['0', '1', '2', '3', '4', '5', '6', '7', '8', '9', 'A', 'B', 'C', 'D', 'E', 'F'][d]
}

/// The decimal numeral of `n`, without leading zeros.
pub open spec fn decimal(n: nat) -> Seq<char>
    decreases n,
{
    if n < 10 {
        seq![digit(n as int)]
    } else {
        decimal(n / 10).push(digit((n % 10) as int))
    }
}

/// The upper-case hexadecimal numeral of `n`, without leading zeros.
pub open spec fn upper_hex(n: nat) -> Seq<char>
    decreases n,
{
    if n < 16 {
        seq![digit(n as int)]
    } else {
        upper_hex(n / 16).push(digit((n % 16) as int))
    }
}

/// `count` zeros.
pub open spec fn zeros(count: nat) -> Seq<char> {
    Seq::new(count, |i: int| '0')
}

/// The upper-case hexadecimal numeral of `n`, padded with zeros to at least four digits.
pub open spec fn upper_hex4(n: nat) -> Seq<char> {
    if upper_hex(n).len() < 4 {
        zeros((4 - upper_hex(n).len()) as nat) + upper_hex(n)
    } else {
        upper_hex(n)
    }
}

/// The digit for `d`.
fn digit_char(d: u64) -> (r: char)
    requires
        d < 16,
    ensures
        r == digit(d as int),
{
    let digits = ['0', '1', '2', '3', '4', '5', '6', '7', '8', '9', 'A', 'B', 'C', 'D', 'E', 'F'];
    digits[d as usize]
}

/// Appends the decimal numeral of `n`.
pub fn push_decimal(out: &mut Vec<char>, n: u64)
    ensures
        final(out)@ == old(out)@ + decimal(n as nat),
    decreases n,
{
    if n >= 10 {
        push_decimal(out, n / 10);
    }
    out.push(digit_char(n % 10));
    assert(n < 10 ==> old(out)@.push(digit(n as int)) =~= old(out)@ + decimal(n as nat));
}

/// Appends the upper-case hexadecimal numeral of `n`.
pub fn push_upper_hex(out: &mut Vec<char>, n: u64)
    ensures
        final(out)@ == old(out)@ + upper_hex(n as nat),
    decreases n,
{
    if n >= 16 {
        push_upper_hex(out, n / 16);
    }
    out.push(digit_char(n % 16));
    assert(n < 16 ==> old(out)@.push(digit(n as int)) =~= old(out)@ + upper_hex(n as nat));
}

/// The decimal numeral of `n`.
pub fn decimal_text(n: u64) -> (r: String)
    ensures
        r@ == decimal(n as nat),
{
    let mut out: Vec<char> = Vec::new();
    push_decimal(&mut out, n);
    assert(Seq::<char>::empty() + decimal(n as nat) =~= decimal(n as nat));
    crate::text::string_of(&out)
}

/// The upper-case hexadecimal numeral of `n` with at least four digits (`{:04X}`).
pub fn upper_hex4_text(n: u64) -> (r: String)
    ensures
        r@ == upper_hex4(n as nat),
{
    let mut digits: Vec<char> = Vec::new();
    push_upper_hex(&mut digits, n);
    assert(Seq::<char>::empty() + upper_hex(n as nat) =~= upper_hex(n as nat));
    let mut out: Vec<char> = Vec::new();
    if digits.len() < 4 {
        let pad = 4 - digits.len();
        for k in 0..pad
            invariant
                out@ == zeros(k as nat),
        {
            out.push('0');
            assert(out@ =~= zeros((k + 1) as nat));
        }
    } else {
        assert(out@ =~= Seq::<char>::empty());
    }
    crate::text::extend_vec(&mut out, &digits);
    assert(digits.len() >= 4 ==> Seq::<char>::empty() + digits@ =~= digits@);
    crate::text::string_of(&out)
}

} // verus!
