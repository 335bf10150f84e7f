//! Text: comparing it, growing it, and spelling numbers.

use vstd::prelude::*;
use vstd::string::*;

verus! {

/// Whether two texts hold the same characters.
pub fn same(a: &str, b: &str) -> (r: bool)
    ensures
        r == (a@ == b@),
{
    a.to_owned() == b.to_owned()
}

/// One more character at the end, by `String::push`: the standard library
/// documents that it appends the given character to the end.
#[verifier::external_body]
pub(crate) fn push_char(s: &mut String, c: char)
    ensures
        final(s)@ == old(s)@.push(c),
{
    s.push(c)
}

/// The decimal digit of a number below ten.
pub open spec fn digit(n: int) -> char {
    (n + '0' as int) as char
}

/// A number in decimal, without leading zeros.
pub open spec fn decimal(n: nat) -> Seq<char>
    decreases n,
{
    if n < 10 {
        seq![digit(n as int)]
    } else {
        decimal(n / 10).push(digit((n % 10) as int))
    }
}

/// The decimal digit of a number below ten.
fn digit_char(n: u128) -> (c: char)
    requires
        n < 10,
    ensures
        c == digit(n as int),
{
    (n as u8 + '0' as u8) as char
}

/// Add a number in decimal to the end of a text.
pub fn push_decimal(s: &mut String, n: u128)
    ensures
        final(s)@ == old(s)@ + decimal(n as nat),
    decreases n,
{
    if n >= 10 {
        push_decimal(s, n / 10);
    }
    push_char(s, digit_char(n % 10));
    assert(s@ =~= old(s)@ + decimal(n as nat));
}

/// Add text to the end of a text.
pub fn push_text(s: &mut String, t: &str)
    ensures
        final(s)@ == old(s)@ + t@,
{
    s.append(t);
}

/// The number that a run of decimal digits spells.
pub open spec fn value(digits: Seq<char>) -> int
    decreases digits.len(),
{
    if digits.len() == 0 {
        0
    } else {
        value(digits.drop_last()) * 10 + (digits.last() as int - '0' as int)
    }
}

/// What `decimal` spells is the number itself, so two different numbers are
/// never spelled alike.
pub proof fn law_decimal_spells_the_number(n: nat)
    ensures
        value(decimal(n)) == n,
        decimal(n).len() >= 1,
    decreases n,
{
    if n < 10 {
        reveal_with_fuel(value, 2);
        assert(decimal(n).drop_last() =~= Seq::empty());
    } else {
        law_decimal_spells_the_number(n / 10);
        assert(decimal(n).drop_last() =~= decimal(n / 10));
    }
}

/// A number is written in decimal digits only, and without a nought in front unless it
/// is nought itself.
pub proof fn law_decimals_are_digits(n: nat, i: int)
    requires
        0 <= i < decimal(n).len(),
    ensures
        '0' as int <= decimal(n)[i] as int <= '9' as int,
        n > 0 ==> decimal(n)[0] != '0',
        n < 10 ==> decimal(n).len() == 1,
        n >= 10 ==> decimal(n).len() == decimal(n / 10).len() + 1,
    decreases n,
{
    if n >= 10 {
        law_decimal_spells_the_number(n / 10);
        law_decimals_are_digits(n / 10, 0);
        if i < decimal(n / 10).len() {
            law_decimals_are_digits(n / 10, i);
        }
    }
}

} // verus!
