//! The scale of the export in words.
//!
//! A finite scale is so many whole digits counted in a power of two. What floating
//! point makes of it on the way to the text is said of these digits.

use vstd::prelude::*;

use crate::export::rounding::{
    lemma_nearest, lemma_powers, lemma_two_to, nearest, nearest_of, power_of_two, round_quotient,
    rounded, two_to, SINGLE_LIMIT,
};
use crate::ieee::Single;
use crate::text::{decimal, digit, push_decimal, push_text};

verus! {

/// A thousandth as a single, in parts of `THOUSANDTH_UNIT`.
pub const THOUSANDTH: u128 = 8_589_935;

/// The parts that a thousandth is counted in.
pub const THOUSANDTH_UNIT: u128 = 0x2_0000_0000;

/// A hundredth as a single, in parts of `HUNDREDTH_UNIT`.
pub const HUNDREDTH: u128 = 10_737_418;

/// The parts that a hundredth is counted in.
pub const HUNDREDTH_UNIT: u128 = 0x4000_0000;

/// How far a number lies past the whole number below it, in parts of `unit`.
pub open spec fn past_whole(negative: bool, digits: int, unit: int) -> int {
    let rest = digits % unit;
    if negative && rest != 0 {
        unit - rest
    } else {
        rest
    }
}

/// Whether a number is whole, to a thousandth.
pub open spec fn is_whole(negative: bool, digits: int, unit: int) -> bool {
    past_whole(negative, digits, unit) * THOUSANDTH_UNIT < THOUSANDTH * unit
}

/// Whether ten times a number, as a single has it, is whole to a hundredth.
pub open spec fn is_tenths(negative: bool, digits: nat, unit: int) -> bool {
    past_whole(negative, nearest(digits * 10, SINGLE_LIMIT as nat), unit) * HUNDREDTH_UNIT
        < HUNDREDTH * unit
}

/// What follows the whole number: the thousandths without the zeros at their end.
pub open spec fn thousandths_text(t: int) -> Seq<char> {
    if t % 1000 == 0 {
        Seq::empty()
    } else if t % 100 == 0 {
        seq!['.', digit(t / 100 % 10)]
    } else if t % 10 == 0 {
        seq!['.', digit(t / 100 % 10), digit(t / 10 % 10)]
    } else {
        seq!['.', digit(t / 100 % 10), digit(t / 10 % 10), digit(t % 10)]
    }
}

/// A number with a fraction, without its sign: whole numbers without a point, tenths
/// with one digit, and anything else with up to three.
pub open spec fn fraction_text(negative: bool, digits: nat, unit: int) -> Seq<char> {
    if is_whole(negative, digits as int, unit) {
        decimal(rounded(digits as int, unit) as nat)
    } else if is_tenths(negative, digits, unit) {
        let t = rounded(digits as int * 10, unit);
        decimal((t / 10) as nat) + seq!['.', digit(t % 10)]
    } else {
        let t = rounded(digits as int * 1000, unit);
        decimal((t / 1000) as nat) + thousandths_text(t)
    }
}

/// A number without its sign.
pub open spec fn number_text(v: Single) -> Seq<char> {
    if v.infinite() {
        "inf"@
    } else if v.power() >= 0 {
        decimal(v.significand() * two_to(v.power() as nat))
    } else {
        fraction_text(v.negative(), v.significand(), two_to((-v.power()) as nat) as int)
    }
}

/// A scale in words.
pub open spec fn scale_words(v: Single) -> Seq<char> {
    if v.nan() {
        "NaN"@ + "x"@
    } else if v.negative() {
        "-"@ + number_text(v) + "x"@
    } else {
        number_text(v) + "x"@
    }
}

/// Add one decimal digit to a text.
fn push_digit(out: &mut String, n: u128)
    requires
        n < 10,
    ensures
        final(out)@ == old(out)@.push(digit(n as int)),
{
    push_decimal(out, n);
    assert(decimal(n as nat) =~= seq![digit(n as int)]);
    assert(out@ =~= old(out)@.push(digit(n as int)));
}

/// How far a number lies past the whole number below it.
fn past(negative: bool, digits: u128, unit: u128) -> (r: u128)
    requires
        unit > 0,
    ensures
        r == past_whole(negative, digits as int, unit as int),
        r < unit,
{
    let rest: u128 = digits % unit;
    if negative && rest != 0 {
        unit - rest
    } else {
        rest
    }
}

/// Add what follows the whole number to a text.
fn push_thousandths(out: &mut String, t: u128)
    ensures
        final(out)@ == old(out)@ + thousandths_text(t as int),
{
    if t % 1000 != 0 {
        push_text(out, ".");
        proof {
            reveal_strlit(".");
        }
        push_digit(out, t / 100 % 10);
        if t % 100 != 0 {
            push_digit(out, t / 10 % 10);
            if t % 10 != 0 {
                push_digit(out, t % 10);
            }
        }
    }
    assert(out@ =~= old(out)@ + thousandths_text(t as int));
}

/// Add a number with a fraction to a text.
fn push_fraction(out: &mut String, negative: bool, digits: u32, unit: u128)
    requires
        digits < 0x100_0000,
        1 <= unit <= 0x8000_0000_0000_0000,
    ensures
        final(out)@ == old(out)@ + fraction_text(negative, digits as nat, unit as int),
{
    let digits: u128 = digits as u128;
    if past(negative, digits, unit) * THOUSANDTH_UNIT < THOUSANDTH * unit {
        push_decimal(out, round_quotient(digits, unit));
    } else {
        let ten: u128 = nearest_of((digits * 10) as u64, SINGLE_LIMIT);
        if past(negative, ten, unit) * HUNDREDTH_UNIT < HUNDREDTH * unit {
            let t: u128 = round_quotient(digits * 10, unit);
            push_decimal(out, t / 10);
            push_text(out, ".");
            proof {
                reveal_strlit(".");
            }
            push_digit(out, t % 10);
        } else {
            let t: u128 = round_quotient(digits * 1000, unit);
            push_decimal(out, t / 1000);
            push_thousandths(out, t);
        }
    }
    assert(out@ =~= old(out)@ + fraction_text(negative, digits as nat, unit as int));
}

/// A number that is small beside its unit: nothing is left of it but its sign.
proof fn lemma_small(negative: bool, digits: nat, unit: int)
    requires
        digits < 0x100_0000,
        unit >= 0x1_0000_0000_0000_0000,
    ensures
        fraction_text(negative, digits, unit) == decimal(0),
{
    let n = digits as int;
    let ten = nearest(digits * 10, SINGLE_LIMIT as nat);
    lemma_nearest(digits * 10, SINGLE_LIMIT as nat);
    crate::export::rounding::lemma_step_bound(digits * 10, SINGLE_LIMIT as nat);
    assert(0 <= ten < 0x4000_0000);
    vstd::arithmetic::div_mod::lemma_small_mod(digits, unit as nat);
    vstd::arithmetic::div_mod::lemma_small_mod(ten as nat, unit as nat);
    vstd::arithmetic::div_mod::lemma_small_mod(digits * 10, unit as nat);
    vstd::arithmetic::div_mod::lemma_small_mod(digits * 1000, unit as nat);
    vstd::arithmetic::div_mod::lemma_basic_div(n, unit);
    vstd::arithmetic::div_mod::lemma_basic_div(n * 10, unit);
    vstd::arithmetic::div_mod::lemma_basic_div(n * 1000, unit);
    assert(rounded(n, unit) == 0);
    assert(rounded(n * 10, unit) == 0);
    assert(rounded(n * 1000, unit) == 0);
    if !is_whole(negative, n, unit) {
        assert(negative && n > 0);
        assert(!is_tenths(negative, digits, unit)) by {
            if ten == 0 {
                lemma_told(digits * 10);
            }
        }
    }
    assert(decimal(0) + thousandths_text(0) =~= decimal(0));
}

/// What is more than nothing stays so.
proof fn lemma_told(n: nat)
    requires
        nearest(n, SINGLE_LIMIT as nat) == 0,
    ensures
        n == 0,
{
    let limit = SINGLE_LIMIT as nat;
    lemma_nearest(n, limit);
    if n >= limit {
        crate::export::rounding::lemma_step_bound(n, limit);
        let s = step_between(n);
        let q = n as int / s;
        assert(q >= 1) by (nonlinear_arith)
            requires
                q == n as int / s,
                0 < s <= n,
        ;
        let r = rounded(n as int, s);
        assert(r >= 1);
        assert(r * s >= 1) by (nonlinear_arith)
            requires
                r >= 1,
                s >= 1,
        ;
    }
}

spec fn step_between(n: nat) -> int {
    crate::export::rounding::step(n, SINGLE_LIMIT as nat) as int
}

/// A number without its sign, added to a text.
fn push_number(out: &mut String, v: Single)
    requires
        !v.nan(),
    ensures
        final(out)@ == old(out)@ + number_text(v),
{
    let negative = v.bits >= crate::ieee::SIGN_32;
    if v.abs().bits == crate::ieee::INFINITY_32 {
        push_text(out, "inf");
        return;
    }
    let (digits, power): (u32, i32) = v.parts();
    proof {
        lemma_powers();
    }
    if power >= 0 {
        let mut n: u128 = digits as u128;
        let mut i: i32 = 0;
        let ghost whole = digits as int;
        assert(whole * 1 == whole);
        while i < power
            invariant
                0 <= i <= power <= 104,
                whole < 0x100_0000,
                0 <= whole,
                n == whole * two_to(i as nat),
            decreases power - i,
        {
            proof {
                lemma_room(whole, (i + 1) as nat);
                let t = two_to(i as nat);
                assert(whole * (2 * t) == 2 * (whole * t)) by (nonlinear_arith);
            }
            n = n * 2;
            i = i + 1;
        }
        push_decimal(out, n);
        return;
    }
    let k: u32 = (-power) as u32;
    if k >= 64 {
        proof {
            lemma_two_to(64, k as nat);
            lemma_small(negative, digits as nat, two_to(k as nat) as int);
        }
        push_decimal(out, 0);
        return;
    }
    let unit: u128 = power_of_two(k);
    push_fraction(out, negative, digits, unit);
}

/// A single that is whole has room.
proof fn lemma_room(digits: int, k: nat)
    requires
        0 <= digits < 0x100_0000,
        k <= 104,
    ensures
        digits * two_to(k) <= u128::MAX,
{
    lemma_two_to(k, 104);
    lemma_powers();
    assert(two_to(104) == 0x100_0000_0000_0000_0000_0000_0000) by {
        reveal_with_fuel(two_to, 9);
        assert(two_to(72) == 0x100_0000_0000_0000_0000);
        assert(two_to(80) == 0x1_0000_0000_0000_0000_0000);
        assert(two_to(88) == 0x100_0000_0000_0000_0000_0000);
        assert(two_to(96) == 0x1_0000_0000_0000_0000_0000_0000);
    }
    let t = two_to(k) as int;
    assert(digits * t <= 0xff_ffff * 0x100_0000_0000_0000_0000_0000_0000) by (nonlinear_arith)
        requires
            0 <= digits <= 0xff_ffff,
            0 <= t <= 0x100_0000_0000_0000_0000_0000_0000,
    ;
}

/// A scale in words: whole scales without a point, tenths with one digit, and others
/// with up to three digits.
pub fn format_scale(v: Single) -> (s: String)
    ensures
        s@ == scale_words(v),
{
    let mut out = String::new();
    if v.is_nan() {
        push_text(&mut out, "NaN");
    } else {
        if v.bits >= crate::ieee::SIGN_32 {
            push_text(&mut out, "-");
        }
        push_number(&mut out, v);
    }
    push_text(&mut out, "x");
    assert(out@ =~= scale_words(v));
    out
}

/// How far a number lies past the whole number below it is less than one, and is what
/// has to be taken off it, or added to its digits where it is below zero, to make it
/// whole. A number is whole where that is below a thousandth, and has tenths alone where
/// it is below a hundredth of ten times the number, both as singles have them.
pub proof fn law_past_the_whole_number_below(negative: bool, digits: int, unit: int)
    requires
        digits >= 0,
        unit > 0,
    ensures
        ({
            let p = past_whole(negative, digits, unit);
            &&& 0 <= p < unit
            &&& !negative ==> (digits - p) % unit == 0
            &&& negative ==> (digits + p) % unit == 0
            &&& digits % unit == 0 ==> p == 0
            &&& is_whole(negative, digits, unit) <==> p * 0x2_0000_0000 < 8_589_935 * unit
            &&& is_tenths(negative, digits as nat, unit) <==> past_whole(
                negative,
                nearest(digits as nat * 10, 0x100_0000),
                unit,
            ) * 0x4000_0000 < 10_737_418 * unit
        }),
{
    vstd::arithmetic::div_mod::lemma_mod_bound(digits, unit);
    vstd::arithmetic::div_mod::lemma_fundamental_div_mod(digits, unit);
    let q = digits / unit;
    let r = digits % unit;
    assert(digits - r == q * unit) by (nonlinear_arith)
        requires
            digits == unit * q + r,
    ;
    assert(digits + (unit - r) == (q + 1) * unit) by (nonlinear_arith)
        requires
            digits == unit * q + r,
    ;
    vstd::arithmetic::div_mod::lemma_mod_multiples_basic(q, unit);
    vstd::arithmetic::div_mod::lemma_mod_multiples_basic(q + 1, unit);
}

proof fn lemma_three_digits(t: int)
    requires
        t >= 0,
    ensures
        (t / 100 % 10) * 100 + (t / 10 % 10) * 10 + t % 10 == t % 1000,
        t % 100 == (t / 10 % 10) * 10 + t % 10,
        0 <= t / 100 % 10 < 10,
        0 <= t / 10 % 10 < 10,
        0 <= t % 10 < 10,
{
    let tens = t / 10;
    let hundreds = t / 100;
    assert(hundreds == tens / 10);
    assert(t == 10 * tens + t % 10);
    assert(tens == 10 * hundreds + tens % 10);
    assert(hundreds == 10 * (hundreds / 10) + hundreds % 10);
    assert(hundreds / 10 == t / 1000);
}

proof fn lemma_digit_value(n: int)
    requires
        0 <= n < 10,
    ensures
        digit(n) as int - '0' as int == n,
        n != 0 ==> digit(n) != '0',
{
}

/// What follows the whole number reads back as the thousandths, ends in no nought, and is
/// nothing where there are none.
pub proof fn law_thousandths_read_back(t: int)
    requires
        t >= 0,
    ensures
        ({
            let s = thousandths_text(t);
            let at = |i: int| s[i] as int - '0' as int;
            &&& s.len() == 0 <==> t % 1000 == 0
            &&& s.len() > 0 ==> s[0] == '.' && s.last() != '0' && s.len() >= 2
            &&& s.len() == 2 ==> at(1) * 100 == t % 1000
            &&& s.len() == 3 ==> at(1) * 100 + at(2) * 10 == t % 1000
            &&& s.len() == 4 ==> at(1) * 100 + at(2) * 10 + at(3) == t % 1000
            &&& s.len() <= 4
        }),
{
    lemma_three_digits(t);
    lemma_digit_value(t / 100 % 10);
    lemma_digit_value(t / 10 % 10);
    lemma_digit_value(t % 10);
}

/// A scale that is a whole number is written as that number and nothing more; one that
/// is not a number, and one without end, say so; the sign comes first and the cross
/// last.
pub proof fn law_how_scales_are_written(v: Single, n: nat)
    ensures
        v.nan() ==> scale_words(v) == "NaN"@ + "x"@,
        !v.nan() && !v.negative() ==> scale_words(v) == number_text(v) + "x"@,
        !v.nan() && v.negative() ==> scale_words(v) == "-"@ + number_text(v) + "x"@,
        v.infinite() ==> number_text(v) == "inf"@,
        !v.infinite() && v.power() >= 0 ==> number_text(v) == decimal(
            v.significand() * two_to(v.power() as nat),
        ),
        !v.infinite() && v.power() < 0 && v.significand() == n * two_to((-v.power()) as nat)
            ==> number_text(v) == decimal(n),
{
    if !v.infinite() && v.power() < 0 && v.significand() == n * two_to((-v.power()) as nat) {
        let unit = two_to((-v.power()) as nat) as int;
        let digits = v.significand() as int;
        lemma_two_to(0, (-v.power()) as nat);
        vstd::arithmetic::div_mod::lemma_fundamental_div_mod_converse(digits, unit, n as int, 0);
        assert(past_whole(v.negative(), digits, unit) == 0);
        assert(0 * THOUSANDTH_UNIT < THOUSANDTH * unit) by (nonlinear_arith)
            requires
                unit >= 1,
                THOUSANDTH == 8_589_935,
        ;
        assert(rounded(digits, unit) == n);
    }
}

/// A scale that is no whole number to a thousandth is written in tenths or thousandths
/// that are the nearest to it.
pub proof fn law_fractions_are_the_nearest(negative: bool, digits: nat, unit: int)
    requires
        unit > 0,
    ensures
        ({
            let tenths = rounded(digits as int * 10, unit);
            let thousandths = rounded(digits as int * 1000, unit);
            let text = fraction_text(negative, digits, unit);
            &&& !is_whole(negative, digits as int, unit) && is_tenths(negative, digits, unit)
                ==> text == decimal((tenths / 10) as nat) + seq!['.', digit(tenths % 10)]
            &&& !is_whole(negative, digits as int, unit) && !is_tenths(negative, digits, unit)
                ==> text == decimal((thousandths / 1000) as nat) + thousandths_text(thousandths)
            &&& 2 * (tenths * unit) - unit <= 20 * digits <= 2 * (tenths * unit) + unit
            &&& 2 * (thousandths * unit) - unit <= 2000 * digits <= 2 * (thousandths * unit) + unit
        }),
{
    crate::export::rounding::law_a_rounded_quotient_is_the_nearest(digits as int * 10, unit);
    crate::export::rounding::law_a_rounded_quotient_is_the_nearest(digits as int * 1000, unit);
}

} // verus!
