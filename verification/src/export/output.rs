//! The size of the exported picture.

use vstd::prelude::*;

use crate::export::rounding::{
    lemma_nearest, lemma_nearest_shift, lemma_powers, lemma_two_to, nearest, nearest_of,
    power_of_two, two_to, SINGLE_LIMIT,
};
use crate::ieee::Single;

verus! {

/// The digits of a side of the picture times a scale, as the product of two singles
/// has them.
pub open spec fn product(side: u32, scale: Single) -> int {
    nearest(
        (nearest(side as nat, SINGLE_LIMIT as nat) * scale.significand()) as nat,
        SINGLE_LIMIT as nat,
    )
}

/// Digits counted in a power of two, to the nearest whole number, a half counting as
/// one.
pub open spec fn whole(digits: int, power: int) -> int {
    if power >= 0 {
        digits * two_to(power as nat)
    } else {
        (digits + two_to((-power - 1) as nat)) / two_to((-power) as nat) as int
    }
}

/// A side of the exported picture: scaled, to the nearest pixel, half a pixel
/// counting as one, and never without a pixel. A scale below zero, or one that is no
/// number, leaves a single pixel.
pub open spec fn scaled_spec(side: u32, scale: Single) -> int {
    if side == 0 || scale.nan() || scale.negative() {
        1
    } else if scale.infinite() {
        u32::MAX as int
    } else {
        let pixels = whole(product(side, scale), scale.power());
        if pixels < 1 {
            1
        } else if pixels > u32::MAX {
            u32::MAX as int
        } else {
            pixels
        }
    }
}

/// Digits counted in a power of two, to the nearest whole number, as far as they fit.
fn whole_up_to(digits: u128, power: i32) -> (r: u32)
    requires
        digits < 0x400_0000_0000_0000,
        -149 <= power <= 104,
    ensures
        r == (if whole(digits as int, power as int) > u32::MAX {
            u32::MAX as int
        } else {
            whole(digits as int, power as int)
        }),
{
    proof {
        lemma_powers();
    }
    if power >= 0 {
        if digits == 0 {
            assert(0 * two_to(power as nat) == 0) by (nonlinear_arith);
            return 0;
        }
        if power >= 32 {
            proof {
                lemma_two_to(32, power as nat);
                let t = two_to(power as nat);
                assert(digits * t >= t) by (nonlinear_arith)
                    requires
                        digits >= 1,
                        t >= 0,
                ;
            }
            return 0xffff_ffff;
        }
        let t: u128 = power_of_two(power as u32);
        assert(digits * t <= 0x400_0000_0000_0000 * 0x8000_0000_0000_0000) by (nonlinear_arith)
            requires
                digits < 0x400_0000_0000_0000,
                t <= 0x8000_0000_0000_0000,
        ;
        let n: u128 = digits * t;
        if n > 0xffff_ffff {
            0xffff_ffff
        } else {
            n as u32
        }
    } else {
        let k: u32 = (-power) as u32;
        if k >= 60 {
            proof {
                lemma_two_to(59, (k - 1) as nat);
                let half = two_to((k - 1) as nat) as int;
                assert(two_to(k as nat) == 2 * half);
                vstd::arithmetic::div_mod::lemma_basic_div(digits + half, 2 * half);
            }
            return 0;
        }
        let half: u128 = power_of_two(k - 1);
        let unit: u128 = half * 2;
        assert(unit == two_to(k as nat));
        let n: u128 = (digits + half) / unit;
        if n > 0xffff_ffff {
            0xffff_ffff
        } else {
            n as u32
        }
    }
}

/// A side of the exported picture at a scale.
pub fn scaled(side: u32, scale: Single) -> (r: u32)
    ensures
        r == scaled_spec(side, scale),
{
    if side == 0 || scale.is_nan() || scale.bits >= crate::ieee::SIGN_32 {
        return 1;
    }
    if scale.bits == crate::ieee::INFINITY_32 {
        return 0xffff_ffff;
    }
    let (significand, power): (u32, i32) = scale.parts();
    let near: u128 = nearest_of(side as u64, SINGLE_LIMIT);
    proof {
        lemma_nearest(side as nat, SINGLE_LIMIT as nat);
    }
    assert(near * significand < 0x200_0000_0000_0000) by (nonlinear_arith)
        requires
            near < 0x2_0000_0000,
            significand < 0x100_0000,
    ;
    let digits: u128 = nearest_of((near * significand as u128) as u64, SINGLE_LIMIT);
    let pixels: u32 = whole_up_to(digits, power);
    if pixels < 1 {
        1
    } else {
        pixels
    }
}

/// The scale one.
pub const FULL_SCALE: u32 = 0x3f80_0000;

/// At full scale a picture keeps its size, as long as its sides are told apart.
pub proof fn law_full_scale_keeps_the_size(side: u32)
    requires
        0 < side < SINGLE_LIMIT,
    ensures
        scaled_spec(side, Single { bits: FULL_SCALE }) == side,
{
    let one = Single { bits: FULL_SCALE };
    let limit = SINGLE_LIMIT as nat;
    lemma_powers();
    assert(one.significand() == two_to(23));
    assert(one.power() == -23);
    lemma_nearest(side as nat, limit);
    lemma_nearest_shift(side as nat, limit, 23);
    assert(product(side, one) == side * 0x80_0000);
    assert(two_to(23) == 2 * two_to(22));
    assert((side * 0x80_0000 + 0x40_0000) / 0x80_0000 == side);
}

/// Digits that are counted in a fraction come to the nearest whole number, a half
/// counting as one; those counted in whole units come to so many units.
pub proof fn law_whole_is_the_nearest(digits: int, power: int)
    requires
        digits >= 0,
    ensures
        power >= 0 ==> whole(digits, power) == digits * two_to(power as nat),
        power < 0 ==> ({
            let unit = two_to((-power) as nat) as int;
            2 * (unit * whole(digits, power)) - unit <= 2 * digits < 2 * (unit * whole(
                digits,
                power,
            )) + unit
        }),
{
    if power < 0 {
        let half = two_to((-power - 1) as nat) as int;
        let unit = two_to((-power) as nat) as int;
        lemma_two_to(0, (-power - 1) as nat);
        assert(unit == 2 * half);
        vstd::arithmetic::div_mod::lemma_fundamental_div_mod(digits + half, unit);
        vstd::arithmetic::div_mod::lemma_mod_bound(digits + half, unit);
    }
}

/// A side of the exported picture is never without a pixel, and is a single one for a
/// canvas without that side and for a scale that is none or below zero; it is as long as
/// can be told for a scale without end.
pub proof fn law_an_exported_side_has_a_pixel(side: u32, scale: Single)
    ensures
        1 <= scaled_spec(side, scale) <= u32::MAX,
        side == 0 || scale.nan() || scale.negative() ==> scaled_spec(side, scale) == 1,
        side > 0 && scale.bits == 0x7f80_0000 ==> scaled_spec(side, scale) == u32::MAX,
{
}

/// At a scale with few digits a side comes to the nearest pixel of the side times that
/// scale, half a pixel counting as one, as long as such products are told apart.
pub proof fn law_scaling_comes_to_the_nearest_pixel(side: u32, scale: Single, m: nat, k: nat)
    requires
        0 < side,
        0 < m,
        side * m < SINGLE_LIMIT,
        !scale.negative(),
        !scale.nan(),
        !scale.infinite(),
        scale.significand() == m * two_to(k),
        scale.power() < 0,
    ensures
        ({
            let exact = side * scale.significand();
            let unit = two_to((-scale.power()) as nat) as int;
            let pixels = scaled_spec(side, scale);
            &&& pixels < u32::MAX ==> 2 * exact < 2 * (unit * pixels) + unit
            &&& pixels > 1 ==> 2 * (unit * pixels) - unit <= 2 * exact
        }),
{
    let limit = SINGLE_LIMIT as nat;
    let digits = scale.significand();
    assert(side <= side * m) by (nonlinear_arith)
        requires
            m >= 1,
            side >= 0,
    ;
    lemma_nearest(side as nat, limit);
    lemma_nearest((side * m) as nat, limit);
    lemma_nearest_shift((side * m) as nat, limit, k);
    assert(side * digits == (side * m) * two_to(k)) by (nonlinear_arith)
        requires
            digits == m * two_to(k),
    ;
    assert(product(side, scale) == side * digits);
    assert(side * digits >= 0) by (nonlinear_arith)
        requires
            side >= 0,
            digits >= 0,
    ;
    law_whole_is_the_nearest(side * digits, scale.power());
    let unit = two_to((-scale.power()) as nat) as int;
    lemma_two_to(0, (-scale.power()) as nat);
    let w = whole(side * digits, scale.power());
    let p = scaled_spec(side, scale);
    if w < 1 {
        assert(unit * w <= unit * p) by (nonlinear_arith)
            requires
                w <= p,
                unit >= 1,
        ;
    }
    if w > p {
        assert(unit * w >= unit * p) by (nonlinear_arith)
            requires
                w >= p,
                unit >= 1,
        ;
    }
}

} // verus!
