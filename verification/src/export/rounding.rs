//! Whole numbers as floating point has them: rounded to so many leading binary
//! digits, to the nearest, and to the even one in the middle.

use vstd::prelude::*;

verus! {

/// The first whole number that a double cannot tell from its neighbor.
pub const DOUBLE_LIMIT: u64 = 0x20_0000_0000_0000;

/// The first whole number that a single cannot tell from its neighbor.
pub const SINGLE_LIMIT: u64 = 0x100_0000;

/// A quotient rounded to the nearest whole number, to the even one in the middle.
pub open spec fn rounded(n: int, d: int) -> int {
    let q = n / d;
    let r = n % d;
    if 2 * r > d || (2 * r == d && q % 2 == 1) {
        q + 1
    } else {
        q
    }
}

/// The step between neighbors round a whole number, where every whole number up to
/// the limit is told apart.
pub open spec fn step(n: nat, limit: nat) -> nat
    decreases n,
{
    if n < limit || n == 0 {
        1
    } else {
        2 * step(n / 2, limit)
    }
}

/// The nearest number that is told apart.
pub open spec fn nearest(n: nat, limit: nat) -> int {
    rounded(n as int, step(n, limit) as int) * step(n, limit)
}

/// A power of two.
pub open spec fn two_to(k: nat) -> nat
    decreases k,
{
    if k == 0 {
        1
    } else {
        2 * two_to((k - 1) as nat)
    }
}

/// Powers of two are positive and grow.
pub proof fn lemma_two_to(j: nat, k: nat)
    requires
        j <= k,
    ensures
        1 <= two_to(j) <= two_to(k),
    decreases k,
{
    if k > j {
        lemma_two_to(j, (k - 1) as nat);
    } else if k > 0 {
        lemma_two_to((j - 1) as nat, (k - 1) as nat);
    }
}

/// The powers of two that bound what is computed with.
pub proof fn lemma_powers()
    ensures
        two_to(1) == 2,
        two_to(23) == 0x80_0000,
        two_to(32) == 0x1_0000_0000,
        two_to(59) == 0x800_0000_0000_0000,
        two_to(63) == 0x8000_0000_0000_0000,
        two_to(64) == 0x1_0000_0000_0000_0000,
{
    reveal_with_fuel(two_to, 9);
    assert(two_to(8) == 0x100);
    assert(two_to(16) == 0x1_0000);
    assert(two_to(23) == 0x80_0000);
    assert(two_to(31) == 0x8000_0000);
    assert(two_to(32) == 0x1_0000_0000);
    assert(two_to(40) == 0x100_0000_0000);
    assert(two_to(48) == 0x1_0000_0000_0000);
    assert(two_to(56) == 0x100_0000_0000_0000);
    assert(two_to(59) == 0x800_0000_0000_0000);
    assert(two_to(63) == 0x8000_0000_0000_0000);
}

/// A power of two.
pub fn power_of_two(k: u32) -> (r: u128)
    requires
        k < 64,
    ensures
        r == two_to(k as nat),
        1 <= r <= 0x8000_0000_0000_0000,
{
    let mut r: u128 = 1;
    let mut i: u32 = 0;
    proof {
        lemma_powers();
    }
    while i < k
        invariant
            i <= k < 64,
            r == two_to(i as nat),
            two_to(63) == 0x8000_0000_0000_0000,
        decreases k - i,
    {
        proof {
            lemma_two_to((i + 1) as nat, 63);
            assert(two_to((i + 1) as nat) == 2 * two_to(i as nat));
        }
        r = r * 2;
        i = i + 1;
    }
    proof {
        lemma_two_to(k as nat, 63);
    }
    r
}

/// A quotient rounded to the nearest whole number, to the even one in the middle.
pub fn round_quotient(n: u128, d: u128) -> (r: u128)
    requires
        0 < d < 0x1_0000_0000_0000_0000,
        n < 0x1_0000_0000_0000_0000_0000,
    ensures
        r == rounded(n as int, d as int),
{
    let q: u128 = n / d;
    let rest: u128 = n % d;
    assert(q <= n) by (nonlinear_arith)
        requires
            q == n / d,
            d > 0,
    ;
    if 2 * rest > d || (2 * rest == d && q % 2 == 1) {
        q + 1
    } else {
        q
    }
}

/// The step is at least one and at most the number, and so many steps as the limit
/// are more than the number.
pub proof fn lemma_step_bound(n: nat, limit: nat)
    requires
        limit >= 2,
    ensures
        step(n, limit) >= 1,
        n < limit ==> step(n, limit) == 1,
        n >= limit ==> step(n, limit) <= n,
        n / step(n, limit) < limit,
    decreases n,
{
    if n >= limit {
        lemma_step_bound(n / 2, limit);
        vstd::arithmetic::div_mod::lemma_div_denominator(
            n as int,
            2,
            step(n / 2, limit) as int,
        );
    } else {
        assert(n / 1 == n);
    }
}

/// A number that is told apart is its own nearest; any other is no further from it
/// than a step.
pub proof fn lemma_nearest(n: nat, limit: nat)
    requires
        limit >= 2,
    ensures
        n < limit ==> nearest(n, limit) == n,
        0 <= nearest(n, limit) <= n + step(n, limit),
        rounded(n as int, step(n, limit) as int) <= limit,
{
    lemma_step_bound(n, limit);
    let s = step(n, limit) as int;
    vstd::arithmetic::div_mod::lemma_fundamental_div_mod(n as int, s);
    let q = n as int / s;
    let r = rounded(n as int, s);
    assert(0 <= q) by (nonlinear_arith)
        requires
            q == n as int / s,
            s > 0,
            n >= 0,
    ;
    assert(0 <= n as int % s < s);
    assert(r == q || r == q + 1);
    assert((q + 1) * s == s * q + s) by (nonlinear_arith);
    assert(q * s == s * q) by (nonlinear_arith);
    assert(0 <= q * s) by (nonlinear_arith)
        requires
            q >= 0,
            s > 0,
    ;
    if n < limit {
        assert(n as int % 1 == 0);
        assert(n as int / 1 == n);
        assert(r == n);
        assert(r * 1 == r);
    }
}

/// Twice a number has twice the nearest.
proof fn lemma_nearest_double(n: nat, limit: nat)
    requires
        limit >= 2,
    ensures
        nearest(2 * n, limit) == 2 * nearest(n, limit),
{
    let s = step(n, limit) as int;
    lemma_step_bound(n, limit);
    lemma_nearest(n, limit);
    lemma_nearest(2 * n, limit);
    if 2 * n >= limit {
        assert((2 * n) / 2 == n);
        assert(step(2 * n, limit) == 2 * s);
        let q = n as int / s;
        let r = n as int % s;
        vstd::arithmetic::div_mod::lemma_fundamental_div_mod(n as int, s);
        assert((2 * s) * q == 2 * (s * q)) by (nonlinear_arith);
        assert(2 * n == q * (2 * s) + 2 * r) by (nonlinear_arith)
            requires
                n == s * q + r,
        ;
        vstd::arithmetic::div_mod::lemma_fundamental_div_mod_converse(
            2 * n as int,
            2 * s,
            q,
            2 * r,
        );
        assert(rounded(2 * n as int, 2 * s) == rounded(n as int, s));
        let t = rounded(n as int, s);
        assert(t * (2 * s) == 2 * (t * s)) by (nonlinear_arith);
    }
}

/// A number times a power of two has as many times the nearest.
pub proof fn lemma_nearest_shift(n: nat, limit: nat, k: nat)
    requires
        limit >= 2,
    ensures
        nearest(n * two_to(k), limit) == nearest(n, limit) * two_to(k),
    decreases k,
{
    if k == 0 {
        assert(n * 1 == n);
    } else {
        let before = two_to((k - 1) as nat);
        lemma_nearest_shift(n, limit, (k - 1) as nat);
        lemma_nearest_double(n * before, limit);
        assert(n * (2 * before) == 2 * (n * before)) by (nonlinear_arith);
        let near = nearest(n, limit);
        assert(near * (2 * before) == 2 * (near * before)) by (nonlinear_arith);
    }
}

/// The step between neighbors round a whole number.
fn step_of(n: u64, limit: u64) -> (s: u64)
    requires
        limit >= 2,
    ensures
        s == step(n as nat, limit as nat),
        s >= 1,
{
    let mut m: u64 = n;
    let mut s: u64 = 1;
    proof {
        lemma_step_bound(n as nat, limit as nat);
    }
    while m >= limit
        invariant
            limit >= 2,
            step(n as nat, limit as nat) == s * step(m as nat, limit as nat),
            step(n as nat, limit as nat) <= u64::MAX,
            s >= 1,
        decreases m,
    {
        proof {
            let rest = step((m / 2) as nat, limit as nat);
            assert(step(m as nat, limit as nat) == 2 * rest);
            assert(s * (2 * rest) == (s * 2) * rest) by (nonlinear_arith);
            lemma_step_bound((m / 2) as nat, limit as nat);
            assert(s * 2 <= (s * 2) * rest) by (nonlinear_arith)
                requires
                    rest >= 1,
            ;
        }
        s = s * 2;
        m = m / 2;
    }
    assert(s * 1 == s);
    s
}

/// The nearest number that is told apart.
pub fn nearest_of(n: u64, limit: u64) -> (r: u128)
    requires
        2 <= limit <= DOUBLE_LIMIT,
    ensures
        r == nearest(n as nat, limit as nat),
        n < limit ==> r == n,
        r <= 2 * n + 1,
{
    let step: u64 = step_of(n, limit);
    let count: u128 = round_quotient(n as u128, step as u128);
    proof {
        lemma_step_bound(n as nat, limit as nat);
        lemma_nearest(n as nat, limit as nat);
        assert(count * step <= 0x20_0000_0000_0000 * 0x1_0000_0000_0000_0000) by (nonlinear_arith)
            requires
                count <= 0x20_0000_0000_0000,
                step <= 0x1_0000_0000_0000_0000,
        ;
    }
    count * step as u128
}

/// A rounded quotient is the whole number nearest to the quotient: no further from it
/// than a half, and even where it is just as far.
pub proof fn law_a_rounded_quotient_is_the_nearest(n: int, d: int)
    requires
        n >= 0,
        d > 0,
    ensures
        ({
            let r = rounded(n, d);
            &&& 2 * (r * d) - d <= 2 * n <= 2 * (r * d) + d
            &&& 2 * n == 2 * (r * d) + d || 2 * n == 2 * (r * d) - d ==> r % 2 == 0
            &&& n % d == 0 ==> r * d == n
        }),
{
    let q = n / d;
    vstd::arithmetic::div_mod::lemma_fundamental_div_mod(n, d);
    vstd::arithmetic::div_mod::lemma_mod_bound(n, d);
    assert(q * d == d * q) by (nonlinear_arith);
    assert((q + 1) * d == d * q + d) by (nonlinear_arith);
}

/// The nearest number that is told apart is a whole number of steps, and no further off
/// than half a step; the steps are as fine as the limit allows.
pub proof fn law_the_nearest_is_within_half_a_step(n: nat, limit: nat)
    requires
        limit >= 2,
    ensures
        ({
            let s = step(n, limit) as int;
            let near = nearest(n, limit);
            &&& s >= 1
            &&& near % s == 0
            &&& 2 * near - s <= 2 * n <= 2 * near + s
            &&& n as int / s < limit
            &&& n < limit ==> s == 1 && near == n
        }),
{
    let s = step(n, limit) as int;
    lemma_step_bound(n, limit);
    lemma_nearest(n, limit);
    law_a_rounded_quotient_is_the_nearest(n as int, s);
    vstd::arithmetic::div_mod::lemma_mod_multiples_basic(rounded(n as int, s), s);
}

/// Where a step is more than one, half of it would not do: the number has at least as
/// many steps as half the limit.
pub proof fn law_steps_are_as_fine_as_they_can_be(n: nat, limit: nat)
    requires
        limit >= 2,
        limit % 2 == 0,
        n >= limit,
    ensures
        n / step(n, limit) >= limit / 2,
        step(n, limit) % 2 == 0,
    decreases n,
{
    lemma_step_bound(n / 2, limit);
    let half = step(n / 2, limit);
    vstd::arithmetic::div_mod::lemma_div_denominator(n as int, 2, half as int);
    if n / 2 >= limit {
        law_steps_are_as_fine_as_they_can_be(n / 2, limit);
    } else {
        assert((n / 2) / 1 == n / 2);
    }
}

/// Each power of two is twice the one before it.
pub proof fn law_powers_of_two_double(k: nat)
    ensures
        two_to(0) == 1,
        two_to(k + 1) == 2 * two_to(k),
{
}

} // verus!
