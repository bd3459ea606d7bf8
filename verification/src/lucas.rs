//! Powers modulo a number, the order of a residue, and the criterion of
//! Lucas, by which a number is shown to be prime from the powers of a single
//! base.

use crate::factor::{all_prime, lemma_prime_divisor_is_factor, product};
use crate::primality::{
    divides, is_prime, lemma_divides_combination, lemma_divides_quotient, lemma_divisor_bound,
    lemma_multiple_divides, lemma_prime_divisor_exists,
};
use vstd::arithmetic::div_mod::{
    lemma_fundamental_div_mod, lemma_fundamental_div_mod_converse_div,
    lemma_fundamental_div_mod_converse_mod, lemma_mod_bound, lemma_mul_mod_noop_general,
    lemma_small_mod,
};
use vstd::arithmetic::mul::{lemma_mul_is_associative, lemma_mul_is_commutative};
use vstd::prelude::*;
use vstd::set_lib::{lemma_int_range, lemma_map_size, lemma_subset_equality, set_int_range};

verus! {

/// The remainder of `a` to the power `e` on division by `n`.
#[verifier::opaque]
pub open spec fn power_mod(a: int, e: nat, n: int) -> int
    decreases e,
{
    if e == 0 {
        1int % n
    } else {
        (a * power_mod(a, (e - 1) as nat, n)) % n
    }
}

/// A power modulo `n` is a remainder: it lies from 0 up to `n`, exclusive.
pub proof fn lemma_power_mod_bound(a: int, e: nat, n: int)
    requires
        n > 0,
    ensures
        0 <= power_mod(a, e, n) < n,
{
    reveal(power_mod);
    if e == 0 {
        lemma_mod_bound(1, n);
    } else {
        lemma_mod_bound(a * power_mod(a, (e - 1) as nat, n), n);
    }
}

/// The power with exponent 0 is 1.
pub proof fn lemma_power_mod_zero(a: int, n: int)
    requires
        n >= 2,
    ensures
        power_mod(a, 0, n) == 1,
{
    reveal(power_mod);
    lemma_small_mod(1, n as nat);
}

/// The power with exponent 1 is the remainder of the base.
pub proof fn lemma_power_mod_one(a: int, n: int)
    requires
        n > 0,
    ensures
        power_mod(a, 1, n) == a % n,
{
    reveal_with_fuel(power_mod, 2);
    lemma_mul_mod_noop_general(a, 1, n);
    assert(a * 1 == a);
}

/// Raising the exponent by 1 multiplies by the base.
pub proof fn lemma_power_mod_next(a: int, e: nat, n: int)
    requires
        n > 0,
    ensures
        power_mod(a, e + 1, n) == (a * power_mod(a, e, n)) % n,
{
    reveal(power_mod);
    assert((e + 1 - 1) as nat == e);
}

/// Exponents add where powers are multiplied.
pub proof fn lemma_power_mod_add(a: int, e1: nat, e2: nat, n: int)
    requires
        n > 0,
    ensures
        power_mod(a, e1 + e2, n) == (power_mod(a, e1, n) * power_mod(a, e2, n)) % n,
    decreases e1,
{
    let y = power_mod(a, e2, n);
    lemma_power_mod_bound(a, e2, n);
    if e1 == 0 {
        reveal(power_mod);
        lemma_mul_mod_noop_general(1, y, n);
        lemma_small_mod(y as nat, n as nat);
        assert(1 * y == y);
    } else {
        let x = power_mod(a, (e1 - 1) as nat, n);
        lemma_power_mod_add(a, (e1 - 1) as nat, e2, n);
        lemma_power_mod_next(a, (e1 - 1) as nat, n);
        lemma_power_mod_next(a, ((e1 - 1) + e2) as nat, n);
        assert(((e1 - 1) + e2) as nat + 1 == e1 + e2);
        assert((e1 - 1) as nat + 1 == e1);
        lemma_mul_mod_noop_general(a, x * y, n);
        lemma_mul_is_associative(a, x, y);
        lemma_mul_mod_noop_general(a * x, y, n);
    }
}

/// One squaring step of an exponentiation: from the power `v` with exponent
/// `e` to the power `w` with exponent `2 * e`, where `q` is the quotient of
/// `v * v` by `n` and `w` its remainder.
pub proof fn lemma_square_step(a: int, e: nat, n: int, v: int, q: int, w: int)
    requires
        n > 0,
        power_mod(a, e, n) == v,
        v * v == q * n + w,
        0 <= w < n,
    ensures
        power_mod(a, 2 * e, n) == w,
{
    lemma_power_mod_add(a, e, e, n);
    lemma_fundamental_div_mod_converse_mod(v * v, n, q, w);
}

/// One multiplying step of an exponentiation: from the power `v` with
/// exponent `e` to the power `w` with exponent `e + 1`, where `q` is the
/// quotient of `a * v` by `n` and `w` its remainder.
pub proof fn lemma_multiply_step(a: int, e: nat, n: int, v: int, q: int, w: int)
    requires
        n > 0,
        power_mod(a, e, n) == v,
        a * v == q * n + w,
        0 <= w < n,
    ensures
        power_mod(a, e + 1, n) == w,
{
    lemma_power_mod_next(a, e, n);
    lemma_fundamental_div_mod_converse_mod(a * v, n, q, w);
}

/// A power that is 1 stays 1 when its exponent is multiplied.
pub proof fn lemma_power_mod_multiple(a: int, o: nat, t: nat, n: int)
    requires
        n >= 2,
        power_mod(a, o, n) == 1,
    ensures
        power_mod(a, o * t, n) == 1,
    decreases t,
{
    if t == 0 {
        assert(o * t == 0) by (nonlinear_arith)
            requires
                t == 0,
        ;
        lemma_power_mod_zero(a, n);
    } else {
        let s = (t - 1) as nat;
        lemma_power_mod_multiple(a, o, s, n);
        lemma_power_mod_add(a, o * s, o, n);
        assert(o * s + o == o * t) by (nonlinear_arith)
            requires
                s + 1 == t,
        ;
        lemma_small_mod(1, n as nat);
    }
}

/// `o` is the order of `a` modulo `n`: the smallest exponent from 1 on
/// with which the power of `a` is 1.
pub open spec fn is_order(a: int, n: int, o: nat) -> bool {
    &&& o >= 1
    &&& power_mod(a, o, n) == 1
    &&& forall|e: nat| 1 <= e < o ==> #[trigger] power_mod(a, e, n) != 1
}

/// A base of which some power is 1 has an order, which is no larger than
/// the exponent of that power.
pub proof fn lemma_order_exists(a: int, n: int, k: nat) -> (o: nat)
    requires
        k >= 1,
        power_mod(a, k, n) == 1,
    ensures
        is_order(a, n, o),
        o <= k,
    decreases k,
{
    if exists|e: nat| 1 <= e < k && #[trigger] power_mod(a, e, n) == 1 {
        let e = choose|e: nat| 1 <= e < k && #[trigger] power_mod(a, e, n) == 1;
        lemma_order_exists(a, n, e)
    } else {
        k
    }
}

/// The order divides every exponent with which the power is 1.
pub proof fn lemma_order_divides(a: int, n: int, o: nat, k: nat)
    requires
        n >= 2,
        is_order(a, n, o),
        power_mod(a, k, n) == 1,
    ensures
        divides(o as int, k as int),
{
    let t = (k as int) / (o as int);
    let r = (k as int) % (o as int);
    lemma_fundamental_div_mod(k as int, o as int);
    lemma_mod_bound(k as int, o as int);
    assert(t >= 0) by (nonlinear_arith)
        requires
            k == o * t + r,
            0 <= r < o,
            k >= 0,
    ;
    lemma_power_mod_multiple(a, o, t as nat, n);
    lemma_power_mod_add(a, o * (t as nat), r as nat, n);
    lemma_power_mod_bound(a, r as nat, n);
    lemma_small_mod(power_mod(a, r as nat, n) as nat, n as nat);
    assert(1 * power_mod(a, r as nat, n) == power_mod(a, r as nat, n));
    assert(power_mod(a, r as nat, n) == 1);
}

/// Below the order, each power has an inverse: a number with which its
/// product leaves the remainder 1.
pub proof fn lemma_power_has_inverse(a: int, n: int, o: nat, i: nat) -> (w: int)
    requires
        n >= 2,
        is_order(a, n, o),
        i <= o,
    ensures
        (power_mod(a, i, n) * w) % n == 1,
{
    lemma_power_mod_add(a, i, (o - i) as nat, n);
    assert(i + (o - i) as nat == o);
    power_mod(a, (o - i) as nat, n)
}

/// Below the order, different exponents give different powers.
pub proof fn lemma_powers_distinct(a: int, n: int, o: nat, i: nat, j: nat)
    requires
        n >= 2,
        is_order(a, n, o),
        i < j < o,
    ensures
        power_mod(a, i, n) != power_mod(a, j, n),
{
    if power_mod(a, i, n) == power_mod(a, j, n) {
        // Multiplying both by the inverse of the larger power gives a power
        // that is 1 with an exponent below the order.
        let back = (o - j) as nat;
        lemma_power_mod_add(a, j, back, n);
        lemma_power_mod_add(a, i, back, n);
        assert(j + back == o);
        assert(1 <= i + back < o);
        assert(power_mod(a, i + back, n) == 1);
    }
}

/// A number that has an inverse modulo `n` has no divisor above 1 in common
/// with `n`.
pub proof fn lemma_invertible_shares_no_divisor(d: int, w: int, n: int)
    requires
        n >= 2,
        d > 1,
        (d * w) % n == 1,
    ensures
        !divides(d, n),
{
    if divides(d, n) {
        let k = (d * w) / n;
        lemma_fundamental_div_mod(d * w, n);
        lemma_multiple_divides(d, w);
        lemma_divides_combination(d, d * w, n, k);
        assert(d * w - k * n == 1) by (nonlinear_arith)
            requires
                d * w == n * k + 1,
        ;
        lemma_divisor_bound(d, 1);
    }
}

/// Where the order of `a` modulo `n` is `n - 1`, the powers of `a` run
/// through every remainder from 1 to `n - 1`.
proof fn lemma_full_order_reaches_all(a: int, n: int, d: int) -> (i: nat)
    requires
        n >= 2,
        is_order(a, n, (n - 1) as nat),
        1 <= d < n,
    ensures
        i < n - 1,
        power_mod(a, i, n) == d,
{
    let o = (n - 1) as nat;
    let f = |i: int| power_mod(a, i as nat, n);
    let exponents = set_int_range(0, n - 1);
    let reached = exponents.map(f);
    let targets = set_int_range(1, n);
    lemma_int_range(0, n - 1);
    lemma_int_range(1, n);
    assert forall|x: int, y: int|
        exponents.contains(x) && exponents.contains(y) && #[trigger] f(x) == #[trigger] f(
            y,
        ) implies x == y by {
        if x < y {
            lemma_powers_distinct(a, n, o, x as nat, y as nat);
        } else if y < x {
            lemma_powers_distinct(a, n, o, y as nat, x as nat);
        }
    }
    lemma_map_size(exponents, reached, f);
    assert forall|v: int| reached.contains(v) implies targets.contains(v) by {
        let x = choose|x: int| exponents.contains(x) && v == f(x);
        lemma_power_mod_bound(a, x as nat, n);
        let w = lemma_power_has_inverse(a, n, o, x as nat);
        if v == 0 {
            assert(v * w == 0) by (nonlinear_arith)
                requires
                    v == 0,
            ;
            lemma_small_mod(0, n as nat);
        }
    }
    lemma_subset_equality(reached, targets);
    assert(targets.contains(d));
    assert(reached.contains(d));
    let x = choose|x: int| exponents.contains(x) && d == f(x);
    x as nat
}

/// The criterion of Lucas. Let `factors` be the prime factors of `n - 1`.
/// If the power of some base `a` with exponent `n - 1` is 1 modulo `n`, but
/// its power with exponent `(n - 1) / q` is not, for each factor `q`, then
/// `n` is prime.
pub proof fn lemma_lucas_criterion(n: int, a: int, factors: Seq<u64>)
    requires
        n >= 2,
        all_prime(factors),
        product(factors) == n - 1,
        power_mod(a, (n - 1) as nat, n) == 1,
        forall|i: int|
            0 <= i < factors.len() ==> power_mod(
                a,
                ((n - 1) / (#[trigger] factors[i] as int)) as nat,
                n,
            ) != 1,
    ensures
        is_prime(n),
{
    let full = (n - 1) as nat;
    let o = lemma_order_exists(a, n, full);
    lemma_order_divides(a, n, o, full);
    if o < full {
        // The order misses a prime factor of n - 1, so the power with that
        // factor taken out of the exponent is 1 already.
        let m = (full as int) / (o as int);
        lemma_divides_quotient(o as int, full as int);
        assert(m >= 2) by (nonlinear_arith)
            requires
                full == o * m,
                1 <= o < full,
        ;
        let q = lemma_prime_divisor_exists(m);
        lemma_divides_quotient(q, m);
        let rest = m / q;
        assert(full == q * (o * rest) && rest >= 1) by (nonlinear_arith)
            requires
                full == o * m,
                m == q * rest,
                m >= 2,
                q >= 2,
        ;
        lemma_multiple_divides(q, o * rest);
        let i = lemma_prime_divisor_is_factor(q, factors);
        lemma_fundamental_div_mod_converse_mod(full as int, q, o * rest, 0);
        lemma_fundamental_div_mod_converse_div(full as int, q, o * rest, 0);
        lemma_mul_is_commutative(q, o * rest);
        assert((n - 1) / (factors[i] as int) == o * rest);
        lemma_power_mod_multiple(a, o, rest as nat, n);
        assert(false);
    }
    assert forall|d: int| 1 < d < n implies !#[trigger] divides(d, n) by {
        let i = lemma_full_order_reaches_all(a, n, d);
        let w = lemma_power_has_inverse(a, n, o, i);
        lemma_invertible_shares_no_divisor(d, w, n);
    }
}

} // verus!
