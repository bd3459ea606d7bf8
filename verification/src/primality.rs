//! The definition of primality and the facts about divisors that trial
//! division rests on.

use vstd::arithmetic::div_mod::{
    lemma_fundamental_div_mod, lemma_mod_multiples_basic,
};
use vstd::arithmetic::mul::{lemma_mul_is_associative, lemma_mul_is_commutative};
use vstd::prelude::*;

verus! {

/// The positive number `d` divides `n` without remainder.
pub open spec fn divides(d: int, n: int) -> bool {
    d > 0 && n % d == 0
}

/// `n` is at least 2 and no number strictly between 1 and `n` divides it.
pub open spec fn is_prime(n: int) -> bool {
    n >= 2 && forall|d: int| 1 < d < n ==> !#[trigger] divides(d, n)
}

/// `p` is the smallest prime strictly greater than `bound`.
pub open spec fn is_least_prime_above(p: int, bound: int) -> bool {
    &&& is_prime(p)
    &&& p > bound
    &&& forall|q: int| #[trigger] is_prime(q) && q > bound ==> p <= q
}

/// A multiple of `d` is divisible by `d`.
pub proof fn lemma_multiple_divides(d: int, k: int)
    requires
        d > 0,
    ensures
        divides(d, d * k),
{
    lemma_mul_is_commutative(d, k);
    lemma_mod_multiples_basic(k, d);
}

/// What `d` divides is `d` times the quotient.
pub proof fn lemma_divides_quotient(d: int, n: int)
    requires
        divides(d, n),
    ensures
        n == d * (n / d),
{
    lemma_fundamental_div_mod(n, d);
}

/// Divisibility is transitive.
pub proof fn lemma_divides_transitive(a: int, b: int, c: int)
    requires
        divides(a, b),
        divides(b, c),
    ensures
        divides(a, c),
{
    lemma_divides_quotient(a, b);
    lemma_divides_quotient(b, c);
    lemma_mul_is_associative(a, b / a, c / b);
    lemma_multiple_divides(a, (b / a) * (c / b));
}

/// A positive divisor of a positive number is no larger than it.
pub proof fn lemma_divisor_bound(d: int, n: int)
    requires
        d > 0,
        n > 0,
        divides(d, n),
    ensures
        d <= n,
        n / d >= 1,
{
    lemma_divides_quotient(d, n);
    assert(n / d >= 1 && d <= n) by (nonlinear_arith)
        requires
            d > 0,
            n > 0,
            n == d * (n / d),
    ;
}

/// Every number from 2 on has a prime divisor.
pub proof fn lemma_prime_divisor_exists(n: int) -> (p: int)
    requires
        n >= 2,
    ensures
        is_prime(p),
        divides(p, n),
        p <= n,
    decreases n,
{
    if is_prime(n) {
        lemma_multiple_divides(n, 1);
        n
    } else {
        let d = choose|d: int| 1 < d < n && #[trigger] divides(d, n);
        let p = lemma_prime_divisor_exists(d);
        lemma_divides_transitive(p, d, n);
        p
    }
}

/// A number from 2 on that no smaller prime divides is prime.
pub proof fn lemma_prime_by_smaller_primes(n: int)
    requires
        n >= 2,
        forall|p: int| #[trigger] is_prime(p) && p < n ==> !divides(p, n),
    ensures
        is_prime(n),
{
    if !is_prime(n) {
        let d = choose|d: int| 1 < d < n && #[trigger] divides(d, n);
        let p = lemma_prime_divisor_exists(d);
        lemma_divides_transitive(p, d, n);
    }
}

/// Trial division up to the square root: a number from 2 on is prime if no
/// prime whose square does not exceed it divides it.
pub proof fn lemma_prime_by_trial_division(n: int)
    requires
        n >= 2,
        forall|p: int| #[trigger] is_prime(p) && p * p <= n ==> !divides(p, n),
    ensures
        is_prime(n),
{
    if !is_prime(n) {
        let d = choose|d: int| 1 < d < n && #[trigger] divides(d, n);
        let e = n / d;
        lemma_divides_quotient(d, n);
        assert(1 < e < n) by (nonlinear_arith)
            requires
                1 < d < n,
                n == d * e,
        ;
        lemma_mul_is_commutative(d, e);
        lemma_multiple_divides(e, d);
        let m = if d <= e { d } else { e };
        assert(m * m <= n) by (nonlinear_arith)
            requires
                n == d * e,
                d > 1,
                e > 1,
                m == d || m == e,
                m <= d,
                m <= e,
        ;
        let p = lemma_prime_divisor_exists(m);
        lemma_divides_transitive(p, m, n);
        assert(p * p <= n) by (nonlinear_arith)
            requires
                2 <= p <= m,
                m * m <= n,
        ;
    }
}

/// What divides two numbers divides their difference, with one of them
/// taken any number of times.
pub proof fn lemma_divides_combination(d: int, a: int, b: int, k: int)
    requires
        divides(d, a),
        divides(d, b),
    ensures
        divides(d, a - k * b),
{
    lemma_divides_quotient(d, a);
    lemma_divides_quotient(d, b);
    let qa = a / d;
    let qb = b / d;
    assert(a - k * b == d * (qa - k * qb)) by (nonlinear_arith)
        requires
            a == d * qa,
            b == d * qb,
    ;
    lemma_multiple_divides(d, qa - k * qb);
}

/// A prime that divides `r * y`, where `r` lies strictly between 0 and the
/// prime, divides `y`.
proof fn lemma_prime_divides_cofactor(p: int, r: int, y: int)
    requires
        is_prime(p),
        0 < r < p,
        divides(p, r * y),
    ensures
        divides(p, y),
    decreases r,
{
    if r == 1 {
        assert(r * y == y) by (nonlinear_arith)
            requires
                r == 1,
        ;
    } else {
        // p = k * r + s with 0 < s < r, since r does not divide the prime p.
        let k = p / r;
        let s = p % r;
        lemma_fundamental_div_mod(p, r);
        assert(!divides(r, p));
        lemma_mul_is_commutative(p, y);
        lemma_multiple_divides(p, y);
        lemma_divides_combination(p, p * y, r * y, k);
        assert(s * y == p * y - k * (r * y)) by (nonlinear_arith)
            requires
                p == r * k + s,
        ;
        lemma_prime_divides_cofactor(p, s, y);
    }
}

/// Euclid's lemma: a prime that divides a product divides one of the two
/// factors.
pub proof fn lemma_prime_divides_product(p: int, x: int, y: int)
    requires
        is_prime(p),
        divides(p, x * y),
    ensures
        divides(p, x) || divides(p, y),
{
    let r = x % p;
    if r != 0 {
        let k = x / p;
        lemma_fundamental_div_mod(x, p);
        lemma_multiple_divides(p, y);
        lemma_divides_combination(p, x * y, p * y, k);
        assert(r * y == x * y - k * (p * y)) by (nonlinear_arith)
            requires
                x == p * k + r,
        ;
        lemma_prime_divides_cofactor(p, r, y);
    }
}

/// A prime that divides a prime is that prime.
pub proof fn lemma_prime_divides_prime(p: int, q: int)
    requires
        is_prime(p),
        is_prime(q),
        divides(p, q),
    ensures
        p == q,
{
    lemma_divisor_bound(p, q);
}

/// 2 is the smallest prime.
pub proof fn lemma_two_is_least_prime()
    ensures
        is_prime(2),
        forall|b: int| b < 2 ==> is_least_prime_above(2, b),
{
}

/// A prime other than 2 is odd.
pub proof fn lemma_prime_is_two_or_odd(p: int)
    requires
        is_prime(p),
    ensures
        p == 2 || p % 2 == 1,
{
    if p != 2 && p % 2 == 0 {
        assert(divides(2, p));
    }
}

/// An even number above 2 is not prime.
pub proof fn lemma_even_not_prime(n: int)
    requires
        n > 2,
        n % 2 == 0,
    ensures
        !is_prime(n),
{
    assert(divides(2, n));
}

} // verus!
