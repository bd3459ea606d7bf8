//! Prime factorisation by trial division.

use crate::primality::{
    divides, is_prime, lemma_divides_quotient, lemma_divides_transitive, lemma_divisor_bound,
    lemma_multiple_divides, lemma_prime_divides_prime, lemma_prime_divides_product,
};
use vstd::arithmetic::mul::{lemma_mul_is_associative, lemma_mul_is_commutative};
use vstd::prelude::*;

verus! {

/// The product of the elements of `s`; 1 for the empty sequence.
pub open spec fn product(s: Seq<u64>) -> int
    decreases s.len(),
{
    if s.len() == 0 {
        1
    } else {
        product(s.drop_last()) * (s.last() as int)
    }
}

/// Every element of `s` is prime.
pub open spec fn all_prime(s: Seq<u64>) -> bool {
    forall|i: int| 0 <= i < s.len() ==> is_prime(#[trigger] s[i] as int)
}

/// No element of `s` is smaller than one before it.
pub open spec fn non_decreasing(s: Seq<u64>) -> bool {
    forall|i: int, j: int| 0 <= i <= j < s.len() ==> s[i] <= s[j]
}

/// `s` is the prime factorisation of `n`: primes in non-decreasing order
/// whose product is `n`.
pub open spec fn is_factorization(s: Seq<u64>, n: int) -> bool {
    &&& all_prime(s)
    &&& non_decreasing(s)
    &&& product(s) == n
}

/// Appending a factor multiplies the product by it.
pub proof fn lemma_product_push(s: Seq<u64>, x: u64)
    ensures
        product(s.push(x)) == product(s) * x,
{
    assert(s.push(x).drop_last() == s);
}

/// A product of primes is at least 1, and at least its last factor.
pub proof fn lemma_product_of_primes_bound(s: Seq<u64>)
    requires
        all_prime(s),
    ensures
        product(s) >= 1,
        s.len() > 0 ==> product(s) >= s.last(),
    decreases s.len(),
{
    if s.len() > 0 {
        let init = s.drop_last();
        lemma_product_of_primes_bound(init);
        assert(is_prime(s[s.len() - 1] as int));
        assert(product(init) * s.last() >= s.last()) by (nonlinear_arith)
            requires
                product(init) >= 1,
                s.last() >= 2,
        ;
    }
}

/// A prime that divides a product of primes is one of its factors.
pub proof fn lemma_prime_divisor_is_factor(p: int, s: Seq<u64>) -> (j: int)
    requires
        is_prime(p),
        all_prime(s),
        divides(p, product(s)),
    ensures
        0 <= j < s.len(),
        s[j] == p,
    decreases s.len(),
{
    if s.len() == 0 {
        lemma_divisor_bound(p, 1);
        0
    } else {
        let init = s.drop_last();
        assert(is_prime(s[s.len() - 1] as int));
        lemma_prime_divides_product(p, product(init), s.last() as int);
        if divides(p, s.last() as int) {
            lemma_prime_divides_prime(p, s.last() as int);
            s.len() - 1
        } else {
            lemma_prime_divisor_is_factor(p, init)
        }
    }
}

/// The prime factorisation of a number is unique: two non-decreasing
/// sequences of primes with the same product are equal.
pub proof fn lemma_factorization_is_unique(a: Seq<u64>, b: Seq<u64>, n: int)
    requires
        is_factorization(a, n),
        is_factorization(b, n),
    ensures
        a == b,
    decreases a.len(),
{
    lemma_product_of_primes_bound(a);
    lemma_product_of_primes_bound(b);
    if a.len() == 0 || b.len() == 0 {
        if a.len() > 0 {
            assert(is_prime(a[a.len() - 1] as int));
        }
        if b.len() > 0 {
            assert(is_prime(b[b.len() - 1] as int));
        }
        assert(a =~= b);
    } else {
        let a_init = a.drop_last();
        let b_init = b.drop_last();
        let pa = a.last() as int;
        let pb = b.last() as int;
        assert(is_prime(a[a.len() - 1] as int));
        assert(is_prime(b[b.len() - 1] as int));
        // The largest factor on either side occurs on the other side.
        lemma_mul_is_commutative(product(a_init), pa);
        lemma_multiple_divides(pa, product(a_init));
        let j = lemma_prime_divisor_is_factor(pa, b);
        lemma_mul_is_commutative(product(b_init), pb);
        lemma_multiple_divides(pb, product(b_init));
        let i = lemma_prime_divisor_is_factor(pb, a);
        assert(pa == pb);
        assert(product(a_init) == product(b_init)) by (nonlinear_arith)
            requires
                product(a_init) * pa == product(b_init) * pb,
                pa == pb,
                pa > 0,
        ;
        lemma_factorization_is_unique(a_init, b_init, product(a_init));
        assert(a =~= a_init.push(a.last()));
        assert(b =~= b_init.push(b.last()));
    }
}

/// The smallest divisor above 1 of a number is prime.
proof fn lemma_least_divisor_is_prime(i: int, n: int)
    requires
        i >= 2,
        divides(i, n),
        forall|d: int| 1 < d < i ==> !#[trigger] divides(d, n),
    ensures
        is_prime(i),
{
    assert forall|d: int| 1 < d < i implies !#[trigger] divides(d, i) by {
        if divides(d, i) {
            lemma_divides_transitive(d, i, n);
        }
    }
}

/// Returns the prime factors of `num` with multiplicity, smallest first.
///
/// Each trial divisor from 2 upwards is divided out of the working value as
/// often as it divides it, and recorded once per division, until the working
/// value is 1. For `num == 1` the result is empty. The search never ends for
/// 0, which is therefore excluded.
pub fn prime_factors(num: u64) -> (facts: Vec<u64>)
    requires
        num != 0,
    ensures
        is_factorization(facts@, num as int),
{
    let mut facts: Vec<u64> = Vec::new();
    let mut rest: u64 = num;
    let mut i: u64 = 2;
    loop
        invariant
            rest >= 1,
            i >= 2,
            rest == 1 || i <= rest,
            product(facts@) * rest == num,
            forall|d: int| 1 < d < i ==> !#[trigger] divides(d, rest as int),
            all_prime(facts@),
            non_decreasing(facts@),
            forall|k: int| 0 <= k < facts@.len() ==> #[trigger] facts@[k] <= i,
        ensures
            rest == 1,
        decreases rest - i,
    {
        let ghost entry = rest;
        while rest % i == 0
            invariant
                1 <= rest <= entry,
                i >= 2,
                product(facts@) * rest == num,
                forall|d: int| 1 < d < i ==> !#[trigger] divides(d, rest as int),
                all_prime(facts@),
                non_decreasing(facts@),
                forall|k: int| 0 <= k < facts@.len() ==> #[trigger] facts@[k] <= i,
            decreases rest,
        {
            let ghost before = rest as int;
            let ghost found = facts@;
            proof {
                assert(divides(i as int, before));
                lemma_least_divisor_is_prime(i as int, before);
                lemma_divides_quotient(i as int, before);
                lemma_divisor_bound(i as int, before);
                let after = before / (i as int);
                assert(after < before) by (nonlinear_arith)
                    requires
                        before == i * after,
                        i >= 2,
                        after >= 1,
                ;
                assert forall|d: int| 1 < d < i implies !#[trigger] divides(d, after) by {
                    if divides(d, after) {
                        lemma_mul_is_commutative(i as int, after);
                        lemma_multiple_divides(after, i as int);
                        lemma_divides_transitive(d, after, before);
                    }
                }
                lemma_product_push(found, i);
                lemma_mul_is_associative(product(found), i as int, after);
            }
            rest /= i;
            facts.push(i);
        }
        if rest == 1 {
            break;
        }
        proof {
            // `rest` is above 1 and divides itself, so it lies above every
            // number that has been ruled out as a divisor.
            if rest <= i {
                lemma_multiple_divides(rest as int, 1);
                assert(divides(rest as int, rest as int));
            }
        }
        i += 1;
    }
    facts
}

} // verus!
