//! The lazy sequence of primes.

use crate::largest::{lemma_prime_above_fits, LARGEST_PRIME};
use crate::primality::{
    divides, is_least_prime_above, is_prime, lemma_even_not_prime, lemma_prime_by_smaller_primes,
    lemma_prime_by_trial_division, lemma_prime_is_two_or_odd, lemma_two_is_least_prime,
};
use vstd::math::max;
use vstd::prelude::*;
use vstd::std_specs::cmp::PartialEqSpec;

verus! {

/// `s` lists, in increasing order and without gaps, every prime up to its
/// last element.
pub open spec fn is_prime_run(s: Seq<u64>) -> bool {
    &&& forall|i: int| 0 <= i < s.len() ==> is_prime(#[trigger] s[i] as int)
    &&& forall|i: int, j: int| 0 <= i < j < s.len() ==> s[i] < s[j]
    &&& forall|q: int|
        #[trigger] is_prime(q) && s.len() > 0 && q <= s.last() ==> exists|i: int|
            0 <= i < s.len() && s[i] == q
}

/// The value above which the prime after `s` is sought: the last element of
/// `s`, or 0 where `s` is empty.
pub open spec fn frontier_of(s: Seq<u64>) -> int {
    if s.len() == 0 {
        0
    } else {
        s.last() as int
    }
}

/// A generator of the primes in increasing order, which keeps every prime it
/// has produced.
#[derive(Debug)]
pub struct PrimeIter {
    primes: Vec<u64>,
}

impl View for PrimeIter {
    type V = Seq<u64>;

    /// The primes produced so far, oldest first.
    closed spec fn view(&self) -> Seq<u64> {
        self.primes@
    }
}

impl PrimeIter {
    /// The retained primes are the first primes, in order.
    pub open spec fn wf(&self) -> bool {
        is_prime_run(self@)
    }

    /// The most recent prime, or 0 before the first advance.
    pub open spec fn frontier(&self) -> int {
        frontier_of(self@)
    }

    /// Decides whether `cand` is prime by dividing it by the retained primes
    /// in increasing order, up to the first one that exceeds its square root.
    fn survives_trial(&self, cand: u64) -> (b: bool)
        requires
            self.wf(),
            self@.len() > 0,
            cand > self@.last(),
            forall|q: int| self@.last() < q < cand ==> !is_prime(q),
        ensures
            b == is_prime(cand as int),
    {
        let mut i: usize = 0;
        while i < self.primes.len()
            invariant
                self.wf(),
                self@.len() > 0,
                cand > self@.last(),
                i <= self@.len(),
                forall|j: int| 0 <= j < i ==> !divides(#[trigger] self@[j] as int, cand as int),
            decreases self@.len() - i,
        {
            let p: u64 = self.primes[i];
            assert(is_prime(self@[i as int] as int));
            if cand % p == 0 {
                assert(divides(p as int, cand as int));
                return false;
            }
            // `p` exceeds the integer square root of `cand` exactly when
            // `p > cand / p`.
            if p > cand / p {
                proof {
                    let c = cand as int;
                    assert(p * p > c) by (nonlinear_arith)
                        requires
                            p > c / (p as int),
                            p > 0,
                            c >= 0,
                    ;
                    assert forall|q: int| #[trigger] is_prime(q) && q * q <= c implies !divides(
                        q,
                        c,
                    ) by {
                        assert(q < p) by (nonlinear_arith)
                            requires
                                q * q <= c,
                                p * p > c,
                                q >= 0,
                                p >= 0,
                        ;
                        let j = choose|j: int| 0 <= j < self@.len() && self@[j] == q;
                        assert(j < i);
                    }
                    lemma_prime_by_trial_division(c);
                }
                return true;
            }
            i += 1;
        }
        proof {
            let c = cand as int;
            assert forall|q: int| #[trigger] is_prime(q) && q < c implies !divides(q, c) by {
                let j = choose|j: int| 0 <= j < self@.len() && self@[j] == q;
                assert(!divides(self@[j] as int, c));
            }
            lemma_prime_by_smaller_primes(c);
        }
        true
    }

    /// Produces the next prime and retains it: 2 on the first call, and
    /// afterwards the smallest prime above the one produced before.
    ///
    /// Returns `None`, and leaves the sequence as it was, once no further
    /// prime fits in a `u64`: that is, once `LARGEST_PRIME` has been produced.
    pub fn next(&mut self) -> (r: Option<u64>)
        requires
            old(self).wf(),
        ensures
            final(self).wf(),
            r is Some <==> old(self).frontier() < LARGEST_PRIME,
            match r {
                Some(p) => {
                    &&& is_least_prime_above(p as int, old(self).frontier())
                    &&& old(self)@.len() == 0 ==> p == 2
                    &&& final(self)@ == old(self)@.push(p)
                },
                None => final(self)@ == old(self)@,
            },
    {
        proof {
            lemma_prime_above_fits(self.frontier());
        }
        let n = self.primes.len();
        if n == 0 {
            proof {
                lemma_two_is_least_prime();
            }
            self.primes.push(2);
            assert(is_prime_run(self@));
            return Some(2);
        }
        let last: u64 = self.primes[n - 1];
        assert(is_prime(self@[n - 1] as int));
        let mut cand: u64 = 3;
        if last >= 3 {
            proof {
                lemma_prime_is_two_or_odd(last as int);
            }
            if last > u64::MAX - 2 {
                return None;
            }
            proof {
                lemma_even_not_prime(last + 1);
            }
            cand = last + 2;
        }
        loop
            invariant
                self.wf(),
                self@ == old(self)@,
                self@.len() > 0,
                last == self@.last(),
                cand > last,
                cand % 2 == 1,
                forall|q: int| last < q < cand ==> !is_prime(q),
                (exists|q: int| #[trigger] is_prime(q) && last < q <= u64::MAX) <==> last
                    < LARGEST_PRIME,
            decreases u64::MAX - cand,
        {
            if self.survives_trial(cand) {
                self.primes.push(cand);
                proof {
                    let s = self@;
                    assert forall|q: int|
                        #[trigger] is_prime(q) && s.len() > 0 && q <= s.last() implies exists|
                        i: int,
                    |
                        0 <= i < s.len() && s[i] == q by {
                        if q == cand {
                            assert(s[s.len() - 1] == q);
                        } else {
                            let i = choose|i: int|
                                0 <= i < old(self)@.len() && old(self)@[i] == q;
                            assert(s[i] == q);
                        }
                    }
                    assert(is_prime_run(s));
                }
                return Some(cand);
            }
            if cand > u64::MAX - 2 {
                return None;
            }
            proof {
                lemma_even_not_prime(cand + 1);
            }
            cand += 2;
        }
    }

    /// Advances until the prime produced exceeds `num`, and returns that
    /// prime. Every prime passed on the way is retained.
    ///
    /// From a sequence that has not yet gone beyond `num` the result is the
    /// smallest prime above `num`; in general it is the smallest prime above
    /// both `num` and the primes produced before. Such a prime has to fit
    /// in a `u64`, so neither may have reached `LARGEST_PRIME`.
    pub fn next_after(&mut self, num: u64) -> (r: u64)
        requires
            old(self).wf(),
            num < LARGEST_PRIME,
            old(self).frontier() < LARGEST_PRIME,
        ensures
            final(self).wf(),
            is_least_prime_above(r as int, max(num as int, old(self).frontier())),
            old(self).frontier() <= num ==> is_least_prime_above(r as int, num as int),
            final(self)@.len() > old(self)@.len(),
            final(self)@.subrange(0, old(self)@.len() as int) == old(self)@,
            final(self)@.last() == r,
    {
        proof {
            lemma_prime_above_fits(max(num as int, self.frontier()));
        }
        let ghost reach = choose|q: int|
            #[trigger] is_prime(q) && max(num as int, old(self).frontier()) < q <= u64::MAX;
        loop
            invariant
                self.wf(),
                self@.len() >= old(self)@.len(),
                self@.subrange(0, old(self)@.len() as int) == old(self)@,
                self.frontier() == old(self).frontier() || (old(self).frontier() < self.frontier()
                    <= num),
                is_prime(reach),
                max(num as int, self.frontier()) < reach <= u64::MAX,
            decreases reach - self.frontier(),
        {
            let ghost before = self@;
            proof {
                lemma_prime_above_fits(self.frontier());
            }
            let produced = self.next();
            let next: u64 = produced.unwrap();
            assert(self@.subrange(0, old(self)@.len() as int) == before.subrange(
                0,
                old(self)@.len() as int,
            ));
            if next > num {
                return next;
            }
        }
    }

    /// Advances while `f` holds of the prime produced. The first prime of
    /// which `f` does not hold is dropped again, and the prime retained
    /// before it is returned: `None` if nothing is retained then.
    ///
    /// The sequence is left so that the next advance produces the dropped
    /// prime again. `f` has to fail on some prime that is still to come and
    /// fits in a `u64`.
    pub fn last_where<F>(&mut self, f: F) -> (r: Option<u64>) where F: Fn(u64) -> bool
        requires
            old(self).wf(),
            forall|x: u64|
                is_prime(x as int) && x > old(self).frontier() ==> #[trigger] f.requires((x,)),
            exists|q: u64|
                {
                    &&& #[trigger] is_prime(q as int)
                    &&& q > old(self).frontier()
                    &&& forall|b: bool| f.ensures((q,), b) ==> !b
                },
        ensures
            final(self).wf(),
            final(self)@.len() >= old(self)@.len(),
            final(self)@.subrange(0, old(self)@.len() as int) == old(self)@,
            forall|i: int|
                old(self)@.len() <= i < final(self)@.len() ==> f.ensures(
                    (#[trigger] final(self)@[i],),
                    true,
                ),
            exists|stop: u64|
                {
                    &&& #[trigger] is_least_prime_above(stop as int, final(self).frontier())
                    &&& f.ensures((stop,), false)
                },
            r == if final(self)@.len() == 0 {
                None
            } else {
                Some(final(self)@.last())
            },
    {
        let ghost reach = choose|q: u64|
            {
                &&& #[trigger] is_prime(q as int)
                &&& q > old(self).frontier()
                &&& forall|b: bool| f.ensures((q,), b) ==> !b
            };
        loop
            invariant
                self.wf(),
                self@.len() >= old(self)@.len(),
                self@.subrange(0, old(self)@.len() as int) == old(self)@,
                self.frontier() >= old(self).frontier(),
                forall|x: u64|
                    is_prime(x as int) && x > old(self).frontier() ==> #[trigger] f.requires((x,)),
                forall|i: int|
                    old(self)@.len() <= i < self@.len() ==> f.ensures((#[trigger] self@[i],), true),
                is_prime(reach as int),
                reach > self.frontier(),
                forall|b: bool| f.ensures((reach,), b) ==> !b,
            decreases reach - self.frontier(),
        {
            let ghost before = self@;
            proof {
                lemma_prime_above_fits(self.frontier());
            }
            let produced = self.next();
            let next: u64 = produced.unwrap();
            assert(self@.subrange(0, old(self)@.len() as int) == before.subrange(
                0,
                old(self)@.len() as int,
            ));
            if !f(next) {
                self.primes.pop();
                assert(self@ == before);
                assert(is_least_prime_above(next as int, self.frontier()));
                return self.primes.last().cloned();
            }
        }
    }

    /// Returns `true` if no prime has been produced yet.
    pub fn is_empty(&self) -> (b: bool)
        ensures
            b == (self@.len() == 0),
    {
        self.primes.is_empty()
    }

    /// Returns the number of primes produced and retained.
    pub fn len(&self) -> (n: usize)
        ensures
            n == self@.len(),
    {
        self.primes.len()
    }
}

/// In a run of primes each element is the smallest prime above the one
/// before it, and the first is 2.
pub proof fn lemma_run_step(s: Seq<u64>, i: int)
    requires
        is_prime_run(s),
        0 <= i < s.len(),
    ensures
        is_prime_run(s.take(i)),
        is_least_prime_above(s[i] as int, frontier_of(s.take(i))),
        i == 0 ==> s[i] == 2,
{
    let t = s.take(i);
    assert forall|q: int| #[trigger] is_prime(q) && t.len() > 0 && q <= t.last() implies exists|
        j: int,
    |
        0 <= j < t.len() && t[j] == q by {
        let j = choose|j: int| 0 <= j < s.len() && s[j] == q;
        assert(t[j] == q);
    }
    assert forall|q: int| #[trigger] is_prime(q) && q > frontier_of(t) implies s[i] <= q by {
        if q < s[i] {
            let j = choose|j: int| 0 <= j < s.len() && s[j] == q;
            assert(j < i);
            assert(t.len() > 0 && t[j] <= t.last());
        }
    }
    assert(is_prime(s[i] as int));
    if i == 0 {
        lemma_two_is_least_prime();
    }
}

/// A run of primes is determined by its length: two runs that are equally
/// long hold the same primes.
pub proof fn lemma_run_determined_by_length(a: Seq<u64>, b: Seq<u64>)
    requires
        is_prime_run(a),
        is_prime_run(b),
        a.len() == b.len(),
    ensures
        a == b,
    decreases a.len(),
{
    if a.len() > 0 {
        let k = a.len() - 1;
        lemma_run_step(a, k);
        lemma_run_step(b, k);
        lemma_run_determined_by_length(a.take(k), b.take(k));
        assert(a[k] == b[k]);
        assert(a =~= a.take(k).push(a[k]));
        assert(b =~= b.take(k).push(b[k]));
    } else {
        assert(a =~= b);
    }
}

/// Replay: two sequences that have each advanced the same number of times
/// from their start are equal.
pub proof fn lemma_replay(a: PrimeIter, b: PrimeIter)
    requires
        a.wf(),
        b.wf(),
        a@.len() == b@.len(),
    ensures
        a@ == b@,
        a.eq_spec(&b),
{
    lemma_run_determined_by_length(a@, b@);
}

impl Default for PrimeIter {
    /// The sequence before its first advance: nothing retained.
    fn default() -> (r: Self)
        ensures
            r@ == Seq::<u64>::empty(),
            r.wf(),
    {
        PrimeIter { primes: Vec::new() }
    }
}

impl PartialEq for PrimeIter {
    /// Two sequences are equal when they retain the same primes in the same
    /// order.
    fn eq(&self, other: &Self) -> (r: bool) {
        let same = self.primes == other.primes;
        proof {
            if same {
                assert(self@ =~= other@);
            }
        }
        same
    }
}

impl vstd::std_specs::cmp::PartialEqSpecImpl for PrimeIter {
    open spec fn obeys_eq_spec() -> bool {
        true
    }

    open spec fn eq_spec(&self, other: &Self) -> bool {
        self@ == other@
    }
}

impl Eq for PrimeIter {

}

} // verus!
