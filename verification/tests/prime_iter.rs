use zetik_prime::PrimeIter;

/// Primality by the definition: no divisor strictly between 1 and `n`.
fn brute_force_is_prime(n: u64) -> bool {
    if n < 2 {
        return false;
    }
    let mut d = 2;
    while d < n {
        if n % d == 0 {
            return false;
        }
        d += 1;
    }
    true
}

fn advance(primes: &mut PrimeIter, times: usize) -> Vec<u64> {
    let mut produced = Vec::new();
    for _ in 0..times {
        produced.push(primes.next().unwrap());
    }
    produced
}

#[test]
fn first_prime_is_two() {
    let mut primes = PrimeIter::default();
    assert_eq!(primes.next(), Some(2));
}

#[test]
fn second_prime_is_three() {
    let mut primes = PrimeIter::default();
    primes.next();
    assert_eq!(primes.next(), Some(3));
}

#[test]
fn five_primes_after_two() {
    let mut primes = PrimeIter::default();
    assert_eq!(primes.next(), Some(2));
    assert_eq!(advance(&mut primes, 5), [3, 5, 7, 11, 13]);
}

#[test]
fn first_twenty_five_primes() {
    let mut primes = PrimeIter::default();
    assert_eq!(
        advance(&mut primes, 25),
        [
            2, 3, 5, 7, 11, 13, 17, 19, 23, 29, 31, 37, 41, 43, 47, 53, 59, 61, 67, 71, 73, 79,
            83, 89, 97
        ]
    );
}

#[test]
fn squares_of_primes_are_rejected() {
    // 9, 25, 49, 121 and 169 are divisible only by the prime at their square root.
    let mut primes = PrimeIter::default();
    let produced = advance(&mut primes, 40);
    for square in [9, 25, 49, 121, 169] {
        assert!(!produced.contains(&square));
    }
    assert_eq!(produced[39], 173);
}

#[test]
fn advances_are_strictly_increasing() {
    let mut primes = PrimeIter::default();
    let produced = advance(&mut primes, 2000);
    assert_eq!(produced[0], 2);
    for pair in produced.windows(2) {
        assert!(pair[0] < pair[1]);
    }
}

#[test]
fn advances_agree_with_brute_force() {
    let mut primes = PrimeIter::default();
    let produced = advance(&mut primes, 600);
    let mut expected = Vec::new();
    let mut n = 0;
    while expected.len() < 600 {
        if brute_force_is_prime(n) {
            expected.push(n);
        }
        n += 1;
    }
    assert_eq!(produced, expected);
}

#[test]
fn thousandth_prime() {
    let mut primes = PrimeIter::default();
    let produced = advance(&mut primes, 1000);
    assert_eq!(produced[999], 7919);
}

#[test]
fn ten_thousandth_prime() {
    let mut primes = PrimeIter::default();
    let produced = advance(&mut primes, 10_000);
    assert_eq!(produced[9_999], 104_729);
}

#[test]
fn empty_until_first_advance() {
    let mut primes = PrimeIter::default();
    assert_eq!(primes.is_empty(), true);
    assert_eq!(primes.len(), 0);
    primes.next();
    assert_eq!(primes.is_empty(), false);
    assert_eq!(primes.len(), 1);
}

#[test]
fn len_counts_advances() {
    let mut primes = PrimeIter::default();
    for k in 0..300 {
        assert_eq!(primes.len(), k);
        assert_eq!(primes.is_empty(), k == 0);
        primes.next();
    }
    assert_eq!(primes.len(), 300);
}

#[test]
fn len_after_hundred_and_one_advances() {
    let mut primes = PrimeIter::default();
    advance(&mut primes, 101);
    assert_eq!(primes.len(), 101);
}

#[test]
fn next_after_thousand() {
    let res = PrimeIter::default().next_after(1000);
    assert_eq!(res, 1009);
}

#[test]
fn next_after_zero_and_one() {
    assert_eq!(PrimeIter::default().next_after(0), 2);
    assert_eq!(PrimeIter::default().next_after(1), 2);
}

#[test]
fn next_after_a_prime_skips_it() {
    assert_eq!(PrimeIter::default().next_after(2), 3);
    assert_eq!(PrimeIter::default().next_after(97), 101);
    assert_eq!(PrimeIter::default().next_after(7919), 7927);
}

#[test]
fn next_after_is_smallest_prime_above() {
    for bound in 0..400 {
        let mut expected = bound + 1;
        while !brute_force_is_prime(expected) {
            expected += 1;
        }
        assert_eq!(PrimeIter::default().next_after(bound), expected);
    }
}

#[test]
fn next_after_retains_what_it_passes() {
    let mut primes = PrimeIter::default();
    assert_eq!(primes.next_after(20), 23);
    assert_eq!(primes.len(), 9);
    assert_eq!(primes.next(), Some(29));
}

#[test]
fn next_after_always_advances() {
    // Already beyond the bound: the result is the prime after the last one.
    let mut primes = PrimeIter::default();
    advance(&mut primes, 25);
    assert_eq!(primes.next_after(10), 101);
    assert_eq!(primes.len(), 26);
}

#[test]
fn last_where_at_most_hundred() {
    let mut primes = PrimeIter::default();
    let res = primes.last_where(|x| x <= 100).unwrap();
    assert_eq!(res, 97);
    assert_eq!(primes.len(), 25);
    assert_eq!(primes.next(), Some(101));
}

#[test]
fn last_where_failing_at_once_gives_none() {
    let mut primes = PrimeIter::default();
    assert_eq!(primes.last_where(|_| false), None);
    assert!(primes.is_empty());
    assert_eq!(primes.next(), Some(2));
}

#[test]
fn last_where_failing_at_once_keeps_earlier_primes() {
    let mut primes = PrimeIter::default();
    advance(&mut primes, 3);
    assert_eq!(primes.last_where(|_| false), Some(5));
    assert_eq!(primes.len(), 3);
    assert_eq!(primes.next(), Some(7));
}

#[test]
fn last_where_tests_only_new_primes() {
    // The retained primes are never handed to the predicate.
    let mut primes = PrimeIter::default();
    advance(&mut primes, 10);
    assert_eq!(primes.last_where(|x| x > 29 && x < 50), Some(47));
    assert_eq!(primes.next(), Some(53));
}

#[test]
fn last_where_positions_near_a_start_value() {
    let mut primes = PrimeIter::default();
    assert_eq!(primes.last_where(|x| x < 2000 || x <= 2365), Some(2357));
    assert_eq!(primes.next(), Some(2371));
}

#[test]
fn replay_gives_equal_state() {
    for k in [0, 1, 2, 10, 500] {
        let mut a = PrimeIter::default();
        let mut b = PrimeIter::default();
        advance(&mut a, k);
        advance(&mut b, k);
        assert!(a == b);
        assert_eq!(a, b);
    }
}

#[test]
fn different_histories_are_unequal() {
    let mut a = PrimeIter::default();
    let mut b = PrimeIter::default();
    advance(&mut a, 4);
    advance(&mut b, 5);
    assert!(a != b);
    assert!(PrimeIter::default() != b);
}

#[test]
fn seeking_and_stepping_reach_equal_state() {
    let mut a = PrimeIter::default();
    let mut b = PrimeIter::default();
    a.next_after(100);
    advance(&mut b, 26);
    assert_eq!(a, b);
    let mut c = PrimeIter::default();
    c.last_where(|x| x <= 101);
    assert_eq!(a, c);
}
