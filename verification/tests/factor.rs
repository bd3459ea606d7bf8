use zetik_prime::prime_factors;
use zetik_prime::PrimeIter;

#[test]
fn factors_of_126() {
    assert_eq!(prime_factors(126), [2, 3, 3, 7]);
}

#[test]
fn factors_of_12345() {
    assert_eq!(prime_factors(12345), [3, 5, 823]);
}

#[test]
fn factors_of_first_five_primes() {
    assert_eq!(prime_factors(2 * 3 * 5 * 7 * 11), [2, 3, 5, 7, 11]);
}

#[test]
fn one_has_no_factors() {
    assert_eq!(prime_factors(1), Vec::<u64>::new());
}

#[test]
fn a_prime_is_its_only_factor() {
    assert_eq!(prime_factors(2), [2]);
    assert_eq!(prime_factors(97), [97]);
    assert_eq!(prime_factors(1_000_003), [1_000_003]);
}

#[test]
fn powers_repeat_the_factor() {
    assert_eq!(prime_factors(1024), [2; 10]);
    assert_eq!(prime_factors(243), [3; 5]);
    assert_eq!(prime_factors(1 << 63), [2; 63]);
}

#[test]
fn factors_of_the_largest_u64() {
    assert_eq!(prime_factors(u64::MAX), [3, 5, 17, 257, 641, 65537, 6700417]);
}

#[test]
fn product_of_factors_is_the_number() {
    for n in 1..3000u64 {
        let facts = prime_factors(n);
        assert_eq!(facts.iter().product::<u64>(), n);
    }
}

#[test]
fn factors_are_sorted_primes() {
    let mut primes = PrimeIter::default();
    let mut known = Vec::new();
    while known.len() < 500 {
        known.push(primes.next().unwrap());
    }
    for n in 1..3000u64 {
        let facts = prime_factors(n);
        for pair in facts.windows(2) {
            assert!(pair[0] <= pair[1]);
        }
        for f in &facts {
            assert!(known.contains(f));
        }
    }
}
