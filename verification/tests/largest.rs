use zetik_prime::prime_factors;
use zetik_prime::LARGEST_PRIME;

fn power_mod(a: u64, e: u64, n: u64) -> u64 {
    let mut result: u128 = 1 % n as u128;
    let mut base: u128 = a as u128 % n as u128;
    let mut e = e;
    while e > 0 {
        if e & 1 == 1 {
            result = result * base % n as u128;
        }
        base = base * base % n as u128;
        e >>= 1;
    }
    result as u64
}

#[test]
fn largest_prime_is_59_below_two_to_the_64() {
    assert_eq!(LARGEST_PRIME, 18446744073709551557);
    assert_eq!(LARGEST_PRIME, u64::MAX - 58);
}

#[test]
fn largest_prime_has_no_small_divisor() {
    for d in 2..2_000_000u64 {
        assert!(LARGEST_PRIME % d != 0);
    }
}

#[test]
fn two_has_full_order_modulo_the_largest_prime() {
    let n = LARGEST_PRIME;
    assert_eq!(power_mod(2, n - 1, n), 1);
    for q in [2, 11, 137, 547, 5594472617641] {
        assert_eq!((n - 1) % q, 0);
        assert!(power_mod(2, (n - 1) / q, n) != 1);
    }
    assert_eq!(4 * 11 * 137 * 547 * 5594472617641, n - 1);
}

#[test]
fn thirteen_has_full_order_modulo_the_cofactor() {
    let n: u64 = 5594472617641;
    assert_eq!(prime_factors(n - 1), [2, 2, 2, 3, 5, 1427, 2131, 15331]);
    assert_eq!(power_mod(13, n - 1, n), 1);
    for q in [2, 3, 5, 1427, 2131, 15331] {
        assert!(power_mod(13, (n - 1) / q, n) != 1);
    }
}

#[test]
fn numbers_above_the_largest_prime_have_small_divisors() {
    for n in LARGEST_PRIME + 1..=u64::MAX {
        let mut d = 2;
        while n % d != 0 {
            d += 1;
        }
        assert!(d <= 139_646_831);
        if n == u64::MAX {
            break;
        }
    }
}
