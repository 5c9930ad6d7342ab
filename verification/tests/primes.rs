use prime_time::primality::{is_prime, JsonNumber};

fn integral(n: i64) -> JsonNumber {
    JsonNumber {
        trunc: n,
        integral: true,
    }
}

#[test]
fn small_primes_are_prime() {
    assert!(is_prime(integral(2)));
    assert!(is_prime(integral(3)));
    assert!(is_prime(integral(5)));
    assert!(is_prime(integral(7)));
    assert!(is_prime(integral(11)));
    assert!(is_prime(integral(13)));
}

#[test]
fn composites_are_not_prime() {
    assert!(!is_prime(integral(4)));
    assert!(!is_prime(integral(9)));
    assert!(!is_prime(integral(25)));
    assert!(!is_prime(integral(778014)));
}

#[test]
fn large_prime_is_prime() {
    assert!(is_prime(integral(778013)));
    assert!(is_prime(integral(7919)));
}

#[test]
fn values_below_two_are_not_prime() {
    assert!(!is_prime(integral(1)));
    assert!(!is_prime(integral(0)));
    assert!(!is_prime(integral(-1)));
    assert!(!is_prime(integral(-3)));
    assert!(!is_prime(integral(-7919)));
    assert!(!is_prime(integral(i64::MIN)));
}

#[test]
fn non_integral_values_are_not_prime() {
    assert!(!is_prime(JsonNumber {
        trunc: 4224223,
        integral: false
    }));
    assert!(!is_prime(JsonNumber {
        trunc: 7,
        integral: false
    }));
}

#[test]
fn square_boundaries_are_decided_correctly() {
    assert!(!is_prime(integral(49)));
    assert!(is_prime(integral(53)));
    assert!(!is_prime(integral(121)));
}
