use mtos_runtime::arith::{calculate_factorial, fibonacci, is_prime};

#[test]
fn factorial_values() {
    assert_eq!(calculate_factorial(0), 1);
    assert_eq!(calculate_factorial(1), 1);
    assert_eq!(calculate_factorial(2), 2);
    assert_eq!(calculate_factorial(5), 120);
    assert_eq!(calculate_factorial(10), 3628800);
    assert_eq!(calculate_factorial(12), 479001600);
}

#[test]
fn fibonacci_values() {
    let first: Vec<u32> = (0..10).map(fibonacci).collect();
    assert_eq!(first, vec![0, 1, 1, 2, 3, 5, 8, 13, 21, 34]);
    assert_eq!(fibonacci(20), 6765);
    assert_eq!(fibonacci(47), 2971215073);
}

#[test]
fn primes_below_twenty() {
    let primes: Vec<u32> = (0..20).filter(|n| is_prime(*n)).collect();
    assert_eq!(primes, vec![2, 3, 5, 7, 11, 13, 17, 19]);
}

#[test]
fn primes_and_composites_far_out() {
    assert!(is_prime(7919));
    assert!(!is_prime(7917));
    assert!(is_prime(65537));
    assert!(!is_prime(65535 * 65535));
    assert!(!is_prime(4294836225));
    assert!(is_prime(4294967291));
    assert!(!is_prime(u32::MAX));
    assert!(!is_prime(4294049777));
}
