//! Small number functions on `u32`: factorials, Fibonacci numbers and a
//! primality test.

use vstd::prelude::*;
use vstd::arithmetic::div_mod::{lemma_fundamental_div_mod, lemma_mod_multiples_basic};

verus! {

/// The product of the numbers from 1 to `n`.
pub open spec fn factorial(n: nat) -> nat
    decreases n,
{
    if n == 0 {
        1
    } else {
        n * factorial((n - 1) as nat)
    }
}

/// The `n`-th Fibonacci number, counted from `fib(0) == 0`.
pub open spec fn fib(n: nat) -> nat
    decreases n,
{
    if n < 2 {
        n
    } else {
        fib((n - 1) as nat) + fib((n - 2) as nat)
    }
}

/// Whether `n` is a multiple of `d`.
pub open spec fn divides(d: nat, n: nat) -> bool {
    d > 0 && n % d == 0
}

/// Whether `n` is a prime number.
pub open spec fn is_prime_number(n: nat) -> bool {
    n >= 2 && forall|d: nat| 2 <= d < n ==> !#[trigger] divides(d, n)
}

/// The factorial of 12 is the largest that a `u32` holds.
pub proof fn lemma_factorial_12()
    ensures
        factorial(12) == 479001600,
{
    assert(factorial(0) == 1);
    assert(factorial(1) == 1);
    assert(factorial(2) == 2);
    assert(factorial(3) == 6);
    assert(factorial(4) == 24);
    assert(factorial(5) == 120);
    assert(factorial(6) == 720);
    assert(factorial(7) == 5040);
    assert(factorial(8) == 40320);
    assert(factorial(9) == 362880);
    assert(factorial(10) == 3628800);
    assert(factorial(11) == 39916800);
    assert(factorial(12) == 479001600);
}

/// Factorials do not shrink as the argument grows.
pub proof fn lemma_factorial_grows(i: nat, j: nat)
    requires
        i <= j,
    ensures
        1 <= factorial(i) <= factorial(j),
    decreases j,
{
    if j == 0 {
    } else if i < j {
        lemma_factorial_grows(i, (j - 1) as nat);
        assert(factorial((j - 1) as nat) <= j * factorial((j - 1) as nat)) by (nonlinear_arith)
            requires
                j >= 1,
        ;
    } else {
        lemma_factorial_grows((i - 1) as nat, (j - 1) as nat);
        assert(1 <= j * factorial((j - 1) as nat)) by (nonlinear_arith)
            requires
                j >= 1,
                factorial((j - 1) as nat) >= 1,
        ;
    }
}

/// The factorial of `n`, which a `u32` holds up to `n == 12`.
pub fn calculate_factorial(n: u32) -> (result: u32)
    requires
        n <= 12,
    ensures
        result == factorial(n as nat),
{
    assert(factorial(1) == 1) by {
        assert(factorial(0) == 1);
    }
    if n <= 1 {
        return 1;
    }
    let mut result: u32 = 1;
    let mut i: u32 = 2;
    while i <= n
        invariant
            2 <= i <= n + 1,
            n <= 12,
            result == factorial((i - 1) as nat),
        decreases n + 1 - i,
    {
        proof {
            lemma_factorial_grows(i as nat, 12);
            lemma_factorial_12();
            assert(result * i == i * result) by (nonlinear_arith);
        }
        result = result * i;
        i = i + 1;
    }
    result
}

/// The 47th Fibonacci number is the largest that a `u32` holds.
pub proof fn lemma_fib_47()
    ensures
        fib(47) == 2971215073,
{
    assert(fib(0) == 0);
    assert(fib(1) == 1);
    assert(fib(2) == 1);
    assert(fib(3) == 2);
    assert(fib(4) == 3);
    assert(fib(5) == 5);
    assert(fib(6) == 8);
    assert(fib(7) == 13);
    assert(fib(8) == 21);
    assert(fib(9) == 34);
    assert(fib(10) == 55);
    assert(fib(11) == 89);
    assert(fib(12) == 144);
    assert(fib(13) == 233);
    assert(fib(14) == 377);
    assert(fib(15) == 610);
    assert(fib(16) == 987);
    assert(fib(17) == 1597);
    assert(fib(18) == 2584);
    assert(fib(19) == 4181);
    assert(fib(20) == 6765);
    assert(fib(21) == 10946);
    assert(fib(22) == 17711);
    assert(fib(23) == 28657);
    assert(fib(24) == 46368);
    assert(fib(25) == 75025);
    assert(fib(26) == 121393);
    assert(fib(27) == 196418);
    assert(fib(28) == 317811);
    assert(fib(29) == 514229);
    assert(fib(30) == 832040);
    assert(fib(31) == 1346269);
    assert(fib(32) == 2178309);
    assert(fib(33) == 3524578);
    assert(fib(34) == 5702887);
    assert(fib(35) == 9227465);
    assert(fib(36) == 14930352);
    assert(fib(37) == 24157817);
    assert(fib(38) == 39088169);
    assert(fib(39) == 63245986);
    assert(fib(40) == 102334155);
    assert(fib(41) == 165580141);
    assert(fib(42) == 267914296);
    assert(fib(43) == 433494437);
    assert(fib(44) == 701408733);
    assert(fib(45) == 1134903170);
    assert(fib(46) == 1836311903);
    assert(fib(47) == 2971215073);
}

/// Fibonacci numbers do not shrink as the index grows.
pub proof fn lemma_fib_grows(i: nat, j: nat)
    requires
        i <= j,
    ensures
        fib(i) <= fib(j),
    decreases j,
{
    if i < j {
        lemma_fib_grows(i, (j - 1) as nat);
    }
}

/// The `n`-th Fibonacci number, which a `u32` holds up to `n == 47`.
pub fn fibonacci(n: u32) -> (result: u32)
    requires
        n <= 47,
    ensures
        result == fib(n as nat),
{
    if n == 0 {
        return 0;
    }
    if n == 1 {
        return 1;
    }
    let mut a: u32 = 0;
    let mut b: u32 = 1;
    let mut i: u32 = 2;
    while i <= n
        invariant
            2 <= i <= n + 1,
            n <= 47,
            a == fib((i - 2) as nat),
            b == fib((i - 1) as nat),
        decreases n + 1 - i,
    {
        proof {
            lemma_fib_grows(i as nat, 47);
            lemma_fib_47();
        }
        let next = a + b;
        a = b;
        b = next;
        i = i + 1;
    }
    b
}

/// An odd number has no even divisor.
proof fn lemma_odd_has_no_even_divisor(n: nat, d: nat)
    requires
        n % 2 == 1,
        d > 0,
        d % 2 == 0,
    ensures
        !divides(d, n),
{
    if n % d == 0 {
        let q = n / d;
        let h = d / 2;
        lemma_fundamental_div_mod(n as int, d as int);
        lemma_fundamental_div_mod(d as int, 2);
        assert(n == (h * q) * 2) by (nonlinear_arith)
            requires
                n == d * q,
                d == 2 * h,
        ;
        lemma_mod_multiples_basic((h * q) as int, 2);
    }
}

/// A divisor of `n` that is neither 1 nor `n` comes with a second one, and
/// the smaller of the two is not above the square root of `n`.
proof fn lemma_small_divisor(n: nat, d: nat, bound: nat)
    requires
        2 <= d < n,
        divides(d, n),
        bound * bound > n,
    ensures
        exists|q: nat| 2 <= q < bound && #[trigger] divides(q, n),
{
    if d >= bound {
        let q = n / d;
        lemma_fundamental_div_mod(n as int, d as int);
        assert(q >= 2) by (nonlinear_arith)
            requires
                n == d * q,
                2 <= d < n,
        ;
        assert(q < bound) by (nonlinear_arith)
            requires
                n == d * q,
                d >= bound,
                bound * bound > n,
                q >= 0,
        ;
        lemma_mod_multiples_basic(d as int, q as int);
        assert(divides(q, n));
    }
}

/// `i` is at most the quotient of `n` by `i` exactly when its square is at
/// most `n`.
proof fn lemma_square_test(i: nat, n: nat)
    requires
        i > 0,
    ensures
        i <= n / i <==> i * i <= n,
{
    let q = n / i;
    lemma_fundamental_div_mod(n as int, i as int);
    if i <= q {
        assert(i * i <= i * q) by (nonlinear_arith)
            requires
                i <= q,
        ;
    } else {
        assert(i * q + i <= i * i) by (nonlinear_arith)
            requires
                q + 1 <= i,
        ;
    }
}

/// Whether `n` is prime, by trial division: by 2, then by the odd numbers up
/// to the square root of `n`.
pub fn is_prime(n: u32) -> (prime: bool)
    ensures
        prime == is_prime_number(n as nat),
{
    if n < 2 {
        return false;
    }
    if n == 2 {
        return true;
    }
    if n % 2 == 0 {
        assert(divides(2, n as nat));
        return false;
    }
    let mut i: u32 = 3;
    assert forall|d: nat| 2 <= d < 3 implies !#[trigger] divides(d, n as nat) by {}
    while i <= n / i
        invariant
            3 <= i <= 65537,
            n >= 3,
            n % 2 == 1,
            i % 2 == 1,
            forall|d: nat| 2 <= d < i ==> !#[trigger] divides(d, n as nat),
        decreases 65537 - i,
    {
        proof {
            lemma_square_test(i as nat, n as nat);
        }
        assert(i <= 65535 && i < n) by (nonlinear_arith)
            requires
                i * i <= n,
                n <= 0xFFFF_FFFF,
                i >= 3,
        ;
        if n % i == 0 {
            assert(divides(i as nat, n as nat));
            return false;
        }
        proof {
            lemma_odd_has_no_even_divisor(n as nat, (i + 1) as nat);
        }
        i = i + 2;
    }
    proof {
        lemma_square_test(i as nat, n as nat);
        assert forall|d: nat| 2 <= d < n implies !#[trigger] divides(d, n as nat) by {
            if divides(d, n as nat) {
                lemma_small_divisor(n as nat, d, i as nat);
            }
        }
    }
    true
}

} // verus!
