use vstd::prelude::*;

verus! {

/// `n` is a prime number: above one, and divisible by no number between one and itself.
pub open spec fn spec_prime(n: int) -> bool {
    n > 1 && forall|d: int| 1 < d < n ==> #[trigger] (n % d) != 0
}

/// The primes in `[2, limit)`, in increasing order.
pub open spec fn primes_below(limit: int) -> Seq<int>
    decreases limit,
{
    if limit <= 2 {
        Seq::empty()
    } else if spec_prime(limit - 1) {
        primes_below(limit - 1).push(limit - 1)
    } else {
        primes_below(limit - 1)
    }
}

/// The bound below which the prime template counts primes.
pub const PRIME_LIMIT: usize = 500;

/// What the prime template reports: how many primes lie below its bound, and the largest.
#[derive(Clone, Copy, Debug, PartialEq, Eq, Structural)]
pub struct PrimeCounter {
    pub count: usize,
    pub last: usize,
}

/// Trial division by 2, 3, and then by the numbers `6k - 1` and `6k + 1`.
pub fn is_prime(num: usize) -> (r: bool)
    ensures
        r == spec_prime(num as int),
{
    if num <= 1 {
        return false;
    }
    if num <= 3 {
        assert(forall|d: int| 1 < d < num ==> #[trigger] (num as int % d) != 0) by {
            assert forall|d: int| 1 < d < num implies #[trigger] (num as int % d) != 0 by {
                assert(d == 2 && num == 3);
            }
        }
        return true;
    }
    if num % 2 == 0 || num % 3 == 0 {
        assert(num as int % 2 == 0 || num as int % 3 == 0);
        return false;
    }
    assert forall|d: int| 1 < d < 5 implies #[trigger] (num as int % d) != 0 by {
        if d == 4 && num as int % 4 == 0 {
            assert(num as int % 2 == 0);
        }
    }
    let mut i: usize = 5;
    while i <= num / i
        invariant
            5 <= i,
            i % 6 == 5,
            num > 3,
            num % 2 != 0,
            num % 3 != 0,
            i <= num + 6,
            forall|d: int| 1 < d < i ==> #[trigger] (num as int % d) != 0,
        decreases num + 6 - i,
    {
        assert(i * i <= num) by (nonlinear_arith)
            requires
                i <= num / i,
                i > 0,
        ;
        assert(i + 2 < num) by (nonlinear_arith)
            requires
                i * i <= num,
                i >= 5,
        ;
        if num % i == 0 || num % (i + 2) == 0 {
            assert(num as int % (i as int) == 0 || num as int % (i + 2) == 0);
            return false;
        }
        assert forall|d: int| 1 < d < i + 6 implies #[trigger] (num as int % d) != 0 by {
            if d >= i && d != i && d != i + 2 {
                // d is then divisible by 2 or by 3, and num is not
                let q = d % 6;
                assert(q == 0 || q == 2 || q == 3 || q == 4) by {
                    assert(i as int % 6 == 5);
                    assert(i <= d < i + 6);
                }
                if q == 0 || q == 2 || q == 4 {
                    lemma_no_multiple(num as int, d, 2);
                } else {
                    lemma_no_multiple(num as int, d, 3);
                }
            }
        }
        i += 6;
    }
    assert(num < i * i) by (nonlinear_arith)
        requires
            i > num / i,
            i > 0,
    ;
    assert forall|d: int| 1 < d < num implies #[trigger] (num as int % d) != 0 by {
        if d >= i {
            lemma_large_divisor(num as int, d, i as int);
        }
    }
    true
}

/// A number that `p` does not divide has no divisor that `p` divides.
proof fn lemma_no_multiple(n: int, d: int, p: int)
    requires
        n > 0,
        p > 1,
        d > 1,
        n % p != 0,
        (d % 6) % p == 0,
        p == 2 || p == 3,
    ensures
        n % d != 0,
{
    if n % d == 0 {
        assert(d % p == 0) by (nonlinear_arith)
            requires
                (d % 6) % p == 0,
                p == 2 || p == 3,
        ;
        assert(n % p == 0) by (nonlinear_arith)
            requires
                n % d == 0,
                d % p == 0,
                d > 1,
                p > 1,
                n > 0,
        {
            let a = n / d;
            let b = d / p;
            assert(n == a * d);
            assert(d == b * p);
            assert(n == (a * b) * p);
        }
    }
}

/// A divisor at least `i` of a number below `i * i` leaves a cofactor below `i`.
proof fn lemma_large_divisor(n: int, d: int, i: int)
    requires
        1 < d < n,
        i > 1,
        d >= i,
        n < i * i,
        forall|e: int| 1 < e < i ==> #[trigger] (n % e) != 0,
    ensures
        n % d != 0,
{
    if n % d == 0 {
        let e = n / d;
        assert(n == e * d) by (nonlinear_arith)
            requires
                n % d == 0,
                d > 0,
                e == n / d,
        ;
        assert(1 < e < i) by (nonlinear_arith)
            requires
                n == e * d,
                1 < d < n,
                d >= i,
                n < i * i,
                i > 1,
        ;
        assert(n % e == 0) by (nonlinear_arith)
            requires
                n == e * d,
                e > 0,
        ;
    }
}

/// Counts the primes below the bound and reports the largest of them.
pub fn find_primes() -> (r: PrimeCounter)
    ensures
        r.count == primes_below(PRIME_LIMIT as int).len(),
        r.last == primes_below(PRIME_LIMIT as int).last(),
{
    let limit: usize = PRIME_LIMIT;
    let mut primes: Vec<usize> = Vec::new();
    let mut num: usize = 2;
    while num < limit
        invariant
            2 <= num <= limit,
            limit == PRIME_LIMIT,
            primes@.map_values(|p: usize| p as int) == primes_below(num as int),
        decreases limit - num,
    {
        if is_prime(num) {
            primes.push(num);
        }
        proof {
            assert(primes@.map_values(|p: usize| p as int) =~= primes_below(num + 1));
        }
        num += 1;
    }
    proof {
        lemma_prime_499();
        assert(primes_below(500) == primes_below(499).push(499));
        assert(primes@.map_values(|p: usize| p as int).len() == primes@.len());
    }
    let last = primes[primes.len() - 1];
    proof {
        assert(primes@.map_values(|p: usize| p as int)[primes@.len() - 1] == last as int);
    }
    PrimeCounter { count: primes.len(), last }
}

/// 499 is prime.
proof fn lemma_prime_499()
    ensures
        spec_prime(499),
{
    assert forall|d: int| 1 < d < 499 implies #[trigger] (499int % d) != 0 by {
        if 499int % d == 0 {
            assert(d < 23 || 499int / d < 23) by (nonlinear_arith)
                requires
                    1 < d < 499,
            ;
            if d >= 23 {
                let e = 499int / d;
                assert(499int == e * d) by (nonlinear_arith)
                    requires
                        499int % d == 0,
                        d > 0,
                        e == 499int / d,
                ;
                assert(499int % e == 0) by (nonlinear_arith)
                    requires
                        499int == e * d,
                        e > 0,
                ;
                assert(e < 23) by (nonlinear_arith)
                    requires
                        499int == e * d,
                        d >= 23,
                ;
                assert(e != 1 && e > 0) by (nonlinear_arith)
                    requires
                        499int == e * d,
                        1 < d < 499,
                ;
                lemma_small_divisors(e);
            } else {
                lemma_small_divisors(d);
            }
        }
    }
}

/// 499 has no divisor between 2 and 22.
proof fn lemma_small_divisors(d: int)
    requires
        1 < d < 23,
    ensures
        499int % d != 0,
{
    assert(d == 2 || d == 3 || d == 4 || d == 5 || d == 6 || d == 7 || d == 8 || d == 9 || d == 10
        || d == 11 || d == 12 || d == 13 || d == 14 || d == 15 || d == 16 || d == 17 || d == 18
        || d == 19 || d == 20 || d == 21 || d == 22);
}

} // verus!
