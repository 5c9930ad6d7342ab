use vstd::prelude::*;
use vstd::arithmetic::div_mod::{lemma_fundamental_div_mod, lemma_mod_multiples_basic};

verus! {

/// What the service reads of a JSON number: its value truncated toward zero
/// to a 64-bit integer, and whether the value was integral. Values whose
/// magnitude exceeds the 64-bit range arrive saturated, an inherited edge
/// case of the wire format.
#[derive(Clone, Copy, Debug, PartialEq, Eq, Structural)]
pub struct JsonNumber {
    pub trunc: i64,
    pub integral: bool,
}

/// Mathematical primality: at least two, and no divisor strictly between
/// one and itself.
pub open spec fn spec_is_prime(n: int) -> bool {
    n >= 2 && forall|d: int| 2 <= d < n ==> #[trigger] (n % d) != 0
}

/// Primality of a JSON number: non-integral values are never prime.
pub open spec fn spec_number_is_prime(num: JsonNumber) -> bool {
    num.integral && spec_is_prime(num.trunc as int)
}

/// For `n >= 2`, primality is decided by trial division by every integer up
/// to the square root of `n`: a proper divisor exists exactly when one with
/// a square not exceeding `n` does.
pub proof fn lemma_trial_division_sqrt(n: int)
    requires
        n >= 2,
    ensures
        spec_is_prime(n) <==> (forall|d: int| 2 <= d && d * d <= n ==> #[trigger] (n % d) != 0),
{
    if spec_is_prime(n) {
        assert forall|d: int| 2 <= d && d * d <= n implies #[trigger] (n % d) != 0 by {
            assert(d < n) by (nonlinear_arith)
                requires
                    d >= 2,
                    d * d <= n,
            ;
        }
    }
    if forall|d: int| 2 <= d && d * d <= n ==> #[trigger] (n % d) != 0 {
        assert forall|k: int| 2 <= k < n implies #[trigger] (n % k) != 0 by {
            if n % k == 0 {
                if k * k <= n {
                    assert(n % k != 0);
                } else {
                    let m = n / k;
                    lemma_fundamental_div_mod(n, k);
                    assert(n == k * m);
                    assert(m >= 2 && m * m <= n) by (nonlinear_arith)
                        requires
                            n == k * m,
                            2 <= k < n,
                            n >= 2,
                            k * k > n,
                    ;
                    lemma_mod_multiples_basic(k, m);
                    assert(n % m == 0);
                }
            }
        }
    }
}

/// Values below two - zero, one and every negative value - and values with
/// a fractional part are never prime.
pub proof fn lemma_below_two_or_fractional_not_prime(num: JsonNumber)
    requires
        num.trunc < 2 || !num.integral,
    ensures
        !spec_number_is_prime(num),
{
}

/// Checks whether a number is prime.
///
/// A value is prime exactly when it is integral, at least two, and no
/// smaller integer above one divides it. The check only divides by
/// candidates up to the square root; the contract still speaks of every
/// candidate.
pub fn is_prime(number: JsonNumber) -> (r: bool)
    ensures
        r == spec_number_is_prime(number),
{
    if !number.integral {
        return false;
    }
    let n: i64 = number.trunc;
    if n < 2 {
        return false;
    }
    let mut d: i64 = 2;
    while d <= n / d
        invariant
            2 <= d,
            2 <= n,
            n == number.trunc,
            number.integral,
            forall|k: int| 2 <= k < d ==> #[trigger] ((n as int) % k) != 0,
        decreases n - d,
    {
        proof {
            lemma_fundamental_div_mod(n as int, d as int);
            assert(d < n) by (nonlinear_arith)
                requires
                    n as int == d as int * ((n as int) / (d as int)) + (n as int) % (d as int),
                    d as int <= (n as int) / (d as int),
                    d >= 2,
                    0 <= (n as int) % (d as int),
            ;
        }
        if n % d == 0 {
            proof {
                assert(2 <= (d as int) && (d as int) < (n as int) && (n as int) % (d as int)
                    == 0);
                assert(!spec_is_prime(n as int));
            }
            return false;
        }
        d = d + 1;
    }
    proof {
        lemma_fundamental_div_mod(n as int, d as int);
        assert(n < d * d) by (nonlinear_arith)
            requires
                n as int == d as int * ((n as int) / (d as int)) + (n as int) % (d as int),
                (n as int) / (d as int) < d,
                0 <= (n as int) % (d as int) < d,
        ;
        assert forall|k: int| 2 <= k && k * k <= n implies #[trigger] ((n as int) % k) != 0 by {
            assert(k < d) by (nonlinear_arith)
                requires
                    k >= 2,
                    d >= 2,
                    k * k <= n,
                    n < d * d,
            ;
        }
        lemma_trial_division_sqrt(n as int);
    }
    true
}

} // verus!
