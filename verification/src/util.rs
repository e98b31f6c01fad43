//! Small shared utilities: the decimal-digit-count trait used by the barcode
//! validators, and the error kind raised when a property cannot be set on a
//! platform object during camera constraint construction.

use vstd::prelude::*;

verus! {

/// Number of decimal digits of `v`: 1 for 0..=9, and one more for each
/// further factor of ten.
pub open spec fn dec_len_spec(v: nat) -> nat
    decreases v,
{
    if v <= 9 {
        1
    } else {
        1 + dec_len_spec(v / 10)
    }
}

/// `pow10(k)` is 10 to the power `k`.
pub open spec fn pow10(k: nat) -> nat
    decreases k,
{
    if k == 0 {
        1
    } else {
        10 * pow10((k - 1) as nat)
    }
}

/// The digit count is always at least 1.
pub proof fn lemma_dec_len_pos(v: nat)
    ensures
        dec_len_spec(v) >= 1,
    decreases v,
{
    if v > 9 {
        lemma_dec_len_pos(v / 10);
    }
}

/// Values below `pow10(k)` have at most `k` decimal digits.
pub proof fn lemma_dec_len_upper(v: nat, k: nat)
    requires
        k >= 1,
        v < pow10(k),
    ensures
        dec_len_spec(v) <= k,
    decreases k,
{
    if v > 9 {
        assert(pow10(1) == 10) by {
            reveal_with_fuel(pow10, 2);
        }
        assert(k >= 2);
        assert(v / 10 < pow10((k - 1) as nat));
        lemma_dec_len_upper(v / 10, (k - 1) as nat);
    }
}

/// Values at or above `pow10(k)` have more than `k` decimal digits.
pub proof fn lemma_dec_len_lower(v: nat, k: nat)
    requires
        v >= pow10(k),
    ensures
        dec_len_spec(v) >= k + 1,
    decreases k,
{
    if k > 0 {
        lemma_dec_len_lower(v / 10, (k - 1) as nat);
    }
}

/// Types with a decimal digit count.
pub trait DecLen {
    /// The digit count as a mathematical value.
    spec fn dec_len_value(&self) -> nat;

    /// Computes the decimal digit count.
    fn dec_len(&self) -> (n: u8)
        ensures
            n == self.dec_len_value(),
    ;
}

impl DecLen for u64 {
    open spec fn dec_len_value(&self) -> nat {
        dec_len_spec(*self as nat)
    }

    fn dec_len(&self) -> (n: u8) {
        let v: u64 = *self;
        let mut rest: u64 = v;
        let mut n: u8 = 1;
        proof {
            assert(pow10(20) > u64::MAX) by {
                reveal_with_fuel(pow10, 21);
            }
            lemma_dec_len_upper(v as nat, 20);
        }
        while rest > 9
            invariant
                1 <= n <= 20,
                dec_len_spec(v as nat) == (n - 1) + dec_len_spec(rest as nat),
                dec_len_spec(v as nat) <= 20,
                dec_len_spec(rest as nat) >= 1,
            decreases rest,
        {
            proof {
                lemma_dec_len_pos((rest / 10) as nat);
            }
            rest = rest / 10;
            n = n + 1;
        }
        n
    }
}

/// Failure kinds for setting a property on a platform object while building
/// the camera constraints.
#[derive(Debug, Clone, Copy, PartialEq, Eq, Structural)]
pub enum JsSetError {
    /// The target of the property write was not an object.
    NotAnObject,
    /// The property write reported failure.
    NotSuccessful,
}

} // verus!
