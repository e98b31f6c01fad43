//! The validated barcode value type produced by the scanning pipeline.
//!
//! A stored payload is nonzero, fits the signed 64-bit domain, and has a
//! decimal digit count of exactly 8 (EAN-8) or 13 (EAN-13).  Values are
//! built only through the validating factories here; no check digit is
//! verified.

use crate::barcode_scanner::error::BarcodeError;
use crate::util::{
    dec_len_spec, lemma_dec_len_lower, lemma_dec_len_upper, pow10, DecLen,
};
use vstd::prelude::*;

verus! {

/// A validated barcode: a nonzero numeric payload of 8 or 13 decimal digits.
#[derive(Debug, Clone, Copy, PartialEq, Eq, Structural)]
pub struct Barcode {
    digits: i64,
}

/// A barcode symbology, determined by digit count alone.
#[derive(Debug, Clone, Copy, PartialEq, Eq, Structural)]
pub enum BarcodeType {
    Ean13,
    Ean8,
}

/// The digit count that a construction demands: an explicitly requested
/// symbology fixes it; otherwise the value's own count decides, with 13
/// reported as the expectation for counts that fit no symbology.
pub open spec fn requested_len(expected: Option<BarcodeType>, n: nat) -> nat {
    match expected {
        Some(BarcodeType::Ean8) => 8,
        Some(BarcodeType::Ean13) => 13,
        None => if n == 8 {
            8
        } else {
            13
        },
    }
}

/// Model of the validating factory: the payload and symbology of a
/// successful construction, or the exact rejection.
pub open spec fn from_digits_spec(value: u64, expected: Option<BarcodeType>) -> Result<
    (u64, BarcodeType),
    BarcodeError,
> {
    let n = dec_len_spec(value as nat);
    let want = requested_len(expected, n);
    if n == want {
        Ok(
            (
                value,
                if n == 8 {
                    BarcodeType::Ean8
                } else {
                    BarcodeType::Ean13
                },
            ),
        )
    } else {
        Err(BarcodeError::InvalidBarcodeLength { expected: want as u8, got: n as u8 })
    }
}

impl Barcode {
    /// The digit payload, for specifications.
    pub closed spec fn spec_digits(self) -> int {
        self.digits as int
    }

    /// The symbology derived from the digit count of the payload.
    pub open spec fn spec_type(self) -> BarcodeType {
        if dec_len_spec(self.spec_digits() as nat) == 8 {
            BarcodeType::Ean8
        } else {
            BarcodeType::Ean13
        }
    }

    #[verifier::type_invariant]
    spec fn wf(self) -> bool {
        0 < self.digits && (dec_len_spec(self.digits as nat) == 8 || dec_len_spec(
            self.digits as nat,
        ) == 13)
    }

    /// Validates a payload as an EAN-13 barcode: exactly 13 decimal digits.
    pub fn ean13(digits: u64) -> (r: Result<Barcode, BarcodeError>)
        ensures
            r matches Ok(b) ==> from_digits_spec(digits, Some(BarcodeType::Ean13)) matches Ok(p)
                && b.spec_digits() == p.0 as int && b.spec_type() == p.1,
            r matches Err(e) ==> from_digits_spec(digits, Some(BarcodeType::Ean13)) == Err::<
                (u64, BarcodeType),
                BarcodeError,
            >(e),
            r is Ok <==> from_digits_spec(digits, Some(BarcodeType::Ean13)) is Ok,
    {
        let dec_len = digits.dec_len();
        if dec_len != 13 {
            return Err(BarcodeError::InvalidBarcodeLength { expected: 13, got: dec_len });
        }
        proof {
            assert(pow10(12) == 1_000_000_000_000 && pow10(13) == 10_000_000_000_000) by {
                reveal_with_fuel(pow10, 14);
            }
            assert(digits < pow10(13)) by {
                if digits >= pow10(13) {
                    lemma_dec_len_lower(digits as nat, 13);
                }
            }
            assert(digits >= pow10(12)) by {
                if digits < pow10(12) {
                    lemma_dec_len_upper(digits as nat, 12);
                }
            }
        }
        Ok(Barcode { digits: digits as i64 })
    }

    /// Validates a payload as an EAN-8 barcode: exactly 8 decimal digits.
    pub fn ean8(digits: u64) -> (r: Result<Barcode, BarcodeError>)
        ensures
            r matches Ok(b) ==> from_digits_spec(digits, Some(BarcodeType::Ean8)) matches Ok(p)
                && b.spec_digits() == p.0 as int && b.spec_type() == p.1,
            r matches Err(e) ==> from_digits_spec(digits, Some(BarcodeType::Ean8)) == Err::<
                (u64, BarcodeType),
                BarcodeError,
            >(e),
            r is Ok <==> from_digits_spec(digits, Some(BarcodeType::Ean8)) is Ok,
    {
        let dec_len = digits.dec_len();
        if dec_len != 8 {
            return Err(BarcodeError::InvalidBarcodeLength { expected: 8, got: dec_len });
        }
        proof {
            assert(pow10(7) == 10_000_000 && pow10(8) == 100_000_000) by {
                reveal_with_fuel(pow10, 9);
            }
            assert(digits < pow10(8)) by {
                if digits >= pow10(8) {
                    lemma_dec_len_lower(digits as nat, 8);
                }
            }
            assert(digits >= pow10(7)) by {
                if digits < pow10(7) {
                    lemma_dec_len_upper(digits as nat, 7);
                }
            }
        }
        Ok(Barcode { digits: digits as i64 })
    }

    /// The validating factory: derives the symbology from the digit count,
    /// or checks it against an explicitly requested one.
    pub fn from_digits(value: u64, expected: Option<BarcodeType>) -> (r: Result<
        Barcode,
        BarcodeError,
    >)
        ensures
            r matches Ok(b) ==> from_digits_spec(value, expected) matches Ok(p) && b.spec_digits()
                == p.0 as int && b.spec_type() == p.1,
            r matches Err(e) ==> from_digits_spec(value, expected) == Err::<
                (u64, BarcodeType),
                BarcodeError,
            >(e),
            r is Ok <==> from_digits_spec(value, expected) is Ok,
    {
        match expected {
            Some(BarcodeType::Ean8) => Self::ean8(value),
            Some(BarcodeType::Ean13) => Self::ean13(value),
            None => {
                let n = value.dec_len();
                if n == 8 {
                    Self::ean8(value)
                } else {
                    Self::ean13(value)
                }
            },
        }
    }

    /// Returns the digit payload.
    pub fn get_digits(self) -> (d: i64)
        ensures
            d as int == self.spec_digits(),
    {
        self.digits
    }

    /// Returns the symbology, read off the digit count.
    pub fn get_type(self) -> (t: BarcodeType)
        ensures
            t == self.spec_type(),
    {
        proof {
            use_type_invariant(&self);
        }
        let n = (self.digits as u64).dec_len();
        if n == 8 {
            BarcodeType::Ean8
        } else {
            BarcodeType::Ean13
        }
    }
}

/// Every nonzero value with 8 or 13 decimal digits round-trips through the
/// factory: construction succeeds, the payload is returned unchanged, and
/// the symbology matches the digit count.  (Zero is excluded by itself:
/// its digit count is 1.)
pub proof fn lemma_from_digits_round_trip(v: u64)
    requires
        dec_len_spec(v as nat) == 8 || dec_len_spec(v as nat) == 13,
    ensures
        from_digits_spec(v, None) == Ok::<(u64, BarcodeType), BarcodeError>(
            (
                v,
                if dec_len_spec(v as nat) == 8 {
                    BarcodeType::Ean8
                } else {
                    BarcodeType::Ean13
                },
            ),
        ),
{
}

/// Any digit count other than 8 or 13 is rejected with the length error,
/// reporting the count that was found.
pub proof fn lemma_from_digits_rejects_bad_length(v: u64)
    requires
        dec_len_spec(v as nat) != 8,
        dec_len_spec(v as nat) != 13,
    ensures
        from_digits_spec(v, None) == Err::<(u64, BarcodeType), BarcodeError>(
            BarcodeError::InvalidBarcodeLength {
                expected: 13,
                got: dec_len_spec(v as nat) as u8,
            },
        ),
{
}

/// Zero has no valid symbology: the factory rejects it whatever symbology
/// is requested.
pub proof fn lemma_zero_rejected(expected: Option<BarcodeType>)
    ensures
        from_digits_spec(0, expected) is Err,
{
}

/// The nullable barcode wrapper used at the persistence boundary: absence
/// of a scanned code is a legitimate, storable state, distinct from a
/// parse failure.
#[derive(Debug, Clone, Copy)]
pub struct OptionBarcode(pub Option<Barcode>);

impl OptionBarcode {
    /// Wraps a present barcode.
    pub fn some(barcode: Barcode) -> (r: OptionBarcode)
        ensures
            r.0 == Some(barcode),
    {
        OptionBarcode(Some(barcode))
    }

    /// The absent state.
    pub fn none() -> (r: OptionBarcode)
        ensures
            r.0 is None,
    {
        OptionBarcode(None)
    }
}

impl PartialEq for OptionBarcode {
    fn eq(&self, other: &OptionBarcode) -> (r: bool) {
        match (&self.0, &other.0) {
            (None, None) => true,
            (Some(a), Some(b)) => *a == *b,
            _ => false,
        }
    }
}

impl Eq for OptionBarcode {

}

impl vstd::std_specs::cmp::PartialEqSpecImpl for OptionBarcode {
    open spec fn obeys_eq_spec() -> bool {
        true
    }

    open spec fn eq_spec(&self, other: &OptionBarcode) -> bool {
        self.0 == other.0
    }
}

impl Default for OptionBarcode {
    /// The absent state is the default.
    fn default() -> (r: OptionBarcode)
        ensures
            r.0 is None,
    {
        OptionBarcode(None)
    }
}

} // verus!
