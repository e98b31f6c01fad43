//! A minimal barcode value type for callers that already hold a validated
//! digit payload.  The digit count of a stored value is always exactly 8
//! (EAN-8) or 13 (EAN-13); constructors demand this up front.
//!
//! The scanning pipeline uses the richer, error-reporting type in
//! `barcode_scanner` instead.

use crate::util::{dec_len_spec, DecLen};
use vstd::prelude::*;

verus! {

/// A barcode payload whose decimal digit count is 8 or 13.
#[derive(Debug, Clone, Copy, PartialEq, Eq, Structural)]
pub struct Barcode {
    digits: u64,
}

/// A barcode symbology, determined by digit count alone.
#[derive(Debug, Clone, Copy, PartialEq, Eq, Structural)]
pub enum BarcodeType {
    Ean13,
    Ean8,
}

impl Barcode {
    /// The digit payload, for specifications.
    pub closed spec fn spec_digits(self) -> u64 {
        self.digits
    }

    /// The symbology derived from the digit count of the payload.
    pub open spec fn spec_type(self) -> BarcodeType {
        if dec_len_spec(self.spec_digits() as nat) == 8 {
            BarcodeType::Ean8
        } else {
            BarcodeType::Ean13
        }
    }

    #[verifier::type_invariant]
    spec fn wf(self) -> bool {
        dec_len_spec(self.digits as nat) == 8 || dec_len_spec(self.digits as nat) == 13
    }

    /// Wraps a 13-digit payload as an EAN-13 barcode.
    pub fn ean13(digits: u64) -> (b: Barcode)
        requires
            dec_len_spec(digits as nat) == 13,
        ensures
            b.spec_digits() == digits,
    {
        Barcode { digits }
    }

    /// Wraps an 8-digit payload as an EAN-8 barcode.
    pub fn ean8(digits: u64) -> (b: Barcode)
        requires
            dec_len_spec(digits as nat) == 8,
        ensures
            b.spec_digits() == digits,
    {
        Barcode { digits }
    }

    /// Returns the digit payload.
    pub fn get_digits(self) -> (d: u64)
        ensures
            d == self.spec_digits(),
    {
        self.digits
    }

    /// Returns the symbology, read off the digit count.
    pub fn get_type(self) -> (t: BarcodeType)
        ensures
            t == self.spec_type(),
    {
        proof {
            use_type_invariant(&self);
        }
        let len = self.digits.dec_len();
        if len == 8 {
            BarcodeType::Ean8
        } else {
            BarcodeType::Ean13
        }
    }
}

} // verus!
