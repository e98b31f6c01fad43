//! The closed set of failure kinds raised by the scanning pipeline.
//!
//! Per-tick *absence* of a symbol is never an error.  Camera failures are
//! fatal for the session; render failures abort the tick and end the
//! session; a decoded value that fails validation is surfaced as a hard
//! error rather than treated as a miss.

use crate::camera::CameraError;
use vstd::prelude::*;

verus! {

/// Failure kinds of parsing decoded symbol text as a decimal number.
#[derive(Debug, Clone, Copy, PartialEq, Eq, Structural)]
pub enum ParseDigitsError {
    /// The text was empty.
    Empty,
    /// A character was not a decimal digit.
    InvalidDigit,
    /// The value does not fit in 64 bits.
    Overflow,
}

/// Symbologies an external symbol decoder may report for the UPC/EAN
/// family.  Only EAN-8 and EAN-13 are accepted by this pipeline.
#[derive(Debug, Clone, Copy, PartialEq, Eq, Structural)]
pub enum SymbolKind {
    Ean8,
    Ean13,
    UpcA,
    UpcE,
    Other,
}

/// Everything that can go wrong between a camera frame and a validated
/// barcode value.
#[derive(Debug, Clone, Copy, PartialEq, Eq, Structural)]
pub enum BarcodeError {
    /// Camera acquisition failed; see the wrapped kind.
    CameraError(CameraError),
    /// The offscreen raster refused to hand out a drawing context.
    GetCanvasContextErr,
    /// Rendering the frame band into the raster failed.
    DrawImgErr,
    /// Reading the rendered pixels back failed.
    GetImgDataErr,
    /// The periodic sampling timer could not be installed.
    SetIntervalErr,
    /// A platform object had an unexpected dynamic type.
    JsDynCastError,
    /// The decoder reported a symbology outside EAN-8/EAN-13.
    UnsupportedBarcodeType(SymbolKind),
    /// The decoded text did not parse as a decimal number.
    ParseBarcodeErr(ParseDigitsError),
    /// The digit count fits no accepted symbology.
    InvalidBarcodeLength { expected: u8, got: u8 },
    /// The numeric payload is outside the valid domain (for example zero).
    InvalidBarcode(u64),
    /// The payload does not fit the signed 64-bit storage domain.
    TryFromIntError,
}

} // verus!
