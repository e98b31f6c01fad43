//! The decode adapter: wraps the external symbol decoder and normalises
//! its outcome into the pipeline's domain types.
//!
//! "No symbol found" is a normal per-tick outcome, not an error.  A found
//! symbol has its text parsed as a decimal number and validated against
//! the reported symbology; any failure there is surfaced as a hard error
//! rather than treated as a miss.

use crate::barcode_scanner::barcode::{from_digits_spec, Barcode, BarcodeType};
use crate::barcode_scanner::error::{BarcodeError, ParseDigitsError, SymbolKind};
use crate::barcode_scanner::sampler::{convert_to_luma, luma_of, BAND_HEIGHT};
use vstd::prelude::*;

verus! {

/// Whether `c` is a decimal digit.
pub open spec fn is_dec_digit(c: char) -> bool {
    48 <= c as u32 <= 57
}

/// The numeric value of a decimal digit character.
pub open spec fn digit_val(c: char) -> nat {
    (c as u32 - 48) as nat
}

/// Left-to-right scan of decoded symbol text: stops at the first
/// non-digit, or as soon as the accumulated value no longer fits in 64
/// bits.
pub open spec fn parse_scan(s: Seq<char>, acc: nat) -> Result<u64, ParseDigitsError>
    recommends
        acc <= u64::MAX,
    decreases s.len(),
{
    if s.len() == 0 {
        Ok(acc as u64)
    } else if !is_dec_digit(s[0]) {
        Err(ParseDigitsError::InvalidDigit)
    } else if acc * 10 + digit_val(s[0]) > u64::MAX {
        Err(ParseDigitsError::Overflow)
    } else {
        parse_scan(s.drop_first(), acc * 10 + digit_val(s[0]))
    }
}

/// Model of [`parse_digits`]: empty text is rejected outright, otherwise
/// the text is scanned left to right.
pub open spec fn parse_digits_spec(s: Seq<char>) -> Result<u64, ParseDigitsError> {
    if s.len() == 0 {
        Err(ParseDigitsError::Empty)
    } else {
        parse_scan(s, 0)
    }
}

/// Parses decoded symbol text as a decimal number.
pub fn parse_digits(s: &str) -> (r: Result<u64, ParseDigitsError>)
    ensures
        r == parse_digits_spec(s@),
{
    let n = s.unicode_len();
    if n == 0 {
        return Err(ParseDigitsError::Empty);
    }
    let mut acc: u64 = 0;
    let mut i: usize = 0;
    proof {
        assert(s@.skip(0) =~= s@);
    }
    while i < n
        invariant
            i <= n,
            n == s@.len(),
            parse_scan(s@.skip(i as int), acc as nat) == parse_scan(s@, 0),
        decreases n - i,
    {
        let c = s.get_char(i);
        proof {
            assert(s@.skip(i as int)[0] == s@[i as int]);
        }
        let cv = c as u32;
        if cv < 48 || cv > 57 {
            return Err(ParseDigitsError::InvalidDigit);
        }
        let d = (cv - 48) as u64;
        let next = match acc.checked_mul(10) {
            Some(m) => m.checked_add(d),
            None => None,
        };
        match next {
            None => {
                return Err(ParseDigitsError::Overflow);
            },
            Some(v) => {
                acc = v;
            },
        }
        proof {
            assert(s@.skip(i as int).drop_first() =~= s@.skip(i as int + 1));
        }
        i = i + 1;
    }
    proof {
        assert(s@.skip(n as int).len() == 0);
    }
    Ok(acc)
}

/// What the external symbol decoder finds in a luminance buffer of the
/// given dimensions, restricted to the UPC/EAN family: the decoded text
/// and reported symbology, or nothing.  The outcome depends on the buffer
/// and dimensions alone.
pub uninterp spec fn symbol_scan(luma: Seq<u8>, width: u32, height: u32) -> Option<
    (Seq<char>, SymbolKind),
>;

/// Relies on rxing's `MultiFormatUPCEANReader::decode_with_hints`, fed
/// through `Luma8LuminanceSource` and `HybridBinarizer` with default
/// hints: decoding is a pure function of the pixels and dimensions, whose
/// outcome `symbol_scan` names.  A decode failure of any kind is a miss.
#[verifier::external_body]
fn decode_luma(luma: Vec<u8>, width: u32, height: u32) -> (r: Option<(String, SymbolKind)>)
    requires
        width >= 1,
        height >= 1,
        luma@.len() == width * height,
    ensures
        r matches Some(p) ==> symbol_scan(luma@, width, height) == Some((p.0@, p.1)),
        r is None ==> symbol_scan(luma@, width, height) is None,
{
    let Ok(src) = rxing::Luma8LuminanceSource::new(luma, width, height) else { return None };
    let mut bitmap = rxing::BinaryBitmap::new(rxing::common::HybridBinarizer::new(src));
    let hints = rxing::DecodeHints::default();
    let mut reader = rxing::oned::MultiFormatUPCEANReader::new(&hints);
    let res = rxing::Reader::decode_with_hints(&mut reader, &mut bitmap, &hints).ok()?;
    let kind = match res.getBarcodeFormat() {
        rxing::BarcodeFormat::EAN_8 => SymbolKind::Ean8,
        rxing::BarcodeFormat::EAN_13 => SymbolKind::Ean13,
        rxing::BarcodeFormat::UPC_A => SymbolKind::UpcA,
        rxing::BarcodeFormat::UPC_E => SymbolKind::UpcE,
        _ => SymbolKind::Other,
    };
    Some((res.getText().to_owned(), kind))
}

/// Model of [`barcode_from_scan`]: only EAN-8 and EAN-13 symbols are
/// accepted; their text must parse as a decimal number and validate
/// against the reported symbology.
pub open spec fn scan_to_barcode_spec(text: Seq<char>, kind: SymbolKind) -> Result<
    (u64, BarcodeType),
    BarcodeError,
> {
    match kind {
        SymbolKind::Ean8 => match parse_digits_spec(text) {
            Ok(v) => from_digits_spec(v, Some(BarcodeType::Ean8)),
            Err(e) => Err(BarcodeError::ParseBarcodeErr(e)),
        },
        SymbolKind::Ean13 => match parse_digits_spec(text) {
            Ok(v) => from_digits_spec(v, Some(BarcodeType::Ean13)),
            Err(e) => Err(BarcodeError::ParseBarcodeErr(e)),
        },
        k => Err(BarcodeError::UnsupportedBarcodeType(k)),
    }
}

/// Normalises one decoder report into a validated barcode value.
pub fn barcode_from_scan(text: &str, kind: SymbolKind) -> (r: Result<Barcode, BarcodeError>)
    ensures
        (match r {
            Ok(b) => scan_to_barcode_spec(text@, kind) == Ok::<(u64, BarcodeType), BarcodeError>(
                ((b.spec_digits() as u64), b.spec_type()),
            ),
            Err(e) => scan_to_barcode_spec(text@, kind) == Err::<(u64, BarcodeType), BarcodeError>(
                e,
            ),
        }),
{
    match kind {
        SymbolKind::Ean8 => match parse_digits(text) {
            Ok(v) => Barcode::ean8(v),
            Err(e) => Err(BarcodeError::ParseBarcodeErr(e)),
        },
        SymbolKind::Ean13 => match parse_digits(text) {
            Ok(v) => Barcode::ean13(v),
            Err(e) => Err(BarcodeError::ParseBarcodeErr(e)),
        },
        k => Err(BarcodeError::UnsupportedBarcodeType(k)),
    }
}

/// Model of [`process_frame`]: the band's pixels are reduced to
/// luminance, scanned by the external decoder, and a found symbol is
/// validated; a miss is `Ok(None)`.
pub open spec fn frame_spec(rgba: Seq<u8>, width: u32) -> Result<
    Option<(u64, BarcodeType)>,
    BarcodeError,
> {
    match symbol_scan(luma_of(rgba), width, BAND_HEIGHT) {
        None => Ok(None),
        Some(p) => match scan_to_barcode_spec(p.0, p.1) {
            Ok(v) => Ok(Some(v)),
            Err(e) => Err(e),
        },
    }
}

/// Runs decode on the pixel readback of one sampled band: luminance
/// conversion, symbol decode, parsing and validation.
pub fn process_frame(rgba: &Vec<u8>, width: u32) -> (r: Result<Option<Barcode>, BarcodeError>)
    requires
        width >= 1,
        rgba@.len() == 4 * width * BAND_HEIGHT,
    ensures
        (match r {
            Ok(None) => frame_spec(rgba@, width) == Ok::<Option<(u64, BarcodeType)>, BarcodeError>(
                None,
            ),
            Ok(Some(b)) => frame_spec(rgba@, width) == Ok::<
                Option<(u64, BarcodeType)>,
                BarcodeError,
            >(Some(((b.spec_digits() as u64), b.spec_type()))),
            Err(e) => frame_spec(rgba@, width) == Err::<Option<(u64, BarcodeType)>, BarcodeError>(
                e,
            ),
        }),
{
    let luma = convert_to_luma(rgba);
    proof {
        assert(luma@.len() == width * BAND_HEIGHT);
    }
    match decode_luma(luma, width, BAND_HEIGHT) {
        None => Ok(None),
        Some((text, kind)) => match barcode_from_scan(text.as_str(), kind) {
            Ok(b) => Ok(Some(b)),
            Err(e) => Err(e),
        },
    }
}

} // verus!
