//! The barcode acquisition pipeline: validated barcode values, the
//! multi-frame consensus (debounce) state machine, frame sampling, the
//! decode adapter, and the scan session that orchestrates them.

pub mod barcode;
pub mod decode;
pub mod error;
pub mod sampler;
pub mod session;

pub use barcode::{from_digits_spec, requested_len, Barcode, BarcodeType, OptionBarcode};
pub use error::BarcodeError;

use vstd::prelude::*;

verus! {

/// How many consecutive identical detections confirm a barcode.
pub const NEEDED_SCAN_COUNT: u8 = 3;

/// The consensus (debounce) state: either no candidate, or a candidate
/// with the number of consecutive identical detections observed so far.
#[derive(Debug, Clone, Copy, PartialEq, Eq, Structural)]
pub enum ScanCount {
    /// No confirmed or in-progress candidate.
    Zero,
    /// `count` consecutive ticks observed `barcode`; `count >= 1`.
    Count { barcode: Barcode, count: u8 },
}

/// The transition function of the consensus machine: a gap resets all
/// confidence; a repeated candidate extends its streak (saturating); any
/// other detection starts a fresh streak of one.
pub open spec fn update_spec(cur: ScanCount, next: Option<Barcode>) -> ScanCount {
    match next {
        None => ScanCount::Zero,
        Some(b) => match cur {
            ScanCount::Count { barcode, count } => if barcode == b {
                ScanCount::Count {
                    barcode,
                    count: if count == u8::MAX {
                        count
                    } else {
                        (count + 1) as u8
                    },
                }
            } else {
                ScanCount::Count { barcode: b, count: 1 }
            },
            ScanCount::Zero => ScanCount::Count { barcode: b, count: 1 },
        },
    }
}

/// Whether a state has reached the confirmation threshold.
pub open spec fn confirmed_spec(s: ScanCount) -> bool {
    s matches ScanCount::Count { count, .. } && count >= NEEDED_SCAN_COUNT
}

/// The candidate a confirmed state carries.
pub open spec fn candidate_spec(s: ScanCount) -> Option<Barcode> {
    match s {
        ScanCount::Zero => None,
        ScanCount::Count { barcode, .. } => Some(barcode),
    }
}

impl ScanCount {
    /// Feeds one per-tick observation into the machine.
    pub fn update(&mut self, next: Option<Barcode>)
        ensures
            *final(self) == update_spec(*old(self), next),
    {
        *self = match (*self, next) {
            (_, None) => ScanCount::Zero,
            (ScanCount::Count { barcode: kind, count }, Some(barcode)) if kind == barcode => {
                ScanCount::Count {
                    barcode: kind,
                    count: if count == u8::MAX {
                        count
                    } else {
                        count + 1
                    },
                }
            },
            (_, Some(barcode)) => ScanCount::Count { barcode, count: 1 },
        }
    }

    /// Whether the confirmation threshold has been reached.
    pub fn confirmed(&self) -> (b: bool)
        ensures
            b == confirmed_spec(*self),
    {
        match self {
            ScanCount::Count { count, .. } => *count >= NEEDED_SCAN_COUNT,
            ScanCount::Zero => false,
        }
    }

    /// The current candidate, if any.
    pub fn candidate(&self) -> (c: Option<Barcode>)
        ensures
            c == candidate_spec(*self),
    {
        match self {
            ScanCount::Count { barcode, .. } => Some(*barcode),
            ScanCount::Zero => None,
        }
    }
}

/// Three consecutive identical detections, and no fewer, confirm the
/// candidate: starting from `Zero`, the streak reaches the threshold
/// exactly at the third detection, carrying that candidate.
pub proof fn lemma_three_identical_confirm(a: Barcode)
    ensures
        ({
            let s1 = update_spec(ScanCount::Zero, Some(a));
            let s2 = update_spec(s1, Some(a));
            let s3 = update_spec(s2, Some(a));
            &&& !confirmed_spec(s1)
            &&& !confirmed_spec(s2)
            &&& confirmed_spec(s3)
            &&& candidate_spec(s3) == Some(a)
        }),
{
}

/// A change of candidate restarts the streak: over the observations
/// `[a, a, b, b, b]` (with `a != b`) confirmation is reached only at the
/// fifth element, and for `b`, never for `a`.
pub proof fn lemma_candidate_change_restarts(a: Barcode, b: Barcode)
    requires
        a != b,
    ensures
        ({
            let s1 = update_spec(ScanCount::Zero, Some(a));
            let s2 = update_spec(s1, Some(a));
            let s3 = update_spec(s2, Some(b));
            let s4 = update_spec(s3, Some(b));
            let s5 = update_spec(s4, Some(b));
            &&& !confirmed_spec(s1)
            &&& !confirmed_spec(s2)
            &&& !confirmed_spec(s3)
            &&& !confirmed_spec(s4)
            &&& confirmed_spec(s5)
            &&& candidate_spec(s5) == Some(b)
        }),
{
}

/// A gap in detection resets confidence: over `[a, gap, a, a, a]` the
/// streak is counted only from the post-gap detections, so confirmation
/// is reached at the fifth element and not before.
pub proof fn lemma_gap_resets(a: Barcode)
    ensures
        ({
            let s1 = update_spec(ScanCount::Zero, Some(a));
            let s2 = update_spec(s1, None);
            let s3 = update_spec(s2, Some(a));
            let s4 = update_spec(s3, Some(a));
            let s5 = update_spec(s4, Some(a));
            &&& !confirmed_spec(s1)
            &&& !confirmed_spec(s2)
            &&& !confirmed_spec(s3)
            &&& !confirmed_spec(s4)
            &&& confirmed_spec(s5)
            &&& candidate_spec(s5) == Some(a)
        }),
{
}

} // verus!
