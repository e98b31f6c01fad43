use shopping_list::barcode_scanner::error::BarcodeError;
use shopping_list::barcode_scanner::session::{ScanSession, TickOutcome, TickPlan};
use shopping_list::barcode_scanner::{Barcode, ScanCount};
use shopping_list::camera::{CameraError, CameraService, StreamHandle};

fn ean8(v: u64) -> Barcode {
    Barcode::ean8(v).unwrap()
}

#[test]
fn three_identical_detections_confirm() {
    let a = ean8(96_385_074);
    let mut c = ScanCount::Zero;
    c.update(Some(a));
    assert!(!c.confirmed());
    c.update(Some(a));
    assert!(!c.confirmed());
    c.update(Some(a));
    assert!(c.confirmed());
    assert_eq!(c.candidate(), Some(a));
}

#[test]
fn candidate_change_restarts_streak() {
    let a = ean8(96_385_074);
    let b = ean8(87_654_325);
    let mut c = ScanCount::Zero;
    for obs in [Some(a), Some(a), Some(b), Some(b)] {
        c.update(obs);
        assert!(!c.confirmed());
    }
    c.update(Some(b));
    assert!(c.confirmed());
    assert_eq!(c.candidate(), Some(b));
}

#[test]
fn detection_gap_resets_streak() {
    let a = ean8(96_385_074);
    let mut c = ScanCount::Zero;
    for obs in [Some(a), None, Some(a), Some(a)] {
        c.update(obs);
        assert!(!c.confirmed());
    }
    c.update(Some(a));
    assert!(c.confirmed());
    assert_eq!(c.candidate(), Some(a));
}

#[test]
fn camera_open_is_idempotent() {
    let mut cam = CameraService::new();
    assert!(cam.open());
    assert!(!cam.open());
    assert!(!cam.open());
}

#[test]
fn camera_close_hands_back_live_stream() {
    let mut cam = CameraService::new();
    assert!(cam.open());
    assert_eq!(cam.resolve(Ok(StreamHandle { id: 7 })), None);
    assert_eq!(cam.close(), Some(StreamHandle { id: 7 }));
    assert!(!cam.is_opened());
    assert_eq!(cam.current_stream(), None);
}

#[test]
fn camera_late_grant_must_be_stopped() {
    let mut cam = CameraService::new();
    assert!(cam.open());
    assert_eq!(cam.close(), None);
    // The grant arrives after the consumer closed the resource: it is not
    // recorded, and its tracks are the caller's to stop.
    assert_eq!(cam.resolve(Ok(StreamHandle { id: 3 })), Some(StreamHandle { id: 3 }));
    assert_eq!(cam.current_stream(), None);
}

#[test]
fn camera_records_denial() {
    let mut cam = CameraService::new();
    assert!(cam.open());
    assert_eq!(cam.resolve(Err(CameraError::GetUserMediaRejected)), None);
    assert_eq!(
        cam.current_stream(),
        Some(Err(CameraError::GetUserMediaRejected))
    );
    // A failed acquisition leaves nothing to stop on close.
    assert_eq!(cam.close(), None);
}

#[test]
fn streak_saturates_instead_of_overflowing() {
    let a = ean8(96_385_074);
    let mut c = ScanCount::Zero;
    for _ in 0..300 {
        c.update(Some(a));
    }
    assert!(c.confirmed());
    assert_eq!(c.candidate(), Some(a));
}

#[test]
fn session_confirms_once_and_stops() {
    let a = ean8(96_385_074);
    let mut s = ScanSession::new();
    assert!(s.start());
    assert_eq!(s.observe(Ok(Some(a))), TickOutcome::Continue);
    assert_eq!(s.observe(Ok(Some(a))), TickOutcome::Continue);
    assert_eq!(s.observe(Ok(Some(a))), TickOutcome::Confirmed(a));
    // Single-shot: the session is finished, later ticks do nothing.
    assert_eq!(s.observe(Ok(Some(a))), TickOutcome::Inactive);
    assert!(!s.is_running());
}

#[test]
fn session_miss_feeds_consensus_gap() {
    let a = ean8(96_385_074);
    let mut s = ScanSession::new();
    s.start();
    assert_eq!(s.observe(Ok(Some(a))), TickOutcome::Continue);
    assert_eq!(s.observe(Ok(None)), TickOutcome::Continue);
    assert_eq!(s.observe(Ok(Some(a))), TickOutcome::Continue);
    assert_eq!(s.observe(Ok(Some(a))), TickOutcome::Continue);
    assert_eq!(s.observe(Ok(Some(a))), TickOutcome::Confirmed(a));
}

#[test]
fn session_hard_error_is_fatal() {
    let mut s = ScanSession::new();
    s.start();
    assert_eq!(
        s.observe(Err(BarcodeError::DrawImgErr)),
        TickOutcome::Failed(BarcodeError::DrawImgErr)
    );
    assert!(!s.is_running());
    assert_eq!(s.observe(Ok(None)), TickOutcome::Inactive);
}

#[test]
fn no_confirmation_after_cancel() {
    let a = ean8(96_385_074);
    let mut s = ScanSession::new();
    s.start();
    s.observe(Ok(Some(a)));
    s.observe(Ok(Some(a)));
    s.cancel();
    // A tick scheduled at the moment of cancellation observes an inactive
    // session: no callback fires even though the streak was one short.
    assert_eq!(s.observe(Ok(Some(a))), TickOutcome::Inactive);
    assert!(!s.is_running());
}

#[test]
fn cancel_stops_timer_and_closes_camera() {
    let mut s = ScanSession::new();
    assert!(s.start());
    assert_eq!(s.resolve_camera(Ok(StreamHandle { id: 11 })), None);
    assert_eq!(s.cancel(), Some(StreamHandle { id: 11 }));
    assert!(!s.is_running());
}

#[test]
fn restart_after_cancel_requests_camera_again() {
    let mut s = ScanSession::new();
    assert!(s.start());
    s.cancel();
    assert!(s.start());
}

#[test]
fn zero_width_frame_skips_tick_without_error() {
    let mut s = ScanSession::new();
    s.start();
    assert_eq!(s.plan_tick(0, 480), TickPlan::NotReady);
    assert_eq!(s.plan_tick(640, 0), TickPlan::NotReady);
    // The skip is no error: the session keeps running.
    assert!(s.is_running());
}

#[test]
fn plan_tick_centres_the_band() {
    let mut s = ScanSession::new();
    assert_eq!(s.plan_tick(640, 480), TickPlan::Inactive);
    s.start();
    assert_eq!(s.plan_tick(640, 480), TickPlan::Render { offset_y: 190 });
    assert_eq!(s.plan_tick(640, 100), TickPlan::Render { offset_y: 0 });
    assert_eq!(s.plan_tick(640, 60), TickPlan::Render { offset_y: 0 });
    assert_eq!(s.plan_tick(640, 101), TickPlan::Render { offset_y: 0 });
    assert_eq!(s.plan_tick(640, 102), TickPlan::Render { offset_y: 1 });
}
