//! The scan session: one cancellable unit gluing camera resource, sampling
//! timer, decode adapter and consensus engine together.
//!
//! The embedder owns the real timer and pixel source and drives the
//! session through a small protocol, one call per event: `start`, then per
//! tick `plan_tick` (geometry and readiness), `process_frame` from the
//! decode adapter, and `observe` (consensus and confirmation); `cancel` at
//! any time.  Every decision is taken and specified here; the embedder
//! only performs I/O.
//!
//! Confirmation is single-shot: the first tick whose streak reaches the
//! threshold emits `Confirmed` and finishes the session; later ticks are
//! inactive.  Cancellation invalidates the timer state synchronously
//! before camera teardown is initiated, so a tick scheduled at the moment
//! of cancellation observes an inactive session and does nothing.

use crate::barcode_scanner::barcode::Barcode;
use crate::barcode_scanner::error::BarcodeError;
use crate::barcode_scanner::sampler::{band_offset, band_offset_spec};
use crate::barcode_scanner::{candidate_spec, confirmed_spec, update_spec, ScanCount};
use crate::camera::{CameraError, CameraService, StreamHandle};
use vstd::prelude::*;

verus! {

/// The fixed cadence of the sampling timer, in milliseconds.  Each tick
/// runs the sample, decode and consensus chain to completion well within
/// this period, so ticks never overlap.
pub const SCAN_INTERVAL_MS: u64 = 50;

/// What one timer tick should do before any pixels are read.
#[derive(Debug, Clone, Copy, PartialEq, Eq, Structural)]
pub enum TickPlan {
    /// The session is not running: do nothing.
    Inactive,
    /// The frame source reports no usable frame yet: skip this tick.
    /// Not an error; the next tick retries.
    NotReady,
    /// Render the full-width band starting at `offset_y` and hand its
    /// pixel readback to the decode adapter.
    Render { offset_y: u32 },
}

/// What the session decided after consuming one tick's decode outcome.
#[derive(Debug, Clone, Copy, PartialEq, Eq, Structural)]
pub enum TickOutcome {
    /// The session was not running; nothing happened.
    Inactive,
    /// No confirmation yet; keep ticking.
    Continue,
    /// The consensus threshold was reached: deliver this barcode to the
    /// consumer, exactly once, and stop ticking.
    Confirmed(Barcode),
    /// A hard per-tick error; the session is finished.
    Failed(BarcodeError),
}

/// The state of one scan session.
#[derive(Debug, Clone, Copy)]
pub struct ScanSession {
    camera: CameraService,
    timer_active: bool,
    count: ScanCount,
    done: bool,
}

impl ScanSession {
    /// The camera resource owned by this session.
    pub closed spec fn spec_camera(&self) -> CameraService {
        self.camera
    }

    /// Whether the periodic timer handle is still valid.
    pub closed spec fn spec_timer_active(&self) -> bool {
        self.timer_active
    }

    /// The consensus state.
    pub closed spec fn spec_count(&self) -> ScanCount {
        self.count
    }

    /// Whether the session has finished (confirmation emitted or hard
    /// error recorded).
    pub closed spec fn spec_done(&self) -> bool {
        self.done
    }

    /// A session processes ticks only while its timer is valid and it has
    /// not finished.
    pub open spec fn spec_running(&self) -> bool {
        self.spec_timer_active() && !self.spec_done()
    }

    /// What [`Self::plan_tick`] decides: nothing while not running, a
    /// skip while the frame source reports a zero dimension, otherwise a
    /// render of the centred band.
    pub open spec fn plan_spec(&self, width: u32, height: u32) -> TickPlan {
        if !self.spec_running() {
            TickPlan::Inactive
        } else if width == 0 || height == 0 {
            TickPlan::NotReady
        } else {
            TickPlan::Render { offset_y: band_offset_spec(height) as u32 }
        }
    }

    /// What [`Self::start`] does: the timer becomes valid, consensus is
    /// reset, and the camera is requested (idempotently).
    pub open spec fn start_transition(pre: Self, post: Self, request_camera: bool) -> bool {
        &&& post.spec_timer_active()
        &&& !post.spec_done()
        &&& post.spec_count() == ScanCount::Zero
        &&& CameraService::open_transition(
            pre.spec_camera(),
            post.spec_camera(),
            request_camera,
        )
    }

    /// What [`Self::observe`] does with one tick's decode outcome.  A
    /// session that is not running changes nothing.  A hard error
    /// finishes the session.  Otherwise the consensus machine advances;
    /// reaching the threshold emits the candidate and finishes the
    /// session, so confirmation fires exactly once.
    pub open spec fn observe_transition(
        pre: Self,
        post: Self,
        obs: Result<Option<Barcode>, BarcodeError>,
        out: TickOutcome,
    ) -> bool {
        &&& post.spec_camera() == pre.spec_camera()
        &&& post.spec_timer_active() == pre.spec_timer_active()
        &&& if !pre.spec_running() {
            post == pre && out == TickOutcome::Inactive
        } else {
            match obs {
                Err(e) => {
                    &&& out == TickOutcome::Failed(e)
                    &&& post.spec_done()
                    &&& post.spec_count() == pre.spec_count()
                },
                Ok(o) => {
                    let next = update_spec(pre.spec_count(), o);
                    &&& post.spec_count() == next
                    &&& if confirmed_spec(next) {
                        &&& out matches TickOutcome::Confirmed(b) && candidate_spec(next)
                            == Some(b)
                        &&& post.spec_done()
                    } else {
                        &&& out == TickOutcome::Continue
                        &&& !post.spec_done()
                    }
                },
            }
        }
    }

    /// What [`Self::cancel`] does: the timer is invalidated, consensus
    /// state is discarded, and the camera is closed, handing back the
    /// live handle whose tracks must be stopped.
    pub open spec fn cancel_transition(pre: Self, post: Self, stop: Option<StreamHandle>) -> bool {
        &&& !post.spec_timer_active()
        &&& post.spec_done() == pre.spec_done()
        &&& post.spec_count() == ScanCount::Zero
        &&& CameraService::close_transition(pre.spec_camera(), post.spec_camera(), stop)
    }

    /// Creates a session that has not started: no timer, fresh consensus,
    /// camera closed.
    pub fn new() -> (s: ScanSession)
        ensures
            !s.spec_timer_active(),
            !s.spec_done(),
            s.spec_count() == ScanCount::Zero,
            !s.spec_camera().spec_opened(),
            s.spec_camera().spec_stream() is None,
    {
        ScanSession {
            camera: CameraService::new(),
            timer_active: false,
            count: ScanCount::Zero,
            done: false,
        }
    }

    /// Starts (or restarts) the session: opens the camera resource,
    /// validates the timer state, and resets consensus.  Returns whether
    /// the embedder must issue a device-acquisition request.
    pub fn start(&mut self) -> (request_camera: bool)
        ensures
            Self::start_transition(*old(self), *final(self), request_camera),
    {
        let request_camera = self.camera.open();
        self.timer_active = true;
        self.done = false;
        self.count = ScanCount::Zero;
        request_camera
    }

    /// Records the platform's answer to the camera request; see
    /// [`CameraService::resolve`].
    pub fn resolve_camera(&mut self, outcome: Result<StreamHandle, CameraError>) -> (late_grant:
        Option<StreamHandle>)
        ensures
            CameraService::resolve_transition(
                old(self).spec_camera(),
                final(self).spec_camera(),
                outcome,
                late_grant,
            ),
            final(self).spec_timer_active() == old(self).spec_timer_active(),
            final(self).spec_count() == old(self).spec_count(),
            final(self).spec_done() == old(self).spec_done(),
    {
        self.camera.resolve(outcome)
    }

    /// Decides what this tick should do, from the frame source's current
    /// dimensions.  A zero dimension means the frame is not ready: the
    /// tick is skipped without error.
    pub fn plan_tick(&self, width: u32, height: u32) -> (p: TickPlan)
        ensures
            p == self.plan_spec(width, height),
    {
        if !self.timer_active || self.done {
            TickPlan::Inactive
        } else if width == 0 || height == 0 {
            TickPlan::NotReady
        } else {
            TickPlan::Render { offset_y: band_offset(height) }
        }
    }

    /// Consumes one tick's decode outcome: advances the consensus machine
    /// and decides whether the session continues, confirms, or fails.
    pub fn observe(&mut self, obs: Result<Option<Barcode>, BarcodeError>) -> (out: TickOutcome)
        ensures
            Self::observe_transition(*old(self), *final(self), obs, out),
    {
        if !self.timer_active || self.done {
            return TickOutcome::Inactive;
        }
        match obs {
            Err(e) => {
                self.done = true;
                TickOutcome::Failed(e)
            },
            Ok(o) => {
                self.count.update(o);
                if self.count.confirmed() {
                    self.done = true;
                    match self.count.candidate() {
                        Some(b) => TickOutcome::Confirmed(b),
                        None => TickOutcome::Continue,  // unreachable: a confirmed state has a candidate
                    }
                } else {
                    TickOutcome::Continue
                }
            },
        }
    }

    /// Cancels the session: invalidates the timer state first, then
    /// closes the camera.  The returned handle's tracks must be stopped
    /// by the embedder; teardown failures are logged there, never
    /// propagated.
    pub fn cancel(&mut self) -> (stop: Option<StreamHandle>)
        ensures
            Self::cancel_transition(*old(self), *final(self), stop),
    {
        self.timer_active = false;
        self.count = ScanCount::Zero;
        self.camera.close()
    }

    /// Whether the session is currently processing ticks.
    pub fn is_running(&self) -> (b: bool)
        ensures
            b == self.spec_running(),
    {
        self.timer_active && !self.done
    }
}

/// After `cancel` returns, no further tick does anything and no
/// confirmation fires, even if a tick was already scheduled at the moment
/// of cancellation: the cancelled session is inactive and unchanged by
/// any observation.
pub proof fn lemma_no_confirmation_after_cancel(
    s0: ScanSession,
    s1: ScanSession,
    s2: ScanSession,
    stop: Option<StreamHandle>,
    obs: Result<Option<Barcode>, BarcodeError>,
    out: TickOutcome,
)
    requires
        ScanSession::cancel_transition(s0, s1, stop),
        ScanSession::observe_transition(s1, s2, obs, out),
    ensures
        out == TickOutcome::Inactive,
        s2 == s1,
{
}

/// Confirmation is single-shot: once a tick confirms, every later tick
/// observes a finished session, changes nothing and emits nothing.
pub proof fn lemma_confirmation_single_shot(
    s0: ScanSession,
    s1: ScanSession,
    s2: ScanSession,
    obs1: Result<Option<Barcode>, BarcodeError>,
    obs2: Result<Option<Barcode>, BarcodeError>,
    out1: TickOutcome,
    out2: TickOutcome,
)
    requires
        ScanSession::observe_transition(s0, s1, obs1, out1),
        ScanSession::observe_transition(s1, s2, obs2, out2),
        out1 matches TickOutcome::Confirmed(_),
    ensures
        out2 == TickOutcome::Inactive,
        s2 == s1,
{
}

} // verus!
