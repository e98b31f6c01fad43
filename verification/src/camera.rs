//! Camera resource lifecycle.
//!
//! The platform camera is a singleton resource per scan session.  This module
//! models its state explicitly: `opened` records whether the consumer wants
//! the stream, and `stream` holds the asynchronously derived acquisition
//! outcome once the platform has answered.  The embedder performs the actual
//! device calls — requesting an environment-facing camera without audio —
//! and feeds their outcomes back through [`CameraService::resolve`];
//! every decision — when to issue a device request, when tracks must be
//! stopped — is taken here and stated in the contracts.
//!
//! Release is not a no-op: whenever `opened` falls back to `false`, a live
//! stream's tracks must be stopped.  [`CameraService::close`] and
//! [`CameraService::resolve`] therefore hand any such obligation back to the
//! caller as a returned [`StreamHandle`].

use crate::util::JsSetError;
use vstd::prelude::*;

verus! {

/// Failure kinds of camera stream acquisition.  All are fatal for the scan
/// session; the pipeline never retries on its own.
#[derive(Debug, Clone, Copy, PartialEq, Eq, Structural)]
pub enum CameraError {
    /// The platform exposes no media device enumeration.
    NoMediaDevices,
    /// Issuing the user-media request failed outright.
    GetUserMediaErr,
    /// The user-media request was rejected (typically permission denial).
    GetUserMediaRejected,
    /// The granted stream object could not be converted to a media stream.
    MediaStreamConversion,
    /// Building the constraint object failed.
    JsSetError(JsSetError),
}

/// An opaque token standing for a granted platform media stream.  The
/// embedder keys its real stream objects by this token.
#[derive(Debug, Clone, Copy, PartialEq, Eq, Structural)]
pub struct StreamHandle {
    pub id: u64,
}

/// The camera resource state machine: `opened` is the externally requested
/// state, `stream` the asynchronously derived acquisition outcome.
#[derive(Debug, Clone, Copy)]
pub struct CameraService {
    opened: bool,
    stream: Option<Result<StreamHandle, CameraError>>,
}

impl CameraService {
    /// Whether the consumer currently wants the stream.
    pub closed spec fn spec_opened(&self) -> bool {
        self.opened
    }

    /// The acquisition outcome, if the platform has answered.
    pub closed spec fn spec_stream(&self) -> Option<Result<StreamHandle, CameraError>> {
        self.stream
    }

    /// The live handle that a transition to closed must stop, if any.
    pub open spec fn live_handle(&self) -> Option<StreamHandle> {
        match self.spec_stream() {
            Some(Ok(h)) => Some(h),
            _ => None,
        }
    }

    /// What [`CameraService::open`] does: the resource is wanted afterwards,
    /// the acquisition outcome is untouched, and a device request goes out
    /// exactly when the resource was not already wanted.
    pub open spec fn open_transition(pre: Self, post: Self, issue_request: bool) -> bool {
        &&& post.spec_opened()
        &&& post.spec_stream() == pre.spec_stream()
        &&& issue_request == !pre.spec_opened()
    }

    /// What [`CameraService::resolve`] does: while the resource is wanted the
    /// platform's answer is recorded; an answer arriving after the resource
    /// was closed is not recorded, and a late grant must have its tracks
    /// stopped by the caller.
    pub open spec fn resolve_transition(
        pre: Self,
        post: Self,
        outcome: Result<StreamHandle, CameraError>,
        late_grant: Option<StreamHandle>,
    ) -> bool {
        &&& post.spec_opened() == pre.spec_opened()
        &&& if pre.spec_opened() {
            post.spec_stream() == Some(outcome) && late_grant is None
        } else {
            post.spec_stream() == pre.spec_stream() && late_grant == (match outcome {
                Ok(h) => Some(h),
                Err(_) => None,
            })
        }
    }

    /// What [`CameraService::close`] does: the resource is no longer wanted,
    /// no outcome is held, and a previously live handle is handed back so
    /// that its tracks are stopped.
    pub open spec fn close_transition(pre: Self, post: Self, stop: Option<StreamHandle>) -> bool {
        &&& !post.spec_opened()
        &&& post.spec_stream() is None
        &&& stop == pre.live_handle()
    }

    /// Creates the resource in its closed, unresolved state.
    pub fn new() -> (s: CameraService)
        ensures
            !s.spec_opened(),
            s.spec_stream() is None,
    {
        CameraService { opened: false, stream: None }
    }

    /// Requests the stream.  Idempotent: if the resource is already wanted,
    /// no second device request is issued and the pending or resolved
    /// outcome is kept.
    pub fn open(&mut self) -> (issue_request: bool)
        ensures
            Self::open_transition(*old(self), *final(self), issue_request),
    {
        let issue_request = !self.opened;
        if issue_request {
            self.opened = true;
        }
        issue_request
    }

    /// Records the platform's answer to an acquisition request.  If the
    /// resource was closed while the request was in flight, the answer is
    /// dropped and a granted handle is returned so the caller stops its
    /// tracks.
    pub fn resolve(&mut self, outcome: Result<StreamHandle, CameraError>) -> (late_grant: Option<
        StreamHandle,
    >)
        ensures
            Self::resolve_transition(*old(self), *final(self), outcome, late_grant),
    {
        if self.opened {
            self.stream = Some(outcome);
            None
        } else {
            match outcome {
                Ok(h) => Some(h),
                Err(_) => None,
            }
        }
    }

    /// Marks the resource as not wanted.  Returns the live handle whose
    /// tracks the caller must stop; teardown must always complete, so a
    /// track that fails to stop is the caller's to log, not to propagate.
    pub fn close(&mut self) -> (stop: Option<StreamHandle>)
        ensures
            Self::close_transition(*old(self), *final(self), stop),
    {
        self.opened = false;
        let stop = match self.stream {
            Some(Ok(h)) => Some(h),
            _ => None,
        };
        self.stream = None;
        stop
    }

    /// Whether the consumer currently wants the stream.
    pub fn is_opened(&self) -> (b: bool)
        ensures
            b == self.spec_opened(),
    {
        self.opened
    }

    /// The recorded acquisition outcome, if any.
    pub fn current_stream(&self) -> (s: Option<Result<StreamHandle, CameraError>>)
        ensures
            s == self.spec_stream(),
    {
        self.stream
    }
}

/// Opening an already-open resource issues no second device request: however
/// many times `open` runs before any resolution, only the first issues an
/// acquisition request.
pub proof fn lemma_open_idempotent(
    s0: CameraService,
    s1: CameraService,
    s2: CameraService,
    first: bool,
    second: bool,
)
    requires
        CameraService::open_transition(s0, s1, first),
        CameraService::open_transition(s1, s2, second),
    ensures
        !second,
        s2.spec_stream() == s0.spec_stream(),
{
}

} // verus!
