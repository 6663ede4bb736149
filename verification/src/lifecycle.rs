//! The listener lifecycle state machine: the decisions behind `listen` and
//! `stop_listen`, separated from the OS calls that carry them out.
//!
//! The platform runner drives this machine: it asks to begin, reports how
//! hook installation went, enters the blocking delivery pump while the
//! machine is `Running`, and reports when the pump has returned. A stop
//! request from any other thread goes through `request_stop`, whose `Ok`
//! tells the caller to post the wake signal to the run loop the pump is
//! blocked on. Every failure is a returned error, never a panic.

use vstd::prelude::*;
use crate::event::ListenError;

verus! {

/// Where the listener stands: `Idle` (no capture), `Installing` (between the
/// decision to listen and the hook being live), `Running` (the delivery pump
/// owns the listening thread).
#[derive(Clone, Copy, Debug, PartialEq, Eq, Structural)]
pub enum Phase {
    Idle,
    Installing,
    Running,
}

/// The lifecycle controller's state. One per process: exactly one listener
/// may be active at a time.
pub struct Lifecycle {
    pub phase: Phase,
}

impl Lifecycle {
    /// A fresh controller: no listener active.
    pub fn new() -> (c: Lifecycle)
        ensures
            c.phase is Idle,
    {
        Lifecycle { phase: Phase::Idle }
    }

    /// Records the decision to start listening. At most one listener may be
    /// active per process; starting a second one while a first is installing
    /// or running is unsupported, so the caller must only ask from `Idle`.
    pub fn begin_listen(&mut self)
        requires
            old(self).phase is Idle,
        ensures
            final(self).phase is Installing,
    {
        self.phase = Phase::Installing;
    }

    /// Records how hook installation went. `tap_ok` is whether the OS
    /// created the interception point (it refuses when input-monitoring
    /// permission is missing), `attach_ok` whether its delivery source could
    /// be attached to the listening thread's run loop. Either failure is
    /// fatal for this attempt and returns the listener to `Idle`: permission
    /// failures do not self-resolve, so no retry is attempted here. On
    /// success the listener is `Running` and the caller enters the pump.
    pub fn install_outcome(&mut self, tap_ok: bool, attach_ok: bool) -> (r: Result<(), ListenError>)
        requires
            old(self).phase is Installing,
        ensures
            !tap_ok ==> r == Result::<(), ListenError>::Err(ListenError::HookCreationFailed)
                && final(self).phase is Idle,
            tap_ok && !attach_ok ==> r == Result::<(), ListenError>::Err(
                ListenError::EventLoopAttachFailed,
            ) && final(self).phase is Idle,
            tap_ok && attach_ok ==> r == Result::<(), ListenError>::Ok(())
                && final(self).phase is Running,
    {
        if !tap_ok {
            self.phase = Phase::Idle;
            Err(ListenError::HookCreationFailed)
        } else if !attach_ok {
            self.phase = Phase::Idle;
            Err(ListenError::EventLoopAttachFailed)
        } else {
            self.phase = Phase::Running;
            Ok(())
        }
    }

    /// A stop request, callable from a thread other than the listening one.
    /// Succeeds exactly when a listener is running: the `Ok` tells the
    /// caller to post the wake signal to the run loop the pump is blocked
    /// on, and the listener is accounted stopped. With no active listener
    /// there is nothing to signal and the request fails with
    /// `StopSignalFailed`, leaving the state untouched. Should the OS then
    /// refuse the posted interrupt, the caller surfaces `StopSignalFailed`
    /// itself.
    pub fn request_stop(&mut self) -> (r: Result<(), ListenError>)
        ensures
            old(self).phase is Running ==> r == Result::<(), ListenError>::Ok(())
                && final(self).phase is Idle,
            !(old(self).phase is Running) ==> r == Result::<(), ListenError>::Err(
                ListenError::StopSignalFailed,
            ) && final(self).phase == old(self).phase,
    {
        match self.phase {
            Phase::Running => {
                self.phase = Phase::Idle;
                Ok(())
            },
            _ => Err(ListenError::StopSignalFailed),
        }
    }

    /// Records that the blocking delivery pump has returned, whether after a
    /// granted stop request (the state is already `Idle` then) or because
    /// the pump failed irrecoverably. Either way no listener is active
    /// afterwards.
    pub fn pump_returned(&mut self)
        ensures
            final(self).phase is Idle,
    {
        self.phase = Phase::Idle;
    }
}

} // verus!
