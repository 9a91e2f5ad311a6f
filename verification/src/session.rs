//! Reporting rules for a capture session: how the worker's terminal result
//! is combined and how `stop()` reports it to the caller.

use vstd::prelude::*;
use crate::engine::LoopError;

verus! {

/// Why a capture attempt failed.
#[derive(Copy, Clone, Debug, PartialEq, Eq, Structural)]
pub enum CaptureError {
    /// Writing the enable state to the device failed.
    Enable(crate::engine::UsbFault),
    /// The capture event loop ended with an error.
    Capture(LoopError),
    /// Writing the disable state to the device failed.
    Disable(crate::engine::UsbFault),
}

/// How the capture thread terminated.
pub enum WorkerOutcome {
    /// The thread ran to completion with the given capture result.
    Finished(Result<(), CaptureError>),
    /// The thread terminated abnormally, with its panic message.
    Panicked(String),
}

/// What `stop()` reports to the caller.
pub enum StopError {
    /// The cancellation signal could not be delivered.
    SignalFailed,
    /// The capture thread terminated abnormally, with its panic message.
    WorkerPanic(String),
    /// The capture failed; the first non-benign error is the cause.
    Failed(CaptureError),
}

/// Combine the event loop's terminal result with the result of the
/// best-effort disable write: a loop error takes priority as the reported
/// cause, and a disable failure surfaces only if the capture had otherwise
/// succeeded.
pub fn combine_final(
    loop_result: Result<(), CaptureError>,
    disable_result: Result<(), CaptureError>,
) -> (r: Result<(), CaptureError>)
    ensures
        loop_result is Err ==> r == loop_result,
        loop_result is Ok ==> r == disable_result,
{
    match loop_result {
        Err(e) => Err(e),
        Ok(()) => disable_result,
    }
}

/// Turn what `stop()` observed into its result: an undeliverable signal and
/// an abnormal thread termination are reported as such; otherwise the
/// worker's terminal result is propagated — in particular a transport
/// failure surfaces through `stop()` even though a stop was also requested.
pub fn stop_verdict(signal_delivered: bool, outcome: WorkerOutcome) -> (r: Result<
    (),
    StopError,
>)
    ensures
        !signal_delivered ==> r matches Err(StopError::SignalFailed),
        signal_delivered ==> match outcome {
            WorkerOutcome::Panicked(msg) => r matches Err(StopError::WorkerPanic(m)) && m == msg,
            WorkerOutcome::Finished(Ok(())) => r is Ok,
            WorkerOutcome::Finished(Err(e)) => r matches Err(StopError::Failed(cause)) && cause
                == e,
        },
{
    if !signal_delivered {
        return Err(StopError::SignalFailed);
    }
    match outcome {
        WorkerOutcome::Panicked(msg) => Err(StopError::WorkerPanic(msg)),
        WorkerOutcome::Finished(Ok(())) => Ok(()),
        WorkerOutcome::Finished(Err(e)) => Err(StopError::Failed(e)),
    }
}

/// A transport failure observed by the event loop is what `stop()` returns,
/// even though stop was requested: the benign shutdown path never masks it.
pub proof fn lemma_stop_reports_transport_failure(
    s: crate::engine::Engine,
    fault: crate::engine::UsbFault,
)
    requires
        s.stopped,
        fault != crate::engine::UsbFault::Cancelled,
    ensures
        crate::engine::step_action(s, crate::engine::EngineEvent::TransferFailed(fault))
            == crate::engine::EngineAction::FinishErr(LoopError::Transport(fault)),
{
}

} // verus!
