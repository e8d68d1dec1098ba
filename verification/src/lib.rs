//! Core of a screen-capture tool: selecting a capture target among the
//! available display outputs and sampling a fixed number of frames from it
//! at a fixed rate, with explicit failure and cancellation handling.
//!
//! Platform enumeration and the actual pixel readout are the calling
//! program's business; this crate holds the decisions: which output is
//! picked, how each capture outcome is recorded, and what the finished
//! session returns.

pub mod sampler;
pub mod selector;
pub mod target;
pub mod ui;

use vstd::prelude::*;

use crate::sampler::{sample, sample_post, seq_outcomes_wf, CaptureOutcome, FailurePolicy,
    SampleOutput};
use crate::selector::{resolve, selection_error, selection_fails, SelectionPolicy};
use crate::target::{CaptureError, CaptureTarget};

verus! {

/// One whole capture request: resolves the target once from the snapshot
/// of available outputs, then samples against it. Selection errors are
/// surfaced immediately, before any sampling work; once a target is
/// resolved it is never re-resolved, so every recorded outcome is from
/// that same target's stream.
pub fn start_session(
    available: &Vec<CaptureTarget>,
    policy: &SelectionPolicy,
    frame_count: usize,
    frame_rate: u64,
    failure_policy: FailurePolicy,
    outcomes: Vec<CaptureOutcome>,
    cancel_at: Option<usize>,
) -> (r: Result<SampleOutput, CaptureError>)
    requires
        outcomes@.len() == frame_count,
        seq_outcomes_wf(outcomes@),
    ensures
        selection_fails(available@, *policy) ==> r == Err::<SampleOutput, CaptureError>(
            selection_error(*policy),
        ),
        !selection_fails(available@, *policy) ==> sample_post(
            frame_count as int,
            frame_rate,
            failure_policy,
            outcomes@,
            cancel_at,
            r,
        ),
{
    let target = match resolve(available, policy) {
        Ok(t) => t,
        Err(e) => {
            return Err(e);
        },
    };
    sample(target, frame_count, frame_rate, failure_policy, outcomes, cancel_at)
}

} // verus!
