//! Turning the raw outcome of one probe attempt into its report.

use vstd::prelude::*;

use crate::constants::AppConstants;
use crate::error::NetworkError;
use crate::report::TargetReport;
use crate::target::NetworkTarget;

verus! {

/// Builds the report of one probe attempt against `target`: a success
/// carries the elapsed latency and no error, a failure carries the
/// rendered error and no latency.  A timeout arrives here as
/// [NetworkError::TimeoutError] and is never encoded as a latency
/// value.
pub fn outcome_report(target: &NetworkTarget, outcome: Result<u64, NetworkError>) -> (r:
    TargetReport)
    requires
        outcome is Ok ==> outcome->Ok_0 <= AppConstants::MAX_SAMPLE_LATENCY_MS,
    ensures
        r.wf(),
        r.label@ == target.label@,
        r.is_essential == target.is_essential,
        r.success <==> outcome is Ok,
        outcome is Ok ==> r.latency_ms == Some(outcome->Ok_0) && r.error is None,
        outcome is Err ==> {
            &&& r.latency_ms is None
            &&& r.error is Some
            &&& r.error->0@ == outcome->Err_0.spec_message()
        },
{
    match outcome {
        Ok(latency) => TargetReport {
            label: target.label.clone(),
            success: true,
            latency_ms: Some(latency),
            error: None,
            is_essential: target.is_essential,
        },
        Err(e) => TargetReport {
            label: target.label.clone(),
            success: false,
            latency_ms: None,
            error: Some(e.message()),
            is_essential: target.is_essential,
        },
    }
}

} // verus!
