//! Standalone helpers kept beside the engine: the latency-only quality
//! classifier used by callers that want a verdict without a full check.

use vstd::prelude::*;

use crate::config::{ConnectionQuality, QualityThresholds};

verus! {

/// The tier selected by latency alone, bottoming out at Dead.  Unlike
/// the engine's classifier ([crate::quality::spec_evaluate_quality]),
/// which reports Offline beyond the poor threshold, this variant does
/// not distinguish an absent connection from an unusably slow one.
pub open spec fn spec_evaluate_quality_dead(latency: u64, t: QualityThresholds) -> ConnectionQuality {
    if latency <= t.excellent {
        ConnectionQuality::Excellent
    } else if latency <= t.great {
        ConnectionQuality::Great
    } else if latency <= t.good {
        ConnectionQuality::Good
    } else if latency <= t.moderate {
        ConnectionQuality::Moderate
    } else if latency <= t.poor {
        ConnectionQuality::Poor
    } else {
        ConnectionQuality::Dead
    }
}

/// Classifies a latency against a set of thresholds, reporting the
/// bottom tier as Dead.
pub fn evaluate_quality(latency: u64, threshold: &QualityThresholds) -> (r: ConnectionQuality)
    ensures
        r == spec_evaluate_quality_dead(latency, *threshold),
{
    if latency <= threshold.excellent {
        ConnectionQuality::Excellent
    } else if latency <= threshold.great {
        ConnectionQuality::Great
    } else if latency <= threshold.good {
        ConnectionQuality::Good
    } else if latency <= threshold.moderate {
        ConnectionQuality::Moderate
    } else if latency <= threshold.poor {
        ConnectionQuality::Poor
    } else {
        ConnectionQuality::Dead
    }
}

} // verus!
