//! The reporting-tool module of the host: adapters that poll tuning input
//! and emit control events toward an external reporting tool.
use vstd::prelude::*;

verus! {

/// Adapter that polls tuning adjustments from the reporting tool.
#[derive(Debug, Clone, Copy, PartialEq, Eq, Structural)]
pub struct PollTuningAdapter {}

/// Adapter that emits control events toward the reporting tool.
#[derive(Debug, Clone, Copy, PartialEq, Eq, Structural)]
pub struct EmitToReportingAdapter {}

/// The assembled reporting-tool module.
#[derive(Debug, Clone, Copy, PartialEq, Eq, Structural)]
pub struct ReportingToolModule {
    pub tuning_adapter: PollTuningAdapter,
    pub control_event_adapter: EmitToReportingAdapter,
}

impl ReportingToolModule {
    /// Assemble the reporting-tool module.
    pub fn initialize() -> (r: Self)
        ensures
            r == (ReportingToolModule {
                tuning_adapter: PollTuningAdapter {  },
                control_event_adapter: EmitToReportingAdapter {  },
            }),
    {
        Self {
            tuning_adapter: PollTuningAdapter {  },
            control_event_adapter: EmitToReportingAdapter {  },
        }
    }
}

} // verus!
