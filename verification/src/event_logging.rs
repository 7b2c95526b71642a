//! The event-logging module of the host: an adapter that receives control
//! events for the log. The formatting and the log sink live outside the
//! library.
use vstd::prelude::*;

verus! {

/// Adapter that hands control events to the event log.
#[derive(Debug, Clone, Copy, PartialEq, Eq, Structural)]
pub struct EmitToLoggingAdapter {}

/// The assembled event-logging module.
#[derive(Debug, Clone, Copy, PartialEq, Eq, Structural)]
pub struct EventLoggingModule {
    pub control_event_adapter: EmitToLoggingAdapter,
}

impl EventLoggingModule {
    /// Assemble the event-logging module.
    pub fn initialize() -> (r: Self)
        ensures
            r == (EventLoggingModule { control_event_adapter: EmitToLoggingAdapter {  } }),
    {
        Self { control_event_adapter: EmitToLoggingAdapter {  } }
    }
}

} // verus!
