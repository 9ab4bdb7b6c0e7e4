//! Timestamp rendering choices for log lines.

use vstd::prelude::*;

verus! {

/// Whether a log timestamp shows the time alone or the date and time.
#[derive(Debug, Clone, Copy, PartialEq, Eq, Structural)]
pub enum MessageTimestampFormat {
    Time,
    DateTime,
}

/// A message timestamp, in seconds, together with how it is rendered.
#[derive(Debug, Clone)]
pub struct MessageTimestampDisplay {
    pub timestamp: i64,
    pub format: MessageTimestampFormat,
}

impl MessageTimestampDisplay {
    /// Renders as time of day only.
    pub fn time(timestamp: i64) -> (r: Self)
        ensures
            r.timestamp == timestamp,
            r.format == MessageTimestampFormat::Time,
    {
        Self { timestamp, format: MessageTimestampFormat::Time }
    }

    /// Renders as date and time.
    pub fn date_time(timestamp: i64) -> (r: Self)
        ensures
            r.timestamp == timestamp,
            r.format == MessageTimestampFormat::DateTime,
    {
        Self { timestamp, format: MessageTimestampFormat::DateTime }
    }
}

} // verus!
