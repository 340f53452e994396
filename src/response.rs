use vstd::prelude::*;

use crate::service::{EventStatus, GroupedCountByteSize};

verus! {

/// A response whose event status was decided when it was received.
#[derive(Clone, Copy, Debug, PartialEq, Eq, Structural)]
pub struct HecResponse {
    pub event_status: EventStatus,
    pub events_count: usize,
    pub events_byte_size: GroupedCountByteSize,
}

impl HecResponse {
    /// The recorded event status, by reference.
    pub fn as_ref(&self) -> (r: &EventStatus)
        ensures
            *r == self.event_status,
    {
        &self.event_status
    }

    /// The recorded event status.
    pub fn event_status(&self) -> (r: EventStatus)
        ensures
            r == self.event_status,
    {
        self.event_status
    }

    /// The accounting of the events that were sent.
    pub fn events_sent(&self) -> (r: &GroupedCountByteSize)
        ensures
            *r == self.events_byte_size,
    {
        &self.events_byte_size
    }
}

} // verus!
