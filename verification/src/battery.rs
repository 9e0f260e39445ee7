//! Battery telemetry: bucket derivation and the battery polling handle.
//!
//! The battery service polls one capacity value per tick. The raw reading is
//! kept as-is in the application state; for display it is classified into one
//! of eleven contiguous buckets, where each boundary value (10, 20, ..., 100)
//! belongs to the lower bucket and anything above 100 clamps to the top
//! bucket.

use vstd::prelude::*;

use crate::errors::BatteryServiceError;
use crate::events::BatteryState;
use crate::events::Message;
use crate::handler::ServiceStatus;

verus! {

/// The bucket for a capacity reading: eleven contiguous, non-overlapping
/// ranges. `[0, 10]` maps to `Level0`, `[11, 20]` to `Level10`, and so on up
/// to `[91, 100]` mapping to `Level90`; every value above 100 maps to
/// `Level100`. The `NotFound` sentinel is never a bucket.
pub open spec fn bucket(capacity: int) -> BatteryState {
    if capacity <= 10 {
        BatteryState::Level0
    } else if capacity <= 20 {
        BatteryState::Level10
    } else if capacity <= 30 {
        BatteryState::Level20
    } else if capacity <= 40 {
        BatteryState::Level30
    } else if capacity <= 50 {
        BatteryState::Level40
    } else if capacity <= 60 {
        BatteryState::Level50
    } else if capacity <= 70 {
        BatteryState::Level60
    } else if capacity <= 80 {
        BatteryState::Level70
    } else if capacity <= 90 {
        BatteryState::Level80
    } else if capacity <= 100 {
        BatteryState::Level90
    } else {
        BatteryState::Level100
    }
}

/// Every capacity falls in exactly one bucket: the ranges are contiguous,
/// exhaustive over `[0, 100]`, boundary values belong to the lower-adjacent
/// bucket, values above 100 clamp to the top bucket, and the `NotFound`
/// sentinel is never produced.
pub proof fn lemma_bucket_total(capacity: int)
    requires
        0 <= capacity,
    ensures
        bucket(capacity) != BatteryState::NotFound,
        0 <= capacity <= 10 <==> bucket(capacity) == BatteryState::Level0,
        11 <= capacity <= 20 <==> bucket(capacity) == BatteryState::Level10,
        21 <= capacity <= 30 <==> bucket(capacity) == BatteryState::Level20,
        31 <= capacity <= 40 <==> bucket(capacity) == BatteryState::Level30,
        41 <= capacity <= 50 <==> bucket(capacity) == BatteryState::Level40,
        51 <= capacity <= 60 <==> bucket(capacity) == BatteryState::Level50,
        61 <= capacity <= 70 <==> bucket(capacity) == BatteryState::Level60,
        71 <= capacity <= 80 <==> bucket(capacity) == BatteryState::Level70,
        81 <= capacity <= 90 <==> bucket(capacity) == BatteryState::Level80,
        91 <= capacity <= 100 <==> bucket(capacity) == BatteryState::Level90,
        capacity > 100 <==> bucket(capacity) == BatteryState::Level100,
{
}

/// Computes battery state from raw readings.
pub struct BatteryService {}

impl BatteryService {
    /// The discrete battery level for a capacity reading.
    pub fn battery_state(capacity: u32) -> (state: BatteryState)
        ensures
            state == bucket(capacity as int),
    {
        if capacity <= 10 {
            BatteryState::Level0
        } else if capacity <= 20 {
            BatteryState::Level10
        } else if capacity <= 30 {
            BatteryState::Level20
        } else if capacity <= 40 {
            BatteryState::Level30
        } else if capacity <= 50 {
            BatteryState::Level40
        } else if capacity <= 60 {
            BatteryState::Level50
        } else if capacity <= 70 {
            BatteryState::Level60
        } else if capacity <= 80 {
            BatteryState::Level70
        } else if capacity <= 90 {
            BatteryState::Level80
        } else if capacity <= 100 {
            BatteryState::Level90
        } else {
            BatteryState::Level100
        }
    }
}

/// The events one battery poll tick emits: the reading when it succeeded,
/// nothing when it failed. A failed read never becomes an event.
pub open spec fn battery_tick_events(reading: Result<u32, BatteryServiceError>) -> Seq<Message> {
    match reading {
        Ok(capacity) => seq![Message::BatteryCapacityChanged(capacity)],
        Err(_) => seq![],
    }
}

/// The polling handle for the battery service: owns the service status and
/// decides, per tick, which events a capacity read outcome produces. The
/// timer and the raw hardware read live with the caller.
pub struct BatteryServiceHandle {
    status: ServiceStatus,
}

impl BatteryServiceHandle {
    /// The current service status.
    pub closed spec fn status(&self) -> ServiceStatus {
        self.status
    }

    /// A fresh handle; no polling has been scheduled yet.
    pub fn new() -> (r: Self)
        ensures
            r.status() == ServiceStatus::INACTIVE,
    {
        Self { status: ServiceStatus::INACTIVE }
    }

    /// Marks the handle started. A handle is started once, on launch.
    pub fn start(&mut self)
        requires
            old(self).status() == ServiceStatus::INACTIVE,
        ensures
            final(self).status() == ServiceStatus::STARTED,
    {
        self.status = ServiceStatus::STARTED;
    }

    /// Marks the handle stopped: future ticks are no longer scheduled. An
    /// in-flight read is not cancelled. Stopped is terminal.
    pub fn stop(&mut self)
        requires
            old(self).status() == ServiceStatus::STARTED,
        ensures
            final(self).status() == ServiceStatus::STOPPED,
    {
        self.status = ServiceStatus::STOPPED;
    }

    /// Whether the polling loop should schedule another tick.
    pub fn is_started(&self) -> (r: bool)
        ensures
            r == (self.status() == ServiceStatus::STARTED),
    {
        match self.status {
            ServiceStatus::STARTED => true,
            _ => false,
        }
    }

    /// One poll tick: turns the outcome of a capacity read into events. A
    /// successful read emits exactly one capacity event; a failed read emits
    /// nothing, so the previous state persists until the next tick.
    pub fn tick(&self, reading: Result<u32, BatteryServiceError>) -> (events: Vec<Message>)
        ensures
            events@ == battery_tick_events(reading),
    {
        let mut events: Vec<Message> = Vec::new();
        match reading {
            Ok(capacity) => {
                events.push(Message::BatteryCapacityChanged(capacity));
            },
            Err(_) => {},
        }
        proof {
            assert(events@ =~= battery_tick_events(reading));
        }
        events
    }
}

} // verus!
