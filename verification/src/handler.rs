//! The device info polling handle and the shared service status.
//!
//! A handle owns the lifecycle of one polling service and isolates its
//! failures: a failed read on one tick is skipped and retried on the next,
//! and never affects the other metric or any other service. The interval
//! timer and the raw reads are the caller's; the handle decides which events
//! each tick's read outcomes produce.

use vstd::prelude::*;

use crate::errors::DeviceInfoServiceError;
use crate::events::Message;

verus! {

/// Lifecycle of one polling service. A handle is created INACTIVE, STARTED
/// once on launch, and STOPPED at most once thereafter; STOPPED is terminal
/// for that handle instance.
#[derive(Debug, Clone, Copy, PartialEq, Eq, Structural)]
pub enum ServiceStatus {
    INACTIVE,
    STARTED,
    STOPPED,
}

/// The events one device info poll tick emits for the CPU read: the reading
/// when it succeeded, nothing when it failed.
pub open spec fn cpu_tick_events(reading: Result<u32, DeviceInfoServiceError>) -> Seq<Message> {
    match reading {
        Ok(usage) => seq![Message::CpuUsageChanged(usage)],
        Err(_) => seq![],
    }
}

/// The events one device info poll tick emits for the memory read: the
/// reading when it succeeded, nothing when it failed.
pub open spec fn memory_tick_events(reading: Result<u32, DeviceInfoServiceError>) -> Seq<
    Message,
> {
    match reading {
        Ok(usage) => seq![Message::MemoryUsageChanged(usage)],
        Err(_) => seq![],
    }
}

/// The polling handle for the device info service: owns the service status
/// and decides, per tick, which events the CPU and memory read outcomes
/// produce.
pub struct DeviceInfoServiceHandle {
    status: ServiceStatus,
}

impl DeviceInfoServiceHandle {
    /// The current service status.
    pub closed spec fn status(&self) -> ServiceStatus {
        self.status
    }

    /// A fresh handle; no polling has been scheduled yet.
    pub fn new() -> (r: Self)
        ensures
            r.status() == ServiceStatus::INACTIVE,
    {
        Self { status: ServiceStatus::INACTIVE }
    }

    /// Marks the handle started. A handle is started once, on launch.
    pub fn start(&mut self)
        requires
            old(self).status() == ServiceStatus::INACTIVE,
        ensures
            final(self).status() == ServiceStatus::STARTED,
    {
        self.status = ServiceStatus::STARTED;
    }

    /// Marks the handle stopped: future ticks are no longer scheduled. An
    /// in-flight read is not cancelled. Stopped is terminal.
    pub fn stop(&mut self)
        requires
            old(self).status() == ServiceStatus::STARTED,
        ensures
            final(self).status() == ServiceStatus::STOPPED,
    {
        self.status = ServiceStatus::STOPPED;
    }

    /// Whether the polling loop should schedule another tick.
    pub fn is_started(&self) -> (r: bool)
        ensures
            r == (self.status() == ServiceStatus::STARTED),
    {
        match self.status {
            ServiceStatus::STARTED => true,
            _ => false,
        }
    }

    /// One poll tick: turns the outcomes of the two independent reads into
    /// events, CPU first, then memory. Each read is independent: a failed
    /// read emits nothing and does not affect the other metric, so one
    /// failing metric never stops the loop.
    pub fn tick(
        &self,
        cpu: Result<u32, DeviceInfoServiceError>,
        memory: Result<u32, DeviceInfoServiceError>,
    ) -> (events: Vec<Message>)
        ensures
            events@ == cpu_tick_events(cpu) + memory_tick_events(memory),
    {
        let mut events: Vec<Message> = Vec::new();
        match cpu {
            Ok(usage) => {
                events.push(Message::CpuUsageChanged(usage));
            },
            Err(_) => {},
        }
        match memory {
            Ok(usage) => {
                events.push(Message::MemoryUsageChanged(usage));
            },
            Err(_) => {},
        }
        proof {
            assert(events@ =~= cpu_tick_events(cpu) + memory_tick_events(memory));
        }
        events
    }
}

} // verus!
