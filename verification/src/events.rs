//! Telemetry events and the small state enums they carry.
//!
//! Events are immutable once produced. Each polling service pushes zero or
//! more of them per tick onto the event channel; the reducer is their only
//! consumer. Continuous usage readings are carried as integers in hundredths
//! of a percent, so a reading of 42.37% travels as 4237.

use vstd::prelude::*;

verus! {

/// Wifi radio state as shown in the drawer.
#[derive(Debug, Clone, Copy, PartialEq, Eq, Structural)]
pub enum WifiState {
    On,
    Off,
    Connected,
}

/// Bluetooth radio state as shown in the drawer.
#[derive(Debug, Clone, Copy, PartialEq, Eq, Structural)]
pub enum BluetoothState {
    On,
    Off,
    Connected,
}

/// Discrete battery level, derived from the continuous capacity reading by
/// eleven contiguous ranges, plus a sentinel for a battery that could not be
/// found.
#[derive(Debug, Clone, Copy, PartialEq, Eq, Structural)]
pub enum BatteryState {
    Level0,
    Level10,
    Level20,
    Level30,
    Level40,
    Level50,
    Level60,
    Level70,
    Level80,
    Level90,
    Level100,
    NotFound,
}

impl Default for BatteryState {
    fn default() -> (r: Self)
        ensures
            r == BatteryState::Level0,
    {
        BatteryState::Level0
    }
}

/// One telemetry event. Every variant is produced by exactly one source:
/// battery events by the battery service, usage events by the device info
/// service, clicks by the display layer.
#[derive(Debug, Clone, PartialEq)]
pub enum Message {
    /// New battery capacity reading, as a raw percentage. Out-of-range
    /// readings above 100 are carried unclamped; only the derived bucket
    /// clamps.
    BatteryCapacityChanged(u32),
    /// Battery level announced directly, e.g. the NotFound sentinel.
    BatteryStatusUpdate(BatteryState),
    /// New CPU usage reading, in hundredths of a percent.
    CpuUsageChanged(u32),
    /// New memory usage reading, in hundredths of a percent.
    MemoryUsageChanged(u32),
    /// The display slot at this index was clicked; the label names the
    /// widget.
    WidgetClicked(usize, String),
}

} // verus!
