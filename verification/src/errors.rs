//! Error types for the telemetry services and the status bar.
//!
//! Each service reports failures with a code drawn from a small enum and a
//! free-form message. Failed reads are absorbed at the service boundary
//! (logged by the caller, retried on the next tick); they never cross into
//! the reducer as events.

use vstd::prelude::*;

verus! {

/// Error codes for the status bar.
#[derive(Debug, Clone, Copy, PartialEq, Eq, Structural)]
pub enum StatusBarErrorCodes {
    UnknownError,
    SettingsReadError,
    SettingsParseError,
    ThemeReadError,
    ThemeParseError,
    InitNetworkManagerClient,
    InitBluetoothManagerClient,
    InitBatteryManagerClient,
    GetWifiStatusError,
    GetBluetoothStatusError,
    GetBatteryStatusError,
}

impl Default for StatusBarErrorCodes {
    fn default() -> (r: Self)
        ensures
            r == StatusBarErrorCodes::UnknownError,
    {
        StatusBarErrorCodes::UnknownError
    }
}

impl StatusBarErrorCodes {
    /// The display name of the code, one fixed string per variant.
    pub fn code_str(&self) -> (r: String)
        ensures
            *self == StatusBarErrorCodes::UnknownError ==> r@ == "UnknownError"@,
            *self == StatusBarErrorCodes::SettingsReadError ==> r@ == "SettingsReadError"@,
            *self == StatusBarErrorCodes::SettingsParseError ==> r@ == "SettingsParseError"@,
            *self == StatusBarErrorCodes::ThemeReadError ==> r@ == "ThemeReadError"@,
            *self == StatusBarErrorCodes::ThemeParseError ==> r@ == "ThemeParseError"@,
            *self == StatusBarErrorCodes::InitNetworkManagerClient ==> r@
                == "InitNetworkManagerClient"@,
            *self == StatusBarErrorCodes::InitBluetoothManagerClient ==> r@
                == "InitBluetoothManagerClient"@,
            *self == StatusBarErrorCodes::InitBatteryManagerClient ==> r@
                == "InitBatteryManagerClient"@,
            *self == StatusBarErrorCodes::GetWifiStatusError ==> r@ == "GetWifiStatusError"@,
            *self == StatusBarErrorCodes::GetBluetoothStatusError ==> r@
                == "GetBluetoothStatusError"@,
            *self == StatusBarErrorCodes::GetBatteryStatusError ==> r@
                == "GetBatteryStatusError"@,
    {
        match self {
            StatusBarErrorCodes::UnknownError => String::from_str("UnknownError"),
            StatusBarErrorCodes::SettingsReadError => String::from_str("SettingsReadError"),
            StatusBarErrorCodes::SettingsParseError => String::from_str("SettingsParseError"),
            StatusBarErrorCodes::ThemeReadError => String::from_str("ThemeReadError"),
            StatusBarErrorCodes::ThemeParseError => String::from_str("ThemeParseError"),
            StatusBarErrorCodes::InitNetworkManagerClient => String::from_str(
                "InitNetworkManagerClient",
            ),
            StatusBarErrorCodes::InitBluetoothManagerClient => String::from_str(
                "InitBluetoothManagerClient",
            ),
            StatusBarErrorCodes::InitBatteryManagerClient => String::from_str(
                "InitBatteryManagerClient",
            ),
            StatusBarErrorCodes::GetWifiStatusError => String::from_str("GetWifiStatusError"),
            StatusBarErrorCodes::GetBluetoothStatusError => String::from_str(
                "GetBluetoothStatusError",
            ),
            StatusBarErrorCodes::GetBatteryStatusError => String::from_str(
                "GetBatteryStatusError",
            ),
        }
    }
}

/// A status bar error: a code and a human-readable message.
#[derive(Debug)]
pub struct StatusBarError {
    pub code: StatusBarErrorCodes,
    pub message: String,
}

impl StatusBarError {
    pub fn new(code: StatusBarErrorCodes, message: String, _capture_error: bool) -> (r: Self)
        ensures
            r.code == code,
            r.message == message,
    {
        Self { code, message }
    }
}

/// Error codes for the device info service.
#[derive(Debug, Clone, Copy, PartialEq, Eq, Structural)]
pub enum DeviceInfoServiceErrorCodes {
    UnknownError,
    GetDeviceInfoError,
}

impl Default for DeviceInfoServiceErrorCodes {
    fn default() -> (r: Self)
        ensures
            r == DeviceInfoServiceErrorCodes::UnknownError,
    {
        DeviceInfoServiceErrorCodes::UnknownError
    }
}

impl DeviceInfoServiceErrorCodes {
    /// The display name of the code, one fixed string per variant.
    pub fn code_str(&self) -> (r: String)
        ensures
            *self == DeviceInfoServiceErrorCodes::UnknownError ==> r@ == "UnknownError"@,
            *self == DeviceInfoServiceErrorCodes::GetDeviceInfoError ==> r@
                == "GetDeviceInfoError"@,
    {
        match self {
            DeviceInfoServiceErrorCodes::UnknownError => String::from_str("UnknownError"),
            DeviceInfoServiceErrorCodes::GetDeviceInfoError => String::from_str(
                "GetDeviceInfoError",
            ),
        }
    }
}

/// A device info service error: a code and a human-readable message.
#[derive(Debug)]
pub struct DeviceInfoServiceError {
    pub code: DeviceInfoServiceErrorCodes,
    pub message: String,
}

impl DeviceInfoServiceError {
    pub fn new(
        code: DeviceInfoServiceErrorCodes,
        message: String,
        _capture_error: bool,
    ) -> (r: Self)
        ensures
            r.code == code,
            r.message == message,
    {
        Self { code, message }
    }
}

/// Error codes for the battery service.
#[derive(Debug, Clone, Copy, PartialEq, Eq, Structural)]
pub enum BatteryServiceErrorCodes {
    UnknownError,
    GetBatteryInfoError,
}

impl Default for BatteryServiceErrorCodes {
    fn default() -> (r: Self)
        ensures
            r == BatteryServiceErrorCodes::UnknownError,
    {
        BatteryServiceErrorCodes::UnknownError
    }
}

impl BatteryServiceErrorCodes {
    /// The display name of the code, one fixed string per variant.
    pub fn code_str(&self) -> (r: String)
        ensures
            *self == BatteryServiceErrorCodes::UnknownError ==> r@ == "UnknownError"@,
            *self == BatteryServiceErrorCodes::GetBatteryInfoError ==> r@
                == "GetBatteryInfoError"@,
    {
        match self {
            BatteryServiceErrorCodes::UnknownError => String::from_str("UnknownError"),
            BatteryServiceErrorCodes::GetBatteryInfoError => String::from_str(
                "GetBatteryInfoError",
            ),
        }
    }
}

/// A battery service error: a code and a human-readable message.
#[derive(Debug)]
pub struct BatteryServiceError {
    pub code: BatteryServiceErrorCodes,
    pub message: String,
}

impl BatteryServiceError {
    pub fn new(code: BatteryServiceErrorCodes, message: String, _capture_error: bool) -> (r: Self)
        ensures
            r.code == code,
            r.message == message,
    {
        Self { code, message }
    }
}

} // verus!
