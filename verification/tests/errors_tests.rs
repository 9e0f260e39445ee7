use settings_drawer::errors::{
    BatteryServiceError, BatteryServiceErrorCodes, DeviceInfoServiceError,
    DeviceInfoServiceErrorCodes, StatusBarError, StatusBarErrorCodes,
};

#[test]
fn status_bar_error_keeps_code_and_message() {
    let err = StatusBarError::new(
        StatusBarErrorCodes::GetWifiStatusError,
        "wifi scan failed".to_string(),
        true,
    );
    assert_eq!(err.code, StatusBarErrorCodes::GetWifiStatusError);
    assert_eq!(err.message, "wifi scan failed");
}

#[test]
fn status_bar_error_codes_have_their_display_names() {
    let cases = [
        (StatusBarErrorCodes::UnknownError, "UnknownError"),
        (StatusBarErrorCodes::SettingsReadError, "SettingsReadError"),
        (StatusBarErrorCodes::SettingsParseError, "SettingsParseError"),
        (StatusBarErrorCodes::ThemeReadError, "ThemeReadError"),
        (StatusBarErrorCodes::ThemeParseError, "ThemeParseError"),
        (
            StatusBarErrorCodes::InitNetworkManagerClient,
            "InitNetworkManagerClient",
        ),
        (
            StatusBarErrorCodes::InitBluetoothManagerClient,
            "InitBluetoothManagerClient",
        ),
        (
            StatusBarErrorCodes::InitBatteryManagerClient,
            "InitBatteryManagerClient",
        ),
        (StatusBarErrorCodes::GetWifiStatusError, "GetWifiStatusError"),
        (
            StatusBarErrorCodes::GetBluetoothStatusError,
            "GetBluetoothStatusError",
        ),
        (
            StatusBarErrorCodes::GetBatteryStatusError,
            "GetBatteryStatusError",
        ),
    ];
    for (code, name) in cases {
        assert_eq!(code.code_str(), name);
    }
    assert_eq!(StatusBarErrorCodes::default(), StatusBarErrorCodes::UnknownError);
}

#[test]
fn device_info_error_keeps_code_and_message() {
    let err = DeviceInfoServiceError::new(
        DeviceInfoServiceErrorCodes::GetDeviceInfoError,
        "no such metric".to_string(),
        false,
    );
    assert_eq!(err.code, DeviceInfoServiceErrorCodes::GetDeviceInfoError);
    assert_eq!(err.message, "no such metric");
    assert_eq!(err.code.code_str(), "GetDeviceInfoError");
    assert_eq!(
        DeviceInfoServiceErrorCodes::UnknownError.code_str(),
        "UnknownError"
    );
    assert_eq!(
        DeviceInfoServiceErrorCodes::default(),
        DeviceInfoServiceErrorCodes::UnknownError
    );
}

#[test]
fn battery_error_keeps_code_and_message() {
    let err = BatteryServiceError::new(
        BatteryServiceErrorCodes::GetBatteryInfoError,
        "uevent unreadable".to_string(),
        true,
    );
    assert_eq!(err.code, BatteryServiceErrorCodes::GetBatteryInfoError);
    assert_eq!(err.message, "uevent unreadable");
    assert_eq!(err.code.code_str(), "GetBatteryInfoError");
    assert_eq!(
        BatteryServiceErrorCodes::default(),
        BatteryServiceErrorCodes::UnknownError
    );
}
