use settings_drawer::events::{BatteryState, BluetoothState, Message, WifiState};
use settings_drawer::reducer::SettingsDrawer;
use settings_drawer::widgets::{
    BatteryIcons, BatteryModule, ModuleDef, Modules, WidgetInput, WidgetRegistry,
};

fn icons_fixture() -> BatteryIcons {
    BatteryIcons {
        level_0: "battery-0".to_string(),
        level_10: "battery-10".to_string(),
        level_20: "battery-20".to_string(),
        level_30: "battery-30".to_string(),
        level_40: "battery-40".to_string(),
        level_50: "battery-50".to_string(),
        level_60: "battery-60".to_string(),
        level_70: "battery-70".to_string(),
        level_80: "battery-80".to_string(),
        level_90: "battery-90".to_string(),
        level_100: "battery-100".to_string(),
        not_found: "battery-missing".to_string(),
    }
}

fn module(title: &str, icon: &str) -> ModuleDef {
    ModuleDef {
        title: title.to_string(),
        icon: icon.to_string(),
    }
}

fn modules_fixture() -> Modules {
    Modules {
        wifi: module("wifi", "wifi-strong"),
        bluetooth: module("bluetooth", "bluetooth-on"),
        battery: BatteryModule {
            title: "battery".to_string(),
            icons: icons_fixture(),
        },
        auto_rotate: module("auto rotate", "rotate-portrait"),
        settings: module("settings", "settings-default"),
        running_apps: module("running apps", "apps-medium"),
        cpu: module("cpu", "cpu-medium"),
        memory: module("memory", "memory-medium"),
        sound: module("sound", "sound-medium"),
        brightness: module("brightness", "brightness-medium"),
    }
}

fn drawer_fixture() -> SettingsDrawer {
    let modules = modules_fixture();
    let layout: Vec<String> = vec![
        "wifi".to_string(),
        "bluetooth".to_string(),
        "battery".to_string(),
        "cpu".to_string(),
    ];
    let registry = WidgetRegistry::build(&layout, &modules);
    SettingsDrawer::new(registry, icons_fixture())
}

#[test]
fn new_drawer_starts_from_zero() {
    let drawer = drawer_fixture();
    assert_eq!(drawer.battery_capacity, 0);
    assert_eq!(drawer.cpu_usage, 0);
    assert_eq!(drawer.memory_usage, 0);
    assert!(matches!(drawer.wifi_state, WifiState::Off));
    assert!(matches!(drawer.bluetooth_state, BluetoothState::Off));
}

#[test]
fn battery_event_updates_state_and_addresses_the_battery_slot() {
    let mut drawer = drawer_fixture();
    let commands = drawer
        .update(Message::BatteryCapacityChanged(42))
        .expect("battery event is always accepted");
    assert_eq!(drawer.battery_capacity, 42);
    assert_eq!(commands.len(), 2);
    assert_eq!(commands[0].index, 2);
    assert_eq!(commands[0].input, WidgetInput::ValueChanged(Some(42)));
    assert_eq!(commands[1].index, 2);
    assert_eq!(
        commands[1].input,
        WidgetInput::IconChanged("battery-40".to_string())
    );
}

#[test]
fn usage_events_update_their_own_field_and_emit_no_command() {
    let mut drawer = drawer_fixture();
    let commands = drawer
        .update(Message::CpuUsageChanged(5125))
        .expect("cpu event is always accepted");
    assert!(commands.is_empty());
    assert_eq!(drawer.cpu_usage, 5125);
    assert_eq!(drawer.memory_usage, 0);

    let commands = drawer
        .update(Message::MemoryUsageChanged(7450))
        .expect("memory event is always accepted");
    assert!(commands.is_empty());
    assert_eq!(drawer.cpu_usage, 5125);
    assert_eq!(drawer.memory_usage, 7450);
}

#[test]
fn click_in_range_emits_exactly_one_title_command() {
    let mut drawer = drawer_fixture();
    let before_battery = drawer.battery_capacity;
    let before_cpu = drawer.cpu_usage;
    let before_memory = drawer.memory_usage;
    let commands = drawer
        .update(Message::WidgetClicked(1, "X".to_string()))
        .expect("a click inside the slot count is accepted");
    assert_eq!(commands.len(), 1);
    assert_eq!(commands[0].index, 1);
    assert_eq!(
        commands[0].input,
        WidgetInput::TitleChanged("Connected".to_string())
    );
    assert_eq!(drawer.battery_capacity, before_battery);
    assert_eq!(drawer.cpu_usage, before_cpu);
    assert_eq!(drawer.memory_usage, before_memory);
}

#[test]
fn click_out_of_range_is_rejected() {
    let mut drawer = drawer_fixture();
    let err = drawer
        .update(Message::WidgetClicked(4, "X".to_string()))
        .expect_err("a click beyond the slot count is a caller error");
    assert_eq!(err.index, 4);
    assert_eq!(err.len, 4);
}

#[test]
fn direct_status_update_is_a_no_op() {
    let mut drawer = drawer_fixture();
    let commands = drawer
        .update(Message::BatteryStatusUpdate(BatteryState::NotFound))
        .expect("status updates are always accepted");
    assert!(commands.is_empty());
    assert_eq!(drawer.battery_capacity, 0);
}

#[test]
fn battery_glitch_scenario_drives_the_expected_icon_sequence() {
    // Readings 5, 23, 100, 104: the last one simulates an out-of-range
    // sensor glitch. The raw value is retained while the bucket clamps.
    let mut drawer = drawer_fixture();
    let readings = [5u32, 23, 100, 104];
    let expected_icons = ["battery-0", "battery-20", "battery-90", "battery-100"];
    for (reading, icon) in readings.iter().zip(expected_icons.iter()) {
        let commands = drawer
            .update(Message::BatteryCapacityChanged(*reading))
            .expect("battery events are always accepted");
        assert_eq!(commands.len(), 2);
        assert_eq!(commands[1].index, 2);
        assert_eq!(commands[1].input, WidgetInput::IconChanged(icon.to_string()));
    }
    assert_eq!(drawer.battery_capacity, 104);
}
