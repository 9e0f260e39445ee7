use settings_drawer::widgets::{
    BatteryIcons, BatteryModule, ModuleDef, Modules, WidgetCommand, WidgetInput, WidgetRegistry,
    WidgetType,
};

fn reg_icons() -> BatteryIcons {
    BatteryIcons {
        level_0: "b0".to_string(),
        level_10: "b10".to_string(),
        level_20: "b20".to_string(),
        level_30: "b30".to_string(),
        level_40: "b40".to_string(),
        level_50: "b50".to_string(),
        level_60: "b60".to_string(),
        level_70: "b70".to_string(),
        level_80: "b80".to_string(),
        level_90: "b90".to_string(),
        level_100: "b100".to_string(),
        not_found: "bmissing".to_string(),
    }
}

fn reg_module(title: &str, icon: &str) -> ModuleDef {
    ModuleDef {
        title: title.to_string(),
        icon: icon.to_string(),
    }
}

fn reg_modules() -> Modules {
    Modules {
        wifi: reg_module("wifi", "wifi-strong"),
        bluetooth: reg_module("bluetooth", "bluetooth-on"),
        battery: BatteryModule {
            title: "battery".to_string(),
            icons: reg_icons(),
        },
        auto_rotate: reg_module("auto rotate", "rotate-portrait"),
        settings: reg_module("settings", "settings-default"),
        running_apps: reg_module("running apps", "apps-medium"),
        cpu: reg_module("cpu", "cpu-medium"),
        memory: reg_module("memory", "memory-medium"),
        sound: reg_module("sound", "sound-medium"),
        brightness: reg_module("brightness", "brightness-medium"),
    }
}

#[test]
fn build_assigns_indices_in_layout_order() {
    let modules = reg_modules();
    let layout: Vec<String> = vec![
        "sound".to_string(),
        "battery".to_string(),
        "running apps".to_string(),
        "unknown module".to_string(),
        "memory".to_string(),
    ];
    let registry = WidgetRegistry::build(&layout, &modules);
    assert_eq!(registry.len(), 5);
    assert_eq!(registry.battery_slot_index(), Some(1));

    let sound = registry.slot_at(0);
    assert_eq!(sound.title, "sound");
    assert_eq!(sound.icon, "sound-medium");
    assert_eq!(sound.widget_type, WidgetType::Slider);
    assert_eq!(sound.value, None);

    let battery = registry.slot_at(1);
    assert_eq!(battery.title, "battery");
    assert_eq!(battery.icon, "b60");
    assert_eq!(battery.value, Some(0));
    assert_eq!(battery.value_subscript, Some("%".to_string()));

    let apps = registry.slot_at(2);
    assert_eq!(apps.title, "running apps");
    assert_eq!(apps.value, Some(7));
    assert_eq!(apps.value_subscript, None);

    let unknown = registry.slot_at(3);
    assert_eq!(unknown.title, "");
    assert_eq!(unknown.icon, "");
    assert_eq!(unknown.value, None);

    let memory = registry.slot_at(4);
    assert_eq!(memory.title, "memory");
    assert_eq!(memory.value, Some(75));
    assert_eq!(memory.value_subscript, Some("%".to_string()));
}

#[test]
fn build_without_battery_key_leaves_the_battery_index_absent() {
    let modules = reg_modules();
    let layout: Vec<String> = vec!["wifi".to_string(), "cpu".to_string()];
    let registry = WidgetRegistry::build(&layout, &modules);
    assert_eq!(registry.battery_slot_index(), None);
}

#[test]
fn build_takes_the_first_battery_key() {
    let modules = reg_modules();
    let layout: Vec<String> = vec![
        "battery".to_string(),
        "wifi".to_string(),
        "battery".to_string(),
    ];
    let registry = WidgetRegistry::build(&layout, &modules);
    assert_eq!(registry.battery_slot_index(), Some(0));
}

#[test]
fn send_in_range_changes_exactly_the_addressed_field() {
    let modules = reg_modules();
    let layout: Vec<String> = vec!["wifi".to_string(), "cpu".to_string()];
    let mut registry = WidgetRegistry::build(&layout, &modules);
    let r = registry.send(WidgetCommand {
        index: 1,
        input: WidgetInput::TitleChanged("Connected".to_string()),
    });
    assert!(r.is_ok());
    assert_eq!(registry.slot_at(1).title, "Connected");
    assert_eq!(registry.slot_at(1).icon, "cpu-medium");
    assert_eq!(registry.slot_at(0).title, "wifi");

    let r = registry.send(WidgetCommand {
        index: 0,
        input: WidgetInput::ValueChanged(Some(33)),
    });
    assert!(r.is_ok());
    assert_eq!(registry.slot_at(0).value, Some(33));

    let r = registry.send(WidgetCommand {
        index: 0,
        input: WidgetInput::IconChanged("wifi-weak".to_string()),
    });
    assert!(r.is_ok());
    assert_eq!(registry.slot_at(0).icon, "wifi-weak");
}

#[test]
fn send_out_of_range_is_rejected_and_changes_nothing() {
    let modules = reg_modules();
    let layout: Vec<String> = vec!["wifi".to_string()];
    let mut registry = WidgetRegistry::build(&layout, &modules);
    let err = registry
        .send(WidgetCommand {
            index: 1,
            input: WidgetInput::TitleChanged("Connected".to_string()),
        })
        .expect_err("an out-of-range index is a caller error");
    assert_eq!(err.index, 1);
    assert_eq!(err.len, 1);
    assert_eq!(registry.slot_at(0).title, "wifi");
}
