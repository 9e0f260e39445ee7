//! Display slots, the widget registry, and indexed slot commands.
//!
//! The registry is built once at startup from the configured layout: each
//! layout key is matched against the known module titles and becomes one slot,
//! in layout order. Indices are assigned in that order and never reassigned,
//! which is what lets the reducer address a slot by index. A command for an
//! index beyond the registry's bounds is a caller error and is rejected, never
//! silently dropped.

use vstd::prelude::*;

use crate::events::BatteryState;

verus! {

/// How a slot is rendered.
#[derive(Debug, Clone, Copy, PartialEq, Eq, Structural)]
pub enum WidgetType {
    Normal,
    Slider,
}

/// One display slot: a title, an icon identifier, an optional numeric value
/// with an optional unit suffix, and a rendering style.
#[derive(Debug, Clone, PartialEq)]
pub struct WidgetSlot {
    pub title: String,
    pub icon: String,
    pub value: Option<u32>,
    pub value_subscript: Option<String>,
    pub widget_type: WidgetType,
}

impl Default for WidgetSlot {
    /// An empty slot: blank title and icon, no value, normal rendering.
    fn default() -> (r: Self)
        ensures
            r.title@ == Seq::<char>::empty(),
            r.icon@ == Seq::<char>::empty(),
            r.value is None,
            r.value_subscript is None,
            r.widget_type == WidgetType::Normal,
    {
        WidgetSlot {
            title: String::new(),
            icon: String::new(),
            value: None,
            value_subscript: None,
            widget_type: WidgetType::Normal,
        }
    }
}

/// A module definition from configuration: the title a layout key is matched
/// against, and the icon the slot starts with.
#[derive(Debug, Clone)]
pub struct ModuleDef {
    pub title: String,
    pub icon: String,
}

/// The battery icon identifiers from configuration, one per bucket plus the
/// sentinel for a battery that could not be found.
#[derive(Debug, Clone)]
pub struct BatteryIcons {
    pub level_0: String,
    pub level_10: String,
    pub level_20: String,
    pub level_30: String,
    pub level_40: String,
    pub level_50: String,
    pub level_60: String,
    pub level_70: String,
    pub level_80: String,
    pub level_90: String,
    pub level_100: String,
    pub not_found: String,
}

/// The battery module definition: its title and its per-bucket icons.
#[derive(Debug, Clone)]
pub struct BatteryModule {
    pub title: String,
    pub icons: BatteryIcons,
}

/// The full set of module definitions a layout key can name.
#[derive(Debug, Clone)]
pub struct Modules {
    pub wifi: ModuleDef,
    pub bluetooth: ModuleDef,
    pub battery: BatteryModule,
    pub auto_rotate: ModuleDef,
    pub settings: ModuleDef,
    pub running_apps: ModuleDef,
    pub cpu: ModuleDef,
    pub memory: ModuleDef,
    pub sound: ModuleDef,
    pub brightness: ModuleDef,
}

/// The icon identifier for a battery level, drawn from the configured set.
pub open spec fn spec_battery_icon(icons: BatteryIcons, state: BatteryState) -> String {
    match state {
        BatteryState::Level0 => icons.level_0,
        BatteryState::Level10 => icons.level_10,
        BatteryState::Level20 => icons.level_20,
        BatteryState::Level30 => icons.level_30,
        BatteryState::Level40 => icons.level_40,
        BatteryState::Level50 => icons.level_50,
        BatteryState::Level60 => icons.level_60,
        BatteryState::Level70 => icons.level_70,
        BatteryState::Level80 => icons.level_80,
        BatteryState::Level90 => icons.level_90,
        BatteryState::Level100 => icons.level_100,
        BatteryState::NotFound => icons.not_found,
    }
}

/// The icon identifier for a battery level, drawn from the configured set.
pub fn battery_icon(icons: &BatteryIcons, state: BatteryState) -> (r: String)
    ensures
        r == spec_battery_icon(*icons, state),
{
    match state {
        BatteryState::Level0 => icons.level_0.clone(),
        BatteryState::Level10 => icons.level_10.clone(),
        BatteryState::Level20 => icons.level_20.clone(),
        BatteryState::Level30 => icons.level_30.clone(),
        BatteryState::Level40 => icons.level_40.clone(),
        BatteryState::Level50 => icons.level_50.clone(),
        BatteryState::Level60 => icons.level_60.clone(),
        BatteryState::Level70 => icons.level_70.clone(),
        BatteryState::Level80 => icons.level_80.clone(),
        BatteryState::Level90 => icons.level_90.clone(),
        BatteryState::Level100 => icons.level_100.clone(),
        BatteryState::NotFound => icons.not_found.clone(),
    }
}

/// Field-by-field description of a slot: title and icon by view, value,
/// subscript by view, and rendering style.
pub open spec fn slot_is(
    slot: WidgetSlot,
    title: Seq<char>,
    icon: Seq<char>,
    value: Option<u32>,
    subscript: Option<Seq<char>>,
    widget_type: WidgetType,
) -> bool {
    &&& slot.title@ == title
    &&& slot.icon@ == icon
    &&& slot.value == value
    &&& match (slot.value_subscript, subscript) {
        (Some(s), Some(t)) => s@ == t,
        (None, None) => true,
        _ => false,
    }
    &&& slot.widget_type == widget_type
}

/// The slot a layout key produces. Keys are matched against the module titles
/// in a fixed order; a key matching no module produces an empty slot. The
/// battery slot starts at the level-60 icon with value 0 and a percent
/// suffix; running apps, CPU and memory start with their placeholder values.
pub open spec fn slot_for_key(slot: WidgetSlot, key: Seq<char>, modules: Modules) -> bool {
    if key == modules.wifi.title@ {
        slot_is(slot, modules.wifi.title@, modules.wifi.icon@, None, None, WidgetType::Normal)
    } else if key == modules.bluetooth.title@ {
        slot_is(
            slot,
            modules.bluetooth.title@,
            modules.bluetooth.icon@,
            None,
            None,
            WidgetType::Normal,
        )
    } else if key == modules.battery.title@ {
        slot_is(
            slot,
            modules.battery.title@,
            modules.battery.icons.level_60@,
            Some(0u32),
            Some("%"@),
            WidgetType::Normal,
        )
    } else if key == modules.auto_rotate.title@ {
        slot_is(
            slot,
            modules.auto_rotate.title@,
            modules.auto_rotate.icon@,
            None,
            None,
            WidgetType::Normal,
        )
    } else if key == modules.settings.title@ {
        slot_is(
            slot,
            modules.settings.title@,
            modules.settings.icon@,
            None,
            None,
            WidgetType::Normal,
        )
    } else if key == modules.running_apps.title@ {
        slot_is(
            slot,
            modules.running_apps.title@,
            modules.running_apps.icon@,
            Some(7u32),
            None,
            WidgetType::Normal,
        )
    } else if key == modules.cpu.title@ {
        slot_is(
            slot,
            modules.cpu.title@,
            modules.cpu.icon@,
            Some(65u32),
            Some("%"@),
            WidgetType::Normal,
        )
    } else if key == modules.memory.title@ {
        slot_is(
            slot,
            modules.memory.title@,
            modules.memory.icon@,
            Some(75u32),
            Some("%"@),
            WidgetType::Normal,
        )
    } else if key == modules.sound.title@ {
        slot_is(slot, modules.sound.title@, modules.sound.icon@, None, None, WidgetType::Slider)
    } else if key == modules.brightness.title@ {
        slot_is(
            slot,
            modules.brightness.title@,
            modules.brightness.icon@,
            None,
            None,
            WidgetType::Normal,
        )
    } else {
        slot_is(slot, Seq::<char>::empty(), Seq::<char>::empty(), None, None, WidgetType::Normal)
    }
}

/// Builds the slot for one layout key; see `slot_for_key` for the mapping.
pub fn build_slot(key: &String, modules: &Modules) -> (slot: WidgetSlot)
    ensures
        slot_for_key(slot, key@, *modules),
{
    if *key == modules.wifi.title {
        WidgetSlot {
            title: modules.wifi.title.clone(),
            icon: modules.wifi.icon.clone(),
            ..Default::default()
        }
    } else if *key == modules.bluetooth.title {
        WidgetSlot {
            title: modules.bluetooth.title.clone(),
            icon: modules.bluetooth.icon.clone(),
            ..Default::default()
        }
    } else if *key == modules.battery.title {
        WidgetSlot {
            title: modules.battery.title.clone(),
            icon: modules.battery.icons.level_60.clone(),
            value: Some(0),
            value_subscript: Some(String::from_str("%")),
            widget_type: WidgetType::Normal,
        }
    } else if *key == modules.auto_rotate.title {
        WidgetSlot {
            title: modules.auto_rotate.title.clone(),
            icon: modules.auto_rotate.icon.clone(),
            ..Default::default()
        }
    } else if *key == modules.settings.title {
        WidgetSlot {
            title: modules.settings.title.clone(),
            icon: modules.settings.icon.clone(),
            ..Default::default()
        }
    } else if *key == modules.running_apps.title {
        WidgetSlot {
            title: modules.running_apps.title.clone(),
            icon: modules.running_apps.icon.clone(),
            value: Some(7),
            value_subscript: None,
            widget_type: WidgetType::Normal,
        }
    } else if *key == modules.cpu.title {
        WidgetSlot {
            title: modules.cpu.title.clone(),
            icon: modules.cpu.icon.clone(),
            value: Some(65),
            value_subscript: Some(String::from_str("%")),
            widget_type: WidgetType::Normal,
        }
    } else if *key == modules.memory.title {
        WidgetSlot {
            title: modules.memory.title.clone(),
            icon: modules.memory.icon.clone(),
            value: Some(75),
            value_subscript: Some(String::from_str("%")),
            widget_type: WidgetType::Normal,
        }
    } else if *key == modules.sound.title {
        WidgetSlot {
            title: modules.sound.title.clone(),
            icon: modules.sound.icon.clone(),
            value: None,
            value_subscript: None,
            widget_type: WidgetType::Slider,
        }
    } else if *key == modules.brightness.title {
        WidgetSlot {
            title: modules.brightness.title.clone(),
            icon: modules.brightness.icon.clone(),
            ..Default::default()
        }
    } else {
        Default::default()
    }
}

/// A targeted change to one slot field, mirroring the three commands the
/// reducer can emit.
#[derive(Debug, Clone, PartialEq)]
pub enum WidgetInput {
    TitleChanged(String),
    IconChanged(String),
    ValueChanged(Option<u32>),
}

/// An indexed command: apply `input` to the slot at `index`.
#[derive(Debug, Clone, PartialEq)]
pub struct WidgetCommand {
    pub index: usize,
    pub input: WidgetInput,
}

/// A command addressed a slot index at or beyond the registry's bounds.
#[derive(Debug, Clone, Copy, PartialEq, Eq, Structural)]
pub struct SlotIndexError {
    pub index: usize,
    pub len: usize,
}

/// The slot after one input is applied: exactly one field changes.
pub open spec fn apply_input(slot: WidgetSlot, input: WidgetInput) -> WidgetSlot {
    match input {
        WidgetInput::TitleChanged(title) => WidgetSlot { title, ..slot },
        WidgetInput::IconChanged(icon) => WidgetSlot { icon, ..slot },
        WidgetInput::ValueChanged(value) => WidgetSlot { value, ..slot },
    }
}

/// The ordered, statically sized collection of display slots, addressed by
/// stable integer index. Built once from configuration; only the displayed
/// fields of its slots change afterwards, never their count or order.
#[derive(Debug)]
pub struct WidgetRegistry {
    slots: Vec<WidgetSlot>,
    battery_index: Option<usize>,
}

impl WidgetRegistry {
    /// The slots, in layout order.
    pub closed spec fn slots(&self) -> Seq<WidgetSlot> {
        self.slots@
    }

    /// The index of the battery slot, when the layout configured one.
    pub closed spec fn battery_index(&self) -> Option<usize> {
        self.battery_index
    }

    /// The battery index, when present, addresses an existing slot.
    pub open spec fn wf(&self) -> bool {
        self.battery_index() matches Some(i) ==> i < self.slots().len()
    }

    /// Builds the registry from the configured layout: one slot per layout
    /// key, in layout order, each matched against the module titles. The
    /// battery index is the first position whose key names the battery
    /// module, or absent when no key does.
    pub fn build(layout: &Vec<String>, modules: &Modules) -> (r: WidgetRegistry)
        ensures
            r.wf(),
            r.slots().len() == layout@.len(),
            forall|i: int|
                0 <= i < layout@.len() ==> slot_for_key(#[trigger] r.slots()[i], layout@[i]@, *modules),
            match r.battery_index() {
                Some(b) => {
                    &&& b < layout@.len()
                    &&& layout@[b as int]@ == modules.battery.title@
                    &&& forall|j: int|
                        0 <= j < b ==> #[trigger] layout@[j]@ != modules.battery.title@
                },
                None => forall|j: int|
                    0 <= j < layout@.len() ==> #[trigger] layout@[j]@ != modules.battery.title@,
            },
    {
        let mut slots: Vec<WidgetSlot> = Vec::new();
        let mut battery_index: Option<usize> = None;
        let mut k: usize = 0;
        while k < layout.len()
            invariant
                k <= layout@.len(),
                slots@.len() == k,
                forall|i: int|
                    0 <= i < k ==> slot_for_key(#[trigger] slots@[i], layout@[i]@, *modules),
                match battery_index {
                    Some(b) => {
                        &&& b < k
                        &&& layout@[b as int]@ == modules.battery.title@
                        &&& forall|j: int|
                            0 <= j < b ==> #[trigger] layout@[j]@ != modules.battery.title@
                    },
                    None => forall|j: int|
                        0 <= j < k ==> #[trigger] layout@[j]@ != modules.battery.title@,
                },
            decreases layout@.len() - k,
        {
            let key = &layout[k];
            if battery_index.is_none() && *key == modules.battery.title {
                battery_index = Some(k);
            }
            let slot = build_slot(key, modules);
            slots.push(slot);
            k = k + 1;
        }
        WidgetRegistry { slots, battery_index }
    }

    /// The number of slots.
    pub fn len(&self) -> (r: usize)
        ensures
            r == self.slots().len(),
    {
        self.slots.len()
    }

    /// The slot at an index.
    pub fn slot_at(&self, index: usize) -> (r: &WidgetSlot)
        requires
            index < self.slots().len(),
        ensures
            *r == self.slots()[index as int],
    {
        &self.slots[index]
    }

    /// The index of the battery slot, when the layout configured one.
    pub fn battery_slot_index(&self) -> (r: Option<usize>)
        ensures
            r == self.battery_index(),
    {
        self.battery_index
    }

    /// Applies one command to the addressed slot. An index within bounds
    /// changes exactly that slot as `apply_input` says; an index at or beyond
    /// the bounds is a caller error: the command is rejected and nothing
    /// changes.
    pub fn send(&mut self, command: WidgetCommand) -> (r: Result<(), SlotIndexError>)
        ensures
            final(self).battery_index() == old(self).battery_index(),
            command.index < old(self).slots().len() ==> {
                &&& r is Ok
                &&& final(self).slots() == old(self).slots().update(
                    command.index as int,
                    apply_input(old(self).slots()[command.index as int], command.input),
                )
            },
            command.index >= old(self).slots().len() ==> {
                &&& r == Result::<(), SlotIndexError>::Err(
                    SlotIndexError { index: command.index, len: old(self).slots().len() as usize },
                )
                &&& final(self).slots() == old(self).slots()
            },
    {
        let len = self.slots.len();
        if command.index >= len {
            return Err(SlotIndexError { index: command.index, len });
        }
        let slot = &mut self.slots[command.index];
        match command.input {
            WidgetInput::TitleChanged(title) => {
                slot.title = title;
            },
            WidgetInput::IconChanged(icon) => {
                slot.icon = icon;
            },
            WidgetInput::ValueChanged(value) => {
                slot.value = value;
            },
        }
        Ok(())
    }
}

} // verus!
