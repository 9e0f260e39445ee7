//! The state reducer: the single writer of application state.
//!
//! The reducer consumes events strictly one at a time, in arrival order. For
//! each event it updates the application state as the pure `step` function
//! says and emits zero or more indexed commands for the widget registry. It
//! performs no I/O and never suspends, so a fixed event order yields a
//! deterministic, replayable update sequence.

use vstd::prelude::*;

use crate::battery::bucket;
use crate::battery::BatteryService;
use crate::events::BluetoothState;
use crate::events::Message;
use crate::events::WifiState;
use crate::widgets::battery_icon;
use crate::widgets::spec_battery_icon;
use crate::widgets::BatteryIcons;
use crate::widgets::SlotIndexError;
use crate::widgets::WidgetCommand;
use crate::widgets::WidgetInput;
use crate::widgets::WidgetRegistry;

verus! {

/// The application state: current telemetry readings, radio states, the
/// registry snapshot, and the configured battery icon set. Only the reducer
/// mutates it; producers communicate exclusively through events.
pub struct SettingsDrawer {
    pub wifi_state: WifiState,
    pub bluetooth_state: BluetoothState,
    /// Raw battery capacity as last reported; kept unclamped even when the
    /// source reports a value above 100.
    pub battery_capacity: u32,
    /// CPU usage in hundredths of a percent.
    pub cpu_usage: u32,
    /// Memory usage in hundredths of a percent.
    pub memory_usage: u32,
    pub setting_actions: WidgetRegistry,
    pub battery_icons: BatteryIcons,
}

/// The state after one event is folded in. Each telemetry event overwrites
/// its own scalar field and nothing else; clicks and direct status updates
/// leave the state unchanged.
pub open spec fn step(s: SettingsDrawer, message: Message) -> SettingsDrawer {
    match message {
        Message::BatteryCapacityChanged(capacity) => SettingsDrawer {
            battery_capacity: capacity,
            ..s
        },
        Message::CpuUsageChanged(usage) => SettingsDrawer { cpu_usage: usage, ..s },
        Message::MemoryUsageChanged(usage) => SettingsDrawer { memory_usage: usage, ..s },
        Message::WidgetClicked(_, _) => s,
        Message::BatteryStatusUpdate(_) => s,
    }
}

/// Whether the reducer accepts an event: a click must address a configured
/// slot; every other event is always accepted.
pub open spec fn accepts(s: SettingsDrawer, message: Message) -> bool {
    message matches Message::WidgetClicked(index, _) ==> index < s.setting_actions.slots().len()
}

/// The commands one accepted event emits. A capacity event addresses the
/// configured battery slot with the raw value and the icon of its bucket (or
/// emits nothing when no battery slot is configured); a click emits exactly
/// one title change for the clicked slot; everything else emits nothing.
pub open spec fn step_commands(s: SettingsDrawer, message: Message, commands: Seq<
    WidgetCommand,
>) -> bool {
    match message {
        Message::BatteryCapacityChanged(capacity) => match s.setting_actions.battery_index() {
            Some(battery_index) => commands == seq![
                WidgetCommand { index: battery_index, input: WidgetInput::ValueChanged(Some(capacity)) },
                WidgetCommand {
                    index: battery_index,
                    input: WidgetInput::IconChanged(
                        spec_battery_icon(s.battery_icons, bucket(capacity as int)),
                    ),
                },
            ],
            None => commands == Seq::<WidgetCommand>::empty(),
        },
        Message::WidgetClicked(index, _) => {
            &&& commands.len() == 1
            &&& commands[0].index == index
            &&& commands[0].input matches WidgetInput::TitleChanged(title) && title@
                == "Connected"@
        },
        _ => commands == Seq::<WidgetCommand>::empty(),
    }
}

impl SettingsDrawer {
    /// The registry invariant carries over to the whole state.
    pub open spec fn wf(&self) -> bool {
        self.setting_actions.wf()
    }

    /// The startup state: zero readings, both radios off, and the given
    /// registry snapshot and battery icon set.
    pub fn new(setting_actions: WidgetRegistry, battery_icons: BatteryIcons) -> (r: Self)
        ensures
            r == (SettingsDrawer {
                wifi_state: WifiState::Off,
                bluetooth_state: BluetoothState::Off,
                battery_capacity: 0u32,
                cpu_usage: 0u32,
                memory_usage: 0u32,
                setting_actions,
                battery_icons,
            }),
    {
        SettingsDrawer {
            wifi_state: WifiState::Off,
            bluetooth_state: BluetoothState::Off,
            battery_capacity: 0,
            cpu_usage: 0,
            memory_usage: 0,
            setting_actions,
            battery_icons,
        }
    }

    /// Folds one event into the state and derives the commands it emits.
    ///
    /// The state always moves to `step(old, message)`. An accepted event
    /// returns its commands per `step_commands`; a click beyond the slot
    /// count is a caller error, rejected with the offending index while the
    /// state stays at `step`'s value (a click changes no state either way).
    /// With a well-formed registry, every emitted command addresses an
    /// existing slot.
    pub fn update(&mut self, message: Message) -> (r: Result<Vec<WidgetCommand>, SlotIndexError>)
        ensures
            *final(self) == step(*old(self), message),
            accepts(*old(self), message) ==> (r matches Ok(commands) && step_commands(
                *old(self),
                message,
                commands@,
            )),
            !accepts(*old(self), message) ==> (r matches Err(e) && message matches
                Message::WidgetClicked(index, _) && e == (SlotIndexError {
                index,
                len: old(self).setting_actions.slots().len() as usize,
            })),
            old(self).wf() ==> match r {
                Ok(commands) => forall|i: int|
                    0 <= i < commands@.len() ==> (#[trigger] commands@[i]).index < old(
                        self,
                    ).setting_actions.slots().len(),
                Err(_) => true,
            },
    {
        match message {
            Message::BatteryCapacityChanged(capacity) => {
                self.battery_capacity = capacity;
                let mut commands: Vec<WidgetCommand> = Vec::new();
                match self.setting_actions.battery_slot_index() {
                    Some(battery_index) => {
                        commands.push(
                            WidgetCommand {
                                index: battery_index,
                                input: WidgetInput::ValueChanged(Some(capacity)),
                            },
                        );
                        let state = BatteryService::battery_state(capacity);
                        commands.push(
                            WidgetCommand {
                                index: battery_index,
                                input: WidgetInput::IconChanged(
                                    battery_icon(&self.battery_icons, state),
                                ),
                            },
                        );
                        proof {
                            assert(step_commands(*old(self), message, commands@)) by {
                                assert(commands@ =~= seq![
                                    WidgetCommand {
                                        index: battery_index,
                                        input: WidgetInput::ValueChanged(Some(capacity)),
                                    },
                                    WidgetCommand {
                                        index: battery_index,
                                        input: WidgetInput::IconChanged(
                                            spec_battery_icon(
                                                old(self).battery_icons,
                                                bucket(capacity as int),
                                            ),
                                        ),
                                    },
                                ]);
                            }
                        }
                    },
                    None => {
                        proof {
                            assert(commands@ =~= Seq::<WidgetCommand>::empty());
                        }
                    },
                }
                Ok(commands)
            },
            Message::CpuUsageChanged(usage) => {
                self.cpu_usage = usage;
                let commands: Vec<WidgetCommand> = Vec::new();
                proof {
                    assert(commands@ =~= Seq::<WidgetCommand>::empty());
                }
                Ok(commands)
            },
            Message::MemoryUsageChanged(usage) => {
                self.memory_usage = usage;
                let commands: Vec<WidgetCommand> = Vec::new();
                proof {
                    assert(commands@ =~= Seq::<WidgetCommand>::empty());
                }
                Ok(commands)
            },
            Message::WidgetClicked(index, _label) => {
                let len = self.setting_actions.len();
                if index < len {
                    let mut commands: Vec<WidgetCommand> = Vec::new();
                    commands.push(
                        WidgetCommand {
                            index,
                            input: WidgetInput::TitleChanged(String::from_str("Connected")),
                        },
                    );
                    Ok(commands)
                } else {
                    Err(SlotIndexError { index, len })
                }
            },
            Message::BatteryStatusUpdate(_) => {
                let commands: Vec<WidgetCommand> = Vec::new();
                proof {
                    assert(commands@ =~= Seq::<WidgetCommand>::empty());
                }
                Ok(commands)
            },
        }
    }
}

} // verus!
