//! Ordering guarantees of the event stream.
//!
//! Events from one service reach the reducer in the order produced; across
//! services the channel interleaves arbitrarily. The laws here pin down what
//! that buys: battery events and device info events write disjoint parts of
//! the state, so the final state after draining the channel depends only on
//! each service's own order, not on how the channel happened to interleave
//! the two.

use vstd::prelude::*;

use crate::battery::battery_tick_events;
use crate::errors::BatteryServiceError;
use crate::errors::DeviceInfoServiceError;
use crate::events::Message;
use crate::handler::cpu_tick_events;
use crate::handler::memory_tick_events;
use crate::reducer::step;
use crate::reducer::SettingsDrawer;

verus! {

/// The state after a whole event sequence is folded in, first event first.
pub open spec fn fold_state(s: SettingsDrawer, events: Seq<Message>) -> SettingsDrawer
    decreases events.len(),
{
    if events.len() == 0 {
        s
    } else {
        fold_state(step(s, events[0]), events.drop_first())
    }
}

/// Folding in no events changes nothing.
proof fn lemma_fold_empty(s: SettingsDrawer, events: Seq<Message>)
    requires
        events.len() == 0,
    ensures
        fold_state(s, events) == s,
{
}

/// Folding in a single event is one step.
proof fn lemma_fold_one(s: SettingsDrawer, events: Seq<Message>)
    requires
        events.len() == 1,
    ensures
        fold_state(s, events) == step(s, events[0]),
{
    lemma_fold_empty(step(s, events[0]), events.drop_first());
}

/// Folding in two events is two steps in order.
proof fn lemma_fold_two(s: SettingsDrawer, events: Seq<Message>)
    requires
        events.len() == 2,
    ensures
        fold_state(s, events) == step(step(s, events[0]), events[1]),
{
    lemma_fold_one(step(s, events[0]), events.drop_first());
}

/// One battery tick folds in as its read outcome says: a failed read leaves
/// the application state exactly as it was (no event is emitted on failure),
/// and a successful read changes the battery capacity and nothing else. The
/// state a failed tick left untouched is then updated by the next successful
/// tick.
pub proof fn lemma_battery_tick_effect(
    s: SettingsDrawer,
    reading: Result<u32, BatteryServiceError>,
)
    ensures
        fold_state(s, battery_tick_events(reading)) == (SettingsDrawer {
            battery_capacity: match reading {
                Ok(capacity) => capacity,
                Err(_) => s.battery_capacity,
            },
            ..s
        }),
{
    let events = battery_tick_events(reading);
    match reading {
        Ok(_) => {
            lemma_fold_one(s, events);
        },
        Err(_) => {
            lemma_fold_empty(s, events);
        },
    }
}

/// One device info tick folds in as its two read outcomes say: each metric is
/// updated exactly when its own read succeeded, and nothing else changes. A
/// tick on which both reads failed leaves the state exactly as it was.
pub proof fn lemma_device_info_tick_effect(
    s: SettingsDrawer,
    cpu: Result<u32, DeviceInfoServiceError>,
    memory: Result<u32, DeviceInfoServiceError>,
)
    ensures
        fold_state(s, cpu_tick_events(cpu) + memory_tick_events(memory)) == (SettingsDrawer {
            cpu_usage: match cpu {
                Ok(usage) => usage,
                Err(_) => s.cpu_usage,
            },
            memory_usage: match memory {
                Ok(usage) => usage,
                Err(_) => s.memory_usage,
            },
            ..s
        }),
{
    let events = cpu_tick_events(cpu) + memory_tick_events(memory);
    match (cpu, memory) {
        (Ok(c), Ok(m)) => {
            assert(events =~= seq![Message::CpuUsageChanged(c), Message::MemoryUsageChanged(m)]);
            lemma_fold_two(s, events);
        },
        (Ok(c), Err(_)) => {
            assert(events =~= seq![Message::CpuUsageChanged(c)]);
            lemma_fold_one(s, events);
        },
        (Err(_), Ok(m)) => {
            assert(events =~= seq![Message::MemoryUsageChanged(m)]);
            lemma_fold_one(s, events);
        },
        (Err(_), Err(_)) => {
            assert(events.len() == 0);
            lemma_fold_empty(s, events);
        },
    }
}

/// Whether an event is one the battery service produces.
pub open spec fn from_battery_source(message: Message) -> bool {
    ||| message matches Message::BatteryCapacityChanged(_)
    ||| message matches Message::BatteryStatusUpdate(_)
}

/// Whether an event is one the device info service produces.
pub open spec fn from_device_info_source(message: Message) -> bool {
    ||| message matches Message::CpuUsageChanged(_)
    ||| message matches Message::MemoryUsageChanged(_)
}

/// Whether every event of a sequence is the battery service's.
pub open spec fn all_from_battery(events: Seq<Message>) -> bool {
    forall|i: int| 0 <= i < events.len() ==> from_battery_source(#[trigger] events[i])
}

/// Whether every event of a sequence is the device info service's.
pub open spec fn all_from_device_info(events: Seq<Message>) -> bool {
    forall|i: int| 0 <= i < events.len() ==> from_device_info_source(#[trigger] events[i])
}

/// Whether `combined` is an interleaving of `a` and `b`: it contains exactly
/// the events of both, each source's events in their own order.
pub open spec fn is_interleaving(combined: Seq<Message>, a: Seq<Message>, b: Seq<Message>) -> bool
    decreases combined.len(),
{
    if combined.len() == 0 {
        a.len() == 0 && b.len() == 0
    } else {
        ||| (a.len() > 0 && a[0] == combined[0] && is_interleaving(
            combined.drop_first(),
            a.drop_first(),
            b,
        ))
        ||| (b.len() > 0 && b[0] == combined[0] && is_interleaving(
            combined.drop_first(),
            a,
            b.drop_first(),
        ))
    }
}

/// An interleaving drops no event and invents none: its length is the sum of
/// the two sources' lengths.
pub proof fn lemma_interleaving_len(combined: Seq<Message>, a: Seq<Message>, b: Seq<Message>)
    requires
        is_interleaving(combined, a, b),
    ensures
        combined.len() == a.len() + b.len(),
    decreases combined.len(),
{
    if combined.len() > 0 {
        if a.len() > 0 && a[0] == combined[0] && is_interleaving(
            combined.drop_first(),
            a.drop_first(),
            b,
        ) {
            lemma_interleaving_len(combined.drop_first(), a.drop_first(), b);
        } else {
            lemma_interleaving_len(combined.drop_first(), a, b.drop_first());
        }
    }
}

/// One battery event and one device info event write disjoint fields, so the
/// two reduction steps commute.
proof fn lemma_step_commutes(s: SettingsDrawer, x: Message, y: Message)
    requires
        from_battery_source(x),
        from_device_info_source(y),
    ensures
        step(step(s, x), y) == step(step(s, y), x),
{
}

/// A device info event commutes past a whole battery-event sequence.
proof fn lemma_step_past_fold(s: SettingsDrawer, y: Message, a: Seq<Message>)
    requires
        from_device_info_source(y),
        all_from_battery(a),
    ensures
        fold_state(step(s, y), a) == step(fold_state(s, a), y),
    decreases a.len(),
{
    if a.len() > 0 {
        assert(all_from_battery(a.drop_first())) by {
            assert(forall|i: int|
                0 <= i < a.drop_first().len() ==> #[trigger] a.drop_first()[i] == a[i + 1]);
        }
        lemma_step_commutes(s, a[0], y);
        lemma_step_past_fold(step(s, a[0]), y, a.drop_first());
    }
}

/// Draining any interleaving of a battery-event sequence and a device info
/// event sequence ends in the same state as draining the battery events and
/// then the device info events.
proof fn lemma_fold_interleaving(
    s: SettingsDrawer,
    combined: Seq<Message>,
    a: Seq<Message>,
    b: Seq<Message>,
)
    requires
        is_interleaving(combined, a, b),
        all_from_battery(a),
        all_from_device_info(b),
    ensures
        fold_state(s, combined) == fold_state(fold_state(s, a), b),
    decreases combined.len(),
{
    if combined.len() > 0 {
        if a.len() > 0 && a[0] == combined[0] && is_interleaving(
            combined.drop_first(),
            a.drop_first(),
            b,
        ) {
            assert(all_from_battery(a.drop_first())) by {
                assert(forall|i: int|
                    0 <= i < a.drop_first().len() ==> #[trigger] a.drop_first()[i] == a[i + 1]);
            }
            lemma_fold_interleaving(step(s, a[0]), combined.drop_first(), a.drop_first(), b);
        } else {
            assert(all_from_device_info(b.drop_first())) by {
                assert(forall|i: int|
                    0 <= i < b.drop_first().len() ==> #[trigger] b.drop_first()[i] == b[i + 1]);
            }
            lemma_fold_interleaving(step(s, b[0]), combined.drop_first(), a, b.drop_first());
            lemma_step_past_fold(s, b[0], a);
        }
    }
}

/// Order independence across sources: for a fixed battery-event sequence and
/// a fixed device info event sequence, every interleaving the channel can
/// deliver drives the reducer to the same final state. Order within each
/// source still matters; only the cross-source interleaving does not.
pub proof fn lemma_reduce_order_independent(
    s: SettingsDrawer,
    a: Seq<Message>,
    b: Seq<Message>,
    combined1: Seq<Message>,
    combined2: Seq<Message>,
)
    requires
        all_from_battery(a),
        all_from_device_info(b),
        is_interleaving(combined1, a, b),
        is_interleaving(combined2, a, b),
    ensures
        fold_state(s, combined1) == fold_state(s, combined2),
{
    lemma_fold_interleaving(s, combined1, a, b);
    lemma_fold_interleaving(s, combined2, a, b);
}

} // verus!
