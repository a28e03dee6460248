//! Topology enumerator.
//!
//! The platform enumerates graphics adapters and, per adapter, the monitors
//! on its outputs, each record carrying a raw wide-string buffer and state
//! flags. This module walks a snapshot of those records, keeps the adapters
//! attached to the desktop and the monitors that are active, resolves a label
//! for each kept monitor through the device-class snapshot, and joins each
//! label to its adapter's device name.

use vstd::prelude::*;

use crate::resolve::resolve_monitor_name;
use crate::resolve::resolved_name;
use crate::resolve::EntryProperties;
use crate::wide::decode_wide;
use crate::wide::utf16_lossy_text;
use crate::wide::wide_prefix;

verus! {

/// State-flag bit: the adapter is part of the desktop.
pub const DISPLAY_DEVICE_ATTACHED_TO_DESKTOP: u32 = 0x00000001;

/// State-flag bit: the monitor is active.
pub const DISPLAY_DEVICE_ACTIVE: u32 = 0x00000001;

/// State-flag bit: the adapter drives the primary display.
pub const DISPLAY_DEVICE_PRIMARY_DEVICE: u32 = 0x00000004;

/// One monitor record as the platform enumerates it: its raw description
/// buffer and its state flags.
#[derive(Debug, Clone)]
pub struct MonitorRecord {
    pub device_string: Vec<u16>,
    pub state_flags: u32,
}

/// One adapter record as the platform enumerates it: its raw device-name
/// buffer, its state flags, and the monitor records enumerated under it.
#[derive(Debug, Clone)]
pub struct AdapterRecord {
    pub device_name: Vec<u16>,
    pub state_flags: u32,
    pub monitors: Vec<MonitorRecord>,
}

/// What one pass over the opened monitor device class yielded: the property
/// reads of its first device-info entry, or `None` when the class list is
/// empty.
#[derive(Debug, Clone)]
pub struct DeviceClassSnapshot {
    pub first_entry: Option<EntryProperties>,
}

/// One active monitor bound to one adapter output: the adapter's device name,
/// the key for every later query, and a best-effort human-readable label.
#[derive(Debug, Clone)]
pub struct DisplayDevice {
    pub device_name: String,
    pub display_name: String,
}

pub open spec fn attached_to_desktop(a: AdapterRecord) -> bool {
    a.state_flags & DISPLAY_DEVICE_ATTACHED_TO_DESKTOP != 0
}

pub open spec fn monitor_active(m: MonitorRecord) -> bool {
    m.state_flags & DISPLAY_DEVICE_ACTIVE != 0
}

pub open spec fn is_primary(a: AdapterRecord) -> bool {
    a.state_flags & DISPLAY_DEVICE_PRIMARY_DEVICE != 0
}

/// The text an adapter's device-name buffer decodes to.
pub open spec fn adapter_name_text(a: AdapterRecord) -> Seq<char> {
    utf16_lossy_text(wide_prefix(a.device_name@))
}

/// The (device name, label) pair an active monitor contributes.
pub open spec fn monitor_entry(
    snap: DeviceClassSnapshot,
    adapter_name: Seq<char>,
    m: MonitorRecord,
) -> (Seq<char>, Seq<char>) {
    let fallback = utf16_lossy_text(wide_prefix(m.device_string@));
    let label = match snap.first_entry {
        Option::Some(entry) => resolved_name(entry, fallback),
        Option::None => fallback,
    };
    (adapter_name, label)
}

/// The pairs contributed by the active monitors of one adapter, in
/// enumeration order.
pub open spec fn monitor_entries(
    snap: DeviceClassSnapshot,
    adapter_name: Seq<char>,
    mons: Seq<MonitorRecord>,
) -> Seq<(Seq<char>, Seq<char>)>
    decreases mons.len(),
{
    if mons.len() == 0 {
        Seq::empty()
    } else {
        let rest = monitor_entries(snap, adapter_name, mons.drop_last());
        if monitor_active(mons.last()) {
            rest.push(monitor_entry(snap, adapter_name, mons.last()))
        } else {
            rest
        }
    }
}

/// The pairs contributed by the attached adapters, in enumeration order.
pub open spec fn topology_entries(
    snap: DeviceClassSnapshot,
    adapters: Seq<AdapterRecord>,
) -> Seq<(Seq<char>, Seq<char>)>
    decreases adapters.len(),
{
    if adapters.len() == 0 {
        Seq::empty()
    } else {
        let rest = topology_entries(snap, adapters.drop_last());
        let a = adapters.last();
        if attached_to_desktop(a) {
            rest + monitor_entries(snap, adapter_name_text(a), a.monitors@)
        } else {
            rest
        }
    }
}

/// The (device name, label) pairs a device list stands for.
pub open spec fn device_pairs(devices: Seq<DisplayDevice>) -> Seq<(Seq<char>, Seq<char>)> {
    devices.map_values(|d: DisplayDevice| (d.device_name@, d.display_name@))
}

/// Builds the full replacement snapshot of active displays: one entry per
/// active monitor of each attached adapter, in enumeration order. When the
/// device class could not be opened (`class_devs` is `None`), the result is
/// empty.
#[verifier::loop_isolation(false)]
pub fn get_all_display_devices(
    class_devs: Option<&DeviceClassSnapshot>,
    adapters: &Vec<AdapterRecord>,
) -> (r: Vec<DisplayDevice>)
    ensures
        class_devs is None ==> r@.len() == 0,
        class_devs matches Some(snap) ==> device_pairs(r@) == topology_entries(*snap, adapters@),
{
    let mut devices: Vec<DisplayDevice> = Vec::new();
    let snap = match class_devs {
        Option::None => {
            return devices;
        },
        Option::Some(snap) => snap,
    };
    proof {
        assert(device_pairs(devices@) =~= topology_entries(*snap, adapters@.take(0)));
    }
    let mut i: usize = 0;
    while i < adapters.len()
        invariant
            0 <= i <= adapters@.len(),
            device_pairs(devices@) == topology_entries(*snap, adapters@.take(i as int)),
        decreases adapters@.len() - i,
    {
        let adapter = &adapters[i];
        if adapter.state_flags & DISPLAY_DEVICE_ATTACHED_TO_DESKTOP != 0 {
            let adapter_name = decode_wide(adapter.device_name.as_slice());
            proof {
                assert(monitor_entries(*snap, adapter_name@, adapter.monitors@.take(0))
                    =~= Seq::<(Seq<char>, Seq<char>)>::empty());
            }
            let mut j: usize = 0;
            while j < adapter.monitors.len()
                invariant
                    0 <= j <= adapter.monitors@.len(),
                    adapter == &adapters[i as int],
                    adapter_name@ == adapter_name_text(*adapter),
                    device_pairs(devices@) == topology_entries(*snap, adapters@.take(i as int))
                        + monitor_entries(
                        *snap,
                        adapter_name@,
                        adapter.monitors@.take(j as int),
                    ),
                decreases adapter.monitors@.len() - j,
            {
                let monitor = &adapter.monitors[j];
                let ghost prev = devices@;
                if monitor.state_flags & DISPLAY_DEVICE_ACTIVE != 0 {
                    let fallback = decode_wide(monitor.device_string.as_slice());
                    let label = resolve_monitor_name(snap.first_entry.as_ref(), fallback.as_str());
                    let entry = DisplayDevice {
                        device_name: adapter_name.clone(),
                        display_name: label,
                    };
                    devices.push(entry);
                    proof {
                        assert(device_pairs(devices@) =~= device_pairs(prev).push(
                            monitor_entry(*snap, adapter_name@, adapter.monitors@[j as int]),
                        ));
                    }
                }
                proof {
                    let mons = adapter.monitors@;
                    assert(mons.take(j + 1).drop_last() =~= mons.take(j as int));
                    assert(mons.take(j + 1).last() == mons[j as int]);
                    if monitor_active(mons[j as int]) {
                        assert(device_pairs(devices@) =~= topology_entries(
                            *snap,
                            adapters@.take(i as int),
                        ) + monitor_entries(*snap, adapter_name@, mons.take(j + 1)));
                    }
                }
                j = j + 1;
            }
            proof {
                assert(adapter.monitors@.take(adapter.monitors@.len() as int)
                    =~= adapter.monitors@);
            }
        }
        proof {
            assert(adapters@.take(i + 1).drop_last() =~= adapters@.take(i as int));
            assert(adapters@.take(i + 1).last() == adapters@[i as int]);
        }
        i = i + 1;
    }
    proof {
        assert(adapters@.take(adapters@.len() as int) =~= adapters@);
    }
    devices
}

/// A monitor without the active flag contributes nothing, even when the
/// platform enumerates it: the entries of a monitor list with it removed are
/// the entries of the full list.
pub proof fn lemma_inactive_monitor_excluded(
    snap: DeviceClassSnapshot,
    adapter_name: Seq<char>,
    mons: Seq<MonitorRecord>,
    i: int,
)
    requires
        0 <= i < mons.len(),
        !monitor_active(mons[i]),
    ensures
        monitor_entries(snap, adapter_name, mons) == monitor_entries(
            snap,
            adapter_name,
            mons.remove(i),
        ),
    decreases mons.len(),
{
    if i == mons.len() - 1 {
        assert(mons.remove(i) =~= mons.drop_last());
    } else {
        lemma_inactive_monitor_excluded(snap, adapter_name, mons.drop_last(), i);
        assert(mons.remove(i).drop_last() =~= mons.drop_last().remove(i));
        assert(mons.remove(i).last() == mons.last());
    }
}

/// An adapter without the attached-to-desktop flag contributes nothing, even
/// when the platform enumerates it: the entries of an adapter list with it
/// removed are the entries of the full list.
pub proof fn lemma_detached_adapter_excluded(
    snap: DeviceClassSnapshot,
    adapters: Seq<AdapterRecord>,
    i: int,
)
    requires
        0 <= i < adapters.len(),
        !attached_to_desktop(adapters[i]),
    ensures
        topology_entries(snap, adapters) == topology_entries(snap, adapters.remove(i)),
    decreases adapters.len(),
{
    if i == adapters.len() - 1 {
        assert(adapters.remove(i) =~= adapters.drop_last());
    } else {
        lemma_detached_adapter_excluded(snap, adapters.drop_last(), i);
        assert(adapters.remove(i).drop_last() =~= adapters.drop_last().remove(i));
        assert(adapters.remove(i).last() == adapters.last());
    }
}

/// The device name of the first adapter that carries the primary-display
/// flag, or `None` when no enumerated adapter carries it.
#[verifier::loop_isolation(false)]
pub fn get_primary_display_device_name(adapters: &Vec<AdapterRecord>) -> (r: Option<String>)
    ensures
        r is Some <==> exists|k: int|
            0 <= k < adapters@.len() && is_primary(adapters@[k]),
        r matches Some(name) ==> exists|k: int|
            0 <= k < adapters@.len() && is_primary(adapters@[k]) && name@ == adapter_name_text(
                adapters@[k],
            ) && (forall|j: int| 0 <= j < k ==> !is_primary(adapters@[j])),
{
    let mut i: usize = 0;
    while i < adapters.len()
        invariant
            0 <= i <= adapters@.len(),
            forall|j: int| 0 <= j < i ==> !is_primary(adapters@[j]),
        decreases adapters@.len() - i,
    {
        let adapter = &adapters[i];
        if adapter.state_flags & DISPLAY_DEVICE_PRIMARY_DEVICE != 0 {
            return Option::Some(decode_wide(adapter.device_name.as_slice()));
        }
        i = i + 1;
    }
    Option::None
}

} // verus!
