use refresh_rate_windows_rs::get_all_display_devices;
use refresh_rate_windows_rs::get_primary_display_device_name;
use refresh_rate_windows_rs::resolve::EntryProperties;
use refresh_rate_windows_rs::to_wide_string;
use refresh_rate_windows_rs::AdapterRecord;
use refresh_rate_windows_rs::DeviceClassSnapshot;
use refresh_rate_windows_rs::MonitorRecord;

const ATTACHED: u32 = 0x00000001;
const PRIMARY: u32 = 0x00000004;

fn monitor(description: &str, flags: u32) -> MonitorRecord {
    MonitorRecord { device_string: to_wide_string(description), state_flags: flags }
}

fn adapter(name: &str, flags: u32, monitors: Vec<MonitorRecord>) -> AdapterRecord {
    AdapterRecord { device_name: to_wide_string(name), state_flags: flags, monitors }
}

#[test]
fn failed_class_open_yields_no_devices() {
    let adapters = vec![adapter(r"\\.\DISPLAY1", ATTACHED, vec![monitor("Acme 27in", 1)])];
    let devices = get_all_display_devices(None, &adapters);
    assert!(devices.is_empty());
}

#[test]
fn detached_adapter_and_inactive_monitor_are_excluded() {
    let snapshot = DeviceClassSnapshot { first_entry: None };
    let adapters = vec![
        adapter(
            r"\\.\DISPLAY1",
            ATTACHED,
            vec![monitor("First panel", 1), monitor("Sleeping panel", 0)],
        ),
        adapter(r"\\.\DISPLAY2", 0, vec![monitor("Orphan panel", 1)]),
    ];
    let devices = get_all_display_devices(Some(&snapshot), &adapters);
    assert_eq!(devices.len(), 1);
    assert_eq!(devices[0].device_name, r"\\.\DISPLAY1".to_string());
    assert_eq!(devices[0].display_name, "First panel".to_string());
}

#[test]
fn two_adapters_one_attached_uses_description_label() {
    let snapshot = DeviceClassSnapshot {
        first_entry: Some(EntryProperties {
            friendly: None,
            description: Some(to_wide_string("Acme 27in")),
        }),
    };
    let adapters = vec![
        adapter(r"\\.\DISPLAY1", ATTACHED, vec![monitor("Generic PnP Monitor", 1)]),
        adapter(r"\\.\DISPLAY2", 0, vec![monitor("Generic PnP Monitor", 1)]),
    ];
    let devices = get_all_display_devices(Some(&snapshot), &adapters);
    assert_eq!(devices.len(), 1);
    assert_eq!(devices[0].device_name, r"\\.\DISPLAY1".to_string());
    assert_eq!(devices[0].display_name, "Acme 27in".to_string());
}

#[test]
fn result_follows_enumeration_order() {
    let snapshot = DeviceClassSnapshot { first_entry: None };
    let adapters = vec![
        adapter(r"\\.\DISPLAY1", ATTACHED, vec![monitor("Left", 1), monitor("Right", 1)]),
        adapter(r"\\.\DISPLAY2", ATTACHED, vec![monitor("Center", 1)]),
    ];
    let devices = get_all_display_devices(Some(&snapshot), &adapters);
    assert_eq!(devices.len(), 3);
    assert_eq!(devices[0].device_name, r"\\.\DISPLAY1".to_string());
    assert_eq!(devices[0].display_name, "Left".to_string());
    assert_eq!(devices[1].display_name, "Right".to_string());
    assert_eq!(devices[2].device_name, r"\\.\DISPLAY2".to_string());
    assert_eq!(devices[2].display_name, "Center".to_string());
}

#[test]
fn empty_class_list_falls_back_to_monitor_string() {
    let snapshot = DeviceClassSnapshot { first_entry: None };
    let adapters = vec![adapter(r"\\.\DISPLAY1", ATTACHED, vec![monitor("Raw panel", 1)])];
    let devices = get_all_display_devices(Some(&snapshot), &adapters);
    assert_eq!(devices.len(), 1);
    assert_eq!(devices[0].display_name, "Raw panel".to_string());
}

#[test]
fn primary_device_name_is_first_with_flag() {
    let adapters = vec![
        adapter(r"\\.\DISPLAY1", ATTACHED, vec![]),
        adapter(r"\\.\DISPLAY2", ATTACHED | PRIMARY, vec![]),
        adapter(r"\\.\DISPLAY3", ATTACHED | PRIMARY, vec![]),
    ];
    assert_eq!(get_primary_display_device_name(&adapters), Some(r"\\.\DISPLAY2".to_string()));
}

#[test]
fn no_primary_flag_yields_none() {
    let adapters = vec![adapter(r"\\.\DISPLAY1", ATTACHED, vec![])];
    assert_eq!(get_primary_display_device_name(&adapters), None);
}
