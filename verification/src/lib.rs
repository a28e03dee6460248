//! Display topology and refresh-rate controller.
//!
//! The library discovers the active monitors attached to a machine, resolves
//! a human-readable label for each, lists the refresh rates an adapter output
//! supports, and plans refresh-rate changes with idempotent short-circuiting.
//! The platform enumeration services it consumes (adapter, monitor, mode and
//! device-class enumeration) hand their records over as plain values; every
//! decision taken on those records is made here and verified.

pub mod modes;
pub mod rate;
pub mod resolve;
pub mod topology;
pub mod wide;

pub use modes::get_available_refresh_rates;
pub use rate::classify_change_result;
pub use rate::set_display_refresh_rate;
pub use rate::ModeSettings;
pub use rate::SetOutcome;
pub use rate::SetStep;
pub use resolve::resolve_monitor_name;
pub use topology::get_all_display_devices;
pub use topology::get_primary_display_device_name;
pub use topology::AdapterRecord;
pub use topology::DeviceClassSnapshot;
pub use topology::DisplayDevice;
pub use topology::MonitorRecord;
pub use wide::decode_wide;
pub use wide::to_wide_string;
