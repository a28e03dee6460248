//! Device-tree name resolver.
//!
//! The monitor device class offers two tiers of human-readable labels: a
//! friendly name and a device description. Either read may fail, come back
//! empty, or hold the generic placeholder that signals "no real name
//! available". Resolution picks the first tier whose text is non-empty and
//! not the placeholder, and otherwise keeps the caller-supplied fallback.

use vstd::prelude::*;
use vstd::string::StrSliceExecFns;

use crate::wide::decode_wide;
use crate::wide::utf16_lossy_text;
use crate::wide::wide_prefix;

verus! {

/// The registry property reads taken from the first device-info entry of the
/// monitor class list; `None` records a failed read.
#[derive(Debug, Clone)]
pub struct EntryProperties {
    /// Raw friendly-name property buffer, when that read succeeded.
    pub friendly: Option<Vec<u16>>,
    /// Raw device-description property buffer, when that read succeeded.
    pub description: Option<Vec<u16>>,
}

/// The generic label that means "no real name available".
pub open spec fn placeholder() -> Seq<char> {
    "Generic PnP Monitor"@
}

/// A label is usable when it is non-empty and not the generic placeholder.
pub open spec fn acceptable(name: Seq<char>) -> bool {
    name.len() > 0 && name != placeholder()
}

/// The text a successful property read decodes to.
pub open spec fn read_text(read: Option<Vec<u16>>) -> Option<Seq<char>> {
    match read {
        Option::Some(units) => Option::Some(utf16_lossy_text(wide_prefix(units@))),
        Option::None => Option::None,
    }
}

/// Resolution by the description tier alone: the description when it is
/// usable, the fallback otherwise.
pub open spec fn description_resolved(entry: EntryProperties, fallback: Seq<char>) -> Seq<char> {
    match read_text(entry.description) {
        Option::Some(text) => if acceptable(text) {
            text
        } else {
            fallback
        },
        Option::None => fallback,
    }
}

/// Full two-tier resolution: the friendly name when it is usable, otherwise
/// whatever the description tier yields.
pub open spec fn resolved_name(entry: EntryProperties, fallback: Seq<char>) -> Seq<char> {
    match read_text(entry.friendly) {
        Option::Some(text) => if acceptable(text) {
            text
        } else {
            description_resolved(entry, fallback)
        },
        Option::None => description_resolved(entry, fallback),
    }
}

/// True when the label is non-empty and differs from the generic placeholder.
fn accept_name(name: &String) -> (r: bool)
    ensures
        r == acceptable(name@),
{
    if name.as_str().unicode_len() == 0 {
        return false;
    }
    let generic: String = "Generic PnP Monitor".to_owned();
    !(*name == generic)
}

/// Resolves a monitor label from the first device-info entry of the monitor
/// class list, or keeps the fallback when the list is empty or neither
/// property yields a usable label.
pub fn resolve_monitor_name(first_entry: Option<&EntryProperties>, fallback: &str) -> (r: String)
    ensures
        first_entry is None ==> r@ == fallback@,
        first_entry matches Some(entry) ==> r@ == resolved_name(*entry, fallback@),
{
    let entry = match first_entry {
        Option::None => {
            return fallback.to_owned();
        },
        Option::Some(entry) => entry,
    };
    match &entry.friendly {
        Option::Some(units) => {
            let name = decode_wide(units.as_slice());
            if accept_name(&name) {
                return name;
            }
        },
        Option::None => {},
    }
    match &entry.description {
        Option::Some(units) => {
            let name = decode_wide(units.as_slice());
            if accept_name(&name) {
                return name;
            }
        },
        Option::None => {},
    }
    fallback.to_owned()
}

/// When the friendly-name tier reads back the generic placeholder, resolution
/// is decided by the description tier alone: the placeholder is never
/// accepted.
pub proof fn lemma_placeholder_friendly_defers(entry: EntryProperties, fallback: Seq<char>)
    requires
        entry.friendly matches Some(units) && utf16_lossy_text(wide_prefix(units@))
            == placeholder(),
    ensures
        resolved_name(entry, fallback) == description_resolved(entry, fallback),
{
}

} // verus!
