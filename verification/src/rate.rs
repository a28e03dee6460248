//! Refresh-rate setter.
//!
//! Applying a rate is a two-step exchange with the platform: read the current
//! display settings, and, only when the current rate differs from the
//! requested one, request an immediate mode change. Both decisions stand
//! here: planning what the exchange must do next, editing the settings record
//! that the change request carries, and classifying the heterogeneous native
//! result codes into the small outcome set.

use vstd::prelude::*;

verus! {

/// Native change result: the change was applied.
pub const DISP_CHANGE_SUCCESSFUL: i32 = 0;

/// Native change result: the change was accepted but takes full effect only
/// after a restart.
pub const DISP_CHANGE_RESTART: i32 = 1;

/// Settings-field bit: the frequency field of a settings record is present.
pub const DM_DISPLAYFREQUENCY: u32 = 0x400000;

/// The outcome of one rate-change request.
#[derive(Debug, Clone, Copy, PartialEq, Eq, Structural)]
pub enum SetOutcome {
    /// The output runs at the requested rate.
    Success,
    /// The change was accepted; a restart may be needed for full effect.
    SuccessRestartRequired,
    /// The platform rejected the exchange; carries the native code.
    Failure(i64),
}

/// What the exchange must do after the current settings were read.
#[derive(Debug, Clone, Copy, PartialEq, Eq, Structural)]
pub enum SetStep {
    /// The outcome is already decided; no mode-change request is made.
    Done(SetOutcome),
    /// The rates differ: request an immediate mode change.
    RequestChange,
}

/// The mutable part of a native settings record: its field-presence bits and
/// its refresh-rate field.
#[derive(Debug, Clone, Copy, PartialEq, Eq, Structural)]
pub struct ModeSettings {
    pub fields: u32,
    pub frequency: u32,
}

/// The step that follows a current-settings read: a failed read fails with
/// the platform's error code, a current rate equal to the requested one is
/// already a success, and only a differing rate leads to a change request.
pub open spec fn rate_change_plan(current_read: Result<u32, u32>, requested: u32) -> SetStep {
    match current_read {
        Result::Err(code) => SetStep::Done(SetOutcome::Failure(code as i64)),
        Result::Ok(current) => if current == requested {
            SetStep::Done(SetOutcome::Success)
        } else {
            SetStep::RequestChange
        },
    }
}

/// Plans the exchange for one rate request. `current_read` is what the
/// current-settings read yielded: the current refresh rate, or the platform
/// error code when the read failed.
pub fn set_display_refresh_rate(current_read: Result<u32, u32>, requested: u32) -> (r: SetStep)
    ensures
        r == rate_change_plan(current_read, requested),
{
    match current_read {
        Result::Err(code) => SetStep::Done(SetOutcome::Failure(code as i64)),
        Result::Ok(current) => {
            if current == requested {
                SetStep::Done(SetOutcome::Success)
            } else {
                SetStep::RequestChange
            }
        },
    }
}

/// Edits a settings record for the change request: the requested frequency,
/// with the frequency field marked present and every other field bit kept.
pub fn apply_requested_rate(settings: &mut ModeSettings, rate: u32)
    ensures
        final(settings).frequency == rate,
        final(settings).fields == old(settings).fields | DM_DISPLAYFREQUENCY,
{
    settings.frequency = rate;
    settings.fields = settings.fields | DM_DISPLAYFREQUENCY;
}

/// Classifies the native change result: success and restart-required are the
/// two success codes; every other code is a failure carrying that code.
pub fn classify_change_result(code: i32) -> (r: SetOutcome)
    ensures
        code == DISP_CHANGE_SUCCESSFUL ==> r == SetOutcome::Success,
        code == DISP_CHANGE_RESTART ==> r == SetOutcome::SuccessRestartRequired,
        code != DISP_CHANGE_SUCCESSFUL && code != DISP_CHANGE_RESTART ==> r == SetOutcome::Failure(
            code as i64,
        ),
{
    if code == DISP_CHANGE_SUCCESSFUL {
        SetOutcome::Success
    } else if code == DISP_CHANGE_RESTART {
        SetOutcome::SuccessRestartRequired
    } else {
        SetOutcome::Failure(code as i64)
    }
}

/// Setting a rate is idempotent: once the output runs at the requested rate
/// — in particular right after a first successful request for it — a second
/// request for the same rate plans no mode change and succeeds at once.
pub proof fn lemma_set_rate_idempotent(current: u32, requested: u32)
    requires
        current == requested,
    ensures
        rate_change_plan(Result::Ok(current), requested) == SetStep::Done(SetOutcome::Success),
{
}

} // verus!
