//! Planning and interpreting a primary-display mode change.
//!
//! The application layer resolves the primary device and its catalog, asks
//! `plan_mode_change` whether and how to issue the change, performs the
//! operating-system call only when a request was produced, and maps the raw
//! result code through `interpret_change_result`.

use vstd::prelude::*;

use crate::device::DisplayDevice;
use crate::error::DisplayError;
use crate::modes::DisplayMode;

verus! {

/// Device-mode field selector: width is to be changed.
pub const DM_PELSWIDTH: u32 = 0x80000;

/// Device-mode field selector: height is to be changed.
pub const DM_PELSHEIGHT: u32 = 0x100000;

/// Device-mode field selector: refresh rate is to be changed.
pub const DM_DISPLAYFREQUENCY: u32 = 0x400000;

/// Result code: the mode change took effect.
pub const DISP_CHANGE_SUCCESSFUL: i32 = 0;

/// Result code: the change needs a reboot to take effect.
pub const DISP_CHANGE_RESTART: i32 = 1;

/// Result code: the display driver failed the requested mode.
pub const DISP_CHANGE_FAILED: i32 = -1;

/// Result code: the requested mode combination is not supported.
pub const DISP_CHANGE_BADMODE: i32 = -2;

/// A vetted mode-change request, ready to hand to the operating system.
pub struct ModeChangeRequest {
    /// Legacy identifier of the target device.
    pub device_name: String,
    pub width: u32,
    pub height: u32,
    pub refresh_rate: u32,
    /// Exactly the width, height and refresh-rate fields are scoped as
    /// "to change"; every other device-mode field is left untouched.
    pub field_mask: u32,
    /// The change is also persisted to the registry so it survives reboot.
    pub update_registry: bool,
}

/// The four-way reading of the operating system's mode-change result code.
#[derive(Clone, Copy, Debug, PartialEq, Eq, Structural)]
pub enum ModeChangeOutcome {
    /// The display is switching; wait briefly for it to retrain.
    Successful,
    /// The driver rejected the specific combination.
    BadMode,
    /// Driver-level failure.
    Failed,
    /// The change needs a reboot; a failure for this synchronous caller.
    RestartRequired,
    /// Any other code.
    Unknown,
}

/// Decides a requested primary-display mode change: fails when no primary
/// device was resolved; fails without any mutation when validation is on and
/// the triple is absent from the catalog; otherwise produces the request that
/// scopes exactly the three mode fields and targets the primary device's
/// legacy identifier.
pub fn plan_mode_change(
    primary: Option<&DisplayDevice>,
    supported: &Vec<DisplayMode>,
    width: u32,
    height: u32,
    refresh_rate: u32,
    validate: bool,
) -> (r: Result<ModeChangeRequest, DisplayError>)
    ensures
        primary is None ==> (r matches Err(e) && e == DisplayError::NoPrimaryDisplay),
        primary is Some && validate && !supported@.contains(
            DisplayMode { width, height, refresh_rate },
        ) ==> (r matches Err(e) && e == DisplayError::UnsupportedMode),
        primary is Some && (!validate || supported@.contains(
            DisplayMode { width, height, refresh_rate },
        )) ==> (r matches Ok(q) && q.device_name@ == primary->Some_0.device_name@ && q.width
            == width && q.height == height && q.refresh_rate == refresh_rate && q.field_mask == (
        DM_PELSWIDTH | DM_PELSHEIGHT | DM_DISPLAYFREQUENCY) && q.update_registry),
{
    let requested = DisplayMode { width, height, refresh_rate };
    match primary {
        None => Err(DisplayError::NoPrimaryDisplay),
        Some(device) => {
            if validate && !catalog_contains(supported, &requested) {
                Err(DisplayError::UnsupportedMode)
            } else {
                Ok(
                    ModeChangeRequest {
                        device_name: device.device_name.clone(),
                        width,
                        height,
                        refresh_rate,
                        field_mask: DM_PELSWIDTH | DM_PELSHEIGHT | DM_DISPLAYFREQUENCY,
                        update_registry: true,
                    },
                )
            }
        },
    }
}

/// Whether the catalog holds the exact requested triple.
fn catalog_contains(supported: &Vec<DisplayMode>, requested: &DisplayMode) -> (r: bool)
    ensures
        r == supported@.contains(*requested),
{
    let mut i: usize = 0;
    while i < supported.len()
        invariant
            i <= supported@.len(),
            forall|k: int| 0 <= k < i ==> supported@[k] != *requested,
        decreases supported@.len() - i,
    {
        if supported[i] == *requested {
            proof {
                assert(supported@[i as int] == *requested);
            }
            return true;
        }
        i = i + 1;
    }
    false
}

/// Reads the operating system's layered result code as a four-way outcome.
/// Only `Successful` counts as success; every other outcome is a reported
/// failure, and none is retried.
pub fn interpret_change_result(code: i32) -> (r: ModeChangeOutcome)
    ensures
        code == DISP_CHANGE_SUCCESSFUL ==> r == ModeChangeOutcome::Successful,
        code == DISP_CHANGE_BADMODE ==> r == ModeChangeOutcome::BadMode,
        code == DISP_CHANGE_FAILED ==> r == ModeChangeOutcome::Failed,
        code == DISP_CHANGE_RESTART ==> r == ModeChangeOutcome::RestartRequired,
        code != DISP_CHANGE_SUCCESSFUL && code != DISP_CHANGE_BADMODE && code != DISP_CHANGE_FAILED
            && code != DISP_CHANGE_RESTART ==> r == ModeChangeOutcome::Unknown,
        r == ModeChangeOutcome::Successful <==> code == DISP_CHANGE_SUCCESSFUL,
{
    if code == DISP_CHANGE_SUCCESSFUL {
        ModeChangeOutcome::Successful
    } else if code == DISP_CHANGE_BADMODE {
        ModeChangeOutcome::BadMode
    } else if code == DISP_CHANGE_FAILED {
        ModeChangeOutcome::Failed
    } else if code == DISP_CHANGE_RESTART {
        ModeChangeOutcome::RestartRequired
    } else {
        ModeChangeOutcome::Unknown
    }
}

} // verus!
