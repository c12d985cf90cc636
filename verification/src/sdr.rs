//! Encoding the SDR white-level request of the primary display.
//!
//! The operating system has no supported entry point for this setting: the
//! request record's layout and its type tag were reverse-engineered and must
//! be treated as fragile across OS versions.  The application layer
//! re-enumerates the modern path list, asks `select_sdr_target` which path to
//! address, builds the record with `build_sdr_request`, issues the generic
//! device-info-set call, and maps the result code through
//! `interpret_set_info_result`.

use vstd::prelude::*;

use crate::device::AdapterId;
use crate::device::primary_flag_set;
use crate::error::DisplayError;

verus! {

/// Undocumented device-info request type tag that sets the SDR white level.
pub const SDR_WHITE_LEVEL_SET_TYPE: i32 = -18;

/// Exact byte size of the fixed-layout request record: a 20-byte device-info
/// header (type tag, size, adapter identity, output id), the 4-byte level,
/// one commit flag byte, and 3 bytes of trailing alignment padding.
pub const SDR_REQUEST_SIZE_BYTES: u32 = 28;

/// Largest slider value the caller may pass.
pub const SDR_LEVEL_MAX: u32 = 100;

/// Internal unit value that slider position 0 maps to.
pub const SDR_API_BASE: u32 = 1000;

/// Internal units per slider point.
pub const SDR_API_STEP: u32 = 50;

/// Target identity of one modern path entry: the adapter and output id of its
/// target side, which the white-level request addresses.
#[derive(Clone, Copy, Debug, PartialEq, Eq, Structural)]
pub struct SdrTarget {
    pub adapter_id: AdapterId,
    pub output_id: u32,
}

/// The fixed-layout configuration request, field for field as the byte layout
/// demands it; the application layer copies it into the native record.
pub struct SdrWhiteLevelRequest {
    /// Always `SDR_WHITE_LEVEL_SET_TYPE`.
    pub info_type: i32,
    /// Always `SDR_REQUEST_SIZE_BYTES`.
    pub size: u32,
    pub adapter_id: AdapterId,
    pub output_id: u32,
    /// The encoded level, in the internal 1000–6000 unit range.
    pub sdr_white_level: u32,
    /// "This is the final, committed value."
    pub final_value: bool,
}

/// Maps the caller's 0–100 slider value linearly onto the internal unit
/// range: 0 maps to 1000, each further point adds 50, so 100 maps to 6000.
/// A value over 100 is rejected before any operating-system interaction.
pub fn sdr_api_value(level: u32) -> (r: Result<u32, DisplayError>)
    ensures
        level <= SDR_LEVEL_MAX ==> r == Ok::<u32, DisplayError>(
            (SDR_API_BASE + level * SDR_API_STEP) as u32,
        ),
        level > SDR_LEVEL_MAX ==> r == Err::<u32, DisplayError>(DisplayError::InvalidInput),
{
    if level > SDR_LEVEL_MAX {
        Err(DisplayError::InvalidInput)
    } else {
        Ok(SDR_API_BASE + level * SDR_API_STEP)
    }
}

/// Picks the path the white-level request addresses, cross-checking the two
/// identity systems at the moment of mutation: a path qualifies as primary
/// when the legacy per-port scan shows a primary bit anywhere, so the first
/// path is chosen exactly when the path list is nonempty and some legacy
/// state bitmask carries the primary bit.
pub fn select_sdr_target(paths: &Vec<SdrTarget>, legacy_state_flags: &Vec<u32>) -> (r: Option<
    SdrTarget,
>)
    ensures
        r is Some <==> paths@.len() > 0 && (exists|k: int|
            0 <= k < legacy_state_flags@.len() && primary_flag_set(legacy_state_flags@[k])),
        r is Some ==> r->Some_0 == paths@[0],
{
    if has_primary_device(legacy_state_flags) && paths.len() > 0 {
        Some(paths[0])
    } else {
        None
    }
}

/// Whether any legacy state bitmask of the scan carries the primary bit.
pub fn has_primary_device(legacy_state_flags: &Vec<u32>) -> (r: bool)
    ensures
        r == exists|k: int|
            0 <= k < legacy_state_flags@.len() && primary_flag_set(legacy_state_flags@[k]),
{
    let mut i: usize = 0;
    while i < legacy_state_flags.len()
        invariant
            i <= legacy_state_flags@.len(),
            forall|k: int| 0 <= k < i ==> !primary_flag_set(legacy_state_flags@[k]),
        decreases legacy_state_flags@.len() - i,
    {
        if legacy_state_flags[i] & crate::device::DISPLAY_DEVICE_PRIMARY != 0 {
            proof {
                assert(primary_flag_set(legacy_state_flags@[i as int]));
            }
            return true;
        }
        i = i + 1;
    }
    false
}

/// Builds the fixed-layout request record for the given target and encoded
/// level: the undocumented type tag, the exact record size, the target
/// identity, the level, and the commit flag set.
pub fn build_sdr_request(target: &SdrTarget, api_value: u32) -> (r: SdrWhiteLevelRequest)
    ensures
        r.info_type == SDR_WHITE_LEVEL_SET_TYPE,
        r.size == SDR_REQUEST_SIZE_BYTES,
        r.adapter_id == target.adapter_id,
        r.output_id == target.output_id,
        r.sdr_white_level == api_value,
        r.final_value,
{
    SdrWhiteLevelRequest {
        info_type: SDR_WHITE_LEVEL_SET_TYPE,
        size: SDR_REQUEST_SIZE_BYTES,
        adapter_id: target.adapter_id,
        output_id: target.output_id,
        sdr_white_level: api_value,
        final_value: true,
    }
}

/// Reads the result code of the device-info-set call: zero is success,
/// anything else is reported as a mutation failure carrying the raw code.
/// No retry is attempted.
pub fn interpret_set_info_result(code: i32) -> (r: Result<(), DisplayError>)
    ensures
        code == 0 ==> r is Ok,
        code != 0 ==> r == Err::<(), DisplayError>(DisplayError::OsMutationFailed(code)),
{
    if code == 0 {
        Ok(())
    } else {
        Err(DisplayError::OsMutationFailed(code))
    }
}

} // verus!
