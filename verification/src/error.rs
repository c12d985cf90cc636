//! Error taxonomy shared by every component.

use vstd::prelude::*;

verus! {

/// Outcome detail for a failed operation.
///
/// `OsQueryFailed` carries the raw code of a failed configuration query;
/// `OsMutationFailed` carries the raw code of a failed mutation call, so the
/// caller can log it for diagnostics.
#[derive(Clone, Copy, Debug, PartialEq, Eq, Structural)]
pub enum DisplayError {
    /// No attached device is marked as the primary display.
    NoPrimaryDisplay,
    /// The requested mode is not in the display's supported-mode catalog.
    UnsupportedMode,
    /// A configuration query call failed; carries the raw result code.
    OsQueryFailed(u32),
    /// A mutation call failed; carries the raw result code.
    OsMutationFailed(i32),
    /// The requested ICC profile name is not installed for the display.
    ProfileNotFound,
    /// The caller's input is outside the accepted range.
    InvalidInput,
}

} // verus!
