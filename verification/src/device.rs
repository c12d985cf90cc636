//! Display devices and the reconciliation of the two enumeration mechanisms.
//!
//! The operating system exposes connected outputs through two independent
//! queries: a legacy per-port enumeration (name, description, state flags,
//! current settings) and a modern path list (adapter/source identity).  The
//! application layer performs both queries and hands their results over as
//! plain records; this module merges them into one `DisplayDevice` list.

use vstd::prelude::*;

use crate::error::DisplayError;
use crate::modes::DisplayMode;

verus! {

/// Bit of the legacy state flags that marks the primary display.
pub const DISPLAY_DEVICE_PRIMARY: u32 = 0x4;

/// Query result code that reports success.
pub const ERROR_SUCCESS_CODE: u32 = 0;

/// Query result code that reports an undersized buffer.
pub const ERROR_INSUFFICIENT_BUFFER_CODE: u32 = 122;

/// Locally-unique adapter identifier of the modern configuration interface.
#[derive(Clone, Copy, Debug, PartialEq, Eq, Structural)]
pub struct AdapterId {
    pub low_part: u32,
    pub high_part: i32,
}

/// Source identity of one entry of the modern path list.
#[derive(Clone, Copy, Debug, PartialEq, Eq, Structural)]
pub struct PathSource {
    pub source_id: u32,
    pub adapter_id: AdapterId,
}

/// One entry of the legacy per-port enumeration, as the application layer
/// collected it: `current_mode` is `None` when the port was not attached or
/// its current-settings query failed.
pub struct LegacyDisplay {
    pub device_name: String,
    pub device_string: String,
    pub state_flags: u32,
    pub current_mode: Option<DisplayMode>,
}

/// Mathematical image of a `LegacyDisplay`.
pub struct LegacyDisplayView {
    pub device_name: Seq<char>,
    pub device_string: Seq<char>,
    pub state_flags: u32,
    pub current_mode: Option<DisplayMode>,
}

impl View for LegacyDisplay {
    type V = LegacyDisplayView;

    open spec fn view(&self) -> LegacyDisplayView {
        LegacyDisplayView {
            device_name: self.device_name@,
            device_string: self.device_string@,
            state_flags: self.state_flags,
            current_mode: self.current_mode,
        }
    }
}

impl DeepView for LegacyDisplay {
    type V = LegacyDisplayView;

    open spec fn deep_view(&self) -> LegacyDisplayView {
        self@
    }
}

/// One reconciled physical output.
pub struct DisplayDevice {
    /// Ordinal position in the legacy enumeration; unstable across reboots.
    pub device_index: u32,
    /// Legacy device identifier.
    pub device_name: String,
    /// Human-readable description.
    pub device_string: String,
    /// Legacy state bitmask; never zero in a reconciled record.
    pub state_flags: u32,
    /// Derived from `DISPLAY_DEVICE_PRIMARY` in `state_flags`.
    pub is_primary: bool,
    /// Resolution snapshot at enumeration time.
    pub current_resolution: (u32, u32),
    /// Refresh-rate snapshot at enumeration time.
    pub current_refresh_rate: u32,
    /// Modern adapter identity; zero sentinel when no path entry matched.
    pub adapter_id: AdapterId,
    /// Modern source identity; zero sentinel when no path entry matched.
    pub source_id: u32,
}

/// Mathematical image of a `DisplayDevice`.
pub struct DisplayDeviceView {
    pub device_index: u32,
    pub device_name: Seq<char>,
    pub device_string: Seq<char>,
    pub state_flags: u32,
    pub is_primary: bool,
    pub current_resolution: (u32, u32),
    pub current_refresh_rate: u32,
    pub adapter_id: AdapterId,
    pub source_id: u32,
}

impl View for DisplayDevice {
    type V = DisplayDeviceView;

    open spec fn view(&self) -> DisplayDeviceView {
        DisplayDeviceView {
            device_index: self.device_index,
            device_name: self.device_name@,
            device_string: self.device_string@,
            state_flags: self.state_flags,
            is_primary: self.is_primary,
            current_resolution: self.current_resolution,
            current_refresh_rate: self.current_refresh_rate,
            adapter_id: self.adapter_id,
            source_id: self.source_id,
        }
    }
}

impl DeepView for DisplayDevice {
    type V = DisplayDeviceView;

    open spec fn deep_view(&self) -> DisplayDeviceView {
        self@
    }
}

/// Whether the primary bit of a legacy state bitmask is set.
pub open spec fn primary_flag_set(state_flags: u32) -> bool {
    state_flags & DISPLAY_DEVICE_PRIMARY != 0
}

/// The modern identity assigned to the legacy ordinal `device_index`: the
/// first path entry whose source id equals it, or the zero sentinel.
pub open spec fn spec_lookup_identity(paths: Seq<PathSource>, device_index: u32) -> (AdapterId, u32)
    decreases paths.len(),
{
    if paths.len() == 0 {
        (AdapterId { low_part: 0, high_part: 0 }, 0u32)
    } else if paths[0].source_id == device_index {
        (paths[0].adapter_id, paths[0].source_id)
    } else {
        spec_lookup_identity(paths.skip(1), device_index)
    }
}

/// Whether a legacy entry contributes a reconciled record: something is
/// attached to the port and its current-settings query succeeded.
pub open spec fn spec_included(entry: LegacyDisplayView) -> bool {
    entry.state_flags != 0 && entry.current_mode is Some
}

/// The reconciled record built from the legacy entry at ordinal
/// `device_index`.
pub open spec fn spec_device_of(
    paths: Seq<PathSource>,
    device_index: u32,
    entry: LegacyDisplayView,
) -> DisplayDeviceView {
    let mode = entry.current_mode->Some_0;
    let identity = spec_lookup_identity(paths, device_index);
    DisplayDeviceView {
        device_index: device_index,
        device_name: entry.device_name,
        device_string: entry.device_string,
        state_flags: entry.state_flags,
        is_primary: primary_flag_set(entry.state_flags),
        current_resolution: (mode.width, mode.height),
        current_refresh_rate: mode.refresh_rate,
        adapter_id: identity.0,
        source_id: identity.1,
    }
}

/// The full reconciliation: every included legacy entry, in enumeration
/// order, carrying the modern identity looked up by its ordinal.
pub open spec fn spec_reconcile(
    paths: Seq<PathSource>,
    legacy: Seq<LegacyDisplayView>,
) -> Seq<DisplayDeviceView>
    decreases legacy.len(),
{
    if legacy.len() == 0 {
        Seq::empty()
    } else {
        let prefix = spec_reconcile(paths, legacy.drop_last());
        if spec_included(legacy.last()) {
            prefix.push(spec_device_of(paths, (legacy.len() - 1) as u32, legacy.last()))
        } else {
            prefix
        }
    }
}

/// Looks the legacy ordinal up in the modern path list by matching it against
/// each entry's source id.
///
/// This is a positional-correspondence heuristic, not a guaranteed identity
/// match: the two enumeration interfaces share no common key, so the legacy
/// ordinal is assumed to coincide with the modern source id.  It is isolated
/// here so a future correct reconciliation can replace it without touching
/// callers.  Ordinals with no matching path entry receive the zero sentinel
/// identity.
pub fn lookup_modern_identity(paths: &Vec<PathSource>, device_index: u32) -> (r: (AdapterId, u32))
    ensures
        r == spec_lookup_identity(paths@, device_index),
{
    let mut k: usize = 0;
    proof {
        assert(paths@.skip(0) =~= paths@);
    }
    while k < paths.len()
        invariant
            k <= paths@.len(),
            spec_lookup_identity(paths@, device_index) == spec_lookup_identity(
                paths@.skip(k as int),
                device_index,
            ),
        decreases paths@.len() - k,
    {
        proof {
            assert(paths@.skip(k as int)[0] == paths@[k as int]);
        }
        if paths[k].source_id == device_index {
            return (paths[k].adapter_id, paths[k].source_id);
        }
        proof {
            assert(paths@.skip(k as int).skip(1) =~= paths@.skip(k as int + 1));
        }
        k = k + 1;
    }
    (AdapterId { low_part: 0, high_part: 0 }, 0)
}

/// Merges the modern path list and the legacy enumeration into the final
/// device list: ports with zero state flags are dropped, entries whose
/// settings query failed are skipped, the primary mark is derived from the
/// state flags, and each record carries the modern identity looked up by its
/// ordinal.
pub fn enumerate_displays(paths: &Vec<PathSource>, legacy: &Vec<LegacyDisplay>) -> (r: Vec<
    DisplayDevice,
>)
    requires
        legacy@.len() <= u32::MAX,
    ensures
        r.deep_view() == spec_reconcile(paths@, legacy.deep_view()),
{
    let mut result: Vec<DisplayDevice> = Vec::new();
    let mut i: usize = 0;
    while i < legacy.len()
        invariant
            i <= legacy@.len(),
            legacy@.len() <= u32::MAX,
            result.deep_view() == spec_reconcile(paths@, legacy.deep_view().take(i as int)),
        decreases legacy@.len() - i,
    {
        let entry = &legacy[i];
        let ghost prefix = legacy.deep_view().take(i as int);
        let ghost upto = legacy.deep_view().take(i as int + 1);
        proof {
            assert(upto.drop_last() =~= prefix);
            assert(upto.last() == legacy.deep_view()[i as int]);
        }
        if entry.state_flags != 0 {
            match &entry.current_mode {
                Some(mode) => {
                    let identity = lookup_modern_identity(paths, i as u32);
                    let device = DisplayDevice {
                        device_index: i as u32,
                        device_name: entry.device_name.clone(),
                        device_string: entry.device_string.clone(),
                        state_flags: entry.state_flags,
                        is_primary: entry.state_flags & DISPLAY_DEVICE_PRIMARY != 0,
                        current_resolution: (mode.width, mode.height),
                        current_refresh_rate: mode.refresh_rate,
                        adapter_id: identity.0,
                        source_id: identity.1,
                    };
                    let ghost previous = result.deep_view();
                    result.push(device);
                    proof {
                        assert(result.deep_view() =~= previous.push(device@));
                        assert(device@ == spec_device_of(paths@, i as u32, upto.last()));
                    }
                },
                None => {
                },
            }
        }
        i = i + 1;
    }
    proof {
        assert(legacy.deep_view().take(legacy@.len() as int) =~= legacy.deep_view());
    }
    result
}

/// No two distinct records of the sequence are both marked primary.
pub open spec fn at_most_one_primary(devices: Seq<DisplayDeviceView>) -> bool {
    forall|i: int, j: int|
        0 <= i < devices.len() && 0 <= j < devices.len() && devices[i].is_primary
            && devices[j].is_primary ==> i == j
}

/// No two distinct legacy entries both carry the primary bit.
pub open spec fn at_most_one_primary_port(legacy: Seq<LegacyDisplayView>) -> bool {
    forall|i: int, j: int|
        0 <= i < legacy.len() && 0 <= j < legacy.len() && primary_flag_set(legacy[i].state_flags)
            && primary_flag_set(legacy[j].state_flags) ==> i == j
}

/// When no legacy entry carries the primary bit, no reconciled record is
/// marked primary.
pub proof fn lemma_no_primary_port_no_primary_device(
    paths: Seq<PathSource>,
    legacy: Seq<LegacyDisplayView>,
)
    requires
        forall|k: int| 0 <= k < legacy.len() ==> !primary_flag_set(legacy[k].state_flags),
    ensures
        forall|i: int|
            0 <= i < spec_reconcile(paths, legacy).len() ==> !spec_reconcile(
                paths,
                legacy,
            )[i].is_primary,
    decreases legacy.len(),
{
    if legacy.len() > 0 {
        let rest = legacy.drop_last();
        assert(forall|k: int| 0 <= k < rest.len() ==> !primary_flag_set(rest[k].state_flags));
        lemma_no_primary_port_no_primary_device(paths, rest);
        assert(legacy.last() == legacy[legacy.len() - 1]);
        let prefix = spec_reconcile(paths, rest);
        let merged = spec_reconcile(paths, legacy);
        assert forall|i: int| 0 <= i < merged.len() implies !merged[i].is_primary by {
            if i < prefix.len() {
                assert(merged[i] == prefix[i]);
            }
        }
    }
}

/// Law of the enumeration: as long as the operating system marks at most one
/// attached port as primary, the reconciled device list contains at most one
/// record with `is_primary` set.
pub proof fn lemma_at_most_one_primary(paths: Seq<PathSource>, legacy: Seq<LegacyDisplayView>)
    requires
        at_most_one_primary_port(legacy),
    ensures
        at_most_one_primary(spec_reconcile(paths, legacy)),
    decreases legacy.len(),
{
    if legacy.len() > 0 {
        let rest = legacy.drop_last();
        let last = legacy.last();
        assert(forall|k: int| 0 <= k < rest.len() ==> rest[k] == legacy[k]);
        assert(at_most_one_primary_port(rest));
        lemma_at_most_one_primary(paths, rest);
        let prefix = spec_reconcile(paths, rest);
        if spec_included(last) {
            let device = spec_device_of(paths, (legacy.len() - 1) as u32, last);
            let merged = prefix.push(device);
            assert(last == legacy[legacy.len() - 1]);
            if device.is_primary {
                assert forall|k: int| 0 <= k < rest.len() implies !primary_flag_set(
                    rest[k].state_flags,
                ) by {
                    if primary_flag_set(rest[k].state_flags) {
                        assert(primary_flag_set(legacy[k].state_flags));
                        assert(primary_flag_set(legacy[legacy.len() - 1].state_flags));
                        assert(k == legacy.len() - 1);
                    }
                }
                lemma_no_primary_port_no_primary_device(paths, rest);
                assert forall|i: int, j: int|
                    0 <= i < merged.len() && 0 <= j < merged.len() && merged[i].is_primary
                        && merged[j].is_primary implies i == j by {
                    if i < prefix.len() {
                        assert(merged[i] == prefix[i]);
                    }
                    if j < prefix.len() {
                        assert(merged[j] == prefix[j]);
                    }
                }
            } else {
                assert forall|i: int, j: int|
                    0 <= i < merged.len() && 0 <= j < merged.len() && merged[i].is_primary
                        && merged[j].is_primary implies i == j by {
                    if i < prefix.len() {
                        assert(merged[i] == prefix[i]);
                    }
                    if j < prefix.len() {
                        assert(merged[j] == prefix[j]);
                    }
                }
            }
        }
    }
}

/// Law of the enumeration: when nothing is attached — every legacy entry has
/// zero state flags, in particular when there are no entries at all — the
/// reconciled list is empty.
pub proof fn lemma_no_attached_no_devices(paths: Seq<PathSource>, legacy: Seq<LegacyDisplayView>)
    requires
        forall|k: int| 0 <= k < legacy.len() ==> legacy[k].state_flags == 0,
    ensures
        spec_reconcile(paths, legacy) == Seq::<DisplayDeviceView>::empty(),
    decreases legacy.len(),
{
    if legacy.len() > 0 {
        assert(forall|k: int|
            0 <= k < legacy.drop_last().len() ==> legacy.drop_last()[k].state_flags == 0);
        lemma_no_attached_no_devices(paths, legacy.drop_last());
        assert(legacy.last() == legacy[legacy.len() - 1]);
    }
}

/// Law of the enumeration: a legacy entry with zero state flags — a port with
/// nothing attached — contributes no record, so every reconciled record has
/// nonzero state flags.
pub proof fn lemma_zero_flags_excluded(paths: Seq<PathSource>, legacy: Seq<LegacyDisplayView>)
    ensures
        forall|i: int|
            0 <= i < spec_reconcile(paths, legacy).len() ==> #[trigger] spec_reconcile(
                paths,
                legacy,
            )[i].state_flags != 0,
    decreases legacy.len(),
{
    if legacy.len() > 0 {
        let rest = legacy.drop_last();
        lemma_zero_flags_excluded(paths, rest);
        let prefix = spec_reconcile(paths, rest);
        let merged = spec_reconcile(paths, legacy);
        assert forall|i: int| 0 <= i < merged.len() implies merged[i].state_flags != 0 by {
            if i < prefix.len() {
                assert(merged[i] == prefix[i]);
                assert(prefix[i].state_flags != 0);
            }
        }
    }
}

/// Selects the device the caller should treat as the primary display: the
/// first record marked primary, or nothing when no attached device is.
pub fn find_primary_display(displays: &Vec<DisplayDevice>) -> (r: Option<usize>)
    ensures
        match r {
            Some(i) => i < displays@.len() && displays@[i as int].is_primary && (forall|j: int|
                0 <= j < i ==> !displays@[j].is_primary),
            None => forall|j: int| 0 <= j < displays@.len() ==> !displays@[j].is_primary,
        },
{
    let mut i: usize = 0;
    while i < displays.len()
        invariant
            i <= displays@.len(),
            forall|j: int| 0 <= j < i ==> !displays@[j].is_primary,
        decreases displays@.len() - i,
    {
        if displays[i].is_primary {
            return Some(i);
        }
        i = i + 1;
    }
    None
}

/// What the configuration-query loop should do after a buffer-size or fetch
/// call came back with `result_code`.
#[derive(Clone, Copy, Debug, PartialEq, Eq, Structural)]
pub enum QueryConfigStep {
    /// The query succeeded; use the buffers as returned.
    Proceed,
    /// The topology grew between sizing and fetching; resize and retry once.
    RetryOnce,
    /// The query failed, or already failed once after a retry.
    Fail,
}

/// The bounded-retry rule of the configuration query: success proceeds, an
/// undersized buffer is retried exactly once, everything else fails.
pub fn next_query_step(result_code: u32, already_retried: bool) -> (r: QueryConfigStep)
    ensures
        result_code == ERROR_SUCCESS_CODE ==> r == QueryConfigStep::Proceed,
        result_code == ERROR_INSUFFICIENT_BUFFER_CODE && !already_retried ==> r
            == QueryConfigStep::RetryOnce,
        result_code != ERROR_SUCCESS_CODE && (result_code != ERROR_INSUFFICIENT_BUFFER_CODE
            || already_retried) ==> r == QueryConfigStep::Fail,
{
    if result_code == ERROR_SUCCESS_CODE {
        QueryConfigStep::Proceed
    } else if result_code == ERROR_INSUFFICIENT_BUFFER_CODE && !already_retried {
        QueryConfigStep::RetryOnce
    } else {
        QueryConfigStep::Fail
    }
}

/// Diagnostic hook of the CLI's test suite; the configuration dump itself is
/// presentation-layer work, so this reports success and nothing else.
pub fn test_query_display_config() -> (r: Result<(), DisplayError>)
    ensures
        r is Ok,
{
    Ok(())
}

} // verus!
