//! ICC color-profile listing and association for a display.
//!
//! The application layer opens the device rendering context and drives the
//! operating system's per-profile callback; each callback invocation lands in
//! `collect_profile`, which derives the profile's display name from its file
//! path.  Setting an association goes through `set_display_icc_profile`,
//! which vets the requested name against the collected list and produces the
//! association request the application layer hands to the OS.

use vstd::prelude::*;
use vstd::string::StrSliceExecFns;

use crate::device::DisplayDevice;
use crate::device::AdapterId;
use crate::error::DisplayError;

verus! {

/// One installed ICC profile: the OS-local file name that identifies it, and
/// the full resolved path.
pub struct IccProfile {
    pub name: String,
    pub path: String,
}

/// Mathematical image of an `IccProfile`.
pub struct IccProfileView {
    pub name: Seq<char>,
    pub path: Seq<char>,
}

impl View for IccProfile {
    type V = IccProfileView;

    open spec fn view(&self) -> IccProfileView {
        IccProfileView { name: self.name@, path: self.path@ }
    }
}

impl DeepView for IccProfile {
    type V = IccProfileView;

    open spec fn deep_view(&self) -> IccProfileView {
        self@
    }
}

/// Whether a character separates path components.
pub open spec fn is_path_separator(c: char) -> bool {
    c == '\\' || c == '/'
}

/// The suffix of the path after its last separator; the whole path when it
/// holds no separator.
pub open spec fn file_part(s: Seq<char>) -> Seq<char>
    decreases s.len(),
{
    if s.len() == 0 {
        Seq::empty()
    } else if is_path_separator(s.last()) {
        Seq::empty()
    } else {
        file_part(s.drop_last()).push(s.last())
    }
}

/// The display name derived from a profile path: the file part, or the
/// fallback name when the path yields none.
pub open spec fn spec_profile_name(s: Seq<char>) -> Seq<char> {
    if file_part(s).len() == 0 {
        "unknown"@
    } else {
        file_part(s)
    }
}

/// Whether some profile of the list bears exactly this name.
pub open spec fn has_profile_named(profiles: Seq<IccProfileView>, name: Seq<char>) -> bool {
    exists|j: int| #![auto] 0 <= j < profiles.len() && profiles[j].name == name
}

/// The file part of a path is the suffix that follows its last separator.
proof fn lemma_file_part_subrange(s: Seq<char>, k: int)
    requires
        0 <= k <= s.len(),
        forall|j: int| k <= j < s.len() ==> !is_path_separator(s[j]),
        k > 0 ==> is_path_separator(s[k - 1]),
    ensures
        file_part(s) == s.subrange(k, s.len() as int),
    decreases s.len(),
{
    if s.len() == k {
        if k == 0 {
            assert(file_part(s) =~= s.subrange(0, 0));
        } else {
            assert(s.last() == s[k - 1]);
            assert(file_part(s) =~= s.subrange(k, k));
        }
    } else {
        assert(!is_path_separator(s[s.len() - 1]));
        let d = s.drop_last();
        assert forall|j: int| k <= j < d.len() implies !is_path_separator(d[j]) by {
            assert(d[j] == s[j]);
        }
        if k > 0 {
            assert(d[k - 1] == s[k - 1]);
        }
        lemma_file_part_subrange(d, k);
        assert(file_part(d).push(s.last()) =~= s.subrange(k, s.len() as int));
    }
}

/// The first character position after the last path separator; zero when the
/// path holds none.
fn name_start(path: &str) -> (start: usize)
    ensures
        start <= path@.len(),
        forall|j: int| start <= j < path@.len() ==> !is_path_separator(path@[j]),
        start > 0 ==> is_path_separator(path@[start - 1]),
{
    let n = path.unicode_len();
    let mut i: usize = n;
    while i > 0
        invariant
            i <= n,
            n == path@.len(),
            forall|j: int| i <= j < path@.len() ==> !is_path_separator(path@[j]),
        decreases i,
    {
        let c = path.get_char(i - 1);
        if c == '\\' || c == '/' {
            return i;
        }
        i = i - 1;
    }
    0
}

/// Derives a profile's display name from its full path: the file name after
/// the last separator, or the fallback name when the path ends in a separator
/// or is empty.
pub fn profile_name_from_path(path: &str) -> (r: String)
    ensures
        r@ == spec_profile_name(path@),
{
    let n = path.unicode_len();
    let start = name_start(path);
    proof {
        lemma_file_part_subrange(path@, start as int);
    }
    if start == n {
        proof {
            assert(file_part(path@) =~= Seq::<char>::empty());
        }
        "unknown".to_owned()
    } else {
        let sub = path.substring_char(start, n);
        sub.to_owned()
    }
}

/// One invocation of the enumeration callback: appends the profile whose
/// full path the operating system reported, under its derived display name,
/// and signals the OS to continue enumerating.
pub fn collect_profile(profiles: &mut Vec<IccProfile>, profile_path: &str) -> (cont: i32)
    ensures
        final(profiles).deep_view() == old(profiles).deep_view().push(
            IccProfileView { name: spec_profile_name(profile_path@), path: profile_path@ },
        ),
        cont == 1,
{
    let name = profile_name_from_path(profile_path);
    let path = profile_path.to_owned();
    profiles.push(IccProfile { name, path });
    proof {
        assert(profiles.deep_view() =~= old(profiles).deep_view().push(
            IccProfileView { name: spec_profile_name(profile_path@), path: profile_path@ },
        ));
    }
    1
}

/// The first profile bearing exactly the requested name, if any.
pub fn find_profile(profiles: &Vec<IccProfile>, name: &String) -> (r: Option<usize>)
    ensures
        match r {
            Some(i) => i < profiles@.len() && profiles.deep_view()[i as int].name == name@ && (
            forall|j: int| 0 <= j < i ==> profiles.deep_view()[j].name != name@),
            None => !has_profile_named(profiles.deep_view(), name@),
        },
{
    let mut i: usize = 0;
    while i < profiles.len()
        invariant
            i <= profiles@.len(),
            forall|j: int| 0 <= j < i ==> profiles.deep_view()[j].name != name@,
        decreases profiles@.len() - i,
    {
        if profiles[i].name == *name {
            return Some(i);
        }
        i = i + 1;
    }
    None
}

/// A vetted default-association request: the application layer issues it
/// scoped to the current user and restricted to the RGB working-space
/// color-profile category.
pub struct IccAssociationRequest {
    /// Full path of the matched profile.
    pub profile_path: String,
    /// Modern adapter identity of the target display.
    pub adapter_id: AdapterId,
    /// Modern source identity of the target display.
    pub source_id: u32,
}

/// Vets a requested profile name against the profiles collected for the
/// display: an exact name match yields the association request carrying that
/// profile's full path and the display's modern identity; absence is
/// reported as `ProfileNotFound`, and no association call is issued.
pub fn set_display_icc_profile(
    display: &DisplayDevice,
    profiles: &Vec<IccProfile>,
    profile_name: &String,
) -> (r: Result<IccAssociationRequest, DisplayError>)
    ensures
        r is Ok <==> has_profile_named(profiles.deep_view(), profile_name@),
        match r {
            Ok(q) => exists|i: int|
                #![auto]
                0 <= i < profiles@.len() && profiles.deep_view()[i].name == profile_name@ && (
                forall|j: int| 0 <= j < i ==> profiles.deep_view()[j].name != profile_name@)
                    && q.profile_path@ == profiles.deep_view()[i].path && q.adapter_id
                    == display.adapter_id && q.source_id == display.source_id,
            Err(e) => e == DisplayError::ProfileNotFound && !has_profile_named(
                profiles.deep_view(),
                profile_name@,
            ),
        },
{
    match find_profile(profiles, profile_name) {
        Some(i) => {
            let q = IccAssociationRequest {
                profile_path: profiles[i].path.clone(),
                adapter_id: display.adapter_id,
                source_id: display.source_id,
            };
            proof {
                assert(has_profile_named(profiles.deep_view(), profile_name@));
            }
            Ok(q)
        },
        None => Err(DisplayError::ProfileNotFound),
    }
}

/// The per-display profile listing handed to the CLI: each collected profile
/// as a `(name, path)` pair, or nothing at all when no primary display was
/// resolved.
pub fn list_icc_profiles(profiles: Option<&Vec<IccProfile>>) -> (r: Vec<(String, String)>)
    ensures
        match profiles {
            None => r@.len() == 0,
            Some(ps) => r@.len() == ps@.len() && forall|i: int|
                0 <= i < ps@.len() ==> (#[trigger] r@[i]).0@ == ps.deep_view()[i].name && r@[i].1@
                    == ps.deep_view()[i].path,
        },
{
    match profiles {
        None => Vec::new(),
        Some(ps) => {
            let mut result: Vec<(String, String)> = Vec::new();
            let mut i: usize = 0;
            while i < ps.len()
                invariant
                    i <= ps@.len(),
                    result@.len() == i,
                    forall|k: int|
                        0 <= k < i ==> (#[trigger] result@[k]).0@ == ps.deep_view()[k].name
                            && result@[k].1@ == ps.deep_view()[k].path,
                decreases ps@.len() - i,
            {
                result.push((ps[i].name.clone(), ps[i].path.clone()));
                i = i + 1;
            }
            result
        },
    }
}

} // verus!
