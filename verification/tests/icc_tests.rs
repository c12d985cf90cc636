use sunshine_helper::device::AdapterId;
use sunshine_helper::device::DisplayDevice;
use sunshine_helper::error::DisplayError;
use sunshine_helper::icc::IccProfile;
use sunshine_helper::icc::collect_profile;
use sunshine_helper::icc::find_profile;
use sunshine_helper::icc::list_icc_profiles;
use sunshine_helper::icc::profile_name_from_path;
use sunshine_helper::icc::set_display_icc_profile;

fn profile(name: &str, path: &str) -> IccProfile {
    IccProfile {
        name: String::from(name),
        path: String::from(path),
    }
}

fn display() -> DisplayDevice {
    DisplayDevice {
        device_index: 0,
        device_name: String::from("\\\\.\\DISPLAY1"),
        device_string: String::from("monitor"),
        state_flags: 0x5,
        is_primary: true,
        current_resolution: (1920, 1080),
        current_refresh_rate: 60,
        adapter_id: AdapterId { low_part: 55, high_part: 1 },
        source_id: 3,
    }
}

#[test]
fn name_is_file_part_of_path() {
    assert_eq!(
        profile_name_from_path("C:\\Windows\\system32\\spool\\drivers\\color\\HDR LG OLED.icc"),
        "HDR LG OLED.icc"
    );
    assert_eq!(profile_name_from_path("/usr/share/color/sRGB.icc"), "sRGB.icc");
    assert_eq!(profile_name_from_path("plain.icc"), "plain.icc");
}

#[test]
fn name_falls_back_when_path_has_no_file_part() {
    assert_eq!(profile_name_from_path(""), "unknown");
    assert_eq!(profile_name_from_path("C:\\color\\"), "unknown");
    assert_eq!(profile_name_from_path("/"), "unknown");
}

#[test]
fn callback_collects_profile_and_continues() {
    let mut profiles: Vec<IccProfile> = Vec::new();
    let cont = collect_profile(&mut profiles, "C:\\color\\HDR Steam Deck.icc");
    assert_eq!(cont, 1);
    assert_eq!(profiles.len(), 1);
    assert_eq!(profiles[0].name, "HDR Steam Deck.icc");
    assert_eq!(profiles[0].path, "C:\\color\\HDR Steam Deck.icc");
    let cont = collect_profile(&mut profiles, "C:\\color\\other.icc");
    assert_eq!(cont, 1);
    assert_eq!(profiles.len(), 2);
    assert_eq!(profiles[1].name, "other.icc");
}

#[test]
fn find_profile_exact_match_only() {
    let profiles = vec![
        profile("a.icc", "C:\\color\\a.icc"),
        profile("b.icc", "C:\\color\\b.icc"),
    ];
    assert_eq!(find_profile(&profiles, &String::from("b.icc")), Some(1));
    assert_eq!(find_profile(&profiles, &String::from("b")), None);
    assert_eq!(find_profile(&profiles, &String::from("B.icc")), None);
}

#[test]
fn find_profile_picks_first_match() {
    let profiles = vec![
        profile("same.icc", "C:\\color\\one\\same.icc"),
        profile("same.icc", "C:\\color\\two\\same.icc"),
    ];
    assert_eq!(find_profile(&profiles, &String::from("same.icc")), Some(0));
}

#[test]
fn set_profile_absent_name_reports_not_found() {
    let d = display();
    let profiles = vec![profile("a.icc", "C:\\color\\a.icc")];
    let r = set_display_icc_profile(&d, &profiles, &String::from("missing.icc"));
    assert_eq!(r.err(), Some(DisplayError::ProfileNotFound));
}

#[test]
fn set_profile_match_builds_association_request() {
    let d = display();
    let profiles = vec![
        profile("a.icc", "C:\\color\\a.icc"),
        profile("HDR LG OLED.icc", "C:\\color\\HDR LG OLED.icc"),
    ];
    let q = set_display_icc_profile(&d, &profiles, &String::from("HDR LG OLED.icc")).unwrap();
    assert_eq!(q.profile_path, "C:\\color\\HDR LG OLED.icc");
    assert_eq!(q.adapter_id, AdapterId { low_part: 55, high_part: 1 });
    assert_eq!(q.source_id, 3);
}

#[test]
fn listing_without_primary_is_empty() {
    let r = list_icc_profiles(None);
    assert!(r.is_empty());
}

#[test]
fn listing_maps_profiles_to_pairs() {
    let profiles = vec![
        profile("a.icc", "C:\\color\\a.icc"),
        profile("b.icc", "C:\\color\\b.icc"),
    ];
    let r = list_icc_profiles(Some(&profiles));
    assert_eq!(
        r,
        vec![
            (String::from("a.icc"), String::from("C:\\color\\a.icc")),
            (String::from("b.icc"), String::from("C:\\color\\b.icc")),
        ]
    );
}
