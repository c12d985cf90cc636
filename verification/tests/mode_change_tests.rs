use sunshine_helper::device::AdapterId;
use sunshine_helper::device::DisplayDevice;
use sunshine_helper::error::DisplayError;
use sunshine_helper::mode_change::DISP_CHANGE_BADMODE;
use sunshine_helper::mode_change::DISP_CHANGE_FAILED;
use sunshine_helper::mode_change::DISP_CHANGE_RESTART;
use sunshine_helper::mode_change::DISP_CHANGE_SUCCESSFUL;
use sunshine_helper::mode_change::DM_DISPLAYFREQUENCY;
use sunshine_helper::mode_change::DM_PELSHEIGHT;
use sunshine_helper::mode_change::DM_PELSWIDTH;
use sunshine_helper::mode_change::ModeChangeOutcome;
use sunshine_helper::mode_change::interpret_change_result;
use sunshine_helper::mode_change::plan_mode_change;
use sunshine_helper::modes::DisplayMode;

fn primary_device() -> DisplayDevice {
    DisplayDevice {
        device_index: 0,
        device_name: String::from("\\\\.\\DISPLAY1"),
        device_string: String::from("monitor"),
        state_flags: 0x5,
        is_primary: true,
        current_resolution: (1920, 1080),
        current_refresh_rate: 60,
        adapter_id: AdapterId { low_part: 0, high_part: 0 },
        source_id: 0,
    }
}

fn catalog() -> Vec<DisplayMode> {
    vec![
        DisplayMode { width: 1920, height: 1080, refresh_rate: 120 },
        DisplayMode { width: 1920, height: 1080, refresh_rate: 60 },
        DisplayMode { width: 1280, height: 720, refresh_rate: 60 },
    ]
}

#[test]
fn plan_fails_without_primary() {
    let supported = catalog();
    let r = plan_mode_change(None, &supported, 1920, 1080, 60, true);
    assert_eq!(r.err(), Some(DisplayError::NoPrimaryDisplay));
}

#[test]
fn plan_validated_rejects_unsupported_mode() {
    let device = primary_device();
    let supported = catalog();
    let r = plan_mode_change(Some(&device), &supported, 2560, 1440, 60, true);
    assert_eq!(r.err(), Some(DisplayError::UnsupportedMode));
}

#[test]
fn plan_validated_accepts_supported_mode() {
    let device = primary_device();
    let supported = catalog();
    let q = plan_mode_change(Some(&device), &supported, 1920, 1080, 120, true).unwrap();
    assert_eq!(q.device_name, "\\\\.\\DISPLAY1");
    assert_eq!(q.width, 1920);
    assert_eq!(q.height, 1080);
    assert_eq!(q.refresh_rate, 120);
    assert_eq!(q.field_mask, DM_PELSWIDTH | DM_PELSHEIGHT | DM_DISPLAYFREQUENCY);
    assert_eq!(q.field_mask, 0x580000);
    assert!(q.update_registry);
}

#[test]
fn plan_bypass_issues_request_regardless_of_catalog() {
    let device = primary_device();
    let supported = catalog();
    let q = plan_mode_change(Some(&device), &supported, 2560, 1440, 60, false).unwrap();
    assert_eq!(q.width, 2560);
    assert_eq!(q.height, 1440);
    assert_eq!(q.refresh_rate, 60);
    assert_eq!(q.device_name, "\\\\.\\DISPLAY1");
}

#[test]
fn plan_bypass_still_fails_without_primary() {
    let supported = catalog();
    let r = plan_mode_change(None, &supported, 1920, 1080, 60, false);
    assert_eq!(r.err(), Some(DisplayError::NoPrimaryDisplay));
}

#[test]
fn interpret_four_way_outcomes() {
    assert_eq!(interpret_change_result(DISP_CHANGE_SUCCESSFUL), ModeChangeOutcome::Successful);
    assert_eq!(interpret_change_result(DISP_CHANGE_BADMODE), ModeChangeOutcome::BadMode);
    assert_eq!(interpret_change_result(DISP_CHANGE_FAILED), ModeChangeOutcome::Failed);
    assert_eq!(interpret_change_result(DISP_CHANGE_RESTART), ModeChangeOutcome::RestartRequired);
    assert_eq!(interpret_change_result(-5), ModeChangeOutcome::Unknown);
    assert_eq!(interpret_change_result(42), ModeChangeOutcome::Unknown);
}
