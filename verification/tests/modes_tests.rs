use sunshine_helper::device::AdapterId;
use sunshine_helper::device::DisplayDevice;
use sunshine_helper::modes::DisplayMode;

fn mode(width: u32, height: u32, refresh_rate: u32) -> DisplayMode {
    DisplayMode { width, height, refresh_rate }
}

fn some_device() -> DisplayDevice {
    DisplayDevice {
        device_index: 0,
        device_name: String::from("\\\\.\\DISPLAY1"),
        device_string: String::from("monitor"),
        state_flags: 0x5,
        is_primary: true,
        current_resolution: (1920, 1080),
        current_refresh_rate: 60,
        adapter_id: AdapterId { low_part: 0, high_part: 0 },
        source_id: 0,
    }
}

#[test]
fn catalog_collapses_duplicates_and_sorts() {
    let raw = vec![
        mode(1280, 720, 60),
        mode(1920, 1080, 60),
        mode(1280, 720, 60),
        mode(1920, 1080, 120),
        mode(1920, 1080, 60),
    ];
    let catalog = some_device().get_supported_modes(&raw);
    assert_eq!(
        catalog,
        vec![mode(1920, 1080, 120), mode(1920, 1080, 60), mode(1280, 720, 60)]
    );
}

#[test]
fn catalog_empty_when_driver_reports_none() {
    let raw: Vec<DisplayMode> = Vec::new();
    let catalog = some_device().get_supported_modes(&raw);
    assert!(catalog.is_empty());
}

#[test]
fn catalog_tie_break_width_then_height_then_refresh() {
    let raw = vec![
        mode(800, 600, 60),
        mode(800, 800, 60),
        mode(800, 600, 75),
        mode(1024, 100, 1),
    ];
    let catalog = some_device().get_supported_modes(&raw);
    assert_eq!(
        catalog,
        vec![
            mode(1024, 100, 1),
            mode(800, 800, 60),
            mode(800, 600, 75),
            mode(800, 600, 60),
        ]
    );
}

#[test]
fn catalog_has_no_duplicate_triples() {
    let raw = vec![
        mode(640, 480, 60),
        mode(640, 480, 60),
        mode(640, 480, 60),
    ];
    let catalog = some_device().get_supported_modes(&raw);
    assert_eq!(catalog, vec![mode(640, 480, 60)]);
    for i in 0..catalog.len() {
        for j in (i + 1)..catalog.len() {
            assert_ne!(catalog[i], catalog[j]);
        }
    }
}
