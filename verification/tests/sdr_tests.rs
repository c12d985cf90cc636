use sunshine_helper::device::AdapterId;
use sunshine_helper::error::DisplayError;
use sunshine_helper::sdr::SDR_REQUEST_SIZE_BYTES;
use sunshine_helper::sdr::SDR_WHITE_LEVEL_SET_TYPE;
use sunshine_helper::sdr::SdrTarget;
use sunshine_helper::sdr::build_sdr_request;
use sunshine_helper::sdr::has_primary_device;
use sunshine_helper::sdr::interpret_set_info_result;
use sunshine_helper::sdr::sdr_api_value;
use sunshine_helper::sdr::select_sdr_target;

#[test]
fn api_value_linear_mapping_endpoints() {
    assert_eq!(sdr_api_value(0), Ok(1000));
    assert_eq!(sdr_api_value(100), Ok(6000));
}

#[test]
fn api_value_midpoints() {
    assert_eq!(sdr_api_value(1), Ok(1050));
    assert_eq!(sdr_api_value(50), Ok(3500));
    assert_eq!(sdr_api_value(80), Ok(5000));
}

#[test]
fn api_value_rejects_out_of_range_immediately() {
    assert_eq!(sdr_api_value(101), Err(DisplayError::InvalidInput));
    assert_eq!(sdr_api_value(u32::MAX), Err(DisplayError::InvalidInput));
}

#[test]
fn request_record_layout() {
    let target = SdrTarget {
        adapter_id: AdapterId { low_part: 77, high_part: -1 },
        output_id: 4,
    };
    let q = build_sdr_request(&target, 3500);
    assert_eq!(q.info_type, SDR_WHITE_LEVEL_SET_TYPE);
    assert_eq!(q.info_type, -18);
    assert_eq!(q.size, SDR_REQUEST_SIZE_BYTES);
    assert_eq!(q.size, 28);
    assert_eq!(q.adapter_id, AdapterId { low_part: 77, high_part: -1 });
    assert_eq!(q.output_id, 4);
    assert_eq!(q.sdr_white_level, 3500);
    assert!(q.final_value);
}

#[test]
fn target_selection_requires_primary_flag() {
    let paths = vec![
        SdrTarget { adapter_id: AdapterId { low_part: 1, high_part: 0 }, output_id: 9 },
        SdrTarget { adapter_id: AdapterId { low_part: 2, high_part: 0 }, output_id: 8 },
    ];
    let with_primary = vec![0x1, 0x5];
    let without_primary = vec![0x1, 0x2];
    assert_eq!(select_sdr_target(&paths, &with_primary), Some(paths[0]));
    assert_eq!(select_sdr_target(&paths, &without_primary), None);
}

#[test]
fn target_selection_requires_a_path() {
    let no_paths: Vec<SdrTarget> = Vec::new();
    let with_primary = vec![0x5];
    assert_eq!(select_sdr_target(&no_paths, &with_primary), None);
}

#[test]
fn primary_flag_scan() {
    assert!(has_primary_device(&vec![0x1, 0x4]));
    assert!(!has_primary_device(&vec![0x1, 0x2, 0x8]));
    assert!(!has_primary_device(&Vec::new()));
}

#[test]
fn set_info_result_zero_is_success() {
    assert!(interpret_set_info_result(0).is_ok());
    assert_eq!(interpret_set_info_result(31), Err(DisplayError::OsMutationFailed(31)));
    assert_eq!(interpret_set_info_result(-1), Err(DisplayError::OsMutationFailed(-1)));
}
