use kiosk_controller::signal::{extract_device_path, find_device_path, line_is_trigger};

#[test]
fn the_trigger_pattern_is_recognised_inside_a_report_line() {
    assert!(line_is_trigger("E: 000123.456789 3 03 01 00"));
    assert!(line_is_trigger("3 03 01 00"));
}

#[test]
fn other_report_lines_are_ignored() {
    assert!(!line_is_trigger(""));
    assert!(!line_is_trigger("E: 000123.456789 3 03 01 01"));
    assert!(!line_is_trigger("3 03 0100"));
    assert!(!line_is_trigger("# device opened"));
}

#[test]
fn device_path_is_cut_at_the_colon() {
    let line = "# /dev/hidraw3: Jabra SPEAK 510 USB";
    assert_eq!(extract_device_path(line), Some("/dev/hidraw3".to_string()));
}

#[test]
fn device_path_without_colon_ends_at_whitespace() {
    let line = "# Jabra device at /dev/hidraw7 ready";
    assert_eq!(extract_device_path(line), Some("/dev/hidraw7".to_string()));
}

#[test]
fn device_path_without_colon_or_whitespace_runs_to_line_end() {
    let line = "# Jabra /dev/hidraw2";
    assert_eq!(extract_device_path(line), Some("/dev/hidraw2".to_string()));
}

#[test]
fn lines_without_the_maker_yield_nothing() {
    assert_eq!(extract_device_path("# /dev/hidraw3: Logitech Keyboard"), None);
}

#[test]
fn maker_lines_without_a_device_node_yield_nothing() {
    assert_eq!(extract_device_path("# Jabra SPEAK 510 USB"), None);
}

#[test]
fn the_last_extractable_line_wins() {
    let lines = vec![
        "# scanning devices".to_string(),
        "# /dev/hidraw1: Jabra SPEAK 510 USB".to_string(),
        "# Logitech at /dev/hidraw4".to_string(),
        "# /dev/hidraw5: Jabra Link 370".to_string(),
        "# done".to_string(),
    ];
    assert_eq!(find_device_path(&lines), Some("/dev/hidraw5".to_string()));
}

#[test]
fn a_transcript_without_the_device_yields_nothing() {
    let lines = vec![
        "# scanning devices".to_string(),
        "# /dev/hidraw0: Some Other Vendor".to_string(),
    ];
    assert_eq!(find_device_path(&lines), None);
}
