use screen_recorder::output_path::{
    current_output_path, output_path_for, path_for_clock_fields, Timestamp,
};

#[test]
fn path_is_timestamped_and_zero_padded() {
    let ts = Timestamp { year: 2024, month: 3, day: 7, hour: 9, minute: 5, second: 2 };
    let path = output_path_for(&ts);
    assert_eq!(path, "Captures/screen_recording_2024-03-07_09-05-02.mp4");
}

#[test]
fn path_handles_largest_components() {
    let ts = Timestamp { year: 9999, month: 12, day: 31, hour: 23, minute: 59, second: 59 };
    let path = output_path_for(&ts);
    assert_eq!(path, "Captures/screen_recording_9999-12-31_23-59-59.mp4");
}

#[test]
fn path_pads_smallest_components() {
    let ts = Timestamp { year: 0, month: 1, day: 1, hour: 0, minute: 0, second: 0 };
    let path = output_path_for(&ts);
    assert_eq!(path, "Captures/screen_recording_0000-01-01_00-00-00.mp4");
}

#[test]
fn clock_fields_give_a_path_exactly_for_four_digit_years() {
    let path = path_for_clock_fields(2024, 3, 7, 9, 5, 2).expect("the year fits four digits");
    assert_eq!(path, "Captures/screen_recording_2024-03-07_09-05-02.mp4");
    assert!(path_for_clock_fields(0, 1, 1, 0, 0, 0).is_some());
    assert!(path_for_clock_fields(9999, 12, 31, 23, 59, 59).is_some());
    assert!(path_for_clock_fields(10000, 1, 1, 0, 0, 0).is_none());
    assert!(path_for_clock_fields(-1, 1, 1, 0, 0, 0).is_none());
}

#[test]
fn current_path_matches_pattern() {
    let path = current_output_path().expect("the clock's year fits four digits");
    assert_eq!(path.len(), 49);
    assert!(path.starts_with("Captures/screen_recording_"));
    assert!(path.ends_with(".mp4"));
    let stamp: Vec<char> = path["Captures/screen_recording_".len()..path.len() - ".mp4".len()]
        .chars()
        .collect();
    assert_eq!(stamp.len(), 19);
    for (j, c) in stamp.iter().enumerate() {
        match j {
            4 | 7 | 13 | 16 => assert_eq!(*c, '-'),
            10 => assert_eq!(*c, '_'),
            _ => assert!(c.is_ascii_digit()),
        }
    }
}
