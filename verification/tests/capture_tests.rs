use murmur::capture::{input_status, stop_capture, CaptureBuffer};

#[test]
fn new_buffer_is_empty_and_sized() {
    let b = CaptureBuffer::new(16000, 30);
    assert_eq!(b.samples.len(), 0);
    assert_eq!(b.max_samples, 480_000);
    assert!(!b.truncated);
}

#[test]
fn mono_samples_pass_through() {
    let mut b = CaptureBuffer::new(100, 2);
    b.push_samples_fixed(&vec![10, -20, 30], 1);
    assert_eq!(b.samples, vec![10, -20, 30]);
    assert!(!b.truncated);
}

#[test]
fn stereo_frames_are_averaged() {
    let mut b = CaptureBuffer::new(100, 2);
    b.push_samples_fixed(&vec![1000, 2000, 300, 500], 2);
    assert_eq!(b.samples, vec![1500, 400]);
}

#[test]
fn downmix_truncates_toward_zero() {
    let mut b = CaptureBuffer::new(100, 2);
    b.push_samples_fixed(&vec![-1001, 1000, -1000, -2000], 2);
    // (-1001 + 1000) / 2 = -1/2 -> 0; (-1000 - 2000) / 2 = -1500
    assert_eq!(b.samples, vec![0, -1500]);
}

#[test]
fn partial_trailing_frame_divides_by_full_channel_count() {
    let mut b = CaptureBuffer::new(100, 2);
    b.push_samples_fixed(&vec![1000, 1000, 900], 2);
    assert_eq!(b.samples, vec![1000, 450]);
}

#[test]
fn zero_channels_is_ignored() {
    let mut b = CaptureBuffer::new(100, 2);
    b.push_samples_fixed(&vec![1, 2, 3], 0);
    assert_eq!(b.samples.len(), 0);
    assert!(!b.truncated);
}

#[test]
fn buffer_never_exceeds_capacity() {
    let mut b = CaptureBuffer::new(10, 2);
    assert_eq!(b.max_samples, 20);
    b.push_samples_fixed(&vec![7; 25], 1);
    assert_eq!(b.samples.len(), 20);
    assert!(b.truncated);
}

#[test]
fn filling_exactly_to_capacity_does_not_truncate() {
    let mut b = CaptureBuffer::new(10, 2);
    b.push_samples_fixed(&vec![7; 20], 1);
    assert_eq!(b.samples.len(), 20);
    assert!(!b.truncated);
    // One more frame is dropped and flags truncation.
    b.push_samples_fixed(&vec![7], 1);
    assert_eq!(b.samples.len(), 20);
    assert!(b.truncated);
}

#[test]
fn thirty_second_cap_returns_exactly_cap_samples() {
    let rate = 100u32;
    let mut b = CaptureBuffer::new(rate, 30);
    b.push_samples_fixed(&vec![1; 3500], 1);
    let captured = stop_capture(b, 35_000);
    assert!(captured.truncated);
    assert_eq!(captured.samples.len(), 30 * rate as usize);
    assert_eq!(captured.sample_rate, rate);
    assert_eq!(captured.duration_ms, 35_000);
}

#[test]
fn i16_blocks_convert_to_fixed_point() {
    let mut b = CaptureBuffer::new(100, 2);
    b.push_samples_i16(&vec![32767, -32768, 0, 16384], 1);
    assert_eq!(b.samples, vec![10000, -10000, 0, 5000]);
}

#[test]
fn u16_blocks_convert_to_fixed_point() {
    let mut b = CaptureBuffer::new(100, 2);
    b.push_samples_u16(&vec![0, 65535, 32768], 1);
    assert_eq!(b.samples, vec![-10000, 9999, 0]);
}

#[test]
fn stop_capture_keeps_contents() {
    let mut b = CaptureBuffer::new(200, 1);
    b.push_samples_fixed(&vec![5, 6, 7], 1);
    let captured = stop_capture(b, 1234);
    assert_eq!(captured.samples, vec![5, 6, 7]);
    assert!(!captured.truncated);
    assert_eq!(captured.duration_ms, 1234);
}

#[test]
fn input_status_reports_enumeration_failure() {
    let s = input_status(0, Some(String::from("boom")), None, None);
    assert!(!s.ok);
    assert_eq!(
        s.message.as_deref(),
        Some("Failed to enumerate input devices: boom")
    );
    assert_eq!(s.available_inputs, 0);
    assert!(s.default_input.is_none());
}

#[test]
fn input_status_reports_missing_default_device() {
    let s = input_status(0, None, None, None);
    assert!(!s.ok);
    assert_eq!(
        s.message.as_deref(),
        Some("No default microphone detected. Check System Settings > Privacy & Security > Microphone.")
    );
}

#[test]
fn input_status_treats_blank_name_as_missing() {
    let s = input_status(1, None, Some(String::from("   ")), Some(48000));
    assert!(!s.ok);
    assert!(s.default_input.is_none());
    assert_eq!(s.default_sample_rate, Some(48000));
}

#[test]
fn input_status_ok_with_usable_device() {
    let s = input_status(2, None, Some(String::from("Built-in Mic")), Some(44100));
    assert!(s.ok);
    assert!(s.message.is_none());
    assert_eq!(s.default_input.as_deref(), Some("Built-in Mic"));
    assert_eq!(s.default_sample_rate, Some(44100));
    assert_eq!(s.available_inputs, 2);
}
