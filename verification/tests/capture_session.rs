use screen_recorder::capture::{
    closed_message, key_missing_message, stop_message, CaptureError, CaptureHandler,
    FrameDisposition, MissingKeys, MonitorHandle, SessionPhase, SettingsBundle,
};
use screen_recorder::token::CancelToken;

fn complete_bundle(token: CancelToken) -> SettingsBundle {
    SettingsBundle {
        output_path: Some(String::from("Captures/screen_recording_2024-03-07_09-05-02.mp4")),
        monitor: Some(MonitorHandle { width: 1920, height: 1080 }),
        stop_flag: Some(token),
    }
}

#[test]
fn new_fails_without_output_path() {
    let mut bundle = complete_bundle(CancelToken::new());
    bundle.output_path = None;
    let r = CaptureHandler::new(bundle);
    assert_eq!(
        r.err().expect("construction must fail"),
        CaptureError::MissingSettings(MissingKeys {
            output_path: true,
            monitor: false,
            stop_flag: false,
        })
    );
}

#[test]
fn new_fails_without_monitor() {
    let mut bundle = complete_bundle(CancelToken::new());
    bundle.monitor = None;
    let r = CaptureHandler::new(bundle);
    assert_eq!(
        r.err().expect("construction must fail"),
        CaptureError::MissingSettings(MissingKeys {
            output_path: false,
            monitor: true,
            stop_flag: false,
        })
    );
}

#[test]
fn new_fails_without_stop_flag() {
    let mut bundle = complete_bundle(CancelToken::new());
    bundle.stop_flag = None;
    let r = CaptureHandler::new(bundle);
    assert_eq!(
        r.err().expect("construction must fail"),
        CaptureError::MissingSettings(MissingKeys {
            output_path: false,
            monitor: false,
            stop_flag: true,
        })
    );
}

#[test]
fn new_fails_with_empty_bundle_and_no_encoder_config() {
    let bundle = SettingsBundle { output_path: None, monitor: None, stop_flag: None };
    let r = CaptureHandler::new(bundle);
    let err = r.err().expect("construction must fail");
    assert_eq!(
        err,
        CaptureError::MissingSettings(MissingKeys {
            output_path: true,
            monitor: true,
            stop_flag: true,
        })
    );
}

#[test]
fn new_succeeds_with_complete_bundle() {
    let handler =
        CaptureHandler::new(complete_bundle(CancelToken::new())).expect("bundle is complete");
    assert!(handler.encoder_open());
    let cfg = handler.encoder_config().expect("encoder is open");
    assert_eq!(cfg.width, 1920);
    assert_eq!(cfg.height, 1080);
    assert_eq!(cfg.output_path, "Captures/screen_recording_2024-03-07_09-05-02.mp4");
    assert_eq!(handler.phase(), SessionPhase::Capturing);
}

#[test]
fn missing_key_reports_name_each_key() {
    let missing = MissingKeys { output_path: true, monitor: false, stop_flag: true };
    let reports = missing.messages();
    assert_eq!(reports.len(), 2);
    assert_eq!(reports[0], "Key 'output_path' not found or invalid");
    assert_eq!(reports[1], "Key 'flag' not found or invalid");
    assert_eq!(key_missing_message("monitor"), "Key 'monitor' not found or invalid");
}

#[test]
fn frame_after_finalize_is_rejected() {
    let mut handler =
        CaptureHandler::new(complete_bundle(CancelToken::new())).expect("bundle is complete");
    assert_eq!(handler.frame_step(true), Ok(FrameDisposition::ForwardedAndFinalized));
    assert!(!handler.encoder_open());
    assert_eq!(handler.phase(), SessionPhase::Stopping);
    assert_eq!(handler.frame_step(false), Err(CaptureError::EncoderAbsent));
    assert_eq!(handler.frame_step(true), Err(CaptureError::EncoderAbsent));
    assert!(!handler.encoder_open());
}

#[test]
fn frames_then_stop_scenario() {
    // Four arrivals with the stop condition false, then one with it true:
    // five frames forwarded, one finalize, one session-stop request, in that
    // order.
    let mut handler =
        CaptureHandler::new(complete_bundle(CancelToken::new())).expect("bundle is complete");
    let mut forwarded = 0;
    let mut finalized = 0;
    let mut stop_requests = 0;
    for event in [false, false, false, false, true] {
        match handler.frame_step(event).expect("the encoder is open") {
            FrameDisposition::Forwarded => forwarded += 1,
            FrameDisposition::ForwardedAndFinalized => {
                forwarded += 1;
                finalized += 1;
                stop_requests += 1;
            }
        }
    }
    assert_eq!(forwarded, 5);
    assert_eq!(finalized, 1);
    assert_eq!(stop_requests, 1);
    assert_eq!(handler.phase(), SessionPhase::Stopping);
    assert!(!handler.encoder_open());
}

#[test]
fn stop_observed_after_five_frames_forwards_a_sixth() {
    // The stop condition turns true only on the sixth arrival, and the frame
    // is forwarded before the condition is checked: six frames reach the
    // encoder, the finalize and the stop request still happen exactly once.
    let mut handler =
        CaptureHandler::new(complete_bundle(CancelToken::new())).expect("bundle is complete");
    let mut forwarded = 0;
    for _ in 0..5 {
        assert_eq!(handler.frame_step(false), Ok(FrameDisposition::Forwarded));
        forwarded += 1;
    }
    assert_eq!(handler.frame_step(true), Ok(FrameDisposition::ForwardedAndFinalized));
    forwarded += 1;
    assert_eq!(forwarded, 6);
    assert_eq!(handler.frame_step(false), Err(CaptureError::EncoderAbsent));
}

#[test]
fn on_frame_arrived_follows_the_shared_token() {
    let token = CancelToken::new();
    let listener_handle = token.handle();
    let mut handler = CaptureHandler::new(complete_bundle(token)).expect("bundle is complete");
    for _ in 0..3 {
        assert_eq!(handler.on_frame_arrived(), Ok(FrameDisposition::Forwarded));
    }
    listener_handle.request_stop();
    assert_eq!(handler.on_frame_arrived(), Ok(FrameDisposition::ForwardedAndFinalized));
    assert_eq!(handler.on_frame_arrived(), Err(CaptureError::EncoderAbsent));
    assert_eq!(handler.phase(), SessionPhase::Stopping);
}

#[test]
fn on_closed_records_the_phase() {
    let mut handler =
        CaptureHandler::new(complete_bundle(CancelToken::new())).expect("bundle is complete");
    handler.frame_step(true).expect("the encoder is open");
    handler.on_closed();
    assert_eq!(handler.phase(), SessionPhase::Closed);
}

#[test]
fn status_lines_and_error_reports() {
    assert_eq!(stop_message(), "Stop recording...");
    assert_eq!(closed_message(), "Capture Session Closed");
    let missing = MissingKeys { output_path: true, monitor: true, stop_flag: true };
    assert_eq!(CaptureError::MissingSettings(missing).describe(), "Failed to initialize Capture");
    assert_eq!(CaptureError::EncoderAbsent.describe(), "No encoder to send the frame to");
}
