use gtk_layout_inspector::screenshot::{
    after_failed_attempt, before_first_attempt, capture_failure_text, capture_precheck, decode_screenshot,
    encode_screenshot_jpeg, is_transient_capture_error, jpeg_failure_text, jpeg_outcome_text, retries_exhausted, CaptureFailure,
    RetryStep,
};
use gtk_layout_inspector::server::client::{ack_reply, layout_reply, pong_reply, screenshot_reply};
use gtk_layout_inspector::server::{
    dispatch_request, extract_pid, is_process_running, proc_dir, reply_for, sort_socket_paths,
    socket_path_for, stale_socket_pid, AppCommand, AppReply, Dispatch, Request, Response,
    ScreenshotData,
};

#[test]
fn socket_path_names_the_process() {
    assert_eq!(socket_path_for(1234), "/tmp/gtk-debug-1234.sock");
    assert_eq!(socket_path_for(0), "/tmp/gtk-debug-0.sock");
    assert_eq!(extract_pid(&socket_path_for(1234)), Some(1234));
    assert_eq!(extract_pid(&socket_path_for(u32::MAX)), Some(u32::MAX));
    assert_eq!(stale_socket_pid(&socket_path_for(42)), Some(42));
    assert_eq!(stale_socket_pid(&socket_path_for(u32::MAX)), None);
}

#[test]
fn extract_pid_follows_file_name_and_number_rules() {
    assert_eq!(extract_pid("/tmp/gtk-debug-77.sock"), Some(77));
    assert_eq!(extract_pid("/run/user/1000/gtk-debug-77.sock"), Some(77));
    assert_eq!(extract_pid("gtk-debug-77.sock"), Some(77));
    assert_eq!(extract_pid("/tmp/gtk-debug-77.sock/"), Some(77));
    assert_eq!(extract_pid("/tmp/gtk-debug-77.sock/."), Some(77));
    assert_eq!(extract_pid("/tmp/gtk-debug-+77.sock"), Some(77));
    assert_eq!(extract_pid("/tmp/gtk-debug--77.sock"), None);
    assert_eq!(extract_pid("/tmp/gtk-debug-.sock"), None);
    assert_eq!(extract_pid("/tmp/gtk-debug-7a.sock"), None);
    assert_eq!(extract_pid("/tmp/gtk-debug-4294967296.sock"), None);
    assert_eq!(extract_pid("/tmp/gtk-debug-77.socket"), None);
    assert_eq!(extract_pid("/tmp/gtk-debug-77.sock/.."), None);
    assert_eq!(extract_pid("/tmp/other-77.sock"), None);
    assert_eq!(extract_pid(""), None);
    assert_eq!(extract_pid("/"), None);
    assert_eq!(stale_socket_pid("/tmp/gtk-debug--77.sock"), Some(-77));
    assert_eq!(stale_socket_pid("/tmp/gtk-debug--2147483648.sock"), Some(i32::MIN));
    assert_eq!(stale_socket_pid("/tmp/gtk-debug-2147483648.sock"), None);
    assert_eq!(stale_socket_pid("/tmp/gtk-debug--.sock"), None);
}

#[test]
fn process_probe_and_live_server_selection() {
    assert!(!is_process_running(u32::MAX));
    let paths = vec![
        "/tmp/not-a-socket".to_string(),
        socket_path_for(u32::MAX),
        "/tmp/gtk-debug-x.sock".to_string(),
    ];
    assert_eq!(proc_dir(4321), "/proc/4321");
    let running: Vec<bool> = paths
        .iter()
        .map(|p| extract_pid(p).is_some_and(is_process_running))
        .collect();
    assert_eq!(running, vec![false, false, false]);
    let (live, stale) = sort_socket_paths(&paths, &running);
    assert!(live.is_empty());
    assert_eq!(stale, vec![socket_path_for(u32::MAX)]);
    let more = vec![
        socket_path_for(10),
        "/tmp/gtk-debug-x.sock".to_string(),
        socket_path_for(11),
        socket_path_for(12),
    ];
    let (live, stale) = sort_socket_paths(&more, &vec![true, true, false, true]);
    assert_eq!(live, vec![socket_path_for(10), socket_path_for(12)]);
    assert_eq!(stale, vec![socket_path_for(11)]);
}

#[test]
fn ping_is_answered_without_the_application() {
    assert_eq!(dispatch_request(Request::Ping), Dispatch::Reply(Response::Pong));
    assert_eq!(pong_reply(Response::Pong), Ok(()));
    assert_eq!(pong_reply(Response::Error("x".into())), Err("Unexpected response".to_string()));
}

#[test]
fn requests_are_forwarded_with_their_fields_and_timeouts() {
    assert_eq!(
        dispatch_request(Request::Input { field: "Email".into(), value: "a@b".into() }),
        Dispatch::Forward(AppCommand::Input { field: "Email".into(), value: "a@b".into() }, 2000)
    );
    assert_eq!(
        dispatch_request(Request::Click { label: "Save".into() }),
        Dispatch::Forward(AppCommand::Click { label: "Save".into() }, 2000)
    );
    assert_eq!(dispatch_request(Request::Dump), Dispatch::Forward(AppCommand::Dump, 5000));
    assert_eq!(dispatch_request(Request::DumpJson), Dispatch::Forward(AppCommand::DumpJson, 5000));
    assert_eq!(dispatch_request(Request::Screenshot), Dispatch::Forward(AppCommand::Screenshot, 5000));
    assert_eq!(dispatch_request(Request::Submit), Dispatch::Forward(AppCommand::Submit, 2000));
    assert_eq!(
        dispatch_request(Request::KeyPress { key: "Return".into() }),
        Dispatch::Forward(AppCommand::KeyPress { key: "Return".into() }, 2000)
    );
}

#[test]
fn replies_map_application_outcomes() {
    assert_eq!(reply_for(AppReply::Undelivered), Response::Error("App closed".into()));
    assert_eq!(reply_for(AppReply::NoAnswer), Response::Error("Timeout".into()));
    assert_eq!(reply_for(AppReply::Layout("tree".into())), Response::Layout("tree".into()));
    assert_eq!(reply_for(AppReply::Outcome(Ok(()))), Response::Success);
    assert_eq!(reply_for(AppReply::Outcome(Err("no such field".into()))), Response::Error("no such field".into()));
    assert_eq!(
        reply_for(AppReply::Screenshot(Err("Widget is not mapped (not visible)".into()))),
        Response::Error("Widget is not mapped (not visible)".into())
    );
}

#[test]
fn client_reads_what_the_application_answered() {
    assert_eq!(layout_reply(reply_for(AppReply::Layout("tree".into()))), Ok("tree".to_string()));
    assert_eq!(ack_reply(reply_for(AppReply::Outcome(Ok(())))), Ok(()));
    assert_eq!(ack_reply(reply_for(AppReply::Outcome(Err("bad".into())))), Err("bad".to_string()));
    assert_eq!(layout_reply(reply_for(AppReply::NoAnswer)), Err("Timeout".to_string()));
    assert_eq!(ack_reply(reply_for(AppReply::Undelivered)), Err("App closed".to_string()));
    assert_eq!(layout_reply(Response::Pong), Err("Unexpected response".to_string()));
    assert_eq!(ack_reply(Response::Layout("x".into())), Err("Unexpected response".to_string()));
    assert_eq!(screenshot_reply(Response::Success), Err("Unexpected response".to_string()));
    assert_eq!(screenshot_reply(Response::Screenshot("QUJD".into())), Ok("QUJD".to_string()));
}

#[test]
fn screenshot_round_trips_through_base64_jpeg() {
    let data = ScreenshotData { width: 2, height: 2, pixels: vec![200u8; 16] };
    let text = encode_screenshot_jpeg(&data, 15).expect("encodes");
    let jpeg = decode_screenshot(&text).expect("decodes");
    assert!(jpeg.len() > 4);
    assert_eq!(&jpeg[0..2], &[0xFF, 0xD8]);
    let resp = reply_for(AppReply::Screenshot(Ok(data)));
    assert_eq!(screenshot_reply(resp), Ok(text));
}

#[test]
fn screenshot_encoding_reports_bad_input() {
    let short = ScreenshotData { width: 2, height: 2, pixels: vec![0u8; 15] };
    assert_eq!(encode_screenshot_jpeg(&short, 15), Err("Invalid image dimensions".to_string()));
    let empty = ScreenshotData { width: 0, height: 3, pixels: Vec::new() };
    let err = encode_screenshot_jpeg(&empty, 15).unwrap_err();
    assert!(err.starts_with("Failed to encode JPEG: "));
    assert!(decode_screenshot("not base64!").is_err());
    assert_eq!(decode_screenshot("QUJD"), Ok(b"ABC".to_vec()));
}

#[test]
fn jpeg_outcome_is_base64_or_prefixed_error() {
    assert_eq!(jpeg_outcome_text(Ok(vec![1, 2, 3])), Ok("AQID".to_string()));
    assert_eq!(jpeg_outcome_text(Ok(b"ABCD".to_vec())), Ok("QUJDRA==".to_string()));
    assert_eq!(jpeg_outcome_text(Ok(Vec::new())), Ok(String::new()));
    assert_eq!(
        jpeg_outcome_text(Err("boom".to_string())),
        Err("Failed to encode JPEG: boom".to_string())
    );
    assert_eq!(jpeg_failure_text("x"), "Failed to encode JPEG: x".to_string());
}

#[test]
fn jpeg_encoding_succeeds_exactly_for_supported_sizes() {
    let tall = ScreenshotData { width: 1, height: 70000, pixels: vec![0u8; 4 * 70000] };
    assert!(encode_screenshot_jpeg(&tall, 15).unwrap_err().starts_with("Failed to encode JPEG: "));
    let flat = ScreenshotData { width: 3, height: 0, pixels: vec![9u8; 5] };
    assert!(encode_screenshot_jpeg(&flat, 15).unwrap_err().starts_with("Failed to encode JPEG: "));
    let one = ScreenshotData { width: 1, height: 1, pixels: vec![10, 20, 30, 255, 99] };
    assert!(encode_screenshot_jpeg(&one, 90).is_ok());
}

#[test]
fn capture_preconditions_are_checked_in_order() {
    assert_eq!(capture_precheck(false, false, false, 0, 0), Err(CaptureFailure::NotRealized));
    assert_eq!(capture_precheck(true, false, false, 0, 0), Err(CaptureFailure::NotMapped));
    assert_eq!(capture_precheck(true, true, false, 0, 0), Err(CaptureFailure::NoNativeSurface));
    assert_eq!(capture_precheck(true, true, true, 0, 5), Err(CaptureFailure::NoAllocatedSize));
    assert_eq!(capture_precheck(true, true, true, 5, -1), Err(CaptureFailure::NoAllocatedSize));
    assert_eq!(capture_precheck(true, true, true, 5, 5), Ok(()));
    assert_eq!(capture_failure_text(&CaptureFailure::NotRealized), "Widget is not realized");
    assert_eq!(
        capture_failure_text(&CaptureFailure::SavePng("disk full".into())),
        "Failed to save PNG: disk full"
    );
}

#[test]
fn capture_retry_decisions() {
    let transient = capture_failure_text(&CaptureFailure::NoVisibleContent);
    assert!(is_transient_capture_error(&transient));
    assert!(is_transient_capture_error("Widget is not realized"));
    assert!(is_transient_capture_error("Widget is not mapped (not visible)"));
    assert!(!is_transient_capture_error("Native has no renderer"));
    assert_eq!(after_failed_attempt(1, 3, transient.clone()), RetryStep::TryAgain);
    assert_eq!(after_failed_attempt(2, 3, transient.clone()), RetryStep::TryAgain);
    assert_eq!(
        after_failed_attempt(3, 3, transient.clone()),
        RetryStep::GiveUp(format!("{} (after 3 attempts)", transient))
    );
    assert_eq!(
        after_failed_attempt(1, 3, "Native has no renderer".into()),
        RetryStep::GiveUp("Native has no renderer".into())
    );
    assert_eq!(retries_exhausted("", 0), " (after 0 attempts)");
    assert_eq!(before_first_attempt(0), RetryStep::GiveUp(" (after 0 attempts)".into()));
    assert_eq!(before_first_attempt(3), RetryStep::TryAgain);
}
