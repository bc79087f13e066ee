use voicebox::output::{contains_text, diagnostic_line, is_ready_line, Channel, OutputEvent};
use voicebox::probe::{
    deadline_passed, on_received, probe_scripted, ProbeOutcome, ProbeStep, Received, Scheduled,
    POLL_SLICE_MS, STARTUP_DEADLINE_MS,
};

fn line(at_ms: u64, channel: Channel, text: &str) -> Scheduled {
    Scheduled { at_ms, event: Received::Line(channel, text.to_string()) }
}

#[test]
fn contains_text_finds_substrings() {
    assert!(contains_text("hello world", "lo w"));
    assert!(contains_text("abc", ""));
    assert!(contains_text("abc", "abc"));
    assert!(!contains_text("abc", "abcd"));
    assert!(!contains_text("abcab", "bb"));
    assert!(!contains_text("", "a"));
}

#[test]
fn both_markers_are_recognised() {
    assert!(is_ready_line("INFO:     Uvicorn running on http://127.0.0.1:8000"));
    assert!(is_ready_line("INFO:     Application startup complete."));
    assert!(!is_ready_line("INFO:     Started server process [42]"));
    assert!(!is_ready_line("uvicorn running"));
}

#[test]
fn lossy_decoding_replaces_malformed_bytes() {
    let ev = OutputEvent { channel: Channel::Stdout, bytes: vec![0x6f, 0x6b, 0xff, 0x21] };
    assert_eq!(ev.text(), "ok\u{FFFD}!");
}

#[test]
fn marker_in_malformed_line_is_still_seen() {
    let mut bytes = vec![0xc3, 0x28];
    bytes.extend_from_slice(b"Uvicorn running on 0.0.0.0");
    let r = Received::from_output(OutputEvent { channel: Channel::Stderr, bytes });
    assert_eq!(on_received(&r), ProbeStep::Done(ProbeOutcome::Ready));
}

#[test]
fn deadline_is_exceeded_only_past_thirty_seconds() {
    assert!(!deadline_passed(0));
    assert!(!deadline_passed(STARTUP_DEADLINE_MS));
    assert!(deadline_passed(30001));
}

#[test]
fn received_events_decide_the_probe() {
    let ready = Received::Line(Channel::Stdout, "Application startup complete".to_string());
    let plain = Received::Line(Channel::Stderr, "loading model".to_string());
    assert_eq!(on_received(&ready), ProbeStep::Done(ProbeOutcome::Ready));
    assert_eq!(on_received(&plain), ProbeStep::Pending);
    assert_eq!(on_received(&Received::Closed), ProbeStep::Done(ProbeOutcome::ExitedUnexpectedly));
    assert_eq!(on_received(&Received::SliceElapsed), ProbeStep::Pending);
    assert_eq!(on_received(&Received::Other), ProbeStep::Pending);
}

#[test]
fn marker_on_error_channel_after_two_seconds_is_ready() {
    let script = vec![
        line(300, Channel::Stdout, "Starting voicebox"),
        line(2000, Channel::Stderr, "INFO:     Uvicorn running on http://127.0.0.1:8000"),
    ];
    let (outcome, at) = probe_scripted(&script);
    assert_eq!(outcome, ProbeOutcome::Ready);
    assert!(at >= 2000 && at < 30000);
    assert_eq!(at, 2000);
}

#[test]
fn silent_stream_times_out_after_deadline() {
    let (outcome, at) = probe_scripted(&vec![]);
    assert_eq!(outcome, ProbeOutcome::TimedOutStarting);
    assert!(at >= 30000 && at < 30500);
    assert_eq!(at, STARTUP_DEADLINE_MS + POLL_SLICE_MS);
}

#[test]
fn chatty_stream_without_marker_times_out() {
    let script = vec![
        line(10, Channel::Stdout, "a"),
        line(29950, Channel::Stderr, "still loading"),
    ];
    let (outcome, at) = probe_scripted(&script);
    assert_eq!(outcome, ProbeOutcome::TimedOutStarting);
    assert_eq!(at, 30050);
}

#[test]
fn stream_ending_at_one_second_is_an_exit() {
    let script = vec![
        line(200, Channel::Stdout, "Traceback (most recent call last):"),
        Scheduled { at_ms: 1000, event: Received::Closed },
    ];
    assert_eq!(probe_scripted(&script), (ProbeOutcome::ExitedUnexpectedly, 1000));
}

#[test]
fn marker_split_across_channels_is_not_ready() {
    let script = vec![
        line(100, Channel::Stdout, "Uvicorn "),
        line(100, Channel::Stderr, "running"),
    ];
    assert_eq!(probe_scripted(&script).0, ProbeOutcome::TimedOutStarting);
}

#[test]
fn marker_after_deadline_is_too_late() {
    let script = vec![line(31000, Channel::Stdout, "Uvicorn running")];
    assert_eq!(probe_scripted(&script), (ProbeOutcome::TimedOutStarting, 30100));
}

#[test]
fn relayed_lines_are_labelled_by_channel() {
    assert_eq!(diagnostic_line(Channel::Stdout, "GET /health 200"), "Server: GET /health 200");
    assert_eq!(diagnostic_line(Channel::Stderr, "warning"), "Server error: warning");
}
