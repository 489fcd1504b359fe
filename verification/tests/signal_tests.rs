use litra_autotoggle::signal::{
    classify_log_line, count_after_event, net_transition, video_file_prefix, watch_path,
    VideoEventKind,
};
use litra_autotoggle::text::{str_contains, str_eq, str_starts_with};

#[test]
fn test_count_follows_open_and_close() {
    let c = count_after_event(0, "video0", "video", VideoEventKind::Opened);
    assert_eq!(c, 1);
    let c = count_after_event(c, "video1", "video", VideoEventKind::Opened);
    assert_eq!(c, 2);
    let c = count_after_event(c, "video0", "video", VideoEventKind::Closed);
    assert_eq!(c, 1);
    let c = count_after_event(c, "video0", "video", VideoEventKind::Other);
    assert_eq!(c, 1);
}

#[test]
fn test_count_ignores_foreign_files() {
    assert_eq!(count_after_event(0, "hidraw0", "video", VideoEventKind::Opened), 0);
    assert_eq!(count_after_event(3, "snd/pcm", "video", VideoEventKind::Closed), 3);
}

#[test]
fn test_count_saturates_at_zero() {
    assert_eq!(count_after_event(0, "video0", "video", VideoEventKind::Closed), 0);
}

#[test]
fn test_net_transition_suppresses_no_change() {
    // Noise on an already-active camera changes nothing and makes no edge.
    assert_eq!(net_transition(2, 2), None);
    assert_eq!(net_transition(0, 0), None);
    assert_eq!(net_transition(0, 1), Some(true));
    assert_eq!(net_transition(1, 2), Some(true));
    assert_eq!(net_transition(1, 0), Some(false));
}

#[test]
fn test_classify_log_line() {
    assert_eq!(
        classify_log_line("... AVCaptureSession_Tundra startRunning ..."),
        Some(true)
    );
    assert_eq!(
        classify_log_line("... AVCaptureSession_Tundra stopRunning ..."),
        Some(false)
    );
    assert_eq!(
        classify_log_line("Filtering the log data using a predicate"),
        None
    );
    assert_eq!(classify_log_line("unrelated chatter"), None);
}

#[test]
fn test_watch_path_defaults_to_dev() {
    assert_eq!(watch_path(Some("/dev/video2")), "/dev/video2");
    assert_eq!(watch_path(None), "/dev");
}

#[test]
fn test_video_file_prefix() {
    assert_eq!(video_file_prefix(Some("/dev/video0")), "video0");
    assert_eq!(video_file_prefix(Some("video7")), "video7");
    assert_eq!(video_file_prefix(Some("/dev/")), "");
    assert_eq!(video_file_prefix(None), "video");
}

#[test]
fn test_text_helpers() {
    assert!(str_eq("abc", "abc"));
    assert!(!str_eq("abc", "abd"));
    assert!(!str_eq("abc", "ab"));
    assert!(str_starts_with("video0", "video"));
    assert!(!str_starts_with("vid", "video"));
    assert!(str_contains("a needle in a haystack", "needle"));
    assert!(!str_contains("a haystack", "needle"));
    assert!(str_contains("anything", ""));
}
