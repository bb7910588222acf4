use client_sample::monitor::{is_closed_signal, CancelMonitor, MonitorAction};
use client_sample::MessageCommunicate;

#[test]
fn monitor_sentinel_matches_with_line_break() {
    assert!(is_closed_signal("__quit__"));
    assert!(is_closed_signal("__quit__\n"));
    assert!(is_closed_signal("__quit__\r\n"));
    assert!(!is_closed_signal("quit\n"));
    assert!(!is_closed_signal(" __quit__"));
    assert!(!is_closed_signal(MessageCommunicate::INTERRUPT_SIGNAL));
}

#[test]
fn monitor_discards_other_lines() {
    let mut m = CancelMonitor::new();
    assert_eq!(m.on_line(Some("hello\n")), MonitorAction::ReadLine);
    assert_eq!(m.on_line(Some("__context_swich__\n")), MonitorAction::ReadLine);
    assert!(!m.cancelled);
    assert!(!m.finished);
}

#[test]
fn monitor_cancels_on_sentinel_and_stays_cancelled() {
    let mut m = CancelMonitor::new();
    assert_eq!(m.on_line(Some("x\n")), MonitorAction::ReadLine);
    assert_eq!(m.on_line(Some("__quit__\n")), MonitorAction::Cancel);
    assert!(m.cancelled);
    assert!(m.finished);
    assert_eq!(m.on_line(Some("more\n")), MonitorAction::Stop);
    assert_eq!(m.on_line(None), MonitorAction::Stop);
    assert!(m.cancelled);
}

#[test]
fn monitor_end_of_stream_stops_without_cancel() {
    let mut m = CancelMonitor::new();
    assert_eq!(m.on_line(None), MonitorAction::Stop);
    assert!(!m.cancelled);
    assert!(m.finished);
    assert_eq!(m.on_line(Some("__quit__\n")), MonitorAction::Stop);
    assert!(!m.cancelled);
}
