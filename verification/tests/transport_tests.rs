use qemuweb_sidecar::protocol::Double;
use qemuweb_sidecar::transport::{FpsTracker, TransportError};

fn millis(x: f64) -> Double {
    Double::from_bits(x.to_bits())
}

fn values(tracker: &FpsTracker) -> Vec<f64> {
    tracker.samples().iter().map(|d| f64::from_bits(d.to_bits())).collect()
}

#[test]
fn tracker_starts_empty() {
    let tracker = FpsTracker::new(10);
    assert!(tracker.samples().is_empty());
    let none = FpsTracker::new(0);
    assert!(none.samples().is_empty());
}

#[test]
fn tracker_keeps_timestamps_in_order() {
    let mut tracker = FpsTracker::new(10);
    for i in 0..5 {
        tracker.record(millis(i as f64 * 16.67));
    }
    assert_eq!(values(&tracker), vec![0.0, 16.67, 2.0 * 16.67, 3.0 * 16.67, 4.0 * 16.67]);
}

#[test]
fn tracker_drops_the_oldest_when_full() {
    let mut tracker = FpsTracker::new(3);
    for i in 0..3 {
        tracker.record(millis(i as f64));
        assert_eq!(tracker.samples().len(), i + 1);
    }
    tracker.record(millis(3.0));
    assert_eq!(values(&tracker), vec![1.0, 2.0, 3.0]);
    tracker.record(millis(4.0));
    tracker.record(millis(5.0));
    assert_eq!(values(&tracker), vec![3.0, 4.0, 5.0]);
}

#[test]
fn tracker_of_one_keeps_the_last() {
    let mut tracker = FpsTracker::new(1);
    tracker.record(millis(1.5));
    tracker.record(millis(2.5));
    assert_eq!(values(&tracker), vec![2.5]);
}

#[test]
fn tracker_clear() {
    let mut tracker = FpsTracker::new(4);
    tracker.record(millis(1.0));
    tracker.record(millis(2.0));
    tracker.clear();
    assert!(tracker.samples().is_empty());
    tracker.record(millis(9.0));
    assert_eq!(values(&tracker), vec![9.0]);
}

#[test]
fn only_send_and_receive_failures_end_a_connection() {
    assert!(TransportError::SendFailed("peer gone".to_string()).ends_connection());
    assert!(TransportError::ReceiveFailed("reset".to_string()).ends_connection());
    assert!(!TransportError::ConnectionFailed("refused".to_string()).ends_connection());
    assert!(!TransportError::NotConnected.ends_connection());
    assert!(!TransportError::ProtocolError("unknown type".to_string()).ends_connection());
    assert!(!TransportError::Timeout.ends_connection());
}
