use qemuweb_sidecar::client::{format_request, ping_request, SidecarClient};
use qemuweb_sidecar::protocol::{
    ConnectionState, Double, EmulatorToSidecarMessage, FrameFormat, SidecarMode,
};

fn millis(x: f64) -> Double {
    Double::from_bits(x.to_bits())
}

#[test]
fn new_client() {
    let client = SidecarClient::new();
    assert_eq!(client.get_state(), "disconnected");
    assert_eq!(client.state, ConnectionState::Disconnected);
    assert_eq!(client.config.mode, SidecarMode::Local);
    assert_eq!(client.get_frames_received(), 0);
    assert_eq!(client.get_bytes_transferred(), 0);
    assert_eq!(f64::from_bits(client.get_fps().to_bits()), 0.0);
    assert!(client.fps_tracker.samples().is_empty());
    assert!(client.frame_buffer.is_empty());
}

#[test]
fn client_state_is_reported_by_name() {
    let mut client = SidecarClient::new();
    assert_eq!(client.set_state(ConnectionState::Connecting), "connecting");
    assert_eq!(client.get_state(), "connecting");
    assert_eq!(client.set_state(ConnectionState::Connected), "connected");
    assert_eq!(client.set_state(ConnectionState::Error), "error");
    assert_eq!(client.set_state(ConnectionState::Disconnected), "disconnected");
    assert_eq!(client.get_state(), "disconnected");
}

#[test]
fn frames_are_announced_with_rising_sequence() {
    let mut client = SidecarClient::new();
    let first = client.announce_frame(millis(10.0), 16, 2, 2, true);
    assert_eq!(first.sequence, 1);
    assert_eq!(f64::from_bits(first.timestamp.to_bits()), 10.0);
    assert_eq!(first.width, 2);
    assert_eq!(first.height, 2);
    assert_eq!(first.format, FrameFormat::Rgba);
    assert!(first.keyframe);

    client.config.preferred_format = Some(FrameFormat::Rgb565);
    let second = client.announce_frame(millis(26.5), 8, 2, 2, false);
    assert_eq!(second.sequence, 2);
    assert_eq!(second.format, FrameFormat::Rgb565);
    assert!(!second.keyframe);

    client.config.preferred_format = None;
    let third = client.announce_frame(millis(43.0), 100, 5, 5, false);
    assert_eq!(third.sequence, 3);
    assert_eq!(third.format, FrameFormat::Rgba);

    assert_eq!(client.get_frames_received(), 3);
    assert_eq!(client.get_bytes_transferred(), 124);
    let times: Vec<f64> =
        client.fps_tracker.samples().iter().map(|d| f64::from_bits(d.to_bits())).collect();
    assert_eq!(times, vec![10.0, 26.5, 43.0]);
}

#[test]
fn client_rate_is_written_down() {
    let mut client = SidecarClient::new();
    client.set_current_fps(millis(30.0));
    assert_eq!(f64::from_bits(client.get_fps().to_bits()), 30.0);
    assert_eq!(client.get_frames_received(), 0);
}

#[test]
fn format_requests_by_name() {
    match format_request("rgb565", 320, 200) {
        Some(EmulatorToSidecarMessage::SetFormat { format, width, height }) => {
            assert_eq!(format, FrameFormat::Rgb565);
            assert_eq!(width, 320);
            assert_eq!(height, 200);
        }
        other => panic!("{:?}", other),
    }
    assert!(matches!(
        format_request("compressed", 1, 1),
        Some(EmulatorToSidecarMessage::SetFormat { format: FrameFormat::Compressed, .. })
    ));
    assert!(format_request("bgra", 320, 200).is_none());
    assert!(format_request("", 320, 200).is_none());
}

#[test]
fn ping_requests_carry_the_time() {
    match ping_request(millis(1234.5)) {
        EmulatorToSidecarMessage::Ping { timestamp } => {
            assert_eq!(timestamp.to_bits(), 1234.5f64.to_bits())
        }
        other => panic!("{:?}", other),
    }
}
