use qemuweb_sidecar::protocol::{
    ConnectionState, Double, FrameFormat, LinkEvent, SidecarConfig, SidecarMode, SidecarStats,
};
use qemuweb_sidecar::{DEFAULT_PORT, VERSION};

#[test]
fn test_frame_format_bytes() {
    assert_eq!(FrameFormat::Rgba.bytes_per_pixel(), Some(4));
    assert_eq!(FrameFormat::Rgb565.bytes_per_pixel(), Some(2));
    assert_eq!(FrameFormat::Compressed.bytes_per_pixel(), None);
}

#[test]
fn planar_layout_has_no_pixel_size() {
    assert_eq!(FrameFormat::Yuv420.bytes_per_pixel(), None);
}

#[test]
fn defaults() {
    assert_eq!(SidecarMode::default(), SidecarMode::Local);
    assert_eq!(FrameFormat::default(), FrameFormat::Rgba);
    assert_eq!(ConnectionState::default(), ConnectionState::Disconnected);

    let config = SidecarConfig::default();
    assert_eq!(config.mode, SidecarMode::Local);
    assert_eq!(config.target_fps, Some(60));
    assert_eq!(config.preferred_format, Some(FrameFormat::Rgba));
    assert_eq!(config.remote_url, None);
    assert_eq!(config.enable_compression, Some(false));
    assert_eq!(config.ring_buffer_size, Some(4));

    let stats = SidecarStats::default();
    assert_eq!(stats.frames_received, 0);
    assert_eq!(stats.frames_dropped, 0);
    assert_eq!(f64::from_bits(stats.avg_latency.to_bits()), 0.0);
    assert_eq!(f64::from_bits(stats.current_fps.to_bits()), 0.0);
    assert_eq!(stats.bytes_transferred, 0);

    assert_eq!(DEFAULT_PORT, 9876);
    assert!(!VERSION.is_empty());
}

#[test]
fn doubles_keep_their_bits() {
    for x in [0.0f64, -0.0, 1234.5, 16.67, f64::MAX, f64::MIN_POSITIVE, f64::INFINITY] {
        let d = Double::from_bits(x.to_bits());
        assert_eq!(d.to_bits(), x.to_bits());
        assert_eq!(d.bits, x.to_bits());
    }
    assert_eq!(f64::from_bits(Double::zero().to_bits()), 0.0);
    assert!(f64::from_bits(Double::zero().to_bits()).is_sign_positive());
    let nan = Double::from_bits(f64::NAN.to_bits());
    assert!(f64::from_bits(nan.to_bits()).is_nan());
}

#[test]
fn layouts_are_read_from_their_names() {
    assert_eq!(FrameFormat::from_name("rgba"), Some(FrameFormat::Rgba));
    assert_eq!(FrameFormat::from_name("rgb565"), Some(FrameFormat::Rgb565));
    assert_eq!(FrameFormat::from_name("yuv420"), Some(FrameFormat::Yuv420));
    assert_eq!(FrameFormat::from_name("compressed"), Some(FrameFormat::Compressed));
    assert_eq!(FrameFormat::from_name("RGBA"), None);
    assert_eq!(FrameFormat::from_name("rgb"), None);
    assert_eq!(FrameFormat::from_name(" rgba"), None);
    assert_eq!(FrameFormat::from_name(""), None);
}

#[test]
fn states_have_lower_case_names() {
    assert_eq!(ConnectionState::Disconnected.name(), "disconnected");
    assert_eq!(ConnectionState::Connecting.name(), "connecting");
    assert_eq!(ConnectionState::Connected.name(), "connected");
    assert_eq!(ConnectionState::Error.name(), "error");
}

#[test]
fn events_decide_the_next_state() {
    let all = [
        ConnectionState::Disconnected,
        ConnectionState::Connecting,
        ConnectionState::Connected,
        ConnectionState::Error,
    ];
    for state in all {
        assert_eq!(state.after(LinkEvent::Accepted), ConnectionState::Connecting);
        assert_eq!(state.after(LinkEvent::HandshakeCompleted), ConnectionState::Connected);
        assert_eq!(state.after(LinkEvent::TransportFault), ConnectionState::Error);
        assert_eq!(state.after(LinkEvent::Closed), ConnectionState::Disconnected);
    }
}

#[test]
fn a_connection_from_accept_to_close() {
    let state = ConnectionState::default().after(LinkEvent::Accepted);
    assert_eq!(state, ConnectionState::Connecting);
    let state = state.after(LinkEvent::HandshakeCompleted);
    assert_eq!(state, ConnectionState::Connected);
    let state = state.after(LinkEvent::Closed);
    assert_eq!(state, ConnectionState::Disconnected);
}
