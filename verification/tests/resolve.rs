use rres::device::ConnectorInfo;
use rres::device::ConnectorState;
use rres::device::CrtcInfo;
use rres::device::Device;
use rres::device::EncoderInfo;
use rres::device::Mode;
use rres::device::ResolveError;
use rres::resolve::get_card_modes;
use rres::resolve::get_connector_mode;

fn mode(width: u16, height: u16) -> Mode {
    Mode { width, height }
}

fn connector(state: ConnectorState, current_encoder: Option<u32>, modes: Vec<Mode>) -> ConnectorInfo {
    ConnectorInfo {
        state,
        current_encoder,
        interface: 0,
        modes,
    }
}

fn empty_device() -> Device {
    Device {
        resource_connectors: Some(vec![]),
        connectors: vec![],
        encoders: vec![],
        crtcs: vec![],
    }
}

#[test]
fn live_path_mode_wins_over_native() {
    // The CRTC scans out 1280x720 while the native mode is 1920x1080:
    // the live mode must be returned even though the two differ.
    let device = Device {
        resource_connectors: Some(vec![1]),
        connectors: vec![(
            1,
            connector(
                ConnectorState::Connected,
                Some(10),
                vec![mode(1920, 1080), mode(1280, 720)],
            ),
        )],
        encoders: vec![(10, EncoderInfo { crtc: Some(20) })],
        crtcs: vec![(20, CrtcInfo { mode: Some(mode(1280, 720)) })],
    };
    assert_eq!(get_card_modes(&device), Ok(vec![mode(1280, 720)]));
}

#[test]
fn fallback_native_when_no_encoder() {
    let device = Device {
        resource_connectors: Some(vec![1]),
        connectors: vec![(
            1,
            connector(ConnectorState::Connected, None, vec![mode(1920, 1080), mode(640, 480)]),
        )],
        encoders: vec![],
        crtcs: vec![],
    };
    assert_eq!(get_card_modes(&device), Ok(vec![mode(1920, 1080)]));
}

#[test]
fn fallback_native_when_encoder_has_no_crtc() {
    let device = Device {
        resource_connectors: Some(vec![1]),
        connectors: vec![(
            1,
            connector(ConnectorState::Connected, Some(10), vec![mode(1920, 1080)]),
        )],
        encoders: vec![(10, EncoderInfo { crtc: None })],
        crtcs: vec![],
    };
    assert_eq!(get_card_modes(&device), Ok(vec![mode(1920, 1080)]));
}

#[test]
fn fallback_native_when_crtc_reports_no_mode() {
    let device = Device {
        resource_connectors: Some(vec![1]),
        connectors: vec![(
            1,
            connector(ConnectorState::Connected, Some(10), vec![mode(1920, 1080)]),
        )],
        encoders: vec![(10, EncoderInfo { crtc: Some(20) })],
        crtcs: vec![(20, CrtcInfo { mode: None })],
    };
    assert_eq!(get_card_modes(&device), Ok(vec![mode(1920, 1080)]));
}

#[test]
fn empty_mode_list_yields_no_modes_error() {
    // Connected, live path yields nothing, and nothing to fall back to.
    let device = empty_device();
    let bare = connector(ConnectorState::Connected, None, vec![]);
    assert_eq!(get_connector_mode(&device, &bare), Err(ResolveError::NoModes));
}

#[test]
fn no_modes_connector_is_skipped_by_the_walk() {
    let device = Device {
        resource_connectors: Some(vec![1]),
        connectors: vec![(1, connector(ConnectorState::Connected, None, vec![]))],
        encoders: vec![],
        crtcs: vec![],
    };
    assert_eq!(get_card_modes(&device), Ok(vec![]));
}

#[test]
fn unconnected_connectors_never_reach_the_result() {
    // The disconnected connector points at an encoder handle that does
    // not resolve: had resolution been invoked on it, the walk would
    // have seen a failure; it must not even look.
    let device = Device {
        resource_connectors: Some(vec![1, 2]),
        connectors: vec![
            (1, connector(ConnectorState::Disconnected, Some(99), vec![mode(800, 600)])),
            (2, connector(ConnectorState::Unknown, None, vec![mode(800, 600)])),
        ],
        encoders: vec![],
        crtcs: vec![],
    };
    assert_eq!(get_card_modes(&device), Ok(vec![]));
}

#[test]
fn failing_connector_does_not_suppress_others() {
    // A: resolution fails (its encoder handle does not resolve),
    // B: disconnected, C: resolves to 1920x1080.
    let device = Device {
        resource_connectors: Some(vec![1, 2, 3]),
        connectors: vec![
            (1, connector(ConnectorState::Connected, Some(10), vec![mode(640, 480)])),
            (2, connector(ConnectorState::Disconnected, None, vec![])),
            (3, connector(ConnectorState::Connected, None, vec![mode(1920, 1080)])),
        ],
        encoders: vec![],
        crtcs: vec![],
    };
    assert_eq!(get_card_modes(&device), Ok(vec![mode(1920, 1080)]));
}

#[test]
fn resource_fetch_failure_leaves_other_devices_alone() {
    // Device 0 cannot even fetch its resource set; device 1 holds one
    // connected connector with native mode 2560x1440.  Aggregating the
    // per-device results must give exactly [2560x1440].
    let device0 = Device {
        resource_connectors: None,
        connectors: vec![],
        encoders: vec![],
        crtcs: vec![],
    };
    let device1 = Device {
        resource_connectors: Some(vec![1]),
        connectors: vec![(
            1,
            connector(ConnectorState::Connected, None, vec![mode(2560, 1440)]),
        )],
        encoders: vec![],
        crtcs: vec![],
    };
    let mut aggregate: Vec<Mode> = Vec::new();
    for device in [&device0, &device1] {
        match get_card_modes(device) {
            Ok(modes) => aggregate.extend_from_slice(&modes),
            Err(err) => assert_eq!(err, ResolveError::ResourceFetch),
        }
    }
    assert_eq!(aggregate, vec![mode(2560, 1440)]);
}

#[test]
fn repeated_pass_returns_the_same_sequence() {
    let device = Device {
        resource_connectors: Some(vec![1, 2]),
        connectors: vec![
            (1, connector(ConnectorState::Connected, Some(10), vec![mode(1024, 768)])),
            (2, connector(ConnectorState::Connected, None, vec![mode(1920, 1080)])),
        ],
        encoders: vec![(10, EncoderInfo { crtc: Some(20) })],
        crtcs: vec![(20, CrtcInfo { mode: Some(mode(3840, 2160)) })],
    };
    let first = get_card_modes(&device);
    let second = get_card_modes(&device);
    assert_eq!(first, second);
    assert_eq!(first, Ok(vec![mode(3840, 2160), mode(1920, 1080)]));
}

#[test]
fn order_follows_resource_set_enumeration() {
    // Handles are enumerated 5, 3, 9; neither the handle values nor
    // the mode sizes are in sorted order, and the result must follow
    // the enumeration, not any sort.
    let device = Device {
        resource_connectors: Some(vec![5, 3, 9]),
        connectors: vec![
            (3, connector(ConnectorState::Connected, None, vec![mode(3840, 2160)])),
            (5, connector(ConnectorState::Connected, None, vec![mode(1024, 768)])),
            (9, connector(ConnectorState::Connected, None, vec![mode(1920, 1080)])),
        ],
        encoders: vec![],
        crtcs: vec![],
    };
    assert_eq!(
        get_card_modes(&device),
        Ok(vec![mode(1024, 768), mode(3840, 2160), mode(1920, 1080)])
    );
}

#[test]
fn unresolvable_connector_handle_is_fatal() {
    // Handle 2 sits in the resource set but resolves to nothing.
    let device = Device {
        resource_connectors: Some(vec![1, 2]),
        connectors: vec![(
            1,
            connector(ConnectorState::Connected, None, vec![mode(1920, 1080)]),
        )],
        encoders: vec![],
        crtcs: vec![],
    };
    assert_eq!(get_card_modes(&device), Err(ResolveError::ConnectorFetch));
}

#[test]
fn resolution_of_unconnected_connector_is_refused() {
    let device = empty_device();
    let idle = connector(ConnectorState::Disconnected, None, vec![mode(800, 600)]);
    assert_eq!(get_connector_mode(&device, &idle), Err(ResolveError::NotConnected));
}

#[test]
fn unresolvable_encoder_handle_fails_the_connector() {
    let device = empty_device();
    let broken = connector(ConnectorState::Connected, Some(10), vec![mode(800, 600)]);
    assert_eq!(get_connector_mode(&device, &broken), Err(ResolveError::EncoderFetch));
}

#[test]
fn unresolvable_crtc_handle_fails_the_connector() {
    let device = Device {
        resource_connectors: Some(vec![]),
        connectors: vec![],
        encoders: vec![(10, EncoderInfo { crtc: Some(20) })],
        crtcs: vec![],
    };
    let broken = connector(ConnectorState::Connected, Some(10), vec![mode(800, 600)]);
    assert_eq!(get_connector_mode(&device, &broken), Err(ResolveError::CrtcFetch));
}

#[test]
fn device_without_connectors_yields_empty_result() {
    assert_eq!(get_card_modes(&empty_device()), Ok(vec![]));
}

#[test]
fn duplicate_handle_resolves_to_first_entry() {
    let device = Device {
        resource_connectors: Some(vec![1]),
        connectors: vec![
            (1, connector(ConnectorState::Connected, None, vec![mode(1920, 1080)])),
            (1, connector(ConnectorState::Connected, None, vec![mode(640, 480)])),
        ],
        encoders: vec![],
        crtcs: vec![],
    };
    assert_eq!(get_card_modes(&device), Ok(vec![mode(1920, 1080)]));
}
