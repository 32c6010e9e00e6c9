use plug::devices::{linear, rotate, scalars, vibrator, ActuatorKind};
use plug::messages::{ClientMessage, RotationSubcommand, ScalarSubcommand, ServerMessage, VectorSubcommand};
use plug::registry::FakeMessage;
use plug::server::{ConnectionState, FakeDeviceConnector};

fn scalar_cmd(id: u32, device_index: u32, scalar: u32) -> ClientMessage {
    ClientMessage::ScalarCmd {
        id,
        device_index,
        scalars: vec![ScalarSubcommand { index: 0, scalar, actuator: ActuatorKind::Vibrate }],
    }
}

fn linear_cmd(id: u32, device_index: u32, duration: u32, position: u32) -> ClientMessage {
    ClientMessage::LinearCmd {
        id,
        device_index,
        vectors: vec![VectorSubcommand { index: 0, duration, position }],
    }
}

fn rotate_cmd(id: u32, device_index: u32, speed: u32, clockwise: bool) -> ClientMessage {
    ClientMessage::RotateCmd {
        id,
        device_index,
        rotations: vec![RotationSubcommand { index: 0, speed, clockwise }],
    }
}

fn announced_name(msg: &ServerMessage) -> &str {
    match msg {
        ServerMessage::DeviceAdded { device } => device.name.as_str(),
        _ => panic!("not a device-added notification"),
    }
}

#[test]
fn adding_test_devices_works() {
    let mut connector = FakeDeviceConnector::new(vec![
        vibrator(1, "eins"),
        vibrator(2, "zwei"),
        vibrator(3, "drei"),
    ]);
    let announcements = connector.connect();
    assert_eq!(announcements.len(), 3);
    assert_eq!(announced_name(&announcements[0]), "eins");
    assert_eq!(announced_name(&announcements[1]), "zwei");
    assert_eq!(announced_name(&announcements[2]), "drei");
}

#[test]
fn call_registry_stores_vibrate() {
    let mut connector = FakeDeviceConnector::new(vec![vibrator(1, "vibrator")]);
    let _ = connector.connect();

    let _ = connector.send(scalar_cmd(1, 1, 1000), 0);

    let calls = connector.get_call_registry().get_device(1);
    assert!(calls[0].assert_strenth(1000));
}

#[test]
fn call_registry_stores_linear() {
    let mut connector = FakeDeviceConnector::new(vec![linear(1, "linear")]);
    let _ = connector.connect();

    let _ = connector.send(linear_cmd(1, 1, 42, 900), 0);

    let calls = connector.get_call_registry().get_device(1);
    assert!(calls[0].assert_position(900));
    assert!(calls[0].assert_duration(42));
}

#[test]
fn call_registry_stores_rotate() {
    let mut connector = FakeDeviceConnector::new(vec![rotate(1, "rotator")]);
    let _ = connector.connect();

    let _ = connector.send(rotate_cmd(1, 1, 420, false), 0);

    let calls = connector.get_call_registry().get_device(1);
    assert!(calls[0].assert_rotation(420));
    assert!(calls[0].assert_direction(false));
}

#[test]
fn scenario_two_device_roster() {
    let mut connector = FakeDeviceConnector::new(vec![
        vibrator(1, "Vibrator 1"),
        linear(4, "Linear 1"),
    ]);
    let _ = connector.connect();

    let _ = connector.send(scalar_cmd(1, 1, 700), 10);
    let _ = connector.send(linear_cmd(2, 4, 500, 300), 20);

    let registry = connector.get_call_registry();
    let vibrator_calls = registry.get_device(1);
    assert_eq!(vibrator_calls.len(), 1);
    assert!(vibrator_calls[0].assert_strenth(700));

    let linear_calls = registry.get_device(4);
    assert_eq!(linear_calls.len(), 1);
    assert!(linear_calls[0].assert_position(300));
    assert!(linear_calls[0].assert_duration(500));

    assert!(registry.assert_unused(7));
}

#[test]
fn stop_all_devices_is_acknowledged_but_not_recorded() {
    let mut connector = FakeDeviceConnector::new(vec![vibrator(1, "vibrator")]);
    let _ = connector.connect();
    let _ = connector.send(scalar_cmd(1, 1, 500), 0);

    let reply = connector.send(ClientMessage::StopAllDevices { id: 77 }, 5);
    match reply {
        ServerMessage::Ack { id } => assert_eq!(id, 77),
        _ => panic!("stop-all must be acknowledged"),
    }

    let registry = connector.get_call_registry();
    assert_eq!(registry.get_device(1).len(), 1);
}

#[test]
fn unknown_kind_is_acknowledged_but_not_recorded() {
    let mut connector = FakeDeviceConnector::new(vec![vibrator(1, "vibrator")]);
    let _ = connector.connect();

    let reply = connector.send(ClientMessage::Other { id: 9 }, 0);
    match reply {
        ServerMessage::Ack { id } => assert_eq!(id, 9),
        _ => panic!("unknown kinds must be acknowledged"),
    }
    assert!(connector.get_call_registry().assert_unused(1));
}

#[test]
fn server_info_reply_preserves_correlation_id() {
    let mut connector = FakeDeviceConnector::new(vec![]);
    let _ = connector.connect();

    let reply = connector.send(ClientMessage::RequestServerInfo { id: 42 }, 0);
    match reply {
        ServerMessage::ServerInfo { id, server_name, message_version, max_ping_time } => {
            assert_eq!(id, 42);
            assert_eq!(server_name, "test server");
            assert_eq!(message_version, 3);
            assert_eq!(max_ping_time, 0);
        }
        _ => panic!("handshake must be answered with the server identity"),
    }
}

#[test]
fn device_list_reply_is_empty() {
    let mut connector = FakeDeviceConnector::device_demo();
    let _ = connector.connect();

    let reply = connector.send(ClientMessage::RequestDeviceList { id: 8 }, 0);
    match reply {
        ServerMessage::DeviceList { id, devices } => {
            assert_eq!(id, 8);
            assert!(devices.is_empty());
        }
        _ => panic!("device-list requests must be answered with a device list"),
    }
}

#[test]
fn device_demo_roster_has_seven_devices() {
    let connector = FakeDeviceConnector::device_demo();
    assert_eq!(connector.devices.len(), 7);
    for (i, device) in connector.devices.iter().enumerate() {
        assert_eq!(device.index, (i + 1) as u32);
    }
    assert!(connector.devices[0].attributes.scalar_cmd.is_some());
    assert!(connector.devices[3].attributes.linear_cmd.is_some());
    assert!(connector.devices[6].attributes.rotate_cmd.is_some());
}

#[test]
fn connect_and_disconnect_change_state() {
    let mut connector = FakeDeviceConnector::new(vec![vibrator(1, "v")]);
    assert_eq!(connector.state, ConnectionState::Disconnected);
    let _ = connector.connect();
    assert_eq!(connector.state, ConnectionState::Connected);
    connector.disconnect();
    assert_eq!(connector.state, ConnectionState::Disconnected);
}

#[test]
fn scan_commands_are_recorded() {
    let mut connector = FakeDeviceConnector::new(vec![vibrator(1, "v")]);
    let _ = connector.connect();
    let _ = connector.send(ClientMessage::StartScanning { id: 1, device_index: 3 }, 0);
    let _ = connector.send(ClientMessage::StopScanning { id: 2, device_index: 3 }, 1);
    assert_eq!(connector.get_call_registry().get_device(3).len(), 2);
}

#[test]
fn assert_strengths_matches_pairwise() {
    let message = FakeMessage::new(
        ClientMessage::ScalarCmd {
            id: 1,
            device_index: 1,
            scalars: vec![
                ScalarSubcommand { index: 0, scalar: 300, actuator: ActuatorKind::Vibrate },
                ScalarSubcommand { index: 1, scalar: 600, actuator: ActuatorKind::Oscillate },
            ],
        },
        0,
    );
    assert!(message.assert_strengths(&vec![(0, 300), (1, 600)]));
    assert!(message.assert_strengths(&vec![(1, 600), (0, 300)]));
    assert!(!message.assert_strengths(&vec![(0, 300), (1, 500)]));
    assert!(!message.assert_strengths(&vec![(0, 300)]));
}

#[test]
fn multi_actuator_factory_builds_count_features() {
    let device = scalars(5, "many", ActuatorKind::Oscillate, 3);
    let features = device.attributes.scalar_cmd.as_ref().unwrap();
    assert_eq!(features.len(), 3);
    for f in features.iter() {
        assert_eq!(f.step_lo, 0);
        assert_eq!(f.step_hi, 10);
        assert_eq!(f.actuator, ActuatorKind::Oscillate);
    }
    assert!(device.attributes.linear_cmd.is_none());
}

#[test]
fn vibration_stopped_only_for_all_zero() {
    let stopped = FakeMessage::new(scalar_cmd(1, 1, 0), 0);
    assert!(stopped.vibration_stopped());
    let running = FakeMessage::new(scalar_cmd(2, 1, 500), 0);
    assert!(!running.vibration_stopped());
}

#[test]
fn timestamps_are_checked_within_tolerance() {
    let message = FakeMessage::new(scalar_cmd(1, 1, 100), 1000);
    assert!(message.assert_timestamp(1000, 0));
    assert!(message.assert_timestamp(980, 0));
    assert!(message.assert_timestamp(1025, 0));
    assert!(!message.assert_timestamp(900, 0));
    assert!(message.assert_timestamp(500, 500));
}

#[test]
fn checkers_quantify_over_every_subcommand() {
    let message = FakeMessage::new(
        ClientMessage::LinearCmd {
            id: 1,
            device_index: 1,
            vectors: vec![
                VectorSubcommand { index: 0, duration: 500, position: 300 },
                VectorSubcommand { index: 1, duration: 505, position: 300 },
            ],
        },
        0,
    );
    assert!(message.assert_position(300));
    assert!(message.assert_duration(500));
    let mixed = FakeMessage::new(
        ClientMessage::RotateCmd {
            id: 2,
            device_index: 1,
            rotations: vec![
                RotationSubcommand { index: 0, speed: 400, clockwise: true },
                RotationSubcommand { index: 1, speed: 400, clockwise: false },
            ],
        },
        0,
    );
    assert!(mixed.assert_rotation(400));
    assert!(!mixed.assert_direction(true));
    assert!(!mixed.assert_direction(false));
}

#[test]
fn mismatched_values_are_reported() {
    let message = FakeMessage::new(linear_cmd(1, 1, 400, 250), 0);
    assert!(!message.assert_position(300));
    assert!(!message.assert_duration(389));
    assert!(message.assert_duration(410));
    assert!(message.assert_duration(390));
}
