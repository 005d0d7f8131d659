use anker_powerhouse::command::{
    AcTimerCommand, AnkerCommand, LedCommand, PowerSaveCommand, RechargePowerCommand,
};
use anker_powerhouse::device::{
    ConnectionState, DeviceError, DeviceState, SetState, NOTIFY_UUID, RECONNECT_DELAY_MS,
    SCAN_POLL_MS, SCAN_TIMEOUT_MS, WRITE_TIMEOUT_MS, WRITE_UUID,
};
use anker_powerhouse::supervisor::{
    find_position, find_target, matches_device_name, AnkerDevice, LinkAction, LinkEvent, Stage,
    Step, WriteOutcome,
};
use anker_powerhouse::telemetry::{
    DecodeFailure, LedState, StateAck, Telemetry, TelemetryError,
};

fn telemetry_bytes(percentage: u8) -> Vec<u8> {
    let mut data = vec![0u8; 102];
    data[5] = 1;
    data[6] = 0x49;
    data[68] = 2;
    data[72] = percentage;
    data[85..101].copy_from_slice(b"SERIAL0123456789");
    data
}

fn state_ack_bytes() -> Vec<u8> {
    let mut data = vec![0u8; 13];
    data[5] = 1;
    data[6] = 0x48;
    data[9] = 1;
    data[12] = 2;
    data
}

fn names(list: &[Option<&str>]) -> Vec<Option<String>> {
    list.iter().map(|n| n.map(|s| s.to_string())).collect()
}

fn backoff() -> LinkAction {
    LinkAction::Backoff { delay_ms: 5000 }
}

fn connected() -> AnkerDevice {
    let mut device = AnkerDevice::new();
    device.handle(LinkEvent::Begin);
    device.handle(LinkEvent::AdapterReady);
    device.handle(LinkEvent::ScanStarted);
    device.handle(LinkEvent::Peripherals {
        names: names(&[Some("Anker 767_PowerHouse")]),
        elapsed_ms: 10,
    });
    device.handle(LinkEvent::ScanStopped);
    device.handle(LinkEvent::LinkUp);
    device.handle(LinkEvent::Services { characteristics: vec![WRITE_UUID, NOTIFY_UUID] });
    device.handle(LinkEvent::Subscribed);
    assert_eq!(device.stage(), Stage::Streaming);
    device
}

fn at(stage: Stage) -> AnkerDevice {
    let mut device = AnkerDevice::new();
    let events = vec![
        LinkEvent::Begin,
        LinkEvent::AdapterReady,
        LinkEvent::ScanStarted,
        LinkEvent::Peripherals { names: names(&[Some("767_PowerHouse")]), elapsed_ms: 0 },
        LinkEvent::ScanStopped,
        LinkEvent::LinkUp,
        LinkEvent::Services { characteristics: vec![NOTIFY_UUID, WRITE_UUID] },
        LinkEvent::Subscribed,
    ];
    for event in events {
        if device.stage() == stage {
            break;
        }
        device.handle(event);
    }
    assert_eq!(device.stage(), stage);
    device
}

fn all_stages() -> Vec<Stage> {
    vec![
        Stage::Idle,
        Stage::AcquiringAdapter,
        Stage::StartingScan,
        Stage::Searching,
        Stage::StoppingScan,
        Stage::Linking,
        Stage::Discovering,
        Stage::Subscribing,
        Stage::Streaming,
    ]
}

fn quiet(action: LinkAction, phase: Option<ConnectionState>) -> Step {
    Step { action, phase, telemetry: None, failure: None, rejected: None }
}

#[test]
fn constants_are_the_documented_defaults() {
    assert_eq!(RECONNECT_DELAY_MS, 5000);
    assert_eq!(SCAN_TIMEOUT_MS, 30000);
    assert_eq!(SCAN_POLL_MS, 500);
    assert_eq!(WRITE_TIMEOUT_MS, 5000);
    assert_eq!(WRITE_UUID, 0x00007777_0000_1000_8000_00805f9b34fb);
    assert_eq!(NOTIFY_UUID, 0x00008888_0000_1000_8000_00805f9b34fb);
}

#[test]
fn a_new_device_is_disconnected_and_knows_nothing() {
    let device = AnkerDevice::new();
    assert_eq!(device.stage(), Stage::Idle);
    assert_eq!(device.connection_state(), ConnectionState::Disconnected);
    assert!(!device.link_installed());
    assert_eq!(device.state(), DeviceState::default());
    assert_eq!(
        DeviceState::default(),
        DeviceState {
            connection_state: ConnectionState::Disconnected,
            last_telemetry: None,
            last_state_ack: None,
            set_state: SetState::default(),
        }
    );
}

#[test]
fn a_whole_cycle_goes_through_the_phases_in_order() {
    let mut device = AnkerDevice::new();
    let step = device.handle(LinkEvent::Begin);
    assert_eq!(step, quiet(LinkAction::AcquireAdapter, Some(ConnectionState::Scanning)));
    assert_eq!(device.connection_state(), ConnectionState::Scanning);

    let step = device.handle(LinkEvent::AdapterReady);
    assert_eq!(step, quiet(LinkAction::StartScan, None));

    let step = device.handle(LinkEvent::ScanStarted);
    assert_eq!(step, quiet(LinkAction::PollPeripherals { delay_ms: 0 }, None));

    let step = device.handle(LinkEvent::Peripherals {
        names: names(&[None, Some("Headphones")]),
        elapsed_ms: 3,
    });
    assert_eq!(step, quiet(LinkAction::PollPeripherals { delay_ms: 500 }, None));
    assert_eq!(device.stage(), Stage::Searching);

    let step = device.handle(LinkEvent::Peripherals {
        names: names(&[None, Some("Headphones"), Some("Anker 767_PowerHouse-A1"), Some("767_PowerHouse")]),
        elapsed_ms: 504,
    });
    assert_eq!(step, quiet(LinkAction::StopScan { peripheral: 2 }, None));
    assert_eq!(device.connection_state(), ConnectionState::Scanning);

    let step = device.handle(LinkEvent::ScanStopped);
    assert_eq!(step, quiet(LinkAction::Connect, Some(ConnectionState::Connecting)));
    assert_eq!(device.connection_state(), ConnectionState::Connecting);

    let step = device.handle(LinkEvent::LinkUp);
    assert_eq!(step, quiet(LinkAction::DiscoverServices, None));

    let step = device.handle(LinkEvent::Services {
        characteristics: vec![0x1800, NOTIFY_UUID, WRITE_UUID, NOTIFY_UUID],
    });
    assert_eq!(step, quiet(LinkAction::Subscribe { write: 2, notify: 1 }, None));
    assert!(!device.link_installed());

    let step = device.handle(LinkEvent::Subscribed);
    assert_eq!(step, quiet(LinkAction::Listen, Some(ConnectionState::Connected)));
    assert_eq!(device.connection_state(), ConnectionState::Connected);
    assert!(device.link_installed());
    assert_eq!(device.state().connection_state, ConnectionState::Connected);
}

#[test]
fn scan_is_given_up_after_the_timeout() {
    let mut device = at(Stage::Searching);
    let step = device.handle(LinkEvent::Peripherals { names: names(&[None]), elapsed_ms: 30000 });
    assert_eq!(step.action, LinkAction::PollPeripherals { delay_ms: 500 });
    // Even a device that is there is not taken once the time is up.
    let step = device.handle(LinkEvent::Peripherals {
        names: names(&[Some("767_PowerHouse")]),
        elapsed_ms: 30001,
    });
    assert_eq!(
        step,
        Step {
            action: backoff(),
            phase: Some(ConnectionState::Disconnected),
            telemetry: None,
            failure: Some(DeviceError::NotFound),
            rejected: None,
        }
    );
    assert_eq!(device.stage(), Stage::Idle);
    assert_eq!(device.connection_state(), ConnectionState::Disconnected);
}

#[test]
fn a_missing_adapter_is_not_found() {
    let mut device = at(Stage::AcquiringAdapter);
    let step = device.handle(LinkEvent::AdapterMissing);
    assert_eq!(step.failure, Some(DeviceError::NotFound));
    assert_eq!(step.action, backoff());
    assert_eq!(step.phase, Some(ConnectionState::Disconnected));
    assert_eq!(device.stage(), Stage::Idle);
}

#[test]
fn a_missing_characteristic_ends_the_cycle() {
    let mut device = at(Stage::Discovering);
    let step = device.handle(LinkEvent::Services { characteristics: vec![NOTIFY_UUID] });
    assert_eq!(step.failure, Some(DeviceError::CharacteristicNotFound(WRITE_UUID)));
    assert_eq!(step.action, backoff());
    assert_eq!(device.connection_state(), ConnectionState::Disconnected);

    let mut device = at(Stage::Discovering);
    let step = device.handle(LinkEvent::Services { characteristics: vec![WRITE_UUID, 7] });
    assert_eq!(step.failure, Some(DeviceError::CharacteristicNotFound(NOTIFY_UUID)));

    // The one for writing is looked for first.
    let mut device = at(Stage::Discovering);
    let step = device.handle(LinkEvent::Services { characteristics: vec![] });
    assert_eq!(step.failure, Some(DeviceError::CharacteristicNotFound(WRITE_UUID)));
}

#[test]
fn a_transport_failure_ends_the_cycle_at_every_stage() {
    for stage in all_stages() {
        let mut device = at(stage);
        let step = device.handle(LinkEvent::Failed("adapter gone".to_string()));
        assert_eq!(
            step,
            Step {
                action: backoff(),
                phase: Some(ConnectionState::Disconnected),
                telemetry: None,
                failure: Some(DeviceError::Ble("adapter gone".to_string())),
                rejected: None,
            }
        );
        assert_eq!(device.stage(), Stage::Idle);
        assert!(!device.link_installed());
        // The next cycle starts as the first did.
        let step = device.handle(LinkEvent::Begin);
        assert_eq!(step, quiet(LinkAction::AcquireAdapter, Some(ConnectionState::Scanning)));
    }
}

#[test]
fn an_event_out_of_turn_ends_the_cycle() {
    for stage in all_stages() {
        let mut device = at(stage);
        let event = if stage == Stage::Linking { LinkEvent::Subscribed } else { LinkEvent::LinkUp };
        let step = device.handle(event);
        assert_eq!(step.failure, Some(DeviceError::NotConnected));
        assert_eq!(step.action, backoff());
        assert_eq!(step.phase, Some(ConnectionState::Disconnected));
        assert_eq!(device.stage(), Stage::Idle);
    }
    let mut device = at(Stage::Linking);
    let step = device.handle(LinkEvent::Notification(telemetry_bytes(50)));
    assert_eq!(step.failure, Some(DeviceError::NotConnected));
    assert_eq!(step.telemetry, None);
    assert_eq!(device.state().last_telemetry, None);
}

#[test]
fn stream_end_while_connected_disconnects_and_no_command_succeeds_afterwards() {
    let mut device = connected();
    let command = AnkerCommand::PowerSave(PowerSaveCommand::new(true));
    let frame = device.prepare_command(&command).unwrap();
    assert_eq!(frame, command.to_bytes());

    let step = device.handle(LinkEvent::StreamEnded);
    assert_eq!(
        step,
        Step {
            action: backoff(),
            phase: Some(ConnectionState::Disconnected),
            telemetry: None,
            failure: None,
            rejected: None,
        }
    );
    assert_eq!(device.connection_state(), ConnectionState::Disconnected);
    assert_eq!(device.state().connection_state, ConnectionState::Disconnected);
    assert!(!device.link_installed());

    // A command submitted afterwards is refused.
    assert_eq!(device.prepare_command(&command), Err(DeviceError::NotConnected));
    // A write that was under way when the stream ended has not succeeded.
    assert_eq!(device.complete_command(WriteOutcome::Written), Err(DeviceError::NotConnected));
}

#[test]
fn commands_are_refused_in_every_phase_but_connected() {
    let command = AnkerCommand::AcTimer(AcTimerCommand::new(3600));
    for stage in all_stages() {
        let device = at(stage);
        let r = device.prepare_command(&command);
        if stage == Stage::Streaming {
            assert_eq!(r, Ok(command.to_bytes()));
            assert_eq!(device.complete_command(WriteOutcome::Written), Ok(()));
        } else {
            assert_eq!(r, Err(DeviceError::NotConnected));
            assert_eq!(device.complete_command(WriteOutcome::Written), Err(DeviceError::NotConnected));
        }
    }
}

#[test]
fn write_outcomes_become_typed_failures() {
    let device = connected();
    assert_eq!(device.complete_command(WriteOutcome::Written), Ok(()));
    assert_eq!(device.complete_command(WriteOutcome::TimedOut), Err(DeviceError::WriteTimeout));
    assert_eq!(
        device.complete_command(WriteOutcome::Failed("gatt error".to_string())),
        Err(DeviceError::Ble("gatt error".to_string()))
    );
    let idle = AnkerDevice::new();
    assert_eq!(idle.complete_command(WriteOutcome::TimedOut), Err(DeviceError::WriteTimeout));
}

#[test]
fn telemetry_is_kept_and_published() {
    let mut device = connected();
    let step = device.handle(LinkEvent::Notification(telemetry_bytes(71)));
    let expected = Telemetry::from_bytes(&telemetry_bytes(71)).unwrap();
    assert_eq!(step.action, LinkAction::Listen);
    assert_eq!(step.phase, None);
    assert_eq!(step.failure, None);
    assert_eq!(step.rejected, None);
    assert_eq!(step.telemetry, Some(expected.clone()));
    assert_eq!(device.state().last_telemetry, Some(expected));
    assert_eq!(device.stage(), Stage::Streaming);

    let step = device.handle(LinkEvent::Notification(telemetry_bytes(70)));
    assert_eq!(step.telemetry.unwrap().total_battery_percentage, 70);
    assert_eq!(device.state().last_telemetry.unwrap().total_battery_percentage, 70);
}

#[test]
fn state_ack_is_kept_and_not_published() {
    let mut device = connected();
    device.handle(LinkEvent::Notification(telemetry_bytes(71)));
    let step = device.handle(LinkEvent::Notification(state_ack_bytes()));
    assert_eq!(step, quiet(LinkAction::Listen, None));
    let state = device.state();
    assert_eq!(
        state.last_state_ack,
        Some(StateAck {
            ac_outlet_on: true,
            twelve_volt_on: false,
            power_save_on: false,
            led_state: LedState::Mid,
        })
    );
    assert_eq!(state.last_telemetry.unwrap().total_battery_percentage, 71);
}

#[test]
fn command_ack_changes_nothing() {
    let mut device = connected();
    let before = device.state();
    let mut data = vec![0u8; 10];
    data[5] = 2;
    data[6] = 0x8a;
    let step = device.handle(LinkEvent::Notification(data));
    assert_eq!(step, quiet(LinkAction::Listen, None));
    assert_eq!(device.state(), before);
}

#[test]
fn a_notification_that_cannot_be_decoded_is_dropped_and_the_link_stays() {
    let mut device = connected();
    device.handle(LinkEvent::Notification(telemetry_bytes(71)));
    let before = device.state();

    let step = device.handle(LinkEvent::Notification(vec![1, 2, 3]));
    assert_eq!(step.action, LinkAction::Listen);
    assert_eq!(step.phase, None);
    assert_eq!(step.failure, None);
    assert_eq!(step.telemetry, None);
    assert_eq!(step.rejected, Some(TelemetryError::DataTooShort { expected: 10, actual: 3 }));
    assert_eq!(device.state(), before);
    assert!(device.link_installed());

    let mut bad = telemetry_bytes(10);
    bad[68] = 3;
    let step = device.handle(LinkEvent::Notification(bad));
    assert_eq!(step.rejected.unwrap().kind(), DecodeFailure::UnknownBatteryState(3));
    assert_eq!(device.state(), before);
    assert_eq!(device.stage(), Stage::Streaming);
}

#[test]
fn what_is_known_survives_a_reconnect() {
    let mut device = connected();
    device.handle(LinkEvent::Notification(telemetry_bytes(42)));
    device.record_command(&AnkerCommand::Led(LedCommand::new(3).unwrap()));
    device.handle(LinkEvent::StreamEnded);
    let state = device.state();
    assert_eq!(state.connection_state, ConnectionState::Disconnected);
    assert_eq!(state.last_telemetry.unwrap().total_battery_percentage, 42);
    assert_eq!(state.set_state.led_level, Some(3));
}

#[test]
fn sent_commands_are_recorded_one_value_each() {
    let mut device = connected();
    device.record_command(&AnkerCommand::RechargePower(RechargePowerCommand::new(800).unwrap()));
    device.record_command(&AnkerCommand::PowerSave(PowerSaveCommand::new(true)));
    device.record_command(&AnkerCommand::AcTimer(AcTimerCommand::new(60)));
    device.record_command(&AnkerCommand::AcTimer(AcTimerCommand::new(90)));
    let mut expected = SetState::default();
    expected.recharge_power = Some(800);
    expected.power_save = Some(true);
    expected.ac_timer = Some(90);
    assert_eq!(device.state().set_state, expected);
    assert_eq!(device.stage(), Stage::Streaming);
}

#[test]
fn device_name_is_matched_as_a_substring() {
    assert!(matches_device_name("767_PowerHouse"));
    assert!(matches_device_name("Anker 767_PowerHouse (2)"));
    assert!(!matches_device_name("767_Powerhouse"));
    assert!(!matches_device_name("767_PowerHous"));
    assert!(!matches_device_name(""));
    assert!(matches_device_name("\u{e9}\u{e9}767_PowerHouse\u{e9}"));
}

#[test]
fn the_first_match_is_found() {
    assert_eq!(find_target(&names(&[])), None);
    assert_eq!(find_target(&names(&[None, Some("x")])), None);
    assert_eq!(
        find_target(&names(&[None, Some("x"), Some("a 767_PowerHouse"), Some("767_PowerHouse")])),
        Some(2)
    );
    assert_eq!(find_position(&vec![], 5), None);
    assert_eq!(find_position(&vec![1, 5, 3, 5], 5), Some(1));
    assert_eq!(find_position(&vec![1, 2, 3], 5), None);
    assert_eq!(find_position(&vec![u128::MAX], u128::MAX), Some(0));
}

#[test]
fn phases_of_stages() {
    let expected = vec![
        ConnectionState::Disconnected,
        ConnectionState::Scanning,
        ConnectionState::Scanning,
        ConnectionState::Scanning,
        ConnectionState::Scanning,
        ConnectionState::Connecting,
        ConnectionState::Connecting,
        ConnectionState::Connecting,
        ConnectionState::Connected,
    ];
    let got: Vec<ConnectionState> = all_stages().iter().map(|s| s.phase()).collect();
    assert_eq!(got, expected);
    for stage in all_stages() {
        let device = at(stage);
        assert_eq!(device.connection_state(), stage.phase());
        assert_eq!(device.link_installed(), stage.phase() == ConnectionState::Connected);
    }
}

fn sample_events() -> Vec<LinkEvent> {
    vec![
        LinkEvent::Begin,
        LinkEvent::AdapterReady,
        LinkEvent::AdapterMissing,
        LinkEvent::ScanStarted,
        LinkEvent::Peripherals { names: names(&[Some("767_PowerHouse")]), elapsed_ms: 0 },
        LinkEvent::Peripherals { names: names(&[Some("other")]), elapsed_ms: 0 },
        LinkEvent::ScanStopped,
        LinkEvent::LinkUp,
        LinkEvent::Services { characteristics: vec![WRITE_UUID, NOTIFY_UUID] },
        LinkEvent::Subscribed,
        LinkEvent::Notification(telemetry_bytes(1)),
        LinkEvent::Notification(vec![]),
        LinkEvent::StreamEnded,
        LinkEvent::Failed("x".to_string()),
    ]
}

fn order(phase: ConnectionState) -> u8 {
    match phase {
        ConnectionState::Disconnected => 0,
        ConnectionState::Scanning => 1,
        ConnectionState::Connecting => 2,
        ConnectionState::Connected => 3,
    }
}

#[test]
fn the_link_comes_up_by_subscription_only() {
    for stage in all_stages() {
        for (k, event) in sample_events().into_iter().enumerate() {
            let mut device = at(stage);
            let subscribed = matches!(event, LinkEvent::Subscribed);
            let notification = matches!(event, LinkEvent::Notification(_));
            device.handle(event);
            if device.stage() == Stage::Streaming {
                assert!(
                    (stage == Stage::Subscribing && subscribed)
                        || (stage == Stage::Streaming && notification),
                    "stage {:?}, event {}",
                    stage,
                    k
                );
            }
        }
    }
}

#[test]
fn every_step_keeps_the_phases_in_order_and_ends_a_cycle_with_the_delay() {
    for stage in all_stages() {
        for event in sample_events() {
            let mut device = at(stage);
            let before = order(device.connection_state());
            let step = device.handle(event);
            let after = order(device.connection_state());
            assert!(after == before || after == 0 || after == before + 1);
            assert_eq!(device.stage() == Stage::Idle, step.action == backoff());
            if step.failure.is_some() {
                assert_eq!(device.stage(), Stage::Idle);
            }
            if device.stage() == Stage::Idle {
                assert_eq!(step.phase, Some(ConnectionState::Disconnected));
            } else if after != before {
                assert_eq!(step.phase, Some(device.connection_state()));
            } else {
                assert_eq!(step.phase, None);
            }
            assert_eq!(device.link_installed(), after == 3);
        }
    }
}

#[test]
fn the_link_stays_down_until_subscribed_again() {
    let mut device = connected();
    device.handle(LinkEvent::StreamEnded);
    let mut seed: u32 = 12345;
    for _ in 0..2000 {
        seed = seed.wrapping_mul(1103515245).wrapping_add(12345);
        let mut events = sample_events();
        let pick = (seed >> 16) as usize % events.len();
        let event = events.swap_remove(pick);
        if matches!(event, LinkEvent::Subscribed) {
            continue;
        }
        device.handle(event);
        assert!(!device.link_installed());
        assert_eq!(
            device.prepare_command(&AnkerCommand::PowerSave(PowerSaveCommand::new(false))),
            Err(DeviceError::NotConnected)
        );
    }
}
