use anker_powerhouse::command::CommandType;
use anker_powerhouse::device::ConnectionState;
use anker_powerhouse::metrics::{
    increment_command, render, set_timestamp, stamp_line, stamp_lines, update_connection_state,
    update_from_telemetry, Metric, Sample, SampleLabel, Timestamps,
};
use anker_powerhouse::telemetry::{Battery, BatteryState, Output, Telemetry};

fn plain(metric: Metric, value: i64) -> Sample {
    Sample { metric, label: SampleLabel::Unlabelled, value }
}

fn port(metric: Metric, index: usize, value: i64) -> Sample {
    Sample { metric, label: SampleLabel::Port(index), value }
}

fn snapshot() -> Telemetry {
    Telemetry {
        battery_remaining_days: 1,
        battery_remaining_tenths: 5,
        ac_outlet: Output { is_on: true, watts: 1200, time_remaining_seconds: None },
        twelve_volt: vec![
            Output { is_on: true, watts: 40, time_remaining_seconds: Some(600) },
            Output { is_on: false, watts: 0, time_remaining_seconds: Some(600) },
        ],
        usb_c: vec![
            Output { is_on: true, watts: 18, time_remaining_seconds: None },
            Output { is_on: false, watts: 0, time_remaining_seconds: None },
            Output { is_on: true, watts: 65, time_remaining_seconds: None },
        ],
        usb_a: vec![
            Output { is_on: false, watts: 5, time_remaining_seconds: None },
            Output { is_on: true, watts: 10, time_remaining_seconds: None },
        ],
        total_output_watts: 1338,
        ac_input_watts: 300,
        solar_input_watts: 150,
        total_input_watts: 450,
        internal_battery: Battery { temperature: 25, percentage: 80 },
        external_battery: Battery { temperature: 21, percentage: 60 },
        battery_state: BatteryState::Charging,
        total_battery_percentage: 70,
        device_serial: "AZVZ1234567890AB".to_string(),
    }
}

#[test]
fn connected_is_one_only_while_connected() {
    assert_eq!(update_connection_state(ConnectionState::Connected), plain(Metric::Connected, 1));
    assert_eq!(update_connection_state(ConnectionState::Disconnected), plain(Metric::Connected, 0));
    assert_eq!(update_connection_state(ConnectionState::Scanning), plain(Metric::Connected, 0));
    assert_eq!(update_connection_state(ConnectionState::Connecting), plain(Metric::Connected, 0));
}

#[test]
fn a_sent_command_counts_one_of_its_type() {
    let sample = increment_command(CommandType::AcTimer);
    assert_eq!(
        sample,
        Sample {
            metric: Metric::CommandsTotal,
            label: SampleLabel::Command(CommandType::AcTimer),
            value: 1
        }
    );
    assert_eq!(sample.key(), "anker_commands_total{command=\"ac_timer\"}");
    assert_eq!(sample.label.text(), Some("ac_timer".to_string()));
}

#[test]
fn telemetry_gives_every_sample_in_order() {
    let samples = update_from_telemetry(&snapshot());
    let expected = vec![
        plain(Metric::BatteryPercentage, 70),
        Sample { metric: Metric::BatteryPercentageIndividual, label: SampleLabel::Internal, value: 80 },
        Sample { metric: Metric::BatteryPercentageIndividual, label: SampleLabel::External, value: 60 },
        plain(Metric::BatteryRemainingHours, 245),
        Sample { metric: Metric::BatteryTemperature, label: SampleLabel::Internal, value: 25 },
        Sample { metric: Metric::BatteryTemperature, label: SampleLabel::External, value: 21 },
        plain(Metric::BatteryState, 2),
        plain(Metric::TotalOutputWatts, 1338),
        plain(Metric::TotalInputWatts, 450),
        plain(Metric::AcInputWatts, 300),
        plain(Metric::SolarInputWatts, 150),
        plain(Metric::AcOutletOn, 1),
        plain(Metric::AcOutletWatts, 1200),
        port(Metric::TwelveVoltOn, 0, 1),
        port(Metric::TwelveVoltWatts, 0, 40),
        port(Metric::TwelveVoltOn, 1, 0),
        port(Metric::TwelveVoltWatts, 1, 0),
        plain(Metric::TwelveVoltTimerSeconds, 600),
        port(Metric::UsbCOn, 0, 1),
        port(Metric::UsbCWatts, 0, 18),
        port(Metric::UsbCOn, 1, 0),
        port(Metric::UsbCWatts, 1, 0),
        port(Metric::UsbCOn, 2, 1),
        port(Metric::UsbCWatts, 2, 65),
        port(Metric::UsbAOn, 0, 0),
        port(Metric::UsbAWatts, 0, 5),
        port(Metric::UsbAOn, 1, 1),
        port(Metric::UsbAWatts, 1, 10),
    ];
    assert_eq!(samples, expected);
}

#[test]
fn telemetry_without_twelve_volt_outlets_has_no_timer_sample() {
    let mut t = snapshot();
    t.twelve_volt = vec![];
    t.usb_c = vec![];
    let samples = update_from_telemetry(&t);
    assert_eq!(samples.len(), 13 + 4);
    assert!(samples.iter().all(|s| s.metric != Metric::TwelveVoltTimerSeconds));
    let mut t = snapshot();
    t.twelve_volt[0].time_remaining_seconds = None;
    let samples = update_from_telemetry(&t);
    assert_eq!(samples.len(), 27);
    assert!(samples.iter().all(|s| s.metric != Metric::TwelveVoltTimerSeconds));
}

#[test]
fn sample_keys_name_the_metric_and_the_label() {
    assert_eq!(plain(Metric::BatteryPercentage, 1).key(), "anker_battery_percentage");
    assert_eq!(port(Metric::UsbCOn, 2, 1).key(), "anker_usb_c_on{port=\"2\"}");
    assert_eq!(port(Metric::TwelveVoltWatts, 10, 1).key(), "anker_twelve_volt_watts{port=\"10\"}");
    assert_eq!(
        Sample { metric: Metric::BatteryTemperature, label: SampleLabel::Internal, value: 0 }.key(),
        "anker_battery_temperature{battery=\"internal\"}"
    );
    assert_eq!(
        Sample { metric: Metric::BatteryPercentageIndividual, label: SampleLabel::External, value: 0 }
            .key(),
        "anker_battery_percentage_individual{battery=\"external\"}"
    );
    // A label on a metric that has none is left out, and so is a label that is missing.
    assert_eq!(port(Metric::Connected, 1, 1).key(), "anker_connected");
    assert_eq!(plain(Metric::UsbAOn, 1).key(), "anker_usb_a_on");
}

#[test]
fn the_catalogue_has_twenty_metrics() {
    let all = vec![
        (Metric::BatteryPercentage, "anker_battery_percentage", "Total battery percentage", None),
        (
            Metric::BatteryPercentageIndividual,
            "anker_battery_percentage_individual",
            "Individual battery percentage",
            Some("battery"),
        ),
        (
            Metric::BatteryRemainingHours,
            "anker_battery_remaining_hours",
            "Estimated battery remaining time in hours",
            None,
        ),
        (
            Metric::BatteryTemperature,
            "anker_battery_temperature",
            "Battery temperature in celsius",
            Some("battery"),
        ),
        (
            Metric::BatteryState,
            "anker_battery_state",
            "Battery state (0=idle, 1=discharging, 2=charging)",
            None,
        ),
        (Metric::TotalOutputWatts, "anker_total_output_watts", "Total output power in watts", None),
        (Metric::TotalInputWatts, "anker_total_input_watts", "Total input power in watts", None),
        (Metric::AcInputWatts, "anker_ac_input_watts", "AC input power in watts", None),
        (Metric::SolarInputWatts, "anker_solar_input_watts", "Solar input power in watts", None),
        (Metric::AcOutletOn, "anker_ac_outlet_on", "AC outlet status (0=off, 1=on)", None),
        (Metric::AcOutletWatts, "anker_ac_outlet_watts", "AC outlet power in watts", None),
        (Metric::TwelveVoltOn, "anker_twelve_volt_on", "12V outlet status (0=off, 1=on)", Some("port")),
        (Metric::TwelveVoltWatts, "anker_twelve_volt_watts", "12V outlet power in watts", Some("port")),
        (
            Metric::TwelveVoltTimerSeconds,
            "anker_twelve_volt_timer_seconds",
            "12V outlet timer remaining in seconds",
            None,
        ),
        (Metric::UsbCOn, "anker_usb_c_on", "USB-C port status (0=off, 1=on)", Some("port")),
        (Metric::UsbCWatts, "anker_usb_c_watts", "USB-C port power in watts", Some("port")),
        (Metric::UsbAOn, "anker_usb_a_on", "USB-A port status (0=off, 1=on)", Some("port")),
        (Metric::UsbAWatts, "anker_usb_a_watts", "USB-A port power in watts", Some("port")),
        (
            Metric::Connected,
            "anker_connected",
            "BLE connection status (0=disconnected, 1=connected)",
            None,
        ),
        (Metric::CommandsTotal, "anker_commands_total", "Total commands sent by type", Some("command")),
    ];
    assert_eq!(all.len(), 20);
    for (metric, name, help, label) in all {
        assert_eq!(metric.name(), name);
        assert_eq!(metric.help(), help);
        assert_eq!(metric.label(), label);
    }
}

#[test]
fn timestamps_hold_the_latest_time_of_each_key() {
    let mut stamps = Timestamps::new();
    assert!(stamps.is_empty());
    assert_eq!(stamps.get("a"), None);
    stamps.set("a", 1);
    stamps.set("b", 2);
    stamps.set("a", 3);
    assert!(!stamps.is_empty());
    assert_eq!(stamps.get("a"), Some(3));
    assert_eq!(stamps.get("b"), Some(2));
    assert_eq!(stamps.get("c"), None);
    assert_eq!(stamps.get(""), None);
    set_timestamp(&mut stamps, &port(Metric::UsbAWatts, 1, 10), 77);
    assert_eq!(stamps.get("anker_usb_a_watts{port=\"1\"}"), Some(77));
    assert_eq!(stamps.get("a"), Some(3));
}

#[test]
fn exposition_without_times_is_left_as_it_is() {
    let text = "# HELP anker_connected x\n# TYPE anker_connected gauge\nanker_connected 1\n";
    assert_eq!(render(text, &Timestamps::new()), text);
    assert_eq!(render("", &Timestamps::new()), "");
}

#[test]
fn exposition_lines_get_their_times() {
    let text = "# HELP anker_connected BLE connection status\n# TYPE anker_connected gauge\nanker_connected 1\n\nanker_usb_c_on{port=\"0\"} 1\nanker_usb_c_on{port=\"1\"} 0\r\nanker_total_output_watts 1338\n";
    let mut stamps = Timestamps::new();
    stamps.set("anker_connected", 1700000000123);
    stamps.set("anker_usb_c_on{port=\"0\"}", 42);
    stamps.set("anker_usb_c_on{port=\"1\"}", 43);
    stamps.set("#", 9);
    let expected = "# HELP anker_connected BLE connection status\n# TYPE anker_connected gauge\nanker_connected 1 1700000000123\n\nanker_usb_c_on{port=\"0\"} 1 42\nanker_usb_c_on{port=\"1\"} 0 43\nanker_total_output_watts 1338";
    assert_eq!(render(text, &stamps), expected);
}

#[test]
fn a_line_is_stamped_by_its_first_word() {
    let mut stamps = Timestamps::new();
    stamps.set("name", 5);
    stamps.set("", 6);
    assert_eq!(stamp_line("name 1", &Some("name".to_string()), &stamps), "name 1 5");
    assert_eq!(stamp_line("other 1", &Some("other".to_string()), &stamps), "other 1");
    assert_eq!(stamp_line("# name 1", &Some("#".to_string()), &stamps), "# name 1");
    assert_eq!(stamp_line("", &None, &stamps), "");
    assert_eq!(stamp_line("   ", &None, &stamps), "    6");
    assert_eq!(stamp_line("  name 2", &Some("name".to_string()), &stamps), "  name 2 5");
}

#[test]
fn lines_are_stamped_and_joined() {
    let mut stamps = Timestamps::new();
    stamps.set("b", 2);
    let lines = vec!["a 1".to_string(), "b 1".to_string(), "# b".to_string(), "".to_string()];
    assert_eq!(stamp_lines(&lines, &stamps), "a 1\nb 1 2\n# b\n");
    assert_eq!(stamp_lines(&vec![], &stamps), "");
    assert_eq!(stamp_lines(&vec!["b".to_string()], &stamps), "b 2");
}

#[test]
fn catalogue_lists_each_metric_once_and_one_counter() {
    let all = Metric::catalogue();
    assert_eq!(all.len(), 20);
    for (i, a) in all.iter().enumerate() {
        for b in &all[i + 1..] {
            assert_ne!(a, b);
            assert_ne!(a.name(), b.name());
        }
    }
    let counters: Vec<&Metric> = all.iter().filter(|m| m.is_counter()).collect();
    assert_eq!(counters, vec![&Metric::CommandsTotal]);
    assert_eq!(all[0], Metric::BatteryPercentage);
    assert_eq!(all[19], Metric::CommandsTotal);
}
