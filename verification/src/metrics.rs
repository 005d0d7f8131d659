//! What the metrics of the device are and which values they take: the
//! catalogue of the metrics, and the samples that a telemetry snapshot, a
//! phase or a sent command gives rise to.

use crate::command::{command_name, CommandType};
use crate::device::ConnectionState;
use crate::telemetry::{Output, Telemetry, TelemetryView};
use crate::text::{
    decimal_digits, decimal_string, first_word, first_word_of, lines_of, split_lines, texts,
};
use vstd::prelude::*;

verus! {

/// The metrics that are exported.
#[derive(Debug, Clone, Copy, PartialEq, Eq, Hash, Structural)]
pub enum Metric {
    BatteryPercentage,
    BatteryPercentageIndividual,
    BatteryRemainingHours,
    BatteryTemperature,
    BatteryState,
    TotalOutputWatts,
    TotalInputWatts,
    AcInputWatts,
    SolarInputWatts,
    AcOutletOn,
    AcOutletWatts,
    TwelveVoltOn,
    TwelveVoltWatts,
    TwelveVoltTimerSeconds,
    UsbCOn,
    UsbCWatts,
    UsbAOn,
    UsbAWatts,
    Connected,
    CommandsTotal,
}

/// The name under which each metric is exported.
pub open spec fn metric_name(metric: Metric) -> Seq<char> {
    match metric {
        Metric::BatteryPercentage => "anker_battery_percentage"@,
        Metric::BatteryPercentageIndividual => "anker_battery_percentage_individual"@,
        Metric::BatteryRemainingHours => "anker_battery_remaining_hours"@,
        Metric::BatteryTemperature => "anker_battery_temperature"@,
        Metric::BatteryState => "anker_battery_state"@,
        Metric::TotalOutputWatts => "anker_total_output_watts"@,
        Metric::TotalInputWatts => "anker_total_input_watts"@,
        Metric::AcInputWatts => "anker_ac_input_watts"@,
        Metric::SolarInputWatts => "anker_solar_input_watts"@,
        Metric::AcOutletOn => "anker_ac_outlet_on"@,
        Metric::AcOutletWatts => "anker_ac_outlet_watts"@,
        Metric::TwelveVoltOn => "anker_twelve_volt_on"@,
        Metric::TwelveVoltWatts => "anker_twelve_volt_watts"@,
        Metric::TwelveVoltTimerSeconds => "anker_twelve_volt_timer_seconds"@,
        Metric::UsbCOn => "anker_usb_c_on"@,
        Metric::UsbCWatts => "anker_usb_c_watts"@,
        Metric::UsbAOn => "anker_usb_a_on"@,
        Metric::UsbAWatts => "anker_usb_a_watts"@,
        Metric::Connected => "anker_connected"@,
        Metric::CommandsTotal => "anker_commands_total"@,
    }
}

/// The words that explain each metric.
pub open spec fn metric_help(metric: Metric) -> Seq<char> {
    match metric {
        Metric::BatteryPercentage => "Total battery percentage"@,
        Metric::BatteryPercentageIndividual => "Individual battery percentage"@,
        Metric::BatteryRemainingHours => "Estimated battery remaining time in hours"@,
        Metric::BatteryTemperature => "Battery temperature in celsius"@,
        Metric::BatteryState => "Battery state (0=idle, 1=discharging, 2=charging)"@,
        Metric::TotalOutputWatts => "Total output power in watts"@,
        Metric::TotalInputWatts => "Total input power in watts"@,
        Metric::AcInputWatts => "AC input power in watts"@,
        Metric::SolarInputWatts => "Solar input power in watts"@,
        Metric::AcOutletOn => "AC outlet status (0=off, 1=on)"@,
        Metric::AcOutletWatts => "AC outlet power in watts"@,
        Metric::TwelveVoltOn => "12V outlet status (0=off, 1=on)"@,
        Metric::TwelveVoltWatts => "12V outlet power in watts"@,
        Metric::TwelveVoltTimerSeconds => "12V outlet timer remaining in seconds"@,
        Metric::UsbCOn => "USB-C port status (0=off, 1=on)"@,
        Metric::UsbCWatts => "USB-C port power in watts"@,
        Metric::UsbAOn => "USB-A port status (0=off, 1=on)"@,
        Metric::UsbAWatts => "USB-A port power in watts"@,
        Metric::Connected => "BLE connection status (0=disconnected, 1=connected)"@,
        Metric::CommandsTotal => "Total commands sent by type"@,
    }
}

/// The name of the label by which the samples of a metric are told
/// apart; a metric with one sample only has none.
pub open spec fn metric_label(metric: Metric) -> Option<Seq<char>> {
    match metric {
        Metric::BatteryPercentageIndividual | Metric::BatteryTemperature => Some("battery"@),
        Metric::TwelveVoltOn | Metric::TwelveVoltWatts | Metric::UsbCOn | Metric::UsbCWatts
        | Metric::UsbAOn | Metric::UsbAWatts => Some("port"@),
        Metric::CommandsTotal => Some("command"@),
        _ => None,
    }
}

/// All the metrics, in the order in which they are registered.
pub open spec fn all_metrics() -> Seq<Metric> {
    seq![
        Metric::BatteryPercentage,
        Metric::BatteryPercentageIndividual,
        Metric::BatteryRemainingHours,
        Metric::BatteryTemperature,
        Metric::BatteryState,
        Metric::TotalOutputWatts,
        Metric::TotalInputWatts,
        Metric::AcInputWatts,
        Metric::SolarInputWatts,
        Metric::AcOutletOn,
        Metric::AcOutletWatts,
        Metric::TwelveVoltOn,
        Metric::TwelveVoltWatts,
        Metric::TwelveVoltTimerSeconds,
        Metric::UsbCOn,
        Metric::UsbCWatts,
        Metric::UsbAOn,
        Metric::UsbAWatts,
        Metric::Connected,
        Metric::CommandsTotal,
    ]
}

impl Metric {
    /// All the metrics, in the order in which they are registered.
    pub fn catalogue() -> (all: Vec<Metric>)
        ensures
            all@ == all_metrics(),
    {
        let all = vec![
            Metric::BatteryPercentage,
            Metric::BatteryPercentageIndividual,
            Metric::BatteryRemainingHours,
            Metric::BatteryTemperature,
            Metric::BatteryState,
            Metric::TotalOutputWatts,
            Metric::TotalInputWatts,
            Metric::AcInputWatts,
            Metric::SolarInputWatts,
            Metric::AcOutletOn,
            Metric::AcOutletWatts,
            Metric::TwelveVoltOn,
            Metric::TwelveVoltWatts,
            Metric::TwelveVoltTimerSeconds,
            Metric::UsbCOn,
            Metric::UsbCWatts,
            Metric::UsbAOn,
            Metric::UsbAWatts,
            Metric::Connected,
            Metric::CommandsTotal,
        ];
        assert(all@ =~= all_metrics());
        all
    }

    /// Whether the metric only ever grows: the count of sent commands
    /// does, and every other metric is a gauge.
    pub fn is_counter(&self) -> (counter: bool)
        ensures
            counter == (*self == Metric::CommandsTotal),
    {
        match self {
            Metric::CommandsTotal => true,
            _ => false,
        }
    }

    /// The name under which the metric is exported.
    pub fn name(&self) -> (name: &'static str)
        ensures
            name@ == metric_name(*self),
    {
        match self {
            Metric::BatteryPercentage => "anker_battery_percentage",
            Metric::BatteryPercentageIndividual => "anker_battery_percentage_individual",
            Metric::BatteryRemainingHours => "anker_battery_remaining_hours",
            Metric::BatteryTemperature => "anker_battery_temperature",
            Metric::BatteryState => "anker_battery_state",
            Metric::TotalOutputWatts => "anker_total_output_watts",
            Metric::TotalInputWatts => "anker_total_input_watts",
            Metric::AcInputWatts => "anker_ac_input_watts",
            Metric::SolarInputWatts => "anker_solar_input_watts",
            Metric::AcOutletOn => "anker_ac_outlet_on",
            Metric::AcOutletWatts => "anker_ac_outlet_watts",
            Metric::TwelveVoltOn => "anker_twelve_volt_on",
            Metric::TwelveVoltWatts => "anker_twelve_volt_watts",
            Metric::TwelveVoltTimerSeconds => "anker_twelve_volt_timer_seconds",
            Metric::UsbCOn => "anker_usb_c_on",
            Metric::UsbCWatts => "anker_usb_c_watts",
            Metric::UsbAOn => "anker_usb_a_on",
            Metric::UsbAWatts => "anker_usb_a_watts",
            Metric::Connected => "anker_connected",
            Metric::CommandsTotal => "anker_commands_total",
        }
    }

    /// The words that explain the metric.
    pub fn help(&self) -> (help: &'static str)
        ensures
            help@ == metric_help(*self),
    {
        match self {
            Metric::BatteryPercentage => "Total battery percentage",
            Metric::BatteryPercentageIndividual => "Individual battery percentage",
            Metric::BatteryRemainingHours => "Estimated battery remaining time in hours",
            Metric::BatteryTemperature => "Battery temperature in celsius",
            Metric::BatteryState => "Battery state (0=idle, 1=discharging, 2=charging)",
            Metric::TotalOutputWatts => "Total output power in watts",
            Metric::TotalInputWatts => "Total input power in watts",
            Metric::AcInputWatts => "AC input power in watts",
            Metric::SolarInputWatts => "Solar input power in watts",
            Metric::AcOutletOn => "AC outlet status (0=off, 1=on)",
            Metric::AcOutletWatts => "AC outlet power in watts",
            Metric::TwelveVoltOn => "12V outlet status (0=off, 1=on)",
            Metric::TwelveVoltWatts => "12V outlet power in watts",
            Metric::TwelveVoltTimerSeconds => "12V outlet timer remaining in seconds",
            Metric::UsbCOn => "USB-C port status (0=off, 1=on)",
            Metric::UsbCWatts => "USB-C port power in watts",
            Metric::UsbAOn => "USB-A port status (0=off, 1=on)",
            Metric::UsbAWatts => "USB-A port power in watts",
            Metric::Connected => "BLE connection status (0=disconnected, 1=connected)",
            Metric::CommandsTotal => "Total commands sent by type",
        }
    }

    /// The name of the label of the metric, if it has one.
    pub fn label(&self) -> (label: Option<&'static str>)
        ensures
            match label {
                Some(name) => metric_label(*self) == Some(name@),
                None => metric_label(*self) is None,
            },
    {
        match self {
            Metric::BatteryPercentageIndividual => Some("battery"),
            Metric::BatteryTemperature => Some("battery"),
            Metric::TwelveVoltOn => Some("port"),
            Metric::TwelveVoltWatts => Some("port"),
            Metric::UsbCOn => Some("port"),
            Metric::UsbCWatts => Some("port"),
            Metric::UsbAOn => Some("port"),
            Metric::UsbAWatts => Some("port"),
            Metric::CommandsTotal => Some("command"),
            _ => None,
        }
    }
}

/// The value of the label of one sample.
#[derive(Debug, Clone, Copy, PartialEq, Eq, Structural)]
pub enum SampleLabel {
    /// The metric has no label.
    Unlabelled,
    /// The battery inside the device.
    Internal,
    /// The expansion battery.
    External,
    /// The port with this number, counted from zero.
    Port(usize),
    /// The command of this type.
    Command(CommandType),
}

/// The text of a label value; a sample without a label has none.
pub open spec fn label_text(label: SampleLabel) -> Option<Seq<char>> {
    match label {
        SampleLabel::Unlabelled => None,
        SampleLabel::Internal => Some("internal"@),
        SampleLabel::External => Some("external"@),
        SampleLabel::Port(index) => Some(decimal_digits(index as nat)),
        SampleLabel::Command(t) => Some(command_name(t)),
    }
}

impl SampleLabel {
    /// The text of the label value, if the sample has a label.
    pub fn text(&self) -> (text: Option<String>)
        ensures
            match text {
                Some(t) => label_text(*self) == Some(t@),
                None => label_text(*self) is None,
            },
    {
        match self {
            SampleLabel::Unlabelled => None,
            SampleLabel::Internal => Some(String::from_str("internal")),
            SampleLabel::External => Some(String::from_str("external")),
            SampleLabel::Port(index) => Some(decimal_string(*index as u64)),
            SampleLabel::Command(t) => Some(String::from_str(t.as_str())),
        }
    }
}

/// One value of one metric. The remaining hours of the battery are given
/// in tenths of an hour; every other value is in the unit of its metric.
#[derive(Debug, Clone, Copy, PartialEq, Eq, Structural)]
pub struct Sample {
    pub metric: Metric,
    pub label: SampleLabel,
    pub value: i64,
}

/// The key under which the time of a sample is kept: the name of the
/// metric, followed for a labelled sample by the label in braces, as in
/// `name{label="value"}`.
pub open spec fn sample_key(sample: Sample) -> Seq<char> {
    match (metric_label(sample.metric), label_text(sample.label)) {
        (Some(label), Some(value)) => metric_name(sample.metric) + "{"@ + label + "=\""@ + value
            + "\"}"@,
        _ => metric_name(sample.metric),
    }
}

impl Sample {
    /// The key under which the time of the sample is kept.
    pub fn key(&self) -> (key: String)
        ensures
            key@ == sample_key(*self),
    {
        let name = String::from_str(self.metric.name());
        match (self.metric.label(), self.label.text()) {
            (Some(label), Some(value)) => {
                let key = name.concat("{").concat(label).concat("=\"").concat(
                    value.as_str(),
                ).concat("\"}");
                assert(key@ =~= sample_key(*self));
                key
            },
            _ => name,
        }
    }
}

/// 1 for on, 0 for off.
pub open spec fn flag_value(flag: bool) -> i64 {
    if flag {
        1
    } else {
        0
    }
}

/// The sample that shows whether the link is up: 1 while the phase is
/// `Connected`, 0 in every other phase.
pub open spec fn connection_sample(state: ConnectionState) -> Sample {
    Sample {
        metric: Metric::Connected,
        label: SampleLabel::Unlabelled,
        value: flag_value(state == ConnectionState::Connected),
    }
}

/// The sample to set when the phase has changed.
pub fn update_connection_state(state: ConnectionState) -> (sample: Sample)
    ensures
        sample == connection_sample(state),
{
    Sample {
        metric: Metric::Connected,
        label: SampleLabel::Unlabelled,
        value: if state.is_connected() {
            1
        } else {
            0
        },
    }
}

/// The sample by which the count of sent commands grows when a command
/// of type `command` has been sent: one more of that type.
pub fn increment_command(command: CommandType) -> (sample: Sample)
    ensures
        sample == (Sample {
            metric: Metric::CommandsTotal,
            label: SampleLabel::Command(command),
            value: 1,
        }),
{
    Sample { metric: Metric::CommandsTotal, label: SampleLabel::Command(command), value: 1 }
}

/// A sample without a label.
pub open spec fn plain(metric: Metric, value: int) -> Sample {
    Sample { metric, label: SampleLabel::Unlabelled, value: value as i64 }
}

/// The samples of a telemetry snapshot that do not depend on a port.
pub open spec fn fixed_samples(t: TelemetryView) -> Seq<Sample> {
    seq![
        plain(Metric::BatteryPercentage, t.total_battery_percentage as int),
        Sample {
            metric: Metric::BatteryPercentageIndividual,
            label: SampleLabel::Internal,
            value: t.internal_battery.percentage as i64,
        },
        Sample {
            metric: Metric::BatteryPercentageIndividual,
            label: SampleLabel::External,
            value: t.external_battery.percentage as i64,
        },
        plain(Metric::BatteryRemainingHours, t.battery_remaining_tenth_hours() as int),
        Sample {
            metric: Metric::BatteryTemperature,
            label: SampleLabel::Internal,
            value: t.internal_battery.temperature as i64,
        },
        Sample {
            metric: Metric::BatteryTemperature,
            label: SampleLabel::External,
            value: t.external_battery.temperature as i64,
        },
        plain(Metric::BatteryState, t.battery_state.spec_code() as int),
        plain(Metric::TotalOutputWatts, t.total_output_watts as int),
        plain(Metric::TotalInputWatts, t.total_input_watts as int),
        plain(Metric::AcInputWatts, t.ac_input_watts as int),
        plain(Metric::SolarInputWatts, t.solar_input_watts as int),
        plain(Metric::AcOutletOn, flag_value(t.ac_outlet.is_on) as int),
        plain(Metric::AcOutletWatts, t.ac_outlet.watts as int),
    ]
}

/// The samples of a row of ports: for each port in turn whether it is on,
/// then what it draws.
pub open spec fn port_samples(on: Metric, watts: Metric, outputs: Seq<Output>) -> Seq<Sample> {
    Seq::new(
        2 * outputs.len(),
        |k: int|
            if k % 2 == 0 {
                Sample {
                    metric: on,
                    label: SampleLabel::Port((k / 2) as usize),
                    value: flag_value(outputs[k / 2].is_on),
                }
            } else {
                Sample {
                    metric: watts,
                    label: SampleLabel::Port((k / 2) as usize),
                    value: outputs[k / 2].watts as i64,
                }
            },
    )
}

/// The sample of the timer that the 12V outlets share: that of the first
/// outlet, where there is one and it has a timer.
pub open spec fn timer_samples(outputs: Seq<Output>) -> Seq<Sample> {
    if outputs.len() > 0 && outputs[0].time_remaining_seconds is Some {
        seq![
            plain(
                Metric::TwelveVoltTimerSeconds,
                outputs[0].time_remaining_seconds->Some_0 as int,
            ),
        ]
    } else {
        Seq::empty()
    }
}

/// All the samples of a telemetry snapshot, in the order in which they
/// are set.
pub open spec fn telemetry_samples(t: TelemetryView) -> Seq<Sample> {
    fixed_samples(t) + port_samples(Metric::TwelveVoltOn, Metric::TwelveVoltWatts, t.twelve_volt)
        + timer_samples(t.twelve_volt) + port_samples(Metric::UsbCOn, Metric::UsbCWatts, t.usb_c)
        + port_samples(Metric::UsbAOn, Metric::UsbAWatts, t.usb_a)
}

/// Appends the samples of a row of ports.
fn push_port_samples(samples: &mut Vec<Sample>, on: Metric, watts: Metric, outputs: &Vec<Output>)
    ensures
        final(samples)@ == old(samples)@ + port_samples(on, watts, outputs@),
{
    let ghost before = samples@;
    let mut i: usize = 0;
    while i < outputs.len()
        invariant
            i <= outputs.len(),
            samples@ == before + port_samples(on, watts, outputs@.take(i as int)),
        decreases outputs.len() - i,
    {
        let output = outputs[i];
        samples.push(
            Sample {
                metric: on,
                label: SampleLabel::Port(i),
                value: if output.is_on {
                    1
                } else {
                    0
                },
            },
        );
        samples.push(Sample { metric: watts, label: SampleLabel::Port(i), value: output.watts as i64 });
        i = i + 1;
        assert(samples@ =~= before + port_samples(on, watts, outputs@.take(i as int)));
    }
    assert(outputs@.take(i as int) =~= outputs@);
}

/// The samples to set when a telemetry snapshot has come.
pub fn update_from_telemetry(telemetry: &Telemetry) -> (samples: Vec<Sample>)
    ensures
        samples@ == telemetry_samples(telemetry@),
{
    let unlabelled = SampleLabel::Unlabelled;
    let mut samples: Vec<Sample> = vec![
        Sample {
            metric: Metric::BatteryPercentage,
            label: unlabelled,
            value: telemetry.total_battery_percentage as i64,
        },
        Sample {
            metric: Metric::BatteryPercentageIndividual,
            label: SampleLabel::Internal,
            value: telemetry.internal_battery.percentage as i64,
        },
        Sample {
            metric: Metric::BatteryPercentageIndividual,
            label: SampleLabel::External,
            value: telemetry.external_battery.percentage as i64,
        },
        Sample {
            metric: Metric::BatteryRemainingHours,
            label: unlabelled,
            value: telemetry.battery_remaining_tenth_hours() as i64,
        },
        Sample {
            metric: Metric::BatteryTemperature,
            label: SampleLabel::Internal,
            value: telemetry.internal_battery.temperature as i64,
        },
        Sample {
            metric: Metric::BatteryTemperature,
            label: SampleLabel::External,
            value: telemetry.external_battery.temperature as i64,
        },
        Sample {
            metric: Metric::BatteryState,
            label: unlabelled,
            value: telemetry.battery_state.code() as i64,
        },
        Sample {
            metric: Metric::TotalOutputWatts,
            label: unlabelled,
            value: telemetry.total_output_watts as i64,
        },
        Sample {
            metric: Metric::TotalInputWatts,
            label: unlabelled,
            value: telemetry.total_input_watts as i64,
        },
        Sample {
            metric: Metric::AcInputWatts,
            label: unlabelled,
            value: telemetry.ac_input_watts as i64,
        },
        Sample {
            metric: Metric::SolarInputWatts,
            label: unlabelled,
            value: telemetry.solar_input_watts as i64,
        },
        Sample {
            metric: Metric::AcOutletOn,
            label: unlabelled,
            value: if telemetry.ac_outlet.is_on {
                1
            } else {
                0
            },
        },
        Sample {
            metric: Metric::AcOutletWatts,
            label: unlabelled,
            value: telemetry.ac_outlet.watts as i64,
        },
    ];
    assert(samples@ =~= fixed_samples(telemetry@));
    push_port_samples(
        &mut samples,
        Metric::TwelveVoltOn,
        Metric::TwelveVoltWatts,
        &telemetry.twelve_volt,
    );
    if telemetry.twelve_volt.len() > 0 {
        match telemetry.twelve_volt[0].time_remaining_seconds {
            Some(seconds) => {
                samples.push(
                    Sample {
                        metric: Metric::TwelveVoltTimerSeconds,
                        label: unlabelled,
                        value: seconds as i64,
                    },
                );
            },
            None => {},
        }
    }
    assert(samples@ =~= fixed_samples(telemetry@) + port_samples(
        Metric::TwelveVoltOn,
        Metric::TwelveVoltWatts,
        telemetry@.twelve_volt,
    ) + timer_samples(telemetry@.twelve_volt));
    push_port_samples(&mut samples, Metric::UsbCOn, Metric::UsbCWatts, &telemetry.usb_c);
    push_port_samples(&mut samples, Metric::UsbAOn, Metric::UsbAWatts, &telemetry.usb_a);
    samples
}

/// Whether some entry of `entries` has the key `key`.
pub open spec fn has_key(entries: Seq<(String, u64)>, key: Seq<char>) -> bool {
    exists|i: int| 0 <= i < entries.len() && (#[trigger] entries[i]).0@ == key
}

/// No two entries have the same key.
pub open spec fn distinct_keys(entries: Seq<(String, u64)>) -> bool {
    forall|i: int, j: int|
        0 <= i < j < entries.len() ==> (#[trigger] entries[i]).0@ != (#[trigger] entries[j]).0@
}

/// The map from each key of `entries` to the value that stands with it.
pub open spec fn entries_map(entries: Seq<(String, u64)>) -> Map<Seq<char>, u64> {
    Map::new(
        |key: Seq<char>| has_key(entries, key),
        |key: Seq<char>|
            entries[choose|i: int| 0 <= i < entries.len() && (#[trigger] entries[i]).0@ == key].1,
    )
}

/// In a list without repeated keys, each entry is what the map holds for
/// its key.
proof fn lemma_entry_in_map(entries: Seq<(String, u64)>, i: int)
    requires
        distinct_keys(entries),
        0 <= i < entries.len(),
    ensures
        entries_map(entries).contains_key(entries[i].0@),
        entries_map(entries)[entries[i].0@] == entries[i].1,
{
    let key = entries[i].0@;
    assert(has_key(entries, key));
    let chosen = choose|j: int| 0 <= j < entries.len() && (#[trigger] entries[j]).0@ == key;
    assert(entries[chosen].0@ == key);
    if chosen < i {
        assert(entries[chosen].0@ != entries[i].0@);
    } else if i < chosen {
        assert(entries[i].0@ != entries[chosen].0@);
    }
}

/// The milliseconds at which each sample was last set, by the key of the
/// sample.
#[derive(Debug)]
pub struct Timestamps {
    entries: Vec<(String, u64)>,
}

impl View for Timestamps {
    type V = Map<Seq<char>, u64>;

    closed spec fn view(&self) -> Map<Seq<char>, u64> {
        entries_map(self.entries@)
    }
}

impl Timestamps {
    /// No key is held twice.
    pub closed spec fn wf(&self) -> bool {
        distinct_keys(self.entries@)
    }

    /// No times yet.
    pub fn new() -> (stamps: Self)
        ensures
            stamps.wf(),
            stamps@ == Map::<Seq<char>, u64>::empty(),
    {
        let stamps = Timestamps { entries: Vec::new() };
        assert(stamps@ =~= Map::<Seq<char>, u64>::empty());
        stamps
    }

    /// Whether no time is held.
    pub fn is_empty(&self) -> (empty: bool)
        requires
            self.wf(),
        ensures
            empty == (self@ == Map::<Seq<char>, u64>::empty()),
    {
        proof {
            if self.entries@.len() == 0 {
                assert(self@ =~= Map::<Seq<char>, u64>::empty());
            } else {
                lemma_entry_in_map(self.entries@, 0);
            }
        }
        self.entries.len() == 0
    }

    /// The place of the entry with the key `key`.
    fn position(&self, key: &String) -> (found: Option<usize>)
        ensures
            match found {
                Some(i) => i < self.entries@.len() && self.entries@[i as int].0@ == key@,
                None => !has_key(self.entries@, key@),
            },
    {
        let mut i: usize = 0;
        while i < self.entries.len()
            invariant
                i <= self.entries.len(),
                forall|j: int| 0 <= j < i ==> (#[trigger] self.entries@[j]).0@ != key@,
            decreases self.entries.len() - i,
        {
            if self.entries[i].0 == *key {
                return Some(i);
            }
            i = i + 1;
        }
        None
    }

    /// The time held for `key`, if one is.
    pub fn get(&self, key: &str) -> (time: Option<u64>)
        requires
            self.wf(),
        ensures
            time == (if self@.contains_key(key@) {
                Some(self@[key@])
            } else {
                None
            }),
    {
        let owned = String::from_str(key);
        match self.position(&owned) {
            Some(i) => {
                proof {
                    lemma_entry_in_map(self.entries@, i as int);
                }
                Some(self.entries[i].1)
            },
            None => None,
        }
    }

    /// Holds `now_ms` for `key`, in the place of the time held before if
    /// there was one.
    pub fn set(&mut self, key: &str, now_ms: u64)
        requires
            old(self).wf(),
        ensures
            final(self).wf(),
            final(self)@ == old(self)@.insert(key@, now_ms),
    {
        let owned = String::from_str(key);
        let ghost before = self.entries@;
        match self.position(&owned) {
            Some(i) => {
                self.entries.set(i, (owned, now_ms));
                proof {
                    let after = self.entries@;
                    assert forall|a: int, b: int| 0 <= a < b < after.len() implies (
                    #[trigger] after[a]).0@ != (#[trigger] after[b]).0@ by {
                        assert(before[a].0@ != before[b].0@);
                    }
                    assert forall|k: Seq<char>| has_key(after, k) <==> has_key(before, k) by {
                        if has_key(after, k) {
                            let j = choose|j: int|
                                0 <= j < after.len() && (#[trigger] after[j]).0@ == k;
                            assert(before[j].0@ == k);
                        }
                        if has_key(before, k) {
                            let j = choose|j: int|
                                0 <= j < before.len() && (#[trigger] before[j]).0@ == k;
                            assert(after[j].0@ == k);
                        }
                    }
                    lemma_entry_in_map(before, i as int);
                    assert forall|k: Seq<char>| has_key(after, k) implies entries_map(after)[k]
                        == entries_map(before).insert(key@, now_ms)[k] by {
                        let j = choose|j: int| 0 <= j < after.len() && (#[trigger] after[j]).0@ == k;
                        lemma_entry_in_map(after, j);
                        lemma_entry_in_map(before, j);
                    }
                    assert(entries_map(after) =~= entries_map(before).insert(key@, now_ms));
                }
            },
            None => {
                self.entries.push((owned, now_ms));
                proof {
                    let after = self.entries@;
                    let last = before.len() as int;
                    assert forall|a: int, b: int| 0 <= a < b < after.len() implies (
                    #[trigger] after[a]).0@ != (#[trigger] after[b]).0@ by {
                        if b < last {
                            assert(before[a].0@ != before[b].0@);
                        } else {
                            assert(before[a].0@ != key@);
                        }
                    }
                    assert forall|k: Seq<char>| has_key(after, k) <==> (has_key(before, k) || k
                        == key@) by {
                        if has_key(after, k) {
                            let j = choose|j: int|
                                0 <= j < after.len() && (#[trigger] after[j]).0@ == k;
                            if j < last {
                                assert(before[j].0@ == k);
                            }
                        }
                        if has_key(before, k) {
                            let j = choose|j: int|
                                0 <= j < before.len() && (#[trigger] before[j]).0@ == k;
                            assert(after[j].0@ == k);
                        }
                        if k == key@ {
                            assert(after[last].0@ == k);
                        }
                    }
                    assert forall|k: Seq<char>| has_key(after, k) implies entries_map(after)[k]
                        == entries_map(before).insert(key@, now_ms)[k] by {
                        let j = choose|j: int| 0 <= j < after.len() && (#[trigger] after[j]).0@ == k;
                        lemma_entry_in_map(after, j);
                        if j < last {
                            lemma_entry_in_map(before, j);
                        }
                    }
                    assert(entries_map(after) =~= entries_map(before).insert(key@, now_ms));
                }
            },
        }
    }
}

/// The time of a sample is kept under the key of the sample.
pub fn set_timestamp(stamps: &mut Timestamps, sample: &Sample, now_ms: u64)
    requires
        old(stamps).wf(),
    ensures
        final(stamps).wf(),
        final(stamps)@ == old(stamps)@.insert(sample_key(*sample), now_ms),
{
    let key = sample.key();
    stamps.set(key.as_str(), now_ms);
}

/// A line of the exposition with its time: a comment line and an empty
/// line stay as they are; any other line, whose first word is `word`, is
/// followed by a space and the milliseconds held for that word, where a time
/// is held for it, and stays as it is where none is.
pub open spec fn stamped_line(
    line: Seq<char>,
    word: Option<Seq<char>>,
    stamps: Map<Seq<char>, u64>,
) -> Seq<char> {
    let key = match word {
        Some(w) => w,
        None => Seq::empty(),
    };
    if line.len() == 0 || line[0] == '#' {
        line
    } else if stamps.contains_key(key) {
        line + " "@ + decimal_digits(stamps[key] as nat)
    } else {
        line
    }
}

/// Adds its time to one line of the exposition, whose first word is
/// `word`.
pub fn stamp_line(line: &str, word: &Option<String>, stamps: &Timestamps) -> (stamped: String)
    requires
        stamps.wf(),
    ensures
        stamped@ == stamped_line(
            line@,
            match word {
                Some(w) => Some(w@),
                None => None,
            },
            stamps@,
        ),
{
    if line.is_empty() {
        return String::from_str(line);
    }
    if line.get_char(0) == '#' {
        return String::from_str(line);
    }
    let time = match word {
        Some(w) => stamps.get(w.as_str()),
        None => {
            let none = String::new();
            stamps.get(none.as_str())
        },
    };
    match time {
        Some(ms) => {
            let digits = decimal_string(ms);
            String::from_str(line).concat(" ").concat(digits.as_str())
        },
        None => String::from_str(line),
    }
}

/// The lines with a line feed between each two.
pub open spec fn joined(lines: Seq<Seq<char>>) -> Seq<char>
    decreases lines.len(),
{
    if lines.len() == 0 {
        Seq::empty()
    } else if lines.len() == 1 {
        lines[0]
    } else {
        joined(lines.drop_last()) + "\n"@ + lines.last()
    }
}

/// The lines, each with its time: a line is stamped by its first word.
pub open spec fn stamped_lines(lines: Seq<Seq<char>>, stamps: Map<Seq<char>, u64>) -> Seq<
    Seq<char>,
> {
    Seq::new(lines.len(), |i: int| stamped_line(lines[i], first_word_of(lines[i]), stamps))
}

/// The exposition with the times of the samples: while no time is held
/// the text as it stands; else its lines, each with its time, with a line
/// feed between each two.
pub open spec fn rendered(output: Seq<char>, stamps: Map<Seq<char>, u64>) -> Seq<char> {
    if stamps == Map::<Seq<char>, u64>::empty() {
        output
    } else {
        joined(stamped_lines(lines_of(output), stamps))
    }
}

/// Adds its time to each of the lines and joins them with line feeds.
pub fn stamp_lines(lines: &Vec<String>, stamps: &Timestamps) -> (text: String)
    requires
        stamps.wf(),
    ensures
        text@ == joined(stamped_lines(texts(lines@), stamps@)),
{
    let ghost want = stamped_lines(texts(lines@), stamps@);
    let mut text = String::new();
    let mut i: usize = 0;
    while i < lines.len()
        invariant
            i <= lines.len(),
            stamps.wf(),
            want == stamped_lines(texts(lines@), stamps@),
            want.len() == lines@.len(),
            text@ == joined(want.take(i as int)),
        decreases lines.len() - i,
    {
        let line = lines[i].as_str();
        let word = first_word(line);
        let stamped = stamp_line(line, &word, stamps);
        proof {
            assert(texts(lines@)[i as int] == lines@[i as int]@);
            assert(stamped@ == want[i as int]);
            let next = want.take(i + 1);
            assert(next.drop_last() =~= want.take(i as int));
            assert(next.last() == want[i as int]);
        }
        if i > 0 {
            text = text.concat("\n");
        }
        text = text.concat(stamped.as_str());
        i = i + 1;
        assert(text@ =~= joined(want.take(i as int)));
    }
    assert(want.take(i as int) =~= want);
    text
}

/// Adds to each sample line of the exposition `output` the time at which
/// the sample was last set.
pub fn render(output: &str, stamps: &Timestamps) -> (text: String)
    requires
        stamps.wf(),
    ensures
        text@ == rendered(output@, stamps@),
{
    if stamps.is_empty() {
        return String::from_str(output);
    }
    let lines = split_lines(output);
    stamp_lines(&lines, stamps)
}

} // verus!
