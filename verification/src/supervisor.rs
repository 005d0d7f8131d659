//! The connection supervisor: from the stage that the link has reached and
//! the event that has just come in, the next stage and what to do next.
//!
//! A program drives the supervisor by carrying out the action of each step
//! and handing back the event in which the action ended. The cycle is
//! scan, connect, discover, subscribe, stream; whatever fails, and the end
//! of the stream too, leads back to the start after a fixed delay, for
//! ever.

use crate::command::AnkerCommand;
use crate::device::{
    device_name, ConnectionState, DeviceError, DeviceFailure, DeviceState, DeviceStateView,
    SetState, NOTIFY_UUID, RECONNECT_DELAY_MS, SCAN_POLL_MS, SCAN_TIMEOUT_MS, WRITE_UUID,
};
use crate::text::{contains_text, occurs_in};
use crate::telemetry::{
    decode_notification, DecodeFailure, NotificationPacket, NotificationView, StateAck, Telemetry,
    TelemetryError, TelemetryView,
};
use vstd::prelude::*;

verus! {

/// How far the link has come within one connection cycle.
#[derive(Debug, Clone, Copy, PartialEq, Eq, Structural)]
pub enum Stage {
    /// Nothing is under way: before the first cycle, and between two cycles.
    Idle,
    /// An adapter has been asked for.
    AcquiringAdapter,
    /// The adapter has been told to scan.
    StartingScan,
    /// The peripherals that the adapter has seen are looked through.
    Searching,
    /// The device was found and the adapter has been told to stop scanning.
    StoppingScan,
    /// The link to the device is being established.
    Linking,
    /// The services of the device are being discovered.
    Discovering,
    /// Notifications are being subscribed to.
    Subscribing,
    /// The link is up: commands can be written and notifications come in.
    Streaming,
}

/// The phase that the rest of the program sees at each stage.
pub open spec fn phase_of(stage: Stage) -> ConnectionState {
    match stage {
        Stage::Idle => ConnectionState::Disconnected,
        Stage::AcquiringAdapter | Stage::StartingScan | Stage::Searching | Stage::StoppingScan =>
            ConnectionState::Scanning,
        Stage::Linking | Stage::Discovering | Stage::Subscribing => ConnectionState::Connecting,
        Stage::Streaming => ConnectionState::Connected,
    }
}

impl Stage {
    /// The phase that the rest of the program sees at this stage.
    pub fn phase(&self) -> (phase: ConnectionState)
        ensures
            phase == phase_of(*self),
    {
        match self {
            Stage::Idle => ConnectionState::Disconnected,
            Stage::AcquiringAdapter => ConnectionState::Scanning,
            Stage::StartingScan => ConnectionState::Scanning,
            Stage::Searching => ConnectionState::Scanning,
            Stage::StoppingScan => ConnectionState::Scanning,
            Stage::Linking => ConnectionState::Connecting,
            Stage::Discovering => ConnectionState::Connecting,
            Stage::Subscribing => ConnectionState::Connecting,
            Stage::Streaming => ConnectionState::Connected,
        }
    }
}

/// What the program reports to the supervisor: the end of the action that
/// the last step asked for.
#[derive(Debug)]
pub enum LinkEvent {
    /// A cycle is to start: at start-up, and when the delay after the last
    /// cycle has passed.
    Begin,
    /// An adapter is there.
    AdapterReady,
    /// There is no adapter.
    AdapterMissing,
    /// The adapter scans.
    ScanStarted,
    /// The local names of the peripherals that the adapter has seen, in the
    /// order in which it lists them, and the milliseconds since the scan
    /// started. A peripheral without a name has `None`.
    Peripherals { names: Vec<Option<String>>, elapsed_ms: u64 },
    /// The adapter has stopped scanning.
    ScanStopped,
    /// The link to the device is established.
    LinkUp,
    /// The identifiers of the characteristics of the device, service by
    /// service, in the order in which the device lists them.
    Services { characteristics: Vec<u128> },
    /// Notifications are subscribed to.
    Subscribed,
    /// The bytes of one notification.
    Notification(Vec<u8>),
    /// The stream of notifications has ended.
    StreamEnded,
    /// The transport has failed; this is the text of its error.
    Failed(String),
}

/// What the program is to do next.
#[derive(Debug, Clone, Copy, PartialEq, Eq, Structural)]
pub enum LinkAction {
    /// Ask for an adapter.
    AcquireAdapter,
    /// Tell the adapter to scan.
    StartScan,
    /// Wait this long, then list the peripherals that the adapter has seen.
    PollPeripherals { delay_ms: u64 },
    /// Tell the adapter to stop scanning. The device is the peripheral at
    /// this place of the list last reported.
    StopScan { peripheral: usize },
    /// Establish the link to the device.
    Connect,
    /// Discover the services of the device.
    DiscoverServices,
    /// Subscribe to the characteristic at place `notify` of the list last
    /// reported; commands will be written to the one at place `write`.
    Subscribe { write: usize, notify: usize },
    /// Keep the link for writing and wait for the next notification.
    Listen,
    /// Drop the link, wait this long, then report `Begin`.
    Backoff { delay_ms: u64 },
}

/// Whether a peripheral of this local name is the power station.
pub open spec fn is_target(name: Option<String>) -> bool {
    match name {
        Some(text) => occurs_in(device_name(), text@),
        None => false,
    }
}

/// The power station stands at place `index` of `names`, and at no place
/// before it.
pub open spec fn is_first_target(names: Seq<Option<String>>, index: int) -> bool {
    &&& 0 <= index < names.len()
    &&& is_target(names[index])
    &&& forall|earlier: int| 0 <= earlier < index ==> !is_target(#[trigger] names[earlier])
}

/// The first place of `names` at which the power station stands, if it
/// stands at any.
pub open spec fn first_target(names: Seq<Option<String>>) -> Option<int> {
    if exists|index: int| is_first_target(names, index) {
        Some(choose|index: int| is_first_target(names, index))
    } else {
        None
    }
}

/// The identifier `id` stands at place `index` of `ids`, and at no place
/// before it.
pub open spec fn is_first_position(ids: Seq<u128>, id: u128, index: int) -> bool {
    &&& 0 <= index < ids.len()
    &&& ids[index] == id
    &&& forall|earlier: int| 0 <= earlier < index ==> #[trigger] ids[earlier] != id
}

/// The first place of `ids` at which `id` stands, if it stands at any.
pub open spec fn first_position(ids: Seq<u128>, id: u128) -> Option<int> {
    if exists|index: int| is_first_position(ids, id, index) {
        Some(choose|index: int| is_first_position(ids, id, index))
    } else {
        None
    }
}

/// What one step comes to: the next stage, what to do next, and why the
/// cycle ended, if it did and something had failed.
pub struct Outcome {
    pub stage: Stage,
    pub action: LinkAction,
    pub failure: Option<DeviceFailure>,
}

/// The cycle goes on.
pub open spec fn proceed(stage: Stage, action: LinkAction) -> Outcome {
    Outcome { stage, action, failure: None }
}

/// The cycle ends: back to the start, after the fixed delay.
pub open spec fn give_up(failure: Option<DeviceFailure>) -> Outcome {
    Outcome {
        stage: Stage::Idle,
        action: LinkAction::Backoff { delay_ms: RECONNECT_DELAY_MS },
        failure,
    }
}

/// The cycle ends because the event is none that the stage waits for.
pub open spec fn out_of_turn() -> Outcome {
    give_up(Some(DeviceFailure::NotConnected))
}

/// What the peripherals seen so far come to: the scan is given up once it
/// has lasted longer than the scan timeout, the device is taken at the first
/// place at which it stands, and else the list is looked at again after the
/// poll interval.
pub open spec fn search(names: Seq<Option<String>>, elapsed_ms: u64) -> Outcome {
    if elapsed_ms > SCAN_TIMEOUT_MS {
        give_up(Some(DeviceFailure::NotFound))
    } else {
        match first_target(names) {
            Some(index) => proceed(
                Stage::StoppingScan,
                LinkAction::StopScan { peripheral: index as usize },
            ),
            None => proceed(Stage::Searching, LinkAction::PollPeripherals { delay_ms: SCAN_POLL_MS }),
        }
    }
}

/// What the characteristics of the device come to: both the one for
/// writing and the one for notifications must be there; the one for writing
/// is looked for first.
pub open spec fn select(characteristics: Seq<u128>) -> Outcome {
    match first_position(characteristics, WRITE_UUID) {
        None => give_up(Some(DeviceFailure::CharacteristicNotFound(WRITE_UUID))),
        Some(write) => match first_position(characteristics, NOTIFY_UUID) {
            None => give_up(Some(DeviceFailure::CharacteristicNotFound(NOTIFY_UUID))),
            Some(notify) => proceed(
                Stage::Subscribing,
                LinkAction::Subscribe { write: write as usize, notify: notify as usize },
            ),
        },
    }
}

/// The step that `event` makes at `stage`.
///
/// Each stage waits for one kind of event, or two. A failure of the
/// transport ends the cycle at every stage, and so does an event that the
/// stage does not wait for. A notification never ends the cycle, whether it
/// can be decoded or not.
pub open spec fn transition(stage: Stage, event: LinkEvent) -> Outcome {
    match event {
        LinkEvent::Failed(text) => give_up(Some(DeviceFailure::Ble(text@))),
        LinkEvent::Begin => if stage == Stage::Idle {
            proceed(Stage::AcquiringAdapter, LinkAction::AcquireAdapter)
        } else {
            out_of_turn()
        },
        LinkEvent::AdapterReady => if stage == Stage::AcquiringAdapter {
            proceed(Stage::StartingScan, LinkAction::StartScan)
        } else {
            out_of_turn()
        },
        LinkEvent::AdapterMissing => if stage == Stage::AcquiringAdapter {
            give_up(Some(DeviceFailure::NotFound))
        } else {
            out_of_turn()
        },
        LinkEvent::ScanStarted => if stage == Stage::StartingScan {
            proceed(Stage::Searching, LinkAction::PollPeripherals { delay_ms: 0 })
        } else {
            out_of_turn()
        },
        LinkEvent::Peripherals { names, elapsed_ms } => if stage == Stage::Searching {
            search(names@, elapsed_ms)
        } else {
            out_of_turn()
        },
        LinkEvent::ScanStopped => if stage == Stage::StoppingScan {
            proceed(Stage::Linking, LinkAction::Connect)
        } else {
            out_of_turn()
        },
        LinkEvent::LinkUp => if stage == Stage::Linking {
            proceed(Stage::Discovering, LinkAction::DiscoverServices)
        } else {
            out_of_turn()
        },
        LinkEvent::Services { characteristics } => if stage == Stage::Discovering {
            select(characteristics@)
        } else {
            out_of_turn()
        },
        LinkEvent::Subscribed => if stage == Stage::Subscribing {
            proceed(Stage::Streaming, LinkAction::Listen)
        } else {
            out_of_turn()
        },
        LinkEvent::Notification(_) => if stage == Stage::Streaming {
            proceed(Stage::Streaming, LinkAction::Listen)
        } else {
            out_of_turn()
        },
        LinkEvent::StreamEnded => if stage == Stage::Streaming {
            give_up(None)
        } else {
            out_of_turn()
        },
    }
}

/// What `event` brings in: the decoding of a notification that comes while
/// the link is up, and nothing else.
pub open spec fn received(stage: Stage, event: LinkEvent) -> Option<
    Result<NotificationView, DecodeFailure>,
> {
    match event {
        LinkEvent::Notification(bytes) => if stage == Stage::Streaming {
            Some(decode_notification(bytes@))
        } else {
            None
        },
        _ => None,
    }
}

/// The telemetry that a step publishes: the snapshot that has just been
/// decoded, if one has.
pub open spec fn published_telemetry(stage: Stage, event: LinkEvent) -> Option<TelemetryView> {
    match received(stage, event) {
        Some(Ok(NotificationView::Telemetry(t))) => Some(t),
        _ => None,
    }
}

/// The reason for which a step drops a notification, if it drops one.
pub open spec fn rejection(stage: Stage, event: LinkEvent) -> Option<DecodeFailure> {
    match received(stage, event) {
        Some(Err(failure)) => Some(failure),
        _ => None,
    }
}

/// The phase that a step publishes: the phase of the next stage, whenever
/// the cycle ends and whenever the phase changes, and none otherwise.
pub open spec fn published_phase(stage: Stage, event: LinkEvent) -> Option<ConnectionState> {
    let next = transition(stage, event).stage;
    if next == Stage::Idle || phase_of(next) != phase_of(stage) {
        Some(phase_of(next))
    } else {
        None
    }
}

/// The device state after a step: the phase is that of the next stage; a
/// decoded snapshot or state acknowledgement takes the place of the one
/// before; everything else stays.
pub open spec fn next_state(state: DeviceStateView, stage: Stage, event: LinkEvent)
    -> DeviceStateView {
    let moved = DeviceStateView {
        connection_state: phase_of(transition(stage, event).stage),
        ..state
    };
    match received(stage, event) {
        Some(Ok(NotificationView::Telemetry(t))) => DeviceStateView {
            last_telemetry: Some(t),
            ..moved
        },
        Some(Ok(NotificationView::StateAck(ack))) => DeviceStateView {
            last_state_ack: Some(ack),
            ..moved
        },
        _ => moved,
    }
}

/// Whether a peripheral of this local name is the power station: whether
/// the name holds the device name.
pub fn matches_device_name(name: &str) -> (found: bool)
    ensures
        found == occurs_in(device_name(), name@),
{
    contains_text(name, "767_PowerHouse")
}

/// The first place of `names` at which the power station stands.
pub fn find_target(names: &Vec<Option<String>>) -> (found: Option<usize>)
    ensures
        match found {
            Some(index) => first_target(names@) == Some(index as int),
            None => first_target(names@) is None,
        },
{
    let mut i: usize = 0;
    while i < names.len()
        invariant
            i <= names.len(),
            forall|earlier: int| 0 <= earlier < i ==> !is_target(#[trigger] names@[earlier]),
        decreases names.len() - i,
    {
        let hit = match &names[i] {
            Some(name) => matches_device_name(name.as_str()),
            None => false,
        };
        if hit {
            proof {
                assert(is_first_target(names@, i as int));
                let chosen = choose|index: int| is_first_target(names@, index);
                assert(is_first_target(names@, chosen));
                assert(is_target(names@[chosen]));
                assert(chosen == i);
            }
            return Some(i);
        }
        i = i + 1;
    }
    proof {
        assert forall|index: int| !is_first_target(names@, index) by {
            if 0 <= index < names@.len() {
                assert(!is_target(names@[index]));
            }
        }
    }
    None
}

/// The first place of `ids` at which `id` stands.
pub fn find_position(ids: &Vec<u128>, id: u128) -> (found: Option<usize>)
    ensures
        match found {
            Some(index) => first_position(ids@, id) == Some(index as int),
            None => first_position(ids@, id) is None,
        },
{
    let mut i: usize = 0;
    while i < ids.len()
        invariant
            i <= ids.len(),
            forall|earlier: int| 0 <= earlier < i ==> #[trigger] ids@[earlier] != id,
        decreases ids.len() - i,
    {
        if ids[i] == id {
            proof {
                assert(is_first_position(ids@, id, i as int));
                let chosen = choose|index: int| is_first_position(ids@, id, index);
                assert(is_first_position(ids@, id, chosen));
                assert(ids@[chosen] == id);
                assert(chosen == i);
            }
            return Some(i);
        }
        i = i + 1;
    }
    proof {
        assert forall|index: int| !is_first_position(ids@, id, index) by {
            if 0 <= index < ids@.len() {
                assert(ids@[index] != id);
            }
        }
    }
    None
}

/// What one step of the supervisor hands back.
#[derive(Debug, PartialEq, Eq)]
pub struct Step {
    /// What to do next.
    pub action: LinkAction,
    /// The phase to publish to those who follow the phase.
    pub phase: Option<ConnectionState>,
    /// The snapshot to publish to those who follow the telemetry.
    pub telemetry: Option<Telemetry>,
    /// Why the cycle ended, where it ended on a failure.
    pub failure: Option<DeviceError>,
    /// Why the notification was dropped, where it could not be decoded.
    pub rejected: Option<TelemetryError>,
}

impl Step {
    /// The snapshot to publish, as a mathematical value.
    pub open spec fn telemetry_view(&self) -> Option<TelemetryView> {
        match self.telemetry {
            Some(t) => Some(t@),
            None => None,
        }
    }

    /// Why the cycle ended, as a mathematical value.
    pub open spec fn failure_kind(&self) -> Option<DeviceFailure> {
        match self.failure {
            Some(e) => Some(e.spec_kind()),
            None => None,
        }
    }

    /// Why the notification was dropped, as a mathematical value.
    pub open spec fn rejected_kind(&self) -> Option<DecodeFailure> {
        match self.rejected {
            Some(e) => Some(e.spec_kind()),
            None => None,
        }
    }
}

/// How a write to the device ended.
#[derive(Debug)]
pub enum WriteOutcome {
    /// The transport has taken the bytes.
    Written,
    /// The write did not complete within the write timeout.
    TimedOut,
    /// The transport has failed; this is the text of its error.
    Failed(String),
}

/// What a caller is told of a write that ended in `outcome` while the link
/// was at `stage`: a write succeeds only while the link is up.
pub open spec fn write_result(stage: Stage, outcome: WriteOutcome) -> Result<(), DeviceFailure> {
    match outcome {
        WriteOutcome::Written => if stage == Stage::Streaming {
            Ok(())
        } else {
            Err(DeviceFailure::NotConnected)
        },
        WriteOutcome::TimedOut => Err(DeviceFailure::WriteTimeout),
        WriteOutcome::Failed(text) => Err(DeviceFailure::Ble(text@)),
    }
}

/// The supervisor of the link to one power station, with what is known of
/// the device.
#[derive(Debug)]
pub struct AnkerDevice {
    stage: Stage,
    last_telemetry: Option<Telemetry>,
    last_state_ack: Option<StateAck>,
    set_state: SetState,
}

impl AnkerDevice {
    /// The stage that the link has reached.
    pub closed spec fn spec_stage(&self) -> Stage {
        self.stage
    }

    /// What is known of the device. The phase in it is the phase of the
    /// stage.
    pub closed spec fn spec_state(&self) -> DeviceStateView {
        DeviceStateView {
            connection_state: phase_of(self.stage),
            last_telemetry: match self.last_telemetry {
                Some(t) => Some(t@),
                None => None,
            },
            last_state_ack: self.last_state_ack,
            set_state: self.set_state,
        }
    }

    /// The phase that is shown is always the phase of the stage.
    pub proof fn lemma_phase_follows_stage(self)
        ensures
            self.spec_state().connection_state == phase_of(self.spec_stage()),
    {
    }

    /// A supervisor before its first cycle: disconnected, with nothing
    /// known of the device.
    pub fn new() -> (device: Self)
        ensures
            device.spec_stage() == Stage::Idle,
            device.spec_state() == DeviceStateView::initial(),
    {
        AnkerDevice {
            stage: Stage::Idle,
            last_telemetry: None,
            last_state_ack: None,
            set_state: SetState::default(),
        }
    }

    /// A snapshot of what is known of the device.
    pub fn state(&self) -> (state: DeviceState)
        ensures
            state@ == self.spec_state(),
    {
        DeviceState {
            connection_state: self.stage.phase(),
            last_telemetry: match &self.last_telemetry {
                Some(t) => Some(t.clone()),
                None => None,
            },
            last_state_ack: self.last_state_ack,
            set_state: self.set_state,
        }
    }

    /// The phase of the connection.
    pub fn connection_state(&self) -> (phase: ConnectionState)
        ensures
            phase == self.spec_state().connection_state,
            phase == phase_of(self.spec_stage()),
    {
        self.stage.phase()
    }

    /// The latest telemetry, if any has come.
    pub fn last_telemetry(&self) -> (telemetry: Option<Telemetry>)
        ensures
            match telemetry {
                Some(t) => self.spec_state().last_telemetry == Some(t@),
                None => self.spec_state().last_telemetry is None,
            },
    {
        match &self.last_telemetry {
            Some(t) => Some(t.clone()),
            None => None,
        }
    }

    /// The latest state acknowledgement, if any has come.
    pub fn last_state_ack(&self) -> (ack: Option<StateAck>)
        ensures
            ack == self.spec_state().last_state_ack,
    {
        self.last_state_ack
    }

    /// The values last commanded.
    pub fn set_state(&self) -> (set_state: SetState)
        ensures
            set_state == self.spec_state().set_state,
    {
        self.set_state
    }

    /// The stage that the link has reached.
    pub fn stage(&self) -> (stage: Stage)
        ensures
            stage == self.spec_stage(),
    {
        self.stage
    }

    /// Whether the link is up, so that commands can be written: it is
    /// exactly while the phase is `Connected`.
    pub fn link_installed(&self) -> (up: bool)
        ensures
            up == (self.spec_stage() == Stage::Streaming),
            up == (self.spec_state().connection_state == ConnectionState::Connected),
    {
        match self.stage {
            Stage::Streaming => true,
            _ => false,
        }
    }

    /// The cycle goes on at `stage` with `action`.
    fn advance(&mut self, stage: Stage, action: LinkAction) -> (step: Step)
        requires
            stage != Stage::Idle,
        ensures
            final(self).stage == stage,
            final(self).last_telemetry == old(self).last_telemetry,
            final(self).last_state_ack == old(self).last_state_ack,
            final(self).set_state == old(self).set_state,
            step.action == action,
            step.phase == (if phase_of(stage) != phase_of(old(self).stage) {
                Some(phase_of(stage))
            } else {
                None
            }),
            step.telemetry is None,
            step.failure is None,
            step.rejected is None,
    {
        let before = self.stage.phase();
        let after = stage.phase();
        self.stage = stage;
        Step {
            action,
            phase: if after != before {
                Some(after)
            } else {
                None
            },
            telemetry: None,
            failure: None,
            rejected: None,
        }
    }

    /// The cycle ends: the link is dropped and the delay starts.
    fn end_cycle(&mut self, failure: Option<DeviceError>) -> (step: Step)
        ensures
            final(self).stage == Stage::Idle,
            final(self).last_telemetry == old(self).last_telemetry,
            final(self).last_state_ack == old(self).last_state_ack,
            final(self).set_state == old(self).set_state,
            step.action == (LinkAction::Backoff { delay_ms: RECONNECT_DELAY_MS }),
            step.phase == Some(ConnectionState::Disconnected),
            step.telemetry is None,
            step.failure == failure,
            step.rejected is None,
    {
        self.stage = Stage::Idle;
        Step {
            action: LinkAction::Backoff { delay_ms: RECONNECT_DELAY_MS },
            phase: Some(ConnectionState::Disconnected),
            telemetry: None,
            failure,
            rejected: None,
        }
    }

    /// Takes in one notification while the link is up.
    fn receive(&mut self, bytes: &Vec<u8>) -> (step: Step)
        requires
            old(self).stage == Stage::Streaming,
        ensures
            final(self).stage == Stage::Streaming,
            final(self).set_state == old(self).set_state,
            final(self).spec_state() == next_state(
                old(self).spec_state(),
                Stage::Streaming,
                LinkEvent::Notification(*bytes),
            ),
            step.action == LinkAction::Listen,
            step.phase is None,
            step.failure is None,
            step.telemetry_view() == published_telemetry(
                Stage::Streaming,
                LinkEvent::Notification(*bytes),
            ),
            step.rejected_kind() == rejection(Stage::Streaming, LinkEvent::Notification(*bytes)),
    {
        let mut step = Step {
            action: LinkAction::Listen,
            phase: None,
            telemetry: None,
            failure: None,
            rejected: None,
        };
        match NotificationPacket::from_bytes(bytes.as_slice()) {
            Ok(NotificationPacket::Telemetry(telemetry)) => {
                self.last_telemetry = Some(telemetry.clone());
                step.telemetry = Some(telemetry);
            },
            Ok(NotificationPacket::StateAck(state_ack)) => {
                self.last_state_ack = Some(state_ack);
            },
            Ok(NotificationPacket::CommandAck(_)) => {},
            Err(e) => {
                step.rejected = Some(e);
            },
        }
        step
    }

    /// Takes the step that `event` makes at the present stage: moves to
    /// the next stage, keeps what a notification brought, and hands back what
    /// to do next and what to publish.
    pub fn handle(&mut self, event: LinkEvent) -> (step: Step)
        ensures
            final(self).spec_stage() == transition(old(self).spec_stage(), event).stage,
            final(self).spec_state() == next_state(
                old(self).spec_state(),
                old(self).spec_stage(),
                event,
            ),
            step.action == transition(old(self).spec_stage(), event).action,
            step.failure_kind() == transition(old(self).spec_stage(), event).failure,
            step.phase == published_phase(old(self).spec_stage(), event),
            step.telemetry_view() == published_telemetry(old(self).spec_stage(), event),
            step.rejected_kind() == rejection(old(self).spec_stage(), event),
    {
        let stage = self.stage;
        match event {
            LinkEvent::Failed(text) => self.end_cycle(Some(DeviceError::Ble(text))),
            LinkEvent::Begin => match stage {
                Stage::Idle => self.advance(Stage::AcquiringAdapter, LinkAction::AcquireAdapter),
                _ => self.end_cycle(Some(DeviceError::NotConnected)),
            },
            LinkEvent::AdapterReady => match stage {
                Stage::AcquiringAdapter => self.advance(Stage::StartingScan, LinkAction::StartScan),
                _ => self.end_cycle(Some(DeviceError::NotConnected)),
            },
            LinkEvent::AdapterMissing => match stage {
                Stage::AcquiringAdapter => self.end_cycle(Some(DeviceError::NotFound)),
                _ => self.end_cycle(Some(DeviceError::NotConnected)),
            },
            LinkEvent::ScanStarted => match stage {
                Stage::StartingScan => self.advance(
                    Stage::Searching,
                    LinkAction::PollPeripherals { delay_ms: 0 },
                ),
                _ => self.end_cycle(Some(DeviceError::NotConnected)),
            },
            LinkEvent::Peripherals { names, elapsed_ms } => match stage {
                Stage::Searching => {
                    if elapsed_ms > SCAN_TIMEOUT_MS {
                        self.end_cycle(Some(DeviceError::NotFound))
                    } else {
                        match find_target(&names) {
                            Some(index) => self.advance(
                                Stage::StoppingScan,
                                LinkAction::StopScan { peripheral: index },
                            ),
                            None => self.advance(
                                Stage::Searching,
                                LinkAction::PollPeripherals { delay_ms: SCAN_POLL_MS },
                            ),
                        }
                    }
                },
                _ => self.end_cycle(Some(DeviceError::NotConnected)),
            },
            LinkEvent::ScanStopped => match stage {
                Stage::StoppingScan => self.advance(Stage::Linking, LinkAction::Connect),
                _ => self.end_cycle(Some(DeviceError::NotConnected)),
            },
            LinkEvent::LinkUp => match stage {
                Stage::Linking => self.advance(Stage::Discovering, LinkAction::DiscoverServices),
                _ => self.end_cycle(Some(DeviceError::NotConnected)),
            },
            LinkEvent::Services { characteristics } => match stage {
                Stage::Discovering => match find_position(&characteristics, WRITE_UUID) {
                    None => self.end_cycle(Some(DeviceError::CharacteristicNotFound(WRITE_UUID))),
                    Some(write) => match find_position(&characteristics, NOTIFY_UUID) {
                        None => self.end_cycle(
                            Some(DeviceError::CharacteristicNotFound(NOTIFY_UUID)),
                        ),
                        Some(notify) => self.advance(
                            Stage::Subscribing,
                            LinkAction::Subscribe { write, notify },
                        ),
                    },
                },
                _ => self.end_cycle(Some(DeviceError::NotConnected)),
            },
            LinkEvent::Subscribed => match stage {
                Stage::Subscribing => self.advance(Stage::Streaming, LinkAction::Listen),
                _ => self.end_cycle(Some(DeviceError::NotConnected)),
            },
            LinkEvent::Notification(bytes) => match stage {
                Stage::Streaming => self.receive(&bytes),
                _ => self.end_cycle(Some(DeviceError::NotConnected)),
            },
            LinkEvent::StreamEnded => match stage {
                Stage::Streaming => self.end_cycle(None),
                _ => self.end_cycle(Some(DeviceError::NotConnected)),
            },
        }
    }

    /// The first half of sending a command: the frame to write, while the
    /// link is up, and `NotConnected` at every other time.
    pub fn prepare_command(&self, command: &AnkerCommand) -> (r: Result<Vec<u8>, DeviceError>)
        ensures
            match r {
                Ok(bytes) => self.spec_stage() == Stage::Streaming && bytes@
                    == command.spec_frame() && command.is_valid(),
                Err(e) => self.spec_stage() != Stage::Streaming && e.spec_kind()
                    == DeviceFailure::NotConnected,
            },
    {
        if !self.link_installed() {
            return Err(DeviceError::NotConnected);
        }
        command.note_valid();
        Ok(command.to_bytes())
    }

    /// The second half of sending a command: what the caller is told once
    /// the write has ended. A write that the transport took after the link
    /// was dropped has not succeeded.
    pub fn complete_command(&self, outcome: WriteOutcome) -> (r: Result<(), DeviceError>)
        ensures
            match r {
                Ok(()) => write_result(self.spec_stage(), outcome) == Ok::<(), DeviceFailure>(()),
                Err(e) => write_result(self.spec_stage(), outcome) == Err::<(), DeviceFailure>(
                    e.spec_kind(),
                ),
            },
    {
        match outcome {
            WriteOutcome::Written => if self.link_installed() {
                Ok(())
            } else {
                Err(DeviceError::NotConnected)
            },
            WriteOutcome::TimedOut => Err(DeviceError::WriteTimeout),
            WriteOutcome::Failed(text) => Err(DeviceError::Ble(text)),
        }
    }

    /// Notes the value that `command` sets, once the command has been sent.
    /// Nothing else changes.
    pub fn record_command(&mut self, command: &AnkerCommand)
        ensures
            final(self).spec_stage() == old(self).spec_stage(),
            final(self).spec_state() == (DeviceStateView {
                set_state: old(self).spec_state().set_state.recorded(*command),
                ..old(self).spec_state()
            }),
    {
        self.set_state.record(command);
    }
}

/// The first target of a list is a place of the list at which the power
/// station stands and before which it does not stand; and where there is no
/// first target, the power station stands nowhere in the list.
pub proof fn lemma_first_target(names: Seq<Option<String>>)
    ensures
        match first_target(names) {
            Some(index) => is_first_target(names, index),
            None => forall|index: int| 0 <= index < names.len() ==> !is_target(#[trigger] names[index]),
        },
{
    if first_target(names) is None {
        assert forall|index: int| 0 <= index < names.len() implies !is_target(
            #[trigger] names[index],
        ) by {
            if is_target(names[index]) {
                lemma_some_target_is_first(names, index);
            }
        }
    }
}

/// Where the power station stands at some place of a list, it stands at a
/// first place.
proof fn lemma_some_target_is_first(names: Seq<Option<String>>, index: int)
    requires
        0 <= index < names.len(),
        is_target(names[index]),
    ensures
        exists|first: int| is_first_target(names, first),
    decreases index,
{
    if exists|earlier: int| 0 <= earlier < index && is_target(#[trigger] names[earlier]) {
        let earlier = choose|earlier: int| 0 <= earlier < index && is_target(
            #[trigger] names[earlier],
        );
        lemma_some_target_is_first(names, earlier);
    } else {
        assert(is_first_target(names, index));
    }
}

/// The first position of an identifier in a list is a place at which it
/// stands and before which it does not stand; and where there is no first
/// position, it stands nowhere in the list.
pub proof fn lemma_first_position(ids: Seq<u128>, id: u128)
    ensures
        match first_position(ids, id) {
            Some(index) => is_first_position(ids, id, index),
            None => forall|index: int| 0 <= index < ids.len() ==> #[trigger] ids[index] != id,
        },
{
    if first_position(ids, id) is None {
        assert forall|index: int| 0 <= index < ids.len() implies #[trigger] ids[index] != id by {
            if ids[index] == id {
                lemma_some_position_is_first(ids, id, index);
            }
        }
    }
}

/// Where an identifier stands at some place of a list, it stands at a
/// first place.
proof fn lemma_some_position_is_first(ids: Seq<u128>, id: u128, index: int)
    requires
        0 <= index < ids.len(),
        ids[index] == id,
    ensures
        exists|first: int| is_first_position(ids, id, first),
    decreases index,
{
    if exists|earlier: int| 0 <= earlier < index && #[trigger] ids[earlier] == id {
        let earlier = choose|earlier: int| 0 <= earlier < index && #[trigger] ids[earlier] == id;
        lemma_some_position_is_first(ids, id, earlier);
    } else {
        assert(is_first_position(ids, id, index));
    }
}

/// The link is up exactly while the phase is `Connected`.
pub proof fn lemma_link_up_iff_connected(stage: Stage)
    ensures
        stage == Stage::Streaming <==> phase_of(stage) == ConnectionState::Connected,
{
}

/// Whatever the stage and whatever the event: a step that reports a
/// failure ends the cycle; a step ends the cycle exactly when it asks for the
/// fixed delay before the next cycle; and a step that ends the cycle
/// publishes the phase `Disconnected` and leaves the link down.
pub proof fn lemma_every_failure_ends_the_cycle(stage: Stage, event: LinkEvent)
    ensures
        transition(stage, event).failure is Some ==> transition(stage, event).stage == Stage::Idle,
        transition(stage, event).stage == Stage::Idle <==> transition(stage, event).action == (
        LinkAction::Backoff { delay_ms: RECONNECT_DELAY_MS }),
        transition(stage, event).stage == Stage::Idle ==> published_phase(stage, event) == Some(
            ConnectionState::Disconnected,
        ),
        event is Failed ==> transition(stage, event).stage == Stage::Idle,
{
}

/// From the start a cycle begins at once, whatever ended the cycle
/// before: no failure is final.
pub proof fn lemma_retry_is_unconditional(stage: Stage, event: LinkEvent)
    ensures
        transition(stage, event).stage == Stage::Idle ==> transition(
            Stage::Idle,
            LinkEvent::Begin,
        ) == proceed(Stage::AcquiringAdapter, LinkAction::AcquireAdapter),
        phase_of(transition(Stage::Idle, LinkEvent::Begin).stage) == ConnectionState::Scanning,
{
}

/// The phases follow one another in one order: a step keeps the phase,
/// or moves it from `Disconnected` to `Scanning`, from `Scanning` to
/// `Connecting` or from `Connecting` to `Connected`, or falls back to
/// `Disconnected`.
pub proof fn lemma_phases_in_order(stage: Stage, event: LinkEvent)
    ensures
        ({
            let before = phase_of(stage);
            let after = phase_of(transition(stage, event).stage);
            ||| after == before
            ||| after == ConnectionState::Disconnected
            ||| before == ConnectionState::Disconnected && after == ConnectionState::Scanning
            ||| before == ConnectionState::Scanning && after == ConnectionState::Connecting
            ||| before == ConnectionState::Connecting && after == ConnectionState::Connected
        }),
{
}

/// When the stream ends, or the transport fails, while the link is up, the
/// phase becomes `Disconnected` and the link is down in the same step; and a
/// write that ends after that step has not succeeded, whatever the transport
/// says of it.
pub proof fn lemma_no_write_after_stream_end(event: LinkEvent, outcome: WriteOutcome)
    requires
        event is StreamEnded || event is Failed,
    ensures
        transition(Stage::Streaming, event).stage == Stage::Idle,
        phase_of(transition(Stage::Streaming, event).stage) == ConnectionState::Disconnected,
        published_phase(Stage::Streaming, event) == Some(ConnectionState::Disconnected),
        write_result(transition(Stage::Streaming, event).stage, outcome) is Err,
{
}

/// A write succeeds only while the phase is `Connected`.
pub proof fn lemma_write_needs_connection(stage: Stage, outcome: WriteOutcome)
    ensures
        write_result(stage, outcome) is Ok ==> phase_of(stage) == ConnectionState::Connected
            && outcome is Written,
{
}

/// A notification never costs the link: while the link is up the stage
/// stays, nothing is reported as failed and no phase is published, whether
/// the bytes can be decoded or not. Bytes that cannot be decoded leave the
/// device state as it was.
pub proof fn lemma_notification_keeps_the_link(state: DeviceStateView, bytes: Vec<u8>)
    requires
        state.connection_state == ConnectionState::Connected,
    ensures
        transition(Stage::Streaming, LinkEvent::Notification(bytes)) == proceed(
            Stage::Streaming,
            LinkAction::Listen,
        ),
        published_phase(Stage::Streaming, LinkEvent::Notification(bytes)) is None,
        decode_notification(bytes@) is Err ==> next_state(
            state,
            Stage::Streaming,
            LinkEvent::Notification(bytes),
        ) == state,
        decode_notification(bytes@) is Err <==> rejection(
            Stage::Streaming,
            LinkEvent::Notification(bytes),
        ) is Some,
{
}

/// A snapshot that a step publishes is the snapshot that the step keeps as
/// the latest: subscribers and readers see the same telemetry.
pub proof fn lemma_published_telemetry_is_latest(
    state: DeviceStateView,
    stage: Stage,
    event: LinkEvent,
)
    ensures
        published_telemetry(stage, event) is Some ==> next_state(state, stage, event).last_telemetry
            == published_telemetry(stage, event),
        published_telemetry(stage, event) is None ==> next_state(state, stage, event).last_telemetry
            == state.last_telemetry,
{
}

/// The link comes up in one way only: by the subscription, at the stage
/// that waits for it. Every other step that ends with the link up found it
/// up, and is the step of a notification.
pub proof fn lemma_link_comes_up_by_subscription_only(stage: Stage, event: LinkEvent)
    requires
        transition(stage, event).stage == Stage::Streaming,
    ensures
        (stage == Stage::Subscribing && event is Subscribed) || (stage == Stage::Streaming
            && event is Notification),
{
}

/// The scan is stopped for the power station only: within the scan
/// timeout, and for the first peripheral whose name holds the device name.
pub proof fn lemma_scan_stops_for_the_device_only(names: Vec<Option<String>>, elapsed_ms: u64)
    requires
        transition(Stage::Searching, LinkEvent::Peripherals { names, elapsed_ms }).stage
            == Stage::StoppingScan,
    ensures
        elapsed_ms <= SCAN_TIMEOUT_MS,
        first_target(names@) is Some,
        is_first_target(names@, first_target(names@)->Some_0),
        transition(Stage::Searching, LinkEvent::Peripherals { names, elapsed_ms }).action == (
        LinkAction::StopScan { peripheral: first_target(names@)->Some_0 as usize }),
{
    lemma_first_target(names@);
}

/// A subscription is asked for only where the device has both
/// characteristics, and the places that the action names are places at which
/// they stand.
pub proof fn lemma_subscription_names_both_characteristics(characteristics: Vec<u128>)
    requires
        transition(Stage::Discovering, LinkEvent::Services { characteristics }).stage
            == Stage::Subscribing,
        characteristics@.len() <= usize::MAX,
    ensures
        ({
            let action = transition(
                Stage::Discovering,
                LinkEvent::Services { characteristics },
            ).action;
            &&& action is Subscribe
            &&& action->write < characteristics@.len()
            &&& action->notify < characteristics@.len()
            &&& characteristics@[action->write as int] == WRITE_UUID
            &&& characteristics@[action->notify as int] == NOTIFY_UUID
        }),
{
    lemma_first_position(characteristics@, WRITE_UUID);
    lemma_first_position(characteristics@, NOTIFY_UUID);
}

/// The stage that is reached from `stage` by the steps of `events`, one
/// after the other.
pub open spec fn stage_after(stage: Stage, events: Seq<LinkEvent>) -> Stage
    decreases events.len(),
{
    if events.len() == 0 {
        stage
    } else {
        transition(stage_after(stage, events.drop_last()), events.last()).stage
    }
}

/// Once the link is down it stays down until a subscription has
/// succeeded again: whatever else is reported, and in whatever order, the
/// link does not come back by itself.
pub proof fn lemma_link_stays_down_until_subscribed(stage: Stage, events: Seq<LinkEvent>)
    requires
        stage != Stage::Streaming,
        forall|i: int| 0 <= i < events.len() ==> !(#[trigger] events[i] is Subscribed),
    ensures
        stage_after(stage, events) != Stage::Streaming,
    decreases events.len(),
{
    if events.len() > 0 {
        let before = events.drop_last();
        assert forall|i: int| 0 <= i < before.len() implies !(#[trigger] before[i] is Subscribed) by {
            assert(before[i] == events[i]);
        }
        lemma_link_stays_down_until_subscribed(stage, before);
        assert(!(events[events.len() - 1] is Subscribed));
    }
}

/// A cycle in which nothing fails brings the link up: from the start, with
/// an adapter, the device among the peripherals within the scan timeout, and
/// both characteristics on the device, the eight steps of a cycle end with
/// the link up.
pub proof fn lemma_a_cycle_without_failure_brings_the_link_up(
    names: Vec<Option<String>>,
    elapsed_ms: u64,
    characteristics: Vec<u128>,
)
    requires
        elapsed_ms <= SCAN_TIMEOUT_MS,
        exists|index: int| 0 <= index < names@.len() && is_target(#[trigger] names@[index]),
        exists|index: int|
            0 <= index < characteristics@.len() && #[trigger] characteristics@[index] == WRITE_UUID,
        exists|index: int|
            0 <= index < characteristics@.len() && #[trigger] characteristics@[index]
                == NOTIFY_UUID,
    ensures
        stage_after(
            Stage::Idle,
            seq![
                LinkEvent::Begin,
                LinkEvent::AdapterReady,
                LinkEvent::ScanStarted,
                LinkEvent::Peripherals { names, elapsed_ms },
                LinkEvent::ScanStopped,
                LinkEvent::LinkUp,
                LinkEvent::Services { characteristics },
                LinkEvent::Subscribed,
            ],
        ) == Stage::Streaming,
{
    let events = seq![
        LinkEvent::Begin,
        LinkEvent::AdapterReady,
        LinkEvent::ScanStarted,
        LinkEvent::Peripherals { names, elapsed_ms },
        LinkEvent::ScanStopped,
        LinkEvent::LinkUp,
        LinkEvent::Services { characteristics },
        LinkEvent::Subscribed,
    ];
    lemma_first_target(names@);
    lemma_first_position(characteristics@, WRITE_UUID);
    lemma_first_position(characteristics@, NOTIFY_UUID);
    assert(stage_after(Stage::Idle, events.take(0)) == Stage::Idle);
    assert(events.take(1).drop_last() =~= events.take(0));
    assert(stage_after(Stage::Idle, events.take(1)) == Stage::AcquiringAdapter);
    assert(events.take(2).drop_last() =~= events.take(1));
    assert(stage_after(Stage::Idle, events.take(2)) == Stage::StartingScan);
    assert(events.take(3).drop_last() =~= events.take(2));
    assert(stage_after(Stage::Idle, events.take(3)) == Stage::Searching);
    assert(events.take(4).drop_last() =~= events.take(3));
    assert(stage_after(Stage::Idle, events.take(4)) == Stage::StoppingScan);
    assert(events.take(5).drop_last() =~= events.take(4));
    assert(stage_after(Stage::Idle, events.take(5)) == Stage::Linking);
    assert(events.take(6).drop_last() =~= events.take(5));
    assert(stage_after(Stage::Idle, events.take(6)) == Stage::Discovering);
    assert(events.take(7).drop_last() =~= events.take(6));
    assert(stage_after(Stage::Idle, events.take(7)) == Stage::Subscribing);
    assert(events.drop_last() =~= events.take(7));
}

} // verus!
