//! The role state machine of a node and what the coordinator derives from the gates.
//!
//! A node is driven by ticks. On every tick its surroundings are sampled into
//! [`Inputs`], and [`App::update`] turns the current state and the inputs into
//! the next state and the [`Actions`] that the surroundings have to perform:
//! which beacon to broadcast, which snapshot to show on the dashboard, and which
//! colour to show on the indicator. Nothing in here waits, reads or sends.

pub mod config;
pub mod gates;
pub mod invariants;
pub mod observations;
pub mod race;

pub use config::address_from_env_var;

use crate::app::gates::Gates;
use crate::app::observations::Observations;
use crate::app::race::Race;
use crate::hal::button::ButtonState;
use crate::hal::gate::GateState;
use crate::hal::rgb_led::RgbLedColor;
use crate::svc::clock::{
    calculate_clock_offset, spec_clock_offset, CoordinatedClock, CoordinatedInstant, LocalClock,
    LocalInstant, LocalOffset,
};
use crate::svc::race_node::{
    spec_encode, Beacon, CoordinatorBeacon, FrameData, GateBeacon, NodeAddress, RaceNodeMessage,
};
use vstd::prelude::*;

verus! {

/// How long a gate may wait for the coordinator's clock after start, in milliseconds.
pub const STARTUP_TIMEOUT_MILLIS: u64 = 10_000;

/// The snapshot that the coordinator shows to the outside: its time, the gates
/// and the race.
#[derive(Debug, Clone, Copy, PartialEq, Eq, Structural)]
pub struct SystemState {
    pub time: CoordinatedInstant,
    pub gates: Gates,
    pub race: Race,
}

impl Default for SystemState {
    fn default() -> (state: Self)
        ensures
            state == SystemState::spec_initial(),
    {
        SystemState {
            time: CoordinatedInstant::default(),
            gates: Gates::default(),
            race: Race::default(),
        }
    }
}

impl SystemState {
    /// The snapshot before anything happened: time zero, nothing known of the
    /// gates, the race pending.
    pub open spec fn spec_initial() -> SystemState {
        SystemState {
            time: CoordinatedInstant { millis: 0 },
            gates: Gates::spec_unknown(),
            race: Race::spec_pending(),
        }
    }

    /// The snapshot that the coordinator takes at `time` of `gates`.
    pub open spec fn spec_snapshot(time: CoordinatedInstant, gates: Gates) -> SystemState {
        SystemState { time, gates, race: Race::spec_of_gates(gates) }
    }

    /// Whether the race of the snapshot is the one that its gates tell of.
    pub open spec fn spec_is_consistent(&self) -> bool {
        self.race == Race::spec_of_gates(self.gates)
    }

    pub fn time(&self) -> (time: CoordinatedInstant)
        ensures
            time == self.time,
    {
        self.time
    }

    pub fn gates(&self) -> (gates: &Gates)
        ensures
            *gates == self.gates,
    {
        &self.gates
    }

    pub fn race(&self) -> (race: &Race)
        ensures
            *race == self.race,
    {
        &self.race
    }
}

/// What is sampled from the surroundings of a node for one tick.
#[derive(Debug, Clone, Copy, PartialEq, Eq, Structural)]
pub struct Inputs {
    /// Milliseconds that the node's clock has counted since the node started.
    pub uptime_millis: u64,
    /// Whether the wireless link is up.
    pub is_wifi_connected: bool,
    /// What its gate sensor reports.
    pub gate_state: GateState,
    /// What the button reports.
    pub button_state: ButtonState,
    /// The address of this node.
    pub address: NodeAddress,
    /// The coordinator's time as the network last observed it; none while no
    /// recent beacon of the coordinator is at hand.
    pub coordinator_time: Option<CoordinatedInstant>,
    /// The gates as the network aggregated them.
    pub gates: Gates,
}

/// The coordinator's time on a gate, with the offset that gave it.
#[derive(Debug, Clone, Copy, PartialEq, Eq, Structural)]
pub struct CoordinatedReading {
    pub offset: LocalOffset,
    pub time: CoordinatedInstant,
}

/// The offset of a gate from a local reading and the coordinator's time, where
/// both are at hand and the coordinator is not behind.
pub open spec fn spec_coordinated_offset(
    local_time: Option<LocalInstant>,
    coordinator_time: Option<CoordinatedInstant>,
) -> Option<LocalOffset> {
    match (local_time, coordinator_time) {
        (Some(local), Some(coordinator)) => match spec_clock_offset(coordinator, local) {
            Ok(offset) => Some(offset),
            Err(_) => None,
        },
        _ => None,
    }
}

/// Computes the offset of a gate from the readings of one tick.
///
/// There is an offset exactly when the local clock gave a reading, the
/// coordinator's time is at hand, and the coordinator is not behind the local
/// reading; it is then the difference of the two.
pub fn coordinated_offset(
    local_time: Option<LocalInstant>,
    coordinator_time: Option<CoordinatedInstant>,
) -> (offset: Option<LocalOffset>)
    ensures
        offset == spec_coordinated_offset(local_time, coordinator_time),
        offset.is_some() <==> (local_time matches Some(l) && coordinator_time matches Some(c) && c@
            >= l@),
        offset matches Some(o) ==> o@ == coordinator_time.unwrap()@ - local_time.unwrap()@,
{
    match (local_time, coordinator_time) {
        (Some(local), Some(coordinator)) => match calculate_clock_offset(coordinator, local) {
            Ok(offset) => Some(offset),
            Err(_) => None,
        },
        _ => None,
    }
}

impl Inputs {
    /// The local time of the tick: the uptime while it fits a timestamp.
    pub open spec fn spec_local_time(&self) -> Option<LocalInstant> {
        LocalInstant::spec_from_elapsed_millis(self.uptime_millis)
    }

    /// Whether a node may take up its role: the link is up, the button is not
    /// held down and its gate is not active.
    pub open spec fn spec_may_take_role(&self) -> bool {
        self.is_wifi_connected && self.button_state != ButtonState::Pressed && self.gate_state
            != GateState::Active
    }

    /// The coordinator's time as a gate computes it for the tick: the local time
    /// plus the offset that the tick's readings give.
    pub open spec fn spec_coordinated_reading(&self) -> Option<CoordinatedReading> {
        match spec_coordinated_offset(self.spec_local_time(), self.coordinator_time) {
            Some(offset) => match self.spec_local_time().unwrap().spec_to_coordinated(offset) {
                Some(time) => Some(CoordinatedReading { offset, time }),
                None => None,
            },
            None => None,
        }
    }

    /// The inputs of a tick at `uptime_millis` on a node that samples the given
    /// values from its hardware and has heard `observations` from the others: the
    /// coordinator's time is the one that the observations give at that moment,
    /// and the gates are the ones that they hold.
    pub fn observed(
        uptime_millis: u64,
        is_wifi_connected: bool,
        gate_state: GateState,
        button_state: ButtonState,
        address: NodeAddress,
        observations: &Observations,
    ) -> (inputs: Inputs)
        ensures
            inputs == (Inputs {
                uptime_millis,
                is_wifi_connected,
                gate_state,
                button_state,
                address,
                coordinator_time: observations.spec_coordinator_time(uptime_millis),
                gates: observations.gates,
            }),
    {
        Inputs {
            uptime_millis,
            is_wifi_connected,
            gate_state,
            button_state,
            address,
            coordinator_time: observations.coordinator_time(uptime_millis),
            gates: observations.gates(),
        }
    }

    #[verifier::when_used_as_spec(spec_local_time)]
    pub fn local_time(&self) -> (time: Option<LocalInstant>)
        ensures
            time == self.spec_local_time(),
    {
        LocalInstant::from_elapsed_millis(self.uptime_millis)
    }

    #[verifier::when_used_as_spec(spec_may_take_role)]
    pub fn may_take_role(&self) -> (yes: bool)
        ensures
            yes == self.spec_may_take_role(),
    {
        self.is_wifi_connected && self.button_state != ButtonState::Pressed && self.gate_state
            != GateState::Active
    }

    /// Computes the coordinator's time for the tick, as a gate sees it.
    ///
    /// There is a reading exactly when there is an offset, and the time is then
    /// the coordinator's time that was observed.
    #[verifier::when_used_as_spec(spec_coordinated_reading)]
    pub fn coordinated_reading(&self) -> (reading: Option<CoordinatedReading>)
        ensures
            reading == self.spec_coordinated_reading(),
            reading.is_some() <==> spec_coordinated_offset(
                self.spec_local_time(),
                self.coordinator_time,
            ).is_some(),
            reading matches Some(r) ==> Some(r.time) == self.coordinator_time && r.time@
                == self.uptime_millis + r.offset@,
    {
        let local_time = self.local_time();
        match coordinated_offset(local_time, self.coordinator_time) {
            Some(offset) => match local_time {
                Some(local) => match local.to_coordinated(offset) {
                    Some(time) => Some(CoordinatedReading { offset, time }),
                    None => None,
                },
                None => None,
            },
            None => None,
        }
    }
}

/// The state of a node that has not taken up a role yet.
#[derive(Debug, Clone, Copy, PartialEq, Eq, Structural)]
pub struct InitState {
    pub gate_state: GateState,
    pub button_state: ButtonState,
    pub time: LocalInstant,
}

/// The state of a node that runs as the coordinator.
#[derive(Debug, Clone, Copy, PartialEq, Eq, Structural)]
pub struct CoordinatorReadyState {
    /// The coordinator's time at the last tick.
    pub time: CoordinatedInstant,
    /// The snapshot taken at the last tick.
    pub system_state: SystemState,
    /// Whether one of the gates was active at the last tick.
    pub any_gate_active: bool,
}

/// The state of a gate that waits for the coordinator's clock.
#[derive(Debug, Clone, Copy, PartialEq, Eq, Structural)]
pub struct GateStartupState {
    /// The uptime, in milliseconds, at which the wait began.
    pub time_started: u64,
}

/// The state of a gate that follows the coordinator's clock.
#[derive(Debug, Clone, Copy, PartialEq, Eq, Structural)]
pub struct GateReadyState {
    pub is_wifi_connected: bool,
    pub gate_state: GateState,
    /// The offset from local time to the coordinator's time at the last tick.
    pub clock_offset: LocalOffset,
    /// The coordinator's time at which this gate was last seen active, if ever.
    pub last_activation_time: Option<CoordinatedInstant>,
}

/// The state of a node: the role it has taken and what it remembers in it.
#[derive(Debug, Clone, Copy, PartialEq, Eq, Structural)]
pub enum AppState {
    Init(InitState),
    CoordinatorReady(CoordinatorReadyState),
    GateStartup(GateStartupState),
    GateReady(GateReadyState),
}

/// What a node sends out in one tick.
#[derive(Debug, Clone, Copy, PartialEq, Eq, Structural)]
pub struct Effects {
    /// The beacon to broadcast, if any.
    pub beacon: Option<Beacon>,
    /// The coordinator's time to record for the other services, if any.
    pub coordinator_time: Option<CoordinatedInstant>,
    /// The snapshot to show on the dashboard, if any.
    pub system_state: Option<SystemState>,
}

/// The outcome of one tick in one state: the state to go to and what to send out.
#[derive(Debug, Clone, Copy, PartialEq, Eq, Structural)]
pub struct Transition {
    pub state: AppState,
    pub effects: Effects,
}

/// Why a node cannot go on and has to be restarted.
#[derive(Debug, Clone, Copy, PartialEq, Eq, Structural)]
pub enum Fatal {
    /// A gate waited for the coordinator's clock for more than ten seconds.
    StartupTimeout,
}

impl Default for InitState {
    fn default() -> (state: Self)
        ensures
            state == InitState::spec_initial(),
    {
        InitState {
            gate_state: GateState::default(),
            button_state: ButtonState::default(),
            time: LocalInstant::default(),
        }
    }
}

impl Default for CoordinatorReadyState {
    fn default() -> (state: Self)
        ensures
            state == CoordinatorReadyState::spec_initial(),
    {
        CoordinatorReadyState {
            time: CoordinatedInstant::default(),
            system_state: SystemState::default(),
            any_gate_active: false,
        }
    }
}

impl Default for AppState {
    fn default() -> (state: Self)
        ensures
            state == AppState::Init(InitState::spec_initial()),
    {
        AppState::Init(InitState::default())
    }
}

impl Effects {
    /// Nothing is sent out.
    pub open spec fn spec_none() -> Effects {
        Effects { beacon: None, coordinator_time: None, system_state: None }
    }

    pub fn none() -> (effects: Effects)
        ensures
            effects == Effects::spec_none(),
    {
        Effects { beacon: None, coordinator_time: None, system_state: None }
    }

    /// The bytes of the frame in which a beacon is broadcast: those of the state
    /// under which the beacon travels.
    pub open spec fn spec_frame_of(beacon: Beacon) -> Seq<u8> {
        spec_encode(RaceNodeMessage::SystemState(beacon.spec_system_state()))
    }

    /// Encodes the beacon into the frame to broadcast.
    ///
    /// There is a frame exactly when there is a beacon. The coordinator's beacon
    /// is sent under the coordinator's address with its time; a gate's beacon is
    /// sent under its own address with its gate state and the time of its
    /// last activation, and with time zero where there was none.
    pub fn frame(&self) -> (frame: Option<FrameData>)
        ensures
            frame.is_some() <==> self.beacon.is_some(),
            frame matches Some(data) ==> data@ == Self::spec_frame_of(self.beacon.unwrap()),
    {
        match &self.beacon {
            Some(beacon) => Some(RaceNodeMessage::SystemState(beacon.system_state()).data()),
            None => None,
        }
    }
}

impl InitState {
    /// The state of a node that was just started or reset.
    pub open spec fn spec_initial() -> InitState {
        InitState {
            gate_state: GateState::Inactive,
            button_state: ButtonState::NotPressed,
            time: LocalInstant { millis: 0 },
        }
    }

    /// Where a node without a role goes on a tick.
    ///
    /// While the link is down, the button is held or its gate is active, it
    /// stays. Otherwise a gate address makes it a gate that waits for the clock,
    /// and the coordinator's address makes it the coordinator, whose time is its
    /// own local time; if the local clock gives no reading the node stays, and
    /// so it does with any other address.
    pub open spec fn spec_update(&self, inputs: &Inputs) -> AppState {
        if inputs.spec_may_take_role() && inputs.address.spec_is_gate() {
            AppState::GateStartup(GateStartupState { time_started: inputs.uptime_millis })
        } else if inputs.spec_may_take_role() && inputs.address.spec_is_coordinator()
            && inputs.spec_local_time().is_some() {
            AppState::CoordinatorReady(
                CoordinatorReadyState {
                    time: CoordinatedInstant::spec_from_local(inputs.spec_local_time().unwrap()),
                    system_state: SystemState::spec_initial(),
                    any_gate_active: false,
                },
            )
        } else {
            AppState::Init(*self)
        }
    }

    /// Decides the role of the node from the inputs of a tick. The state itself
    /// stays as it is.
    pub fn update(&mut self, inputs: &Inputs) -> (next: AppState)
        ensures
            next == old(self).spec_update(inputs),
            *final(self) == *old(self),
    {
        let may_take_role = inputs.may_take_role();
        let startup_as_gate = inputs.address.is_gate() && may_take_role;
        let startup_as_coordinator = inputs.address.is_coordinator() && may_take_role;
        if startup_as_gate {
            AppState::GateStartup(GateStartupState { time_started: inputs.uptime_millis })
        } else if startup_as_coordinator {
            match inputs.local_time() {
                Some(local_time) => AppState::CoordinatorReady(
                    CoordinatorReadyState {
                        time: CoordinatedInstant::from_local(local_time),
                        system_state: SystemState::default(),
                        any_gate_active: false,
                    },
                ),
                None => AppState::Init(*self),
            }
        } else {
            AppState::Init(*self)
        }
    }
}

impl CoordinatorReadyState {
    /// The state of a coordinator before its first tick: time zero, the first
    /// snapshot, no gate active.
    pub open spec fn spec_initial() -> CoordinatorReadyState {
        CoordinatorReadyState {
            time: CoordinatedInstant { millis: 0 },
            system_state: SystemState::spec_initial(),
            any_gate_active: false,
        }
    }

    /// What the coordinator does on a tick.
    ///
    /// Without the link it gives up its role and starts over, and sends nothing.
    /// With the link, its local time is the coordinator's time: it broadcasts it
    /// in a beacon, records it, takes a snapshot of the gates with the race
    /// derived from them and shows it. If the local clock gives no reading it
    /// stays as it was and shows the snapshot it has.
    pub open spec fn spec_update(&self, inputs: &Inputs) -> Transition {
        if !inputs.is_wifi_connected {
            Transition {
                state: AppState::Init(InitState::spec_initial()),
                effects: Effects::spec_none(),
            }
        } else {
            match inputs.spec_local_time() {
                Some(local_time) => {
                    let time = CoordinatedInstant::spec_from_local(local_time);
                    let system_state = SystemState::spec_snapshot(time, inputs.gates);
                    Transition {
                        state: AppState::CoordinatorReady(
                            CoordinatorReadyState {
                                time,
                                system_state,
                                any_gate_active: inputs.gates.spec_any_active(),
                            },
                        ),
                        effects: Effects {
                            beacon: Some(
                                Beacon::Coordinator(CoordinatorBeacon { time }),
                            ),
                            coordinator_time: Some(time),
                            system_state: Some(system_state),
                        },
                    }
                },
                None => Transition {
                    state: AppState::CoordinatorReady(*self),
                    effects: Effects {
                        beacon: None,
                        coordinator_time: None,
                        system_state: Some(self.system_state),
                    },
                },
            }
        }
    }

    /// Runs one tick of the coordinator.
    pub fn update(&self, inputs: &Inputs) -> (next: Transition)
        ensures
            next == self.spec_update(inputs),
    {
        if !inputs.is_wifi_connected {
            return Transition {
                state: AppState::Init(InitState::default()),
                effects: Effects::none(),
            };
        }
        match inputs.local_time() {
            Some(local_time) => {
                let time = CoordinatedInstant::from_local(local_time);
                let beacon = CoordinatorBeacon { time };
                let gates = inputs.gates;
                let mut race = self.system_state.race;
                race.set_gates(&gates);
                let any_gate_active = gates.start_gate().active || gates.finish_gate().active;
                let system_state = SystemState { time, gates, race };
                Transition {
                    state: AppState::CoordinatorReady(
                        CoordinatorReadyState { time, system_state, any_gate_active },
                    ),
                    effects: Effects {
                        beacon: Some(Beacon::Coordinator(beacon)),
                        coordinator_time: Some(time),
                        system_state: Some(system_state),
                    },
                }
            },
            None => Transition {
                state: AppState::CoordinatorReady(*self),
                effects: Effects {
                    beacon: None,
                    coordinator_time: None,
                    system_state: Some(self.system_state),
                },
            },
        }
    }
}

impl GateStartupState {
    /// Whether the wait has lasted longer than the timeout at `uptime_millis`.
    pub open spec fn spec_timed_out(&self, uptime_millis: u64) -> bool {
        uptime_millis - self.time_started > STARTUP_TIMEOUT_MILLIS
    }

    /// What a waiting gate does on a tick.
    ///
    /// Once it has waited for more than ten seconds it gives up, before anything
    /// else. Otherwise, with an offset at hand it becomes ready, with nothing
    /// latched; without one it goes on waiting.
    pub open spec fn spec_update(&self, inputs: &Inputs) -> Result<AppState, Fatal> {
        if self.spec_timed_out(inputs.uptime_millis) {
            Err(Fatal::StartupTimeout)
        } else {
            match inputs.spec_coordinated_reading() {
                Some(reading) => Ok(
                    AppState::GateReady(
                        GateReadyState {
                            is_wifi_connected: inputs.is_wifi_connected,
                            gate_state: inputs.gate_state,
                            clock_offset: reading.offset,
                            last_activation_time: None,
                        },
                    ),
                ),
                None => Ok(AppState::GateStartup(*self)),
            }
        }
    }

    /// The state of a gate that begins to wait at `uptime_millis`.
    pub fn started_at(uptime_millis: u64) -> (state: Self)
        ensures
            state.time_started == uptime_millis,
    {
        GateStartupState { time_started: uptime_millis }
    }

    #[verifier::when_used_as_spec(spec_timed_out)]
    pub fn timed_out(&self, uptime_millis: u64) -> (yes: bool)
        ensures
            yes == self.spec_timed_out(uptime_millis),
    {
        match uptime_millis.checked_sub(self.time_started) {
            Some(time_since_started) => time_since_started > STARTUP_TIMEOUT_MILLIS,
            None => false,
        }
    }

    /// Runs one tick of a waiting gate. The timeout is the only failure. The
    /// state itself stays as it is.
    pub fn update(&mut self, inputs: &Inputs) -> (next: Result<AppState, Fatal>)
        ensures
            next == old(self).spec_update(inputs),
            next.is_err() <==> old(self).spec_timed_out(inputs.uptime_millis),
            *final(self) == *old(self),
    {
        if self.timed_out(inputs.uptime_millis) {
            return Err(Fatal::StartupTimeout);
        }
        match inputs.coordinated_reading() {
            Some(reading) => Ok(
                AppState::GateReady(
                    GateReadyState {
                        is_wifi_connected: inputs.is_wifi_connected,
                        gate_state: inputs.gate_state,
                        clock_offset: reading.offset,
                        last_activation_time: None,
                    },
                ),
            ),
            None => Ok(AppState::GateStartup(*self)),
        }
    }
}

impl GateReadyState {
    /// The last activation time after a tick: the coordinator's time of the tick
    /// while its sensor is active, what was latched before while it is not.
    pub open spec fn spec_latch(
        &self,
        gate_state: GateState,
        coordinated_time: CoordinatedInstant,
    ) -> Option<CoordinatedInstant> {
        if gate_state == GateState::Active {
            Some(coordinated_time)
        } else {
            self.last_activation_time
        }
    }

    /// What a ready gate does on a tick.
    ///
    /// Without the coordinator's clock it falls back to waiting, from now, and
    /// sends nothing. With it, it latches an activation, broadcasts a beacon with
    /// its address, its gate state and what is latched, and stays ready.
    pub open spec fn spec_update(&self, inputs: &Inputs) -> Transition {
        match inputs.spec_coordinated_reading() {
            None => Transition {
                state: AppState::GateStartup(
                    GateStartupState { time_started: inputs.uptime_millis },
                ),
                effects: Effects::spec_none(),
            },
            Some(reading) => {
                let last_activation_time = self.spec_latch(inputs.gate_state, reading.time);
                Transition {
                    state: AppState::GateReady(
                        GateReadyState {
                            is_wifi_connected: inputs.is_wifi_connected,
                            gate_state: inputs.gate_state,
                            clock_offset: reading.offset,
                            last_activation_time,
                        },
                    ),
                    effects: Effects {
                        beacon: Some(
                            Beacon::Gate(
                                GateBeacon {
                                    addr: inputs.address,
                                    state: inputs.gate_state,
                                    last_activation_time,
                                },
                            ),
                        ),
                        coordinator_time: None,
                        system_state: None,
                    },
                }
            },
        }
    }

    /// Runs one tick of a ready gate. The state itself stays as it is.
    pub fn update(&mut self, inputs: &Inputs) -> (next: Transition)
        ensures
            next == old(self).spec_update(inputs),
            *final(self) == *old(self),
    {
        let reading = match inputs.coordinated_reading() {
            Some(reading) => reading,
            None => {
                return Transition {
                    state: AppState::GateStartup(GateStartupState::started_at(inputs.uptime_millis)),
                    effects: Effects::none(),
                };
            },
        };
        let last_activation_time = if inputs.gate_state == GateState::Active {
            Some(reading.time)
        } else {
            self.last_activation_time
        };
        let beacon = GateBeacon {
            addr: inputs.address,
            state: inputs.gate_state,
            last_activation_time,
        };
        Transition {
            state: AppState::GateReady(
                GateReadyState {
                    is_wifi_connected: inputs.is_wifi_connected,
                    gate_state: inputs.gate_state,
                    clock_offset: reading.offset,
                    last_activation_time,
                },
            ),
            effects: Effects {
                beacon: Some(Beacon::Gate(beacon)),
                coordinator_time: None,
                system_state: None,
            },
        }
    }
}

impl AppState {
    /// The state that a tick leads to and what is sent out on it, or the reason
    /// why the node cannot go on: each state decides for itself.
    pub open spec fn spec_update(&self, inputs: &Inputs) -> Result<Transition, Fatal> {
        match self {
            AppState::Init(state) => Ok(
                Transition { state: state.spec_update(inputs), effects: Effects::spec_none() },
            ),
            AppState::CoordinatorReady(state) => Ok(state.spec_update(inputs)),
            AppState::GateStartup(state) => match state.spec_update(inputs) {
                Ok(next) => Ok(Transition { state: next, effects: Effects::spec_none() }),
                Err(fatal) => Err(fatal),
            },
            AppState::GateReady(state) => Ok(state.spec_update(inputs)),
        }
    }

    /// Whether what the state remembers fits together: a coordinator's race is the
    /// one that its gates tell of, and its activity flag is that of its gates.
    pub open spec fn spec_is_consistent(&self) -> bool {
        self matches AppState::CoordinatorReady(state) ==> state.system_state.spec_is_consistent()
            && state.any_gate_active == state.system_state.gates.spec_any_active()
    }

    /// Runs one tick in the current state, which itself stays as it is.
    ///
    /// It fails only for a gate that has waited for the clock for more than ten
    /// seconds.
    pub fn update(&mut self, inputs: &Inputs) -> (next: Result<Transition, Fatal>)
        ensures
            next == old(self).spec_update(inputs),
            next.is_err() <==> (*old(self) matches AppState::GateStartup(state)
                && state.spec_timed_out(inputs.uptime_millis)),
            *final(self) == *old(self),
    {
        match self {
            AppState::Init(state) => Ok(
                Transition { state: state.update(inputs), effects: Effects::none() },
            ),
            AppState::CoordinatorReady(state) => Ok(state.update(inputs)),
            AppState::GateStartup(state) => match state.update(inputs) {
                Ok(next) => Ok(Transition { state: next, effects: Effects::none() }),
                Err(fatal) => Err(fatal),
            },
            AppState::GateReady(state) => Ok(state.update(inputs)),
        }
    }
}

/// The colour, as `0xRRGGBB`, that shows the state of a node: red before it has a
/// role; white for the coordinator, cyan while one of its gates is active; yellow
/// for a gate that waits for the clock; for a ready gate teal while it is active,
/// else green with the link up and maroon with the link down.
pub open spec fn spec_color_from_app_state(app_state: &AppState) -> u32 {
    match app_state {
        AppState::Init(_) => 0xFF0000,
        AppState::CoordinatorReady(state) => if state.any_gate_active {
            0x00FFFF
        } else {
            0xFFFFFF
        },
        AppState::GateStartup(_) => 0xFFFF00,
        AppState::GateReady(state) => if state.gate_state == GateState::Active {
            0x008080
        } else if state.is_wifi_connected {
            0x008000
        } else {
            0x800000
        },
    }
}

#[verifier::when_used_as_spec(spec_color_from_app_state)]
pub fn color_from_app_state(app_state: &AppState) -> (color: u32)
    ensures
        color == spec_color_from_app_state(app_state),
{
    match app_state {
        AppState::Init(_) => 0xFF0000,
        AppState::CoordinatorReady(state) => {
            if state.any_gate_active {
                0x00FFFF
            } else {
                0xFFFFFF
            }
        },
        AppState::GateStartup(_) => 0xFFFF00,
        AppState::GateReady(state) => {
            if state.gate_state == GateState::Active {
                0x008080
            } else if state.is_wifi_connected {
                0x008000
            } else {
                0x800000
            }
        },
    }
}

/// Keeps the colour that the indicator is to show.
#[derive(Debug, Clone, Copy, PartialEq, Eq, Structural)]
pub struct LedController {
    /// The colour last set; none before the first update.
    pub color: Option<RgbLedColor>,
}

impl LedController {
    pub fn new() -> (controller: Self)
        ensures
            controller.color is None,
    {
        LedController { color: None }
    }

    /// Sets the colour to the one that shows `app_state`.
    pub fn update(&mut self, app_state: &AppState)
        ensures
            final(self).color == Some(
                RgbLedColor::spec_from_u32(spec_color_from_app_state(app_state)),
            ),
    {
        let color = color_from_app_state(app_state);
        self.color = Some(RgbLedColor::from(color));
    }

    pub fn color(&self) -> (color: Option<RgbLedColor>)
        ensures
            color == self.color,
    {
        self.color
    }
}

/// What the surroundings of a node have to perform after a tick.
#[derive(Debug, Clone, Copy, PartialEq, Eq, Structural)]
pub struct Actions {
    /// What to send out.
    pub effects: Effects,
    /// The colour to show on the indicator.
    pub color: RgbLedColor,
    /// Whether the state after the tick differs from the state before it.
    pub state_changed: bool,
}

/// A node: its state and its indicator.
#[derive(Debug, Clone, Copy, PartialEq, Eq, Structural)]
pub struct App {
    pub state: AppState,
    pub led_controller: LedController,
}

impl App {
    /// What `update` returns and leaves behind for a node in state `state`: the
    /// transition of the state, the colour of the state reached, and whether the
    /// state changed.
    pub open spec fn spec_actions(state: AppState, inputs: &Inputs) -> Result<Actions, Fatal> {
        match state.spec_update(inputs) {
            Ok(transition) => Ok(
                Actions {
                    effects: transition.effects,
                    color: RgbLedColor::spec_from_u32(
                        spec_color_from_app_state(&transition.state),
                    ),
                    state_changed: transition.state != state,
                },
            ),
            Err(fatal) => Err(fatal),
        }
    }

    /// A node that was just started: without a role, its indicator not set yet.
    pub fn new() -> (app: Self)
        ensures
            app.state == AppState::Init(InitState::spec_initial()),
            app.led_controller.color is None,
    {
        App { state: AppState::default(), led_controller: LedController::new() }
    }

    pub fn state(&self) -> (state: &AppState)
        ensures
            *state == self.state,
    {
        &self.state
    }

    /// Runs one tick: moves to the state that the inputs lead to and returns what
    /// is to be performed.
    ///
    /// The beacon and the snapshot are returned on every tick on which the state
    /// has them to send, whether the state changed or not. When a gate has waited
    /// for the clock for more than ten seconds the node is left as it is and
    /// `Fatal::StartupTimeout` is returned: the caller has to restart the node.
    pub fn update(&mut self, inputs: &Inputs) -> (outcome: Result<Actions, Fatal>)
        ensures
            outcome == App::spec_actions(old(self).state, inputs),
            match old(self).state.spec_update(inputs) {
                Ok(transition) => {
                    &&& final(self).state == transition.state
                    &&& final(self).led_controller.color == Some(
                        RgbLedColor::spec_from_u32(spec_color_from_app_state(&transition.state)),
                    )
                },
                Err(_) => *final(self) == *old(self),
            },
    {
        let transition = match self.state.update(inputs) {
            Ok(transition) => transition,
            Err(fatal) => {
                return Err(fatal);
            },
        };
        let state_changed = transition.state != self.state;
        if state_changed {
            self.state = transition.state;
        }
        self.led_controller.update(&self.state);
        let color = RgbLedColor::from(color_from_app_state(&self.state));
        Ok(Actions { effects: transition.effects, color, state_changed })
    }
}

/// The address of a node: the configured one where there is one, else the one
/// that the selector switch gives.
pub fn address(configured: Option<NodeAddress>, dip_switch: NodeAddress) -> (address: NodeAddress)
    ensures
        address == match configured {
            Some(a) => a,
            None => dip_switch,
        },
{
    match configured {
        Some(address) => address,
        None => dip_switch,
    }
}

/// Makes the clock that gives the coordinator's time on a gate, from the local
/// clock and the coordinator's time as it was last observed.
///
/// There is none without an observed coordinator time. The local clock decides
/// what is read, so the result is stated for whatever it reads: where that
/// reading and the observed time give an offset, the clock is made, on the given
/// local clock and with that offset; where they give none, no clock is made.
pub fn make_coordinated_clock<'a>(
    local_clock: &'a LocalClock,
    coordinator_time: Option<CoordinatedInstant>,
) -> (clock: Option<CoordinatedClock<'a>>)
    ensures
        coordinator_time is None ==> clock is None,
        exists|reading: Option<LocalInstant>|
            match #[trigger] spec_coordinated_offset(reading, coordinator_time) {
                Some(offset) => clock matches Some(c) && c.spec_offset() == offset
                    && c.spec_local_clock() == *local_clock,
                None => clock is None,
            },
        clock matches Some(c) ==> c.spec_local_clock() == *local_clock && 0 <= c.spec_offset()@
            <= coordinator_time.unwrap()@,
{
    let time = local_clock.now();
    let clock = match coordinated_offset(time, coordinator_time) {
        Some(clock_offset) => Some(CoordinatedClock::new(local_clock, clock_offset)),
        None => None,
    };
    assert(match spec_coordinated_offset(time, coordinator_time) {
        Some(offset) => clock matches Some(c) && c.spec_offset() == offset && c.spec_local_clock()
            == *local_clock,
        None => clock is None,
    });
    clock
}

} // verus!
