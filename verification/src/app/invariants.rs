//! What holds of the role state machine on every tick, whatever the inputs.

use crate::app::gates::{Gate, Gates};
use crate::app::{
    spec_color_from_app_state, spec_coordinated_offset, AppState, Effects, Fatal, GateReadyState,
    GateStartupState, InitState, Inputs, Transition,
};
use crate::hal::button::ButtonState;
use crate::hal::gate::GateState;
use crate::svc::clock::CoordinatedInstant;
use crate::svc::race_node::{
    lemma_decode_encode, Beacon, CoordinatorBeacon, GateBeacon, RaceNodeMessage,
};
use vstd::prelude::*;

verus! {

/// Whether a tick may lead from `from` to `to`. A node without a role stays or
/// takes one; the coordinator stays or starts over; a waiting gate stays or
/// becomes ready; a ready gate stays or falls back to waiting. There is no other way.
pub open spec fn spec_may_follow(from: AppState, to: AppState) -> bool {
    match from {
        AppState::Init(_) => to is Init || to is CoordinatorReady || to is GateStartup,
        AppState::CoordinatorReady(_) => to is CoordinatorReady || to is Init,
        AppState::GateStartup(_) => to is GateStartup || to is GateReady,
        AppState::GateReady(_) => to is GateReady || to is GateStartup,
    }
}

/// Every tick follows the role graph: roles are taken once, a gate never becomes
/// the coordinator nor the coordinator a gate without starting over, and the only
/// ways back are a gate's fall back to waiting and the coordinator's reset.
pub proof fn lemma_transitions_follow_the_role_graph(state: AppState, inputs: Inputs)
    ensures
        state.spec_update(&inputs) matches Ok(transition) ==> spec_may_follow(
            state,
            transition.state,
        ),
{
}

/// Only a gate that waits for the clock can fail, and it fails exactly when it
/// has waited for more than ten seconds; a failure is always the startup timeout.
pub proof fn lemma_only_startup_times_out(state: AppState, inputs: Inputs)
    ensures
        state.spec_update(&inputs) is Err <==> (state matches AppState::GateStartup(waiting)
            && inputs.uptime_millis - waiting.time_started > 10_000),
        state.spec_update(&inputs) matches Err(fatal) ==> fatal == Fatal::StartupTimeout,
{
}

/// A node without a role keeps out of any role while the link is down, the button
/// is held down or its gate is active, and then remembers what it did before.
pub proof fn lemma_init_waits_for_quiet_inputs(state: InitState, inputs: Inputs)
    requires
        !inputs.is_wifi_connected || inputs.button_state == ButtonState::Pressed
            || inputs.gate_state == GateState::Active,
    ensures
        state.spec_update(&inputs) == AppState::Init(state),
{
}

/// The coordinator's time is its own local time: it takes up its role, and goes
/// on in it, with the reading of its local clock and no offset.
pub proof fn lemma_coordinator_time_is_local_time(state: AppState, inputs: Inputs)
    requires
        state is Init || state is CoordinatorReady,
        inputs.uptime_millis <= u32::MAX,
    ensures
        state.spec_update(&inputs) matches Ok(transition) && (
        transition.state matches AppState::CoordinatorReady(next) ==> next.time@
            == inputs.uptime_millis),
        state is CoordinatorReady && inputs.is_wifi_connected ==> state.spec_update(
            &inputs,
        ).unwrap().effects.beacon == Some(
            Beacon::Coordinator(
                CoordinatorBeacon {
                    time: CoordinatedInstant { millis: inputs.uptime_millis as u32 },
                },
            ),
        ),
{
}

/// A coordinator whose link is down gives up its role on that tick, forgets
/// everything and sends nothing.
pub proof fn lemma_coordinator_resets_without_link(state: AppState, inputs: Inputs)
    requires
        state is CoordinatorReady,
        !inputs.is_wifi_connected,
    ensures
        state.spec_update(&inputs) == Ok::<Transition, Fatal>(
            Transition {
                state: AppState::Init(InitState::spec_initial()),
                effects: Effects::spec_none(),
            },
        ),
{
}

/// What a node remembers always fits together: it does at the start, and a tick
/// keeps it so, whatever the inputs are.
pub proof fn lemma_ticks_keep_the_state_consistent(state: AppState, inputs: Inputs)
    requires
        state.spec_is_consistent(),
    ensures
        AppState::Init(InitState::spec_initial()).spec_is_consistent(),
        state.spec_update(&inputs) matches Ok(transition) ==> transition.state.spec_is_consistent(),
{
}

/// Every snapshot that the coordinator shows holds the race that its gates tell of.
pub proof fn lemma_shown_snapshots_are_consistent(state: AppState, inputs: Inputs)
    requires
        state.spec_is_consistent(),
    ensures
        state.spec_update(&inputs) matches Ok(transition) ==> (
        transition.effects.system_state matches Some(snapshot) ==> snapshot.spec_is_consistent()),
{
}

/// A gate has the coordinator's clock on a tick exactly when its local clock gave
/// a reading, the coordinator's time was observed and is not behind the reading.
/// The time it computes is then the coordinator's time that was observed.
pub proof fn lemma_gate_clock(inputs: Inputs)
    ensures
        inputs.spec_coordinated_reading().is_some() <==> (inputs.coordinator_time matches Some(c)
            && c@ >= inputs.uptime_millis),
        inputs.spec_coordinated_reading() matches Some(reading) ==> {
            &&& Some(reading.time) == inputs.coordinator_time
            &&& reading.offset@ == reading.time@ - inputs.uptime_millis
            &&& Some(reading.offset) == spec_coordinated_offset(
                inputs.spec_local_time(),
                inputs.coordinator_time,
            )
        },
{
}

/// The latch of a ready gate: a tick on which it is active latches the
/// coordinator's time of that tick; a tick on which it is not leaves what was
/// latched; and the beacon of the tick carries what is latched after it.
pub proof fn lemma_activation_is_latched(state: GateReadyState, inputs: Inputs)
    requires
        inputs.spec_coordinated_reading() is Some,
    ensures
        state.spec_update(&inputs).state matches AppState::GateReady(next) && {
            &&& inputs.gate_state == GateState::Active ==> next.last_activation_time
                == inputs.coordinator_time
            &&& inputs.gate_state == GateState::Inactive ==> next.last_activation_time
                == state.last_activation_time
            &&& next.gate_state == inputs.gate_state
            &&& state.spec_update(&inputs).effects.beacon == Some(
                Beacon::Gate(
                    GateBeacon {
                        addr: inputs.address,
                        state: inputs.gate_state,
                        last_activation_time: next.last_activation_time,
                    },
                ),
            )
        },
{
}

/// A ready gate that loses the coordinator's clock falls back to waiting, keeps
/// its role, starts the timeout anew and sends nothing.
pub proof fn lemma_gate_falls_back_without_clock(state: GateReadyState, inputs: Inputs)
    requires
        inputs.spec_coordinated_reading() is None,
    ensures
        state.spec_update(&inputs) == (Transition {
            state: AppState::GateStartup(GateStartupState { time_started: inputs.uptime_millis }),
            effects: Effects::spec_none(),
        }),
{
}

/// Only the coordinator shows snapshots and records its time, only nodes in a
/// ready state broadcast, and each broadcasts its own kind of beacon.
pub proof fn lemma_effects_belong_to_roles(state: AppState, inputs: Inputs)
    ensures
        state.spec_update(&inputs) matches Ok(transition) ==> {
            &&& !(state is CoordinatorReady) ==> transition.effects.system_state is None
                && transition.effects.coordinator_time is None
            &&& (state is Init || state is GateStartup) ==> transition.effects
                == Effects::spec_none()
            &&& transition.effects.beacon matches Some(msg) ==> (state is CoordinatorReady
                && msg is Coordinator) || (state is GateReady && msg is Gate)
        },
{
}

/// What a tick sends out does not depend on whether the state changed: two ticks
/// with the same inputs from the same state send the same, and a coordinator or a
/// ready gate that stays in its role sends its beacon on every such tick.
pub proof fn lemma_ready_nodes_send_on_every_tick(state: AppState, inputs: Inputs)
    requires
        state.spec_update(&inputs) is Ok,
    ensures
        (state is GateReady && state.spec_update(&inputs).unwrap().state is GateReady)
            ==> state.spec_update(&inputs).unwrap().effects.beacon is Some,
        (state is CoordinatorReady && state.spec_update(&inputs).unwrap().state is CoordinatorReady)
            ==> state.spec_update(&inputs).unwrap().effects.system_state is Some,
        (state is CoordinatorReady && inputs.is_wifi_connected && inputs.uptime_millis <= u32::MAX)
            ==> state.spec_update(&inputs).unwrap().effects.beacon is Some,
{
}

/// The colour of the indicator tells the role apart: no two roles share a colour.
pub proof fn lemma_colors_tell_roles_apart(a: AppState, b: AppState)
    requires
        spec_color_from_app_state(&a) == spec_color_from_app_state(&b),
    ensures
        a is Init <==> b is Init,
        a is CoordinatorReady <==> b is CoordinatorReady,
        a is GateStartup <==> b is GateStartup,
        a is GateReady <==> b is GateReady,
{
}

/// What a ready gate broadcasts reaches the coordinator's record of that gate:
/// the frame of its beacon, taken in by the gates, leaves under the sender's
/// address its gate state and its latched activation. The one thing that does
/// not come through is an activation latched at time zero, which is heard as none.
pub proof fn lemma_gate_beacon_reaches_the_gates(
    state: GateReadyState,
    inputs: Inputs,
    gates: Gates,
)
    requires
        inputs.spec_coordinated_reading() is Some,
        inputs.address.spec_is_gate(),
    ensures
        state.spec_update(&inputs).effects.beacon matches Some(Beacon::Gate(beacon)) && {
            &&& beacon.addr == inputs.address
            &&& beacon.state == inputs.gate_state
            &&& beacon.last_activation_time == state.spec_latch(
                inputs.gate_state,
                inputs.coordinator_time.unwrap(),
            )
            &&& gates.spec_receive(Effects::spec_frame_of(Beacon::Gate(beacon))).spec_gate(
                inputs.address,
            ) == Some(Gate::spec_of_beacon(beacon.spec_as_heard()))
            &&& (beacon.last_activation_time matches Some(t) && t@ == 0)
                || beacon.spec_as_heard() == beacon
        },
{
    let beacon = state.spec_update(&inputs).effects.beacon.unwrap();
    lemma_decode_encode(RaceNodeMessage::SystemState(beacon.spec_system_state()));
}

/// The state that a node reaches from `state` over the ticks of `inputs`, first
/// to last, or the failure that ends the run.
pub open spec fn spec_run(state: AppState, inputs: Seq<Inputs>) -> Result<AppState, Fatal>
    decreases inputs.len(),
{
    if inputs.len() == 0 {
        Ok(state)
    } else {
        match spec_run(state, inputs.drop_last()) {
            Ok(reached) => match reached.spec_update(&inputs.last()) {
                Ok(transition) => Ok(transition.state),
                Err(fatal) => Err(fatal),
            },
            Err(fatal) => Err(fatal),
        }
    }
}

/// Whether the node has taken the role of a gate.
pub open spec fn spec_is_gate_role(state: AppState) -> bool {
    state is GateStartup || state is GateReady
}

/// Once a gate, always a gate: however many ticks pass and whatever they bring, a
/// node that has taken the role of a gate keeps it until it is restarted.
pub proof fn lemma_gates_stay_gates(state: AppState, inputs: Seq<Inputs>)
    requires
        spec_is_gate_role(state),
    ensures
        spec_run(state, inputs) matches Ok(reached) ==> spec_is_gate_role(reached),
    decreases inputs.len(),
{
    if inputs.len() > 0 {
        lemma_gates_stay_gates(state, inputs.drop_last());
    }
}

/// While the link stays up the coordinator keeps its role: it never fails and
/// never leaves, whatever else the ticks bring.
pub proof fn lemma_coordinator_stays_while_linked(state: AppState, inputs: Seq<Inputs>)
    requires
        state is CoordinatorReady,
        forall|i: int| 0 <= i < inputs.len() ==> (#[trigger] inputs[i]).is_wifi_connected,
    ensures
        spec_run(state, inputs) matches Ok(reached) && reached is CoordinatorReady,
    decreases inputs.len(),
{
    if inputs.len() > 0 {
        lemma_coordinator_stays_while_linked(state, inputs.drop_last());
        assert(inputs.last() == inputs[inputs.len() - 1]);
    }
}

/// What a node remembers fits together after every run that starts from a state
/// in which it did, and so after every run from the start.
pub proof fn lemma_runs_keep_the_state_consistent(state: AppState, inputs: Seq<Inputs>)
    requires
        state.spec_is_consistent(),
    ensures
        spec_run(state, inputs) matches Ok(reached) ==> reached.spec_is_consistent(),
        spec_run(AppState::Init(InitState::spec_initial()), inputs) matches Ok(reached)
            ==> reached.spec_is_consistent(),
    decreases inputs.len(),
{
    if inputs.len() > 0 {
        lemma_runs_keep_the_state_consistent(state, inputs.drop_last());
        match spec_run(state, inputs.drop_last()) {
            Ok(reached) => {
                lemma_ticks_keep_the_state_consistent(reached, inputs.last());
            },
            Err(_) => {},
        }
        match spec_run(AppState::Init(InitState::spec_initial()), inputs.drop_last()) {
            Ok(reached) => {
                lemma_ticks_keep_the_state_consistent(reached, inputs.last());
            },
            Err(_) => {},
        }
    }
}

/// A run fails only by the startup timeout, and a node that is not a gate never fails
/// on a run during which its address is no gate's.
pub proof fn lemma_runs_fail_only_by_timeout(state: AppState, inputs: Seq<Inputs>)
    ensures
        spec_run(state, inputs) matches Err(fatal) ==> fatal == Fatal::StartupTimeout,
        (!spec_is_gate_role(state) && forall|i: int|
            0 <= i < inputs.len() ==> !(#[trigger] inputs[i]).address.spec_is_gate()) ==> (spec_run(
            state,
            inputs,
        ) matches Ok(reached) && !spec_is_gate_role(reached)),
    decreases inputs.len(),
{
    if inputs.len() > 0 {
        lemma_runs_fail_only_by_timeout(state, inputs.drop_last());
        assert(inputs.last() == inputs[inputs.len() - 1]);
        assert forall|i: int| 0 <= i < inputs.drop_last().len() implies inputs.drop_last()[i]
            == inputs[i] by {}
    }
}

/// The latch over a run: while a ready gate goes through ticks on which it keeps
/// the clock and its sensor is never active, what it has latched stays.
pub proof fn lemma_latch_stays_while_inactive(state: GateReadyState, inputs: Seq<Inputs>)
    requires
        forall|i: int|
            0 <= i < inputs.len() ==> (#[trigger] inputs[i]).spec_coordinated_reading() is Some
                && inputs[i].gate_state == GateState::Inactive,
    ensures
        spec_run(AppState::GateReady(state), inputs) matches Ok(AppState::GateReady(reached))
            && reached.last_activation_time == state.last_activation_time,
    decreases inputs.len(),
{
    if inputs.len() > 0 {
        lemma_latch_stays_while_inactive(state, inputs.drop_last());
        assert(inputs.last() == inputs[inputs.len() - 1]);
        assert forall|i: int| 0 <= i < inputs.drop_last().len() implies inputs.drop_last()[i]
            == inputs[i] by {}
    }
}

} // verus!
