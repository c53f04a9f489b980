//! What the coordinator knows of the gates, folded from their beacons.

use crate::hal::gate::GateState;
use crate::svc::clock::CoordinatedInstant;
use crate::svc::race_node::{spec_decode, Error, GateBeacon, NodeAddress, RaceNodeMessage};
use vstd::prelude::*;

verus! {

/// The latest that is known of one gate.
#[derive(Debug, Clone, Copy, PartialEq, Eq, Structural)]
pub struct Gate {
    /// Whether it reported itself active.
    pub active: bool,
    /// When it was last activated, in the coordinator's time, if ever.
    pub last_activation_time: Option<CoordinatedInstant>,
}

/// The latest that is known of the start gate and of the finish gate.
#[derive(Debug, Clone, Copy, PartialEq, Eq, Structural)]
pub struct Gates {
    pub start: Gate,
    pub finish: Gate,
}

impl Default for Gate {
    fn default() -> (gate: Self)
        ensures
            gate == Gate::spec_unknown(),
    {
        Gate { active: false, last_activation_time: None }
    }
}

impl Default for Gates {
    fn default() -> (gates: Self)
        ensures
            gates == Gates::spec_unknown(),
    {
        Gates { start: Gate::default(), finish: Gate::default() }
    }
}

impl Gate {
    /// A gate of which nothing was heard: inactive and never activated.
    pub open spec fn spec_unknown() -> Gate {
        Gate { active: false, last_activation_time: None }
    }

    /// What a beacon says of its sender.
    pub open spec fn spec_of_beacon(beacon: GateBeacon) -> Gate {
        Gate {
            active: beacon.state == GateState::Active,
            last_activation_time: beacon.last_activation_time,
        }
    }

    pub fn of_beacon(beacon: &GateBeacon) -> (gate: Gate)
        ensures
            gate == Gate::spec_of_beacon(*beacon),
    {
        Gate { active: beacon.state.is_active(), last_activation_time: beacon.last_activation_time }
    }
}

impl Gates {
    /// Gates of which nothing was heard.
    pub open spec fn spec_unknown() -> Gates {
        Gates { start: Gate::spec_unknown(), finish: Gate::spec_unknown() }
    }

    /// The record kept under `address`: the start gate's, the finish gate's, or none
    /// for an address that is not a gate's.
    pub open spec fn spec_gate(self, address: NodeAddress) -> Option<Gate> {
        if address.spec_is_start() {
            Some(self.start)
        } else if address.spec_is_finish() {
            Some(self.finish)
        } else {
            None
        }
    }

    /// The gates after `beacon` was heard: the record of its sender is
    /// replaced by what the beacon says, the other stays. A beacon from an address
    /// that is not a gate's changes nothing.
    pub open spec fn spec_update(self, beacon: GateBeacon) -> Gates {
        if beacon.addr.spec_is_start() {
            Gates { start: Gate::spec_of_beacon(beacon), finish: self.finish }
        } else if beacon.addr.spec_is_finish() {
            Gates { start: self.start, finish: Gate::spec_of_beacon(beacon) }
        } else {
            self
        }
    }

    /// Whether a beacon that carries `incoming` is older than a record that holds
    /// `recorded`: the record has an activation and the beacon has none or an
    /// earlier one.
    pub open spec fn spec_is_stale(
        recorded: Option<CoordinatedInstant>,
        incoming: Option<CoordinatedInstant>,
    ) -> bool {
        recorded matches Some(r) && (incoming matches Some(i) ==> i@ < r@)
    }

    /// The gates after `beacon` was heard by a listener that drops beacons older
    /// than what it holds: as `spec_update`, but a beacon whose activation is
    /// older than the recorded one of its sender changes nothing.
    pub open spec fn spec_update_guarded(self, beacon: GateBeacon) -> Gates {
        match self.spec_gate(beacon.addr) {
            Some(record) => if Self::spec_is_stale(
                record.last_activation_time,
                beacon.last_activation_time,
            ) {
                self
            } else {
                self.spec_update(beacon)
            },
            None => self,
        }
    }

    /// The gates after the beacons of `beacons` were heard, first to last.
    pub open spec fn spec_update_all(self, beacons: Seq<GateBeacon>) -> Gates
        decreases beacons.len(),
    {
        if beacons.len() == 0 {
            self
        } else {
            self.spec_update_all(beacons.drop_last()).spec_update(beacons.last())
        }
    }

    /// The gates after `bytes` arrived: updated by the beacon that the state in
    /// them tells of its sender, unchanged when they carry no message. A state
    /// that is not from a gate's address changes nothing, as no beacon from such
    /// an address does.
    pub open spec fn spec_receive(self, bytes: Seq<u8>) -> Gates {
        match spec_decode(bytes) {
            Ok(RaceNodeMessage::SystemState(x)) => self.spec_update(
                GateBeacon::spec_of_system_state(x),
            ),
            Err(_) => self,
        }
    }

    /// Whether one of the two gates reported itself active.
    pub open spec fn spec_any_active(&self) -> bool {
        self.start.active || self.finish.active
    }

    pub fn start_gate(&self) -> (gate: &Gate)
        ensures
            *gate == self.start,
    {
        &self.start
    }

    pub fn finish_gate(&self) -> (gate: &Gate)
        ensures
            *gate == self.finish,
    {
        &self.finish
    }

    /// Looks up the record kept under `address`.
    pub fn gate(&self, address: NodeAddress) -> (gate: Option<Gate>)
        ensures
            gate == self.spec_gate(address),
            gate.is_some() <==> address.spec_is_gate(),
    {
        if address.is_start() {
            Some(self.start)
        } else if address.is_finish() {
            Some(self.finish)
        } else {
            None
        }
    }

    #[verifier::when_used_as_spec(spec_any_active)]
    pub fn any_active(&self) -> (active: bool)
        ensures
            active == self.spec_any_active(),
    {
        self.start.active || self.finish.active
    }

    /// Takes in one beacon: the last beacon heard from a gate is what is known of it.
    pub fn update(&mut self, beacon: &GateBeacon)
        ensures
            *final(self) == old(self).spec_update(*beacon),
    {
        if beacon.addr.is_start() {
            self.start = Gate::of_beacon(beacon);
        } else if beacon.addr.is_finish() {
            self.finish = Gate::of_beacon(beacon);
        }
    }

    /// Takes in one beacon unless it is older than what is known of its sender.
    ///
    /// A beacon is older when the record of its sender holds an activation and the
    /// beacon holds none or an earlier one. Such a beacon, delayed or replayed on
    /// its way, is dropped and `false` is returned, as it is for a beacon from an
    /// address that is no gate's; any other beacon is taken in as `update` does.
    pub fn update_guarded(&mut self, beacon: &GateBeacon) -> (taken: bool)
        ensures
            *final(self) == old(self).spec_update_guarded(*beacon),
            taken <==> (old(self).spec_gate(beacon.addr) matches Some(record)
                && !Self::spec_is_stale(record.last_activation_time, beacon.last_activation_time)),
    {
        let record = match self.gate(beacon.addr) {
            Some(record) => record,
            None => {
                return false;
            },
        };
        let stale = match (record.last_activation_time, beacon.last_activation_time) {
            (Some(recorded), Some(incoming)) => incoming.as_millis() < recorded.as_millis(),
            (Some(_), None) => true,
            (None, _) => false,
        };
        if stale {
            false
        } else {
            self.update(beacon);
            true
        }
    }

    /// Takes in a run of beacons in the order in which they were heard.
    pub fn update_all(&mut self, beacons: &[GateBeacon])
        ensures
            *final(self) == old(self).spec_update_all(beacons@),
    {
        let mut i: usize = 0;
        while i < beacons.len()
            invariant
                i <= beacons@.len(),
                *self == old(self).spec_update_all(beacons@.take(i as int)),
            decreases beacons@.len() - i,
        {
            assert(beacons@.take(i + 1).drop_last() =~= beacons@.take(i as int));
            self.update(&beacons[i]);
            i = i + 1;
        }
        assert(beacons@.take(i as int) =~= beacons@);
    }

    /// Takes in the bytes of a received frame. A state from a gate's address
    /// updates the record of that gate: its gate state, and its time as the last
    /// activation, where time zero means none. A state from any other address is
    /// passed over. Bytes that do not decode are dropped: the gates stay as they
    /// are and the error is returned.
    pub fn receive(&mut self, bytes: &[u8]) -> (outcome: Result<(), Error>)
        ensures
            *final(self) == old(self).spec_receive(bytes@),
            outcome.is_ok() <==> spec_decode(bytes@) is Ok,
            outcome matches Err(e) ==> e == Error::Unknown && *final(self) == *old(self),
    {
        match RaceNodeMessage::decode(bytes) {
            Ok(RaceNodeMessage::SystemState(x)) => {
                self.update(&GateBeacon::of_system_state(&x));
                Ok(())
            },
            Err(e) => Err(e),
        }
    }
}

/// Hearing the same beacon twice leaves the gates as hearing it once does.
pub proof fn lemma_update_is_idempotent(gates: Gates, beacon: GateBeacon)
    ensures
        gates.spec_update(beacon).spec_update(beacon) == gates.spec_update(beacon),
{
}

/// Of two beacons from the same address the later one wins: what the earlier one
/// said is forgotten.
pub proof fn lemma_last_write_wins(gates: Gates, earlier: GateBeacon, later: GateBeacon)
    requires
        earlier.addr == later.addr,
    ensures
        gates.spec_update(earlier).spec_update(later) == gates.spec_update(later),
{
}

/// Beacons from different addresses do not disturb each other: they may be heard
/// in either order.
pub proof fn lemma_updates_of_different_gates_commute(gates: Gates, a: GateBeacon, b: GateBeacon)
    requires
        a.addr != b.addr,
    ensures
        gates.spec_update(a).spec_update(b) == gates.spec_update(b).spec_update(a),
{
}

/// After a beacon from a gate, the record under its address is what the beacon
/// said, and the record under every other address is as before.
pub proof fn lemma_update_touches_only_the_sender(
    gates: Gates,
    beacon: GateBeacon,
    address: NodeAddress,
)
    ensures
        beacon.addr.spec_is_gate() ==> gates.spec_update(beacon).spec_gate(beacon.addr) == Some(
            Gate::spec_of_beacon(beacon),
        ),
        address != beacon.addr ==> gates.spec_update(beacon).spec_gate(address) == gates.spec_gate(
            address,
        ),
        !beacon.addr.spec_is_gate() ==> gates.spec_update(beacon) == gates,
{
}

/// A guarded listener never goes back in time: whatever beacon it hears, the
/// activation that it holds of a gate stays or moves forward.
pub proof fn lemma_guarded_update_never_goes_back(
    gates: Gates,
    beacon: GateBeacon,
    address: NodeAddress,
)
    requires
        address.spec_is_gate(),
    ensures
        !Gates::spec_is_stale(
            gates.spec_gate(address).unwrap().last_activation_time,
            gates.spec_update_guarded(beacon).spec_gate(address).unwrap().last_activation_time,
        ),
{
}

/// A guarded listener is idempotent too, and it agrees with a plain one on every
/// beacon that is not older than what it holds.
pub proof fn lemma_guarded_update_is_idempotent(gates: Gates, beacon: GateBeacon)
    ensures
        gates.spec_update_guarded(beacon).spec_update_guarded(beacon) == gates.spec_update_guarded(
            beacon,
        ),
        gates.spec_update_guarded(beacon) == gates || gates.spec_update_guarded(beacon)
            == gates.spec_update(beacon),
{
}

/// Hearing a replayed frame again changes nothing.
pub proof fn lemma_receive_is_idempotent(gates: Gates, bytes: Seq<u8>)
    ensures
        gates.spec_receive(bytes).spec_receive(bytes) == gates.spec_receive(bytes),
{
}

} // verus!
