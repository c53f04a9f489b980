//! What a node has heard from the others.
//!
//! Frames arrive whenever the radio delivers them: late, twice, or not at all.
//! A node keeps the last time it heard from the coordinator, with the moment of
//! its own clock at which it heard it, and the last it heard of each gate. The
//! coordinator's time is good for a while after a beacon and then goes stale.

use crate::app::gates::Gates;
use crate::app::{spec_coordinated_offset, Effects, Inputs};
use crate::svc::clock::CoordinatedInstant;
use crate::svc::race_node::{
    lemma_decode_encode, spec_decode, Beacon, CoordinatorBeacon, Error, RaceNodeMessage,
};
use vstd::prelude::*;

verus! {

/// The coordinator's time as a beacon told it, and when the beacon was heard.
#[derive(Debug, Clone, Copy, PartialEq, Eq, Structural)]
pub struct Sighting {
    /// The coordinator's time in the beacon.
    pub time: CoordinatedInstant,
    /// The uptime of this node, in milliseconds, at which the beacon was heard.
    pub heard_at: u64,
}

/// What a node has heard so far.
#[derive(Debug, Clone, Copy, PartialEq, Eq, Structural)]
pub struct Observations {
    /// The last beacon of the coordinator, if there was one.
    pub coordinator: Option<Sighting>,
    /// The last that was heard of each gate.
    pub gates: Gates,
    /// How long a beacon of the coordinator stays good, in milliseconds.
    pub validity_millis: u64,
}

impl Sighting {
    /// The coordinator's time at `uptime_millis` as this sighting tells it: the
    /// time of the beacon plus the time that has passed here since it was heard.
    /// There is none before the beacon was heard, after more than
    /// `validity_millis`, or where the sum leaves the range of a timestamp.
    pub open spec fn spec_time_at(
        &self,
        uptime_millis: u64,
        validity_millis: u64,
    ) -> Option<CoordinatedInstant> {
        let age = uptime_millis - self.heard_at;
        if 0 <= age <= validity_millis && self.time@ + age <= u32::MAX {
            Some(CoordinatedInstant { millis: (self.time@ + age) as u32 })
        } else {
            None
        }
    }

    #[verifier::when_used_as_spec(spec_time_at)]
    pub fn time_at(&self, uptime_millis: u64, validity_millis: u64) -> (time: Option<
        CoordinatedInstant,
    >)
        ensures
            time == self.spec_time_at(uptime_millis, validity_millis),
            time.is_some() <==> (self.heard_at <= uptime_millis && uptime_millis - self.heard_at
                <= validity_millis && self.time@ + (uptime_millis - self.heard_at) <= u32::MAX),
            time matches Some(t) ==> t@ == self.time@ + (uptime_millis - self.heard_at),
    {
        if uptime_millis < self.heard_at {
            return None;
        }
        let age: u64 = uptime_millis - self.heard_at;
        if age > validity_millis {
            return None;
        }
        let room: u64 = (0xFFFF_FFFFu32 - self.time.as_millis()) as u64;
        if age > room {
            return None;
        }
        Some(CoordinatedInstant::from_millis(self.time.as_millis() + age as u32))
    }
}

impl Observations {
    /// The observations after `msg` was heard at `uptime_millis`: a state from
    /// the coordinator's address is the coordinator's beacon and replaces the
    /// sighting; a state from any other address is a gate's beacon and replaces
    /// what is known of that gate, where it is one of the two gates.
    pub open spec fn spec_take(self, msg: RaceNodeMessage, uptime_millis: u64) -> Observations {
        match msg {
            RaceNodeMessage::SystemState(x) => match Beacon::spec_of_system_state(x) {
                Beacon::Coordinator(beacon) => Observations {
                    coordinator: Some(Sighting { time: beacon.time, heard_at: uptime_millis }),
                    ..self
                },
                Beacon::Gate(beacon) => Observations {
                    gates: self.gates.spec_update(beacon),
                    ..self
                },
            },
        }
    }

    /// The observations after `bytes` arrived at `uptime_millis`: those after the
    /// message that the bytes carry, or the same where they carry none.
    pub open spec fn spec_receive(self, bytes: Seq<u8>, uptime_millis: u64) -> Observations {
        match spec_decode(bytes) {
            Ok(msg) => self.spec_take(msg, uptime_millis),
            Err(_) => self,
        }
    }

    /// The coordinator's time at `uptime_millis`, while the last beacon is good.
    pub open spec fn spec_coordinator_time(&self, uptime_millis: u64) -> Option<
        CoordinatedInstant,
    > {
        match self.coordinator {
            Some(sighting) => sighting.spec_time_at(uptime_millis, self.validity_millis),
            None => None,
        }
    }

    /// A node that has heard nothing yet.
    pub fn new(validity_millis: u64) -> (observations: Self)
        ensures
            observations == (Observations {
                coordinator: None,
                gates: Gates::spec_unknown(),
                validity_millis,
            }),
    {
        Observations { coordinator: None, gates: Gates::default(), validity_millis }
    }

    /// Takes in a message that was heard at `uptime_millis`.
    pub fn take(&mut self, msg: &RaceNodeMessage, uptime_millis: u64)
        ensures
            *final(self) == old(self).spec_take(*msg, uptime_millis),
    {
        match msg {
            RaceNodeMessage::SystemState(x) => match Beacon::of_system_state(x) {
                Beacon::Coordinator(beacon) => {
                    self.coordinator = Some(
                        Sighting { time: beacon.time, heard_at: uptime_millis },
                    );
                },
                Beacon::Gate(beacon) => {
                    self.gates.update(&beacon);
                },
            },
        }
    }

    /// Takes in the bytes of a frame that arrived at `uptime_millis`.
    ///
    /// Bytes that decode are taken in as their message, which is returned. Bytes
    /// that do not are dropped: nothing changes and the error is returned.
    pub fn receive(&mut self, bytes: &[u8], uptime_millis: u64) -> (outcome: Result<
        RaceNodeMessage,
        Error,
    >)
        ensures
            outcome == spec_decode(bytes@),
            *final(self) == old(self).spec_receive(bytes@, uptime_millis),
            outcome is Err ==> *final(self) == *old(self),
    {
        match RaceNodeMessage::decode(bytes) {
            Ok(msg) => {
                self.take(&msg, uptime_millis);
                Ok(msg)
            },
            Err(e) => Err(e),
        }
    }

    /// Records the coordinator's own time, taken at `uptime_millis`, for the other
    /// services of the coordinator to read.
    pub fn set_coordinator_time(&mut self, time: CoordinatedInstant, uptime_millis: u64)
        ensures
            *final(self) == old(self).spec_take(
                RaceNodeMessage::SystemState((CoordinatorBeacon { time }).spec_system_state()),
                uptime_millis,
            ),
    {
        self.coordinator = Some(Sighting { time, heard_at: uptime_millis });
    }

    /// The coordinator's time now, or none where no beacon was heard or the last
    /// one has gone stale.
    #[verifier::when_used_as_spec(spec_coordinator_time)]
    pub fn coordinator_time(&self, uptime_millis: u64) -> (time: Option<CoordinatedInstant>)
        ensures
            time == self.spec_coordinator_time(uptime_millis),
    {
        match &self.coordinator {
            Some(sighting) => sighting.time_at(uptime_millis, self.validity_millis),
            None => None,
        }
    }

    pub fn gates(&self) -> (gates: Gates)
        ensures
            gates == self.gates,
    {
        self.gates
    }
}

/// A frame that arrives twice at the same moment leaves what a single one leaves.
pub proof fn lemma_replayed_frame_changes_nothing(
    observations: Observations,
    bytes: Seq<u8>,
    uptime_millis: u64,
)
    ensures
        observations.spec_receive(bytes, uptime_millis).spec_receive(bytes, uptime_millis)
            == observations.spec_receive(bytes, uptime_millis),
{
}

/// A beacon of the coordinator goes stale: once more than the validity has passed
/// since it was heard, and nothing was heard since, there is no coordinator time.
pub proof fn lemma_beacon_goes_stale(observations: Observations, uptime_millis: u64)
    requires
        observations.coordinator matches Some(sighting) && uptime_millis - sighting.heard_at
            > observations.validity_millis,
    ensures
        observations.spec_coordinator_time(uptime_millis) is None,
{
}

/// Right after a beacon of the coordinator was heard, the coordinator's time is
/// the time in the beacon.
pub proof fn lemma_fresh_beacon_gives_its_time(
    observations: Observations,
    beacon: CoordinatorBeacon,
    uptime_millis: u64,
)
    ensures
        observations.spec_take(
            RaceNodeMessage::SystemState(beacon.spec_system_state()),
            uptime_millis,
        ).spec_coordinator_time(uptime_millis) == Some(beacon.time),
{
}

/// The coordinator's beacon gives a gate the clock: the frame in which the beacon
/// is broadcast, received by a node, leaves the time of the beacon as the
/// coordinator's time of that moment, and leaves the gates as they were.
pub proof fn lemma_coordinator_beacon_reaches_the_nodes(
    observations: Observations,
    beacon: CoordinatorBeacon,
    uptime_millis: u64,
)
    ensures
        observations.spec_receive(
            Effects::spec_frame_of(Beacon::Coordinator(beacon)),
            uptime_millis,
        ).spec_coordinator_time(uptime_millis) == Some(beacon.time),
        observations.spec_receive(
            Effects::spec_frame_of(Beacon::Coordinator(beacon)),
            uptime_millis,
        ).gates == observations.gates,
{
    lemma_decode_encode(RaceNodeMessage::SystemState(beacon.spec_system_state()));
}

/// Between two beacons the offset of a gate stands still: while a sighting is
/// good, the offset that a tick computes from it is the time in the beacon minus
/// the local time at which the beacon was heard, whenever the tick comes.
pub proof fn lemma_offset_stands_between_beacons(sighting: Sighting, inputs: Inputs, validity_millis: u64)
    requires
        inputs.coordinator_time == sighting.spec_time_at(inputs.uptime_millis, validity_millis),
        inputs.coordinator_time is Some,
        sighting.time@ >= sighting.heard_at,
    ensures
        spec_coordinated_offset(inputs.spec_local_time(), inputs.coordinator_time) matches Some(
            offset,
        ) && offset@ == sighting.time@ - sighting.heard_at,
{
}

} // verus!
