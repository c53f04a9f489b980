//! The result of a race, derived from the gates.

use crate::app::gates::Gates;
use crate::svc::clock::CoordinatedInstant;
use vstd::prelude::*;

verus! {

/// The timing of the race as far as the gates tell it.
#[derive(Debug, Clone, Copy, PartialEq, Eq, Structural)]
pub struct Race {
    /// The time from the last activation of the start gate to the last activation
    /// of the finish gate, in milliseconds; none while the race is pending.
    pub elapsed: Option<i64>,
}

impl Default for Race {
    fn default() -> (race: Self)
        ensures
            race == Race::spec_pending(),
    {
        Race { elapsed: None }
    }
}

/// The elapsed time between two activations, or none while one of them is missing.
pub open spec fn spec_elapsed(
    start: Option<CoordinatedInstant>,
    finish: Option<CoordinatedInstant>,
) -> Option<i64> {
    match (start, finish) {
        (Some(s), Some(f)) => Some((f@ - s@) as i64),
        _ => None,
    }
}

impl Race {
    /// The race of which no result is known yet.
    pub open spec fn spec_pending() -> Race {
        Race { elapsed: None }
    }

    /// The race that `gates` tell of: finish time minus start time once both gates
    /// were activated, pending until then.
    pub open spec fn spec_of_gates(gates: Gates) -> Race {
        Race {
            elapsed: spec_elapsed(
                gates.start.last_activation_time,
                gates.finish.last_activation_time,
            ),
        }
    }

    pub open spec fn spec_is_pending(&self) -> bool {
        self.elapsed is None
    }

    /// Derives the race from the gates.
    pub fn of_gates(gates: &Gates) -> (race: Race)
        ensures
            race == Race::spec_of_gates(*gates),
            race.spec_is_pending() <==> (gates.start.last_activation_time is None
                || gates.finish.last_activation_time is None),
            race.elapsed matches Some(e) ==> e == gates.finish.last_activation_time.unwrap()@
                - gates.start.last_activation_time.unwrap()@,
    {
        let elapsed = match (gates.start.last_activation_time, gates.finish.last_activation_time) {
            (Some(start), Some(finish)) => {
                let f: i64 = finish.as_millis() as i64;
                let s: i64 = start.as_millis() as i64;
                Some(f - s)
            },
            _ => None,
        };
        Race { elapsed }
    }

    /// Replaces the result by the one that `gates` tell of. What the race held
    /// before does not matter.
    pub fn set_gates(&mut self, gates: &Gates)
        ensures
            *final(self) == Race::spec_of_gates(*gates),
    {
        *self = Race::of_gates(gates);
    }

    #[verifier::when_used_as_spec(spec_is_pending)]
    pub fn is_pending(&self) -> (pending: bool)
        ensures
            pending == self.spec_is_pending(),
    {
        self.elapsed.is_none()
    }

    /// The elapsed time in milliseconds, if the race has one.
    pub fn elapsed_millis(&self) -> (elapsed: Option<i64>)
        ensures
            elapsed == self.elapsed,
    {
        self.elapsed
    }
}

/// A race has an elapsed time exactly when both gates were activated, and then it
/// is the finish time minus the start time, to the millisecond.
pub proof fn lemma_race_of_gates(gates: Gates)
    ensures
        Race::spec_of_gates(gates).spec_is_pending() <==> (gates.start.last_activation_time is None
            || gates.finish.last_activation_time is None),
        !Race::spec_of_gates(gates).spec_is_pending() ==> Race::spec_of_gates(gates).elapsed.unwrap()
            == gates.finish.last_activation_time.unwrap()@
            - gates.start.last_activation_time.unwrap()@,
{
}

/// The race depends on the last activation times alone: whether a gate is active
/// right now does not change it.
pub proof fn lemma_race_ignores_activity(a: Gates, b: Gates)
    requires
        a.start.last_activation_time == b.start.last_activation_time,
        a.finish.last_activation_time == b.finish.last_activation_time,
    ensures
        Race::spec_of_gates(a) == Race::spec_of_gates(b),
{
}

} // verus!
