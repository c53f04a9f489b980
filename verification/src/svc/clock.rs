//! Time as the nodes see it.
//!
//! Every node has a free-running local clock that counts milliseconds since
//! the node started. The coordinator's local clock is the shared reference; a
//! gate approximates it by adding an offset to its own local clock.

use std::time::Duration;
use std::time::Instant;
use vstd::prelude::*;

verus! {

/// A reading of a node's own clock, in milliseconds since the node started.
#[derive(Debug, Clone, Copy, PartialEq, Eq, Structural)]
pub struct LocalInstant {
    pub millis: u32,
}

/// A point of the coordinator's time, in milliseconds.
#[derive(Debug, Clone, Copy, PartialEq, Eq, Structural)]
pub struct CoordinatedInstant {
    pub millis: u32,
}

/// What a gate adds to its local clock to obtain the coordinator's time, in milliseconds.
#[derive(Debug, Clone, Copy, PartialEq, Eq, Structural)]
pub struct LocalOffset {
    pub millis: i64,
}

/// Why no offset to the coordinator's clock could be computed.
#[derive(Debug, Clone, Copy, PartialEq, Eq, Structural)]
pub enum ClockError {
    /// The coordinator's time lies before the local time it was compared with.
    CoordinatorBehind,
}

impl View for LocalInstant {
    type V = int;

    open spec fn view(&self) -> int {
        self.millis as int
    }
}

impl View for CoordinatedInstant {
    type V = int;

    open spec fn view(&self) -> int {
        self.millis as int
    }
}

impl View for LocalOffset {
    type V = int;

    open spec fn view(&self) -> int {
        self.millis as int
    }
}

impl Default for LocalInstant {
    fn default() -> (instant: Self)
        ensures
            instant@ == 0,
    {
        LocalInstant { millis: 0 }
    }
}

impl Default for CoordinatedInstant {
    fn default() -> (instant: Self)
        ensures
            instant@ == 0,
    {
        CoordinatedInstant { millis: 0 }
    }
}

impl Default for LocalOffset {
    fn default() -> (offset: Self)
        ensures
            offset@ == 0,
    {
        LocalOffset { millis: 0 }
    }
}

impl LocalInstant {
    /// The local reading that an elapsed time since start gives: the same number of
    /// milliseconds while it fits a timestamp, nothing once the range is exceeded.
    pub open spec fn spec_from_elapsed_millis(elapsed: u64) -> Option<LocalInstant> {
        if elapsed <= u32::MAX {
            Some(LocalInstant { millis: elapsed as u32 })
        } else {
            None
        }
    }

    pub fn from_millis(millis: u32) -> (instant: Self)
        ensures
            instant@ == millis,
    {
        LocalInstant { millis }
    }

    pub fn as_millis(&self) -> (millis: u32)
        ensures
            millis == self@,
    {
        self.millis
    }

    /// Turns the time elapsed since the clock started into a reading, or reports the
    /// clock as unreliable when the elapsed time no longer fits a timestamp.
    pub fn from_elapsed_millis(elapsed: u64) -> (instant: Option<Self>)
        ensures
            instant == Self::spec_from_elapsed_millis(elapsed),
            instant.is_some() <==> elapsed <= u32::MAX,
            instant matches Some(t) ==> t@ == elapsed,
    {
        if elapsed <= 0xFFFF_FFFF {
            Some(LocalInstant { millis: elapsed as u32 })
        } else {
            None
        }
    }

    /// The coordinator's time that this reading stands for under `offset`.
    pub open spec fn spec_to_coordinated(self, offset: LocalOffset) -> Option<CoordinatedInstant> {
        if 0 <= self@ + offset@ <= u32::MAX {
            Some(CoordinatedInstant { millis: (self@ + offset@) as u32 })
        } else {
            None
        }
    }

    /// Adds `offset` to this reading. The sum is a coordinated instant when it fits a
    /// timestamp; otherwise there is none.
    pub fn to_coordinated(self, offset: LocalOffset) -> (instant: Option<CoordinatedInstant>)
        ensures
            instant == self.spec_to_coordinated(offset),
            instant.is_some() <==> 0 <= self@ + offset@ <= u32::MAX,
            instant matches Some(t) ==> t@ == self@ + offset@,
    {
        let local: i64 = self.millis as i64;
        match local.checked_add(offset.millis) {
            Some(sum) => {
                if 0 <= sum && sum <= 0xFFFF_FFFF {
                    Some(CoordinatedInstant { millis: sum as u32 })
                } else {
                    None
                }
            },
            None => None,
        }
    }
}

impl CoordinatedInstant {
    pub fn from_millis(millis: u32) -> (instant: Self)
        ensures
            instant@ == millis,
    {
        CoordinatedInstant { millis }
    }

    pub fn as_millis(&self) -> (millis: u32)
        ensures
            millis == self@,
    {
        self.millis
    }

    /// The coordinator's own reading taken as coordinated time: on the coordinator
    /// the two are the same, with no offset.
    pub open spec fn spec_from_local(local: LocalInstant) -> CoordinatedInstant {
        CoordinatedInstant { millis: local.millis }
    }

    #[verifier::when_used_as_spec(spec_from_local)]
    pub fn from_local(local: LocalInstant) -> (instant: Self)
        ensures
            instant == Self::spec_from_local(local),
            instant@ == local@,
    {
        CoordinatedInstant { millis: local.millis }
    }
}

impl LocalOffset {
    pub fn from_millis(millis: i64) -> (offset: Self)
        ensures
            offset@ == millis,
    {
        LocalOffset { millis }
    }

    pub fn as_millis(&self) -> (millis: i64)
        ensures
            millis == self@,
    {
        self.millis
    }
}

/// The offset of a gate whose clock read `local_time` when the coordinator's time
/// was `coordinator_time`: their difference, defined while the coordinator is not behind.
pub open spec fn spec_clock_offset(
    coordinator_time: CoordinatedInstant,
    local_time: LocalInstant,
) -> Result<LocalOffset, ClockError> {
    if coordinator_time@ >= local_time@ {
        Ok(LocalOffset { millis: (coordinator_time@ - local_time@) as i64 })
    } else {
        Err(ClockError::CoordinatorBehind)
    }
}

/// Computes the offset that takes `local_time` to `coordinator_time`.
///
/// The offset is the exact difference in milliseconds. A coordinator time that lies
/// before the local time is reported as `ClockError::CoordinatorBehind`.
pub fn calculate_clock_offset(
    coordinator_time: CoordinatedInstant,
    local_time: LocalInstant,
) -> (offset: Result<LocalOffset, ClockError>)
    ensures
        offset == spec_clock_offset(coordinator_time, local_time),
        offset.is_ok() <==> coordinator_time@ >= local_time@,
        offset matches Ok(o) ==> o@ == coordinator_time@ - local_time@,
        offset matches Err(e) ==> e == ClockError::CoordinatorBehind,
{
    if coordinator_time.millis >= local_time.millis {
        let difference: u32 = coordinator_time.millis - local_time.millis;
        Ok(LocalOffset { millis: difference as i64 })
    } else {
        Err(ClockError::CoordinatorBehind)
    }
}

/// An offset computed from a pair of readings takes the local reading back to the
/// coordinator's time, exactly.
pub proof fn lemma_offset_recovers_coordinator_time(
    coordinator_time: CoordinatedInstant,
    local_time: LocalInstant,
)
    requires
        coordinator_time@ >= local_time@,
    ensures
        spec_clock_offset(coordinator_time, local_time) matches Ok(offset)
            && offset@ == coordinator_time@ - local_time@
            && local_time.spec_to_coordinated(offset) == Some(coordinator_time),
{
}

/// When the coordinator is behind the local reading there is no offset, only an error.
pub proof fn lemma_offset_rejects_coordinator_behind(
    coordinator_time: CoordinatedInstant,
    local_time: LocalInstant,
)
    requires
        coordinator_time@ < local_time@,
    ensures
        spec_clock_offset(coordinator_time, local_time) == Err::<LocalOffset, ClockError>(
            ClockError::CoordinatorBehind,
        ),
{
}

/// With a fixed offset, coordinated time advances exactly as local time does.
pub proof fn lemma_coordinated_time_follows_local_time(
    earlier: LocalInstant,
    later: LocalInstant,
    offset: LocalOffset,
)
    requires
        earlier.spec_to_coordinated(offset).is_some(),
        later.spec_to_coordinated(offset).is_some(),
    ensures
        later.spec_to_coordinated(offset).unwrap()@ - earlier.spec_to_coordinated(offset).unwrap()@
            == later@ - earlier@,
{
}

#[verifier::external_type_specification]
#[verifier::external_body]
pub struct ExInstant(std::time::Instant);

/// `Instant::now`: the current reading of the monotonic system clock. Nothing is
/// claimed of the value.
#[verifier::external_body]
fn monotonic_now() -> (instant: Instant) {
    Instant::now()
}

/// `Instant::saturating_duration_since`: the time that has passed from `earlier`
/// to `later`, and zero where `earlier` is the later of the two. It does not panic.
/// Nothing is claimed of the value.
#[verifier::external_body]
fn duration_between(later: &Instant, earlier: &Instant) -> (elapsed: Duration) {
    later.saturating_duration_since(*earlier)
}

/// `Duration::as_millis`: the whole milliseconds that `duration` holds. Nothing is
/// claimed of the value.
#[verifier::external_body]
fn whole_millis(duration: &Duration) -> (millis: u128) {
    duration.as_millis()
}

/// The free-running clock of a node. It starts when it is created.
pub struct LocalClock {
    start: Instant,
}

impl Default for LocalClock {
    fn default() -> (clock: Self) {
        LocalClock { start: monotonic_now() }
    }
}

impl LocalClock {
    /// Milliseconds since the clock started, held at `u64::MAX` beyond that: what
    /// `uptime_from_millis` makes of the time that the system clock measures.
    /// Nothing can be said of the value itself, which is the time.
    pub fn uptime_millis(&self) -> (uptime: u64) {
        let now = monotonic_now();
        let elapsed = duration_between(&now, &self.start);
        Self::uptime_from_millis(whole_millis(&elapsed))
    }

    /// The current local time, or nothing once the clock has run past the range of
    /// a timestamp and is no longer reliable: what `LocalInstant::from_elapsed_millis`
    /// makes of the uptime. Nothing can be said of the value itself, which is the time.
    pub fn now(&self) -> (instant: Option<LocalInstant>) {
        LocalInstant::from_elapsed_millis(self.uptime_millis())
    }

    /// The uptime that a count of whole milliseconds gives: the count itself while
    /// it fits, `u64::MAX` beyond that.
    pub open spec fn spec_uptime_from_millis(millis: u128) -> u64 {
        if millis <= u64::MAX {
            millis as u64
        } else {
            u64::MAX
        }
    }

    /// Turns the whole milliseconds that the system clock measured into an uptime.
    #[verifier::when_used_as_spec(spec_uptime_from_millis)]
    pub fn uptime_from_millis(millis: u128) -> (uptime: u64)
        ensures
            uptime == Self::spec_uptime_from_millis(millis),
            millis <= u64::MAX ==> uptime == millis,
            millis > u64::MAX ==> uptime == u64::MAX,
    {
        if millis <= 0xFFFF_FFFF_FFFF_FFFF {
            millis as u64
        } else {
            0xFFFF_FFFF_FFFF_FFFF
        }
    }
}

/// A local clock together with the offset that takes it to the coordinator's time.
pub struct CoordinatedClock<'a> {
    local_clock: &'a LocalClock,
    offset: LocalOffset,
}

impl<'a> CoordinatedClock<'a> {
    /// The offset that this clock adds to local time.
    pub closed spec fn spec_offset(&self) -> LocalOffset {
        self.offset
    }

    /// The local clock that this clock reads.
    pub closed spec fn spec_local_clock(&self) -> LocalClock {
        *self.local_clock
    }

    /// The coordinator's time that this clock tells when its local clock reads
    /// `local_time`: the reading plus the offset where that fits a timestamp, and
    /// none where it does not or the local clock gave no reading.
    pub open spec fn spec_time_at(&self, local_time: Option<LocalInstant>) -> Option<
        CoordinatedInstant,
    > {
        match local_time {
            Some(local) => local.spec_to_coordinated(self.spec_offset()),
            None => None,
        }
    }

    pub fn new(local_clock: &'a LocalClock, offset: LocalOffset) -> (clock: Self)
        ensures
            clock.spec_offset() == offset,
            clock.spec_local_clock() == *local_clock,
    {
        CoordinatedClock { local_clock, offset }
    }

    #[verifier::when_used_as_spec(spec_offset)]
    pub fn offset(&self) -> (offset: LocalOffset)
        ensures
            offset == self.spec_offset(),
    {
        self.offset
    }

    /// The coordinator's time now: the local time plus the offset. There is none
    /// while the local clock is unreliable or the sum does not fit a timestamp.
    ///
    /// The local clock decides what is read, so the result is stated for whatever
    /// it reads: it is the time that `time_at` tells for that reading.
    pub fn now(&self) -> (instant: Option<CoordinatedInstant>)
        ensures
            exists|reading: Option<LocalInstant>| instant == #[trigger] self.spec_time_at(reading),
            instant matches Some(t) ==> 0 <= t@ - self.spec_offset()@ <= u32::MAX,
    {
        let reading = self.local_clock.now();
        let instant = self.time_at(reading);
        assert(instant == self.spec_time_at(reading));
        instant
    }

    /// Tells the coordinator's time for a reading of the local clock.
    ///
    /// There is a time exactly when there is a reading and the reading plus the
    /// offset fits a timestamp; it is then that sum.
    #[verifier::when_used_as_spec(spec_time_at)]
    pub fn time_at(&self, local_time: Option<LocalInstant>) -> (instant: Option<
        CoordinatedInstant,
    >)
        ensures
            instant == self.spec_time_at(local_time),
            instant.is_some() <==> (local_time matches Some(local) && 0 <= local@
                + self.spec_offset()@ <= u32::MAX),
            instant matches Some(t) ==> t@ == local_time.unwrap()@ + self.spec_offset()@,
    {
        match local_time {
            Some(local) => local.to_coordinated(self.offset),
            None => None,
        }
    }
}

} // verus!
