//! The messages that nodes broadcast to each other, and their wire format.
//!
//! Every message travels in a frame of exactly 16 bytes. Byte 0 is the tag that
//! tells the kind of message. There is one kind, with tag 1: the state of a node
//! under its address.
//!
//! | byte 0 | byte 1  | byte 2     | bytes 3..=6                  | bytes 7..=15 |
//! |--------|---------|------------|------------------------------|--------------|
//! | 1      | address | gate state | time, most significant first | zero         |
//!
//! A gate-state byte of 1 means active; any other value is read as inactive.
//! Bytes 7..=15 are written as zero and not looked at.
//!
//! Both beacons travel in such a frame. The coordinator's beacon goes out under
//! the coordinator's address, with an inactive gate state and the coordinator's
//! time. A gate's beacon goes out under its own address, with its gate state
//! and the time of its last activation. The frame has no room to say that there
//! was no activation yet: such a gate sends time zero, and whoever hears time
//! zero from a gate takes it as no activation. An activation at time zero itself
//! is therefore heard as none.

use crate::hal::gate::GateState;
use crate::svc::clock::CoordinatedInstant;
use vstd::prelude::*;

verus! {

/// Why a frame could not be read.
#[derive(Debug, Clone, Copy, PartialEq, Eq, Structural)]
pub enum Error {
    /// The tag is not one of the known tags, or the frame ends before the last
    /// field of its kind.
    Unknown,
}

/// The one-byte address that tells the role of a node.
#[derive(Debug, Clone, Copy, PartialEq, Eq, Structural)]
pub struct NodeAddress(pub u8);

pub const COORDINATOR_ADDRESS: u8 = 0;

pub const START_GATE_ADDRESS: u8 = 1;

pub const FINISH_GATE_ADDRESS: u8 = 32;

impl View for NodeAddress {
    type V = u8;

    open spec fn view(&self) -> u8 {
        self.0
    }
}

impl NodeAddress {
    pub open spec fn spec_is_coordinator(&self) -> bool {
        self@ == COORDINATOR_ADDRESS
    }

    pub open spec fn spec_is_start(&self) -> bool {
        self@ == START_GATE_ADDRESS
    }

    pub open spec fn spec_is_finish(&self) -> bool {
        self@ == FINISH_GATE_ADDRESS
    }

    /// A gate is a start gate or a finish gate.
    pub open spec fn spec_is_gate(&self) -> bool {
        self.spec_is_start() || self.spec_is_finish()
    }

    pub fn coordinator() -> (address: Self)
        ensures
            address@ == 0,
            address.is_coordinator(),
    {
        Self(COORDINATOR_ADDRESS)
    }

    pub fn start() -> (address: Self)
        ensures
            address@ == 1,
            address.is_start(),
    {
        Self(START_GATE_ADDRESS)
    }

    pub fn finish() -> (address: Self)
        ensures
            address@ == 32,
            address.is_finish(),
    {
        Self(FINISH_GATE_ADDRESS)
    }

    #[verifier::when_used_as_spec(spec_is_coordinator)]
    pub fn is_coordinator(&self) -> (yes: bool)
        ensures
            yes == self.spec_is_coordinator(),
            yes <==> self@ == 0,
    {
        self.0 == COORDINATOR_ADDRESS
    }

    #[verifier::when_used_as_spec(spec_is_start)]
    pub fn is_start(&self) -> (yes: bool)
        ensures
            yes == self.spec_is_start(),
            yes <==> self@ == 1,
    {
        self.0 == START_GATE_ADDRESS
    }

    #[verifier::when_used_as_spec(spec_is_finish)]
    pub fn is_finish(&self) -> (yes: bool)
        ensures
            yes == self.spec_is_finish(),
            yes <==> self@ == 32,
    {
        self.0 == FINISH_GATE_ADDRESS
    }

    #[verifier::when_used_as_spec(spec_is_gate)]
    pub fn is_gate(&self) -> (yes: bool)
        ensures
            yes == self.spec_is_gate(),
            yes <==> (self@ == 1 || self@ == 32),
    {
        self.is_start() || self.is_finish()
    }

    pub fn as_byte(&self) -> (byte: u8)
        ensures
            byte == self@,
    {
        self.0
    }
}

impl From<u8> for NodeAddress {
    fn from(value: u8) -> (address: Self) {
        NodeAddress(value)
    }
}

impl vstd::std_specs::convert::FromSpecImpl<u8> for NodeAddress {
    open spec fn obeys_from_spec() -> bool {
        true
    }

    open spec fn from_spec(value: u8) -> Self {
        NodeAddress(value)
    }
}

/// No address has two roles: coordinator, start gate and finish gate exclude each other.
pub proof fn lemma_roles_exclude_each_other(address: NodeAddress)
    ensures
        !(address.is_coordinator() && address.is_start()),
        !(address.is_coordinator() && address.is_finish()),
        !(address.is_start() && address.is_finish()),
        !(address.is_coordinator() && address.is_gate()),
{
}

/// The tag of the one kind of frame: the state of a node under its address.
pub const TAG_SYSTEM_STATE: u8 = 1;

/// The bytes of one frame.
#[derive(Debug, Clone, Copy, PartialEq, Eq)]
pub struct FrameData(pub [u8; 16]);

impl View for FrameData {
    type V = Seq<u8>;

    open spec fn view(&self) -> Seq<u8> {
        self.0@
    }
}

impl FrameData {
    pub fn as_bytes(&self) -> (bytes: &[u8])
        ensures
            bytes@ == self@,
            bytes@.len() == 16,
    {
        self.0.as_slice()
    }
}

impl From<[u8; 16]> for FrameData {
    fn from(value: [u8; 16]) -> (data: Self) {
        Self(value)
    }
}

impl vstd::std_specs::convert::FromSpecImpl<[u8; 16]> for FrameData {
    open spec fn obeys_from_spec() -> bool {
        true
    }

    open spec fn from_spec(value: [u8; 16]) -> Self {
        FrameData(value)
    }
}

/// What a node reports of itself: the state of its gate and a time.
#[derive(Debug, Clone, Copy, PartialEq, Eq, Structural)]
pub struct NodeState {
    pub gate_state: GateState,
    pub time: CoordinatedInstant,
}

/// The state of a node together with the address of the node that reports it.
#[derive(Debug, Clone, Copy, PartialEq, Eq, Structural)]
pub struct AddressedSystemState {
    pub addr: NodeAddress,
    pub state: NodeState,
}

/// What the coordinator broadcasts on every tick: its time.
#[derive(Debug, Clone, Copy, PartialEq, Eq, Structural)]
pub struct CoordinatorBeacon {
    pub time: CoordinatedInstant,
}

/// What a gate broadcasts on every tick: who it is, whether it is active, and when
/// it was last activated, if ever.
#[derive(Debug, Clone, Copy, PartialEq, Eq, Structural)]
pub struct GateBeacon {
    pub addr: NodeAddress,
    pub state: GateState,
    pub last_activation_time: Option<CoordinatedInstant>,
}

/// A beacon of either kind.
#[derive(Debug, Clone, Copy, PartialEq, Eq, Structural)]
pub enum Beacon {
    Coordinator(CoordinatorBeacon),
    Gate(GateBeacon),
}

/// A message that a frame carries.
#[derive(Debug, Clone, Copy, PartialEq, Eq, Structural)]
pub enum RaceNodeMessage {
    SystemState(AddressedSystemState),
}

impl CoordinatorBeacon {
    /// The state under which the beacon travels: the coordinator's address, an
    /// inactive gate and the coordinator's time.
    pub open spec fn spec_system_state(&self) -> AddressedSystemState {
        AddressedSystemState {
            addr: NodeAddress(COORDINATOR_ADDRESS),
            state: NodeState { gate_state: GateState::Inactive, time: self.time },
        }
    }

    #[verifier::when_used_as_spec(spec_system_state)]
    pub fn system_state(&self) -> (state: AddressedSystemState)
        ensures
            state == self.spec_system_state(),
    {
        AddressedSystemState {
            addr: NodeAddress::coordinator(),
            state: NodeState { gate_state: GateState::Inactive, time: self.time },
        }
    }
}

impl GateBeacon {
    /// The state under which the beacon travels: the sender's address, its gate
    /// state, and the time of its last activation, or time zero where there was
    /// no activation yet.
    pub open spec fn spec_system_state(&self) -> AddressedSystemState {
        AddressedSystemState {
            addr: self.addr,
            state: NodeState {
                gate_state: self.state,
                time: match self.last_activation_time {
                    Some(time) => time,
                    None => CoordinatedInstant { millis: 0 },
                },
            },
        }
    }

    /// The beacon that a state tells of its sender: the sender's address and gate
    /// state, and its time as the last activation, where time zero means that
    /// there was none.
    pub open spec fn spec_of_system_state(x: AddressedSystemState) -> GateBeacon {
        GateBeacon {
            addr: x.addr,
            state: x.state.gate_state,
            last_activation_time: if x.state.time@ == 0 {
                None
            } else {
                Some(x.state.time)
            },
        }
    }

    /// The beacon as it is heard after it has travelled in a frame: the same,
    /// but that an activation at time zero is heard as none.
    pub open spec fn spec_as_heard(&self) -> GateBeacon {
        GateBeacon {
            addr: self.addr,
            state: self.state,
            last_activation_time: match self.last_activation_time {
                Some(time) => if time@ == 0 {
                    None
                } else {
                    Some(time)
                },
                None => None,
            },
        }
    }

    #[verifier::when_used_as_spec(spec_system_state)]
    pub fn system_state(&self) -> (state: AddressedSystemState)
        ensures
            state == self.spec_system_state(),
    {
        let time = match self.last_activation_time {
            Some(time) => time,
            None => CoordinatedInstant::from_millis(0),
        };
        AddressedSystemState {
            addr: self.addr,
            state: NodeState { gate_state: self.state, time },
        }
    }

    /// Reads the beacon of a gate from the state that arrived.
    pub fn of_system_state(x: &AddressedSystemState) -> (beacon: GateBeacon)
        ensures
            beacon == GateBeacon::spec_of_system_state(*x),
    {
        let last_activation_time = if x.state.time.as_millis() == 0 {
            None
        } else {
            Some(x.state.time)
        };
        GateBeacon { addr: x.addr, state: x.state.gate_state, last_activation_time }
    }
}

impl Beacon {
    /// The state under which the beacon travels.
    pub open spec fn spec_system_state(&self) -> AddressedSystemState {
        match self {
            Beacon::Coordinator(beacon) => beacon.spec_system_state(),
            Beacon::Gate(beacon) => beacon.spec_system_state(),
        }
    }

    /// The beacon that a state is read as: the coordinator's where it comes from
    /// the coordinator's address, a gate's where it comes from any other.
    pub open spec fn spec_of_system_state(x: AddressedSystemState) -> Beacon {
        if x.addr.spec_is_coordinator() {
            Beacon::Coordinator(CoordinatorBeacon { time: x.state.time })
        } else {
            Beacon::Gate(GateBeacon::spec_of_system_state(x))
        }
    }

    #[verifier::when_used_as_spec(spec_system_state)]
    pub fn system_state(&self) -> (state: AddressedSystemState)
        ensures
            state == self.spec_system_state(),
    {
        match self {
            Beacon::Coordinator(beacon) => beacon.system_state(),
            Beacon::Gate(beacon) => beacon.system_state(),
        }
    }

    /// Reads the beacon from the state that arrived.
    pub fn of_system_state(x: &AddressedSystemState) -> (beacon: Beacon)
        ensures
            beacon == Beacon::spec_of_system_state(*x),
    {
        if x.addr.is_coordinator() {
            Beacon::Coordinator(CoordinatorBeacon { time: x.state.time })
        } else {
            Beacon::Gate(GateBeacon::of_system_state(x))
        }
    }
}

/// What is heard of a beacon after it has travelled: the coordinator's beacon is
/// heard as it is; a beacon of a gate is heard as a gate's beacon, the same but
/// that an activation at time zero is heard as none.
pub proof fn lemma_beacon_as_heard(beacon: Beacon)
    ensures
        beacon matches Beacon::Coordinator(_) ==> Beacon::spec_of_system_state(
            beacon.spec_system_state(),
        ) == beacon,
        beacon matches Beacon::Gate(gate) ==> GateBeacon::spec_of_system_state(
            beacon.spec_system_state(),
        ) == gate.spec_as_heard(),
        (beacon matches Beacon::Gate(gate) && !gate.addr.spec_is_coordinator())
            ==> Beacon::spec_of_system_state(beacon.spec_system_state()) == Beacon::Gate(
            beacon->Gate_0.spec_as_heard(),
        ),
{
}

/// The four bytes of `value`, most significant first.
pub open spec fn spec_be_bytes(value: u32) -> Seq<u8> {
    seq![
        (value / 0x100_0000) as u8,
        ((value / 0x1_0000) % 0x100) as u8,
        ((value / 0x100) % 0x100) as u8,
        (value % 0x100) as u8,
    ]
}

/// The number whose four bytes, most significant first, are `b0`, `b1`, `b2`, `b3`.
pub open spec fn spec_be_value(b0: u8, b1: u8, b2: u8, b3: u8) -> u32 {
    (b0 as int * 0x100_0000 + b1 as int * 0x1_0000 + b2 as int * 0x100 + b3 as int) as u32
}

/// The frame that holds a tag, an address byte, a gate-state byte and a time, and
/// zeros after them.
pub open spec fn spec_frame(tag: u8, addr: u8, gate: u8, millis: u32) -> Seq<u8> {
    seq![tag, addr, gate] + spec_be_bytes(millis) + Seq::new(9, |i: int| 0u8)
}

/// The frame that carries `msg`.
pub open spec fn spec_encode(msg: RaceNodeMessage) -> Seq<u8> {
    match msg {
        RaceNodeMessage::SystemState(x) => spec_frame(
            TAG_SYSTEM_STATE,
            x.addr@,
            x.state.gate_state.spec_to_byte(),
            x.state.time.millis,
        ),
    }
}

/// The number of bytes, from the start of the frame, that a message with this tag
/// needs; nothing for a tag that is not known. Tag 1 is the only tag known.
pub open spec fn spec_required_len(tag: u8) -> Option<nat> {
    if tag == TAG_SYSTEM_STATE {
        Some(7nat)
    } else {
        None
    }
}

/// The time that bytes 3..=6 of a frame hold.
pub open spec fn spec_time_field(bytes: Seq<u8>) -> CoordinatedInstant {
    CoordinatedInstant { millis: spec_be_value(bytes[3], bytes[4], bytes[5], bytes[6]) }
}

/// The system state that the bytes after the tag hold, whatever the tag is.
pub open spec fn spec_system_state_fields(bytes: Seq<u8>) -> AddressedSystemState {
    AddressedSystemState {
        addr: NodeAddress(bytes[1]),
        state: NodeState {
            gate_state: GateState::spec_from_byte(bytes[2]),
            time: spec_time_field(bytes),
        },
    }
}

/// Whether `bytes` can be read as a message: they start with tag 1 and are at
/// least the seven bytes that hold its fields.
pub open spec fn spec_decodable(bytes: Seq<u8>) -> bool {
    bytes.len() >= 7 && bytes[0] == TAG_SYSTEM_STATE
}

/// The message that `bytes` carry, or the error for bytes that carry none.
pub open spec fn spec_decode(bytes: Seq<u8>) -> Result<RaceNodeMessage, Error> {
    if spec_decodable(bytes) {
        Ok(RaceNodeMessage::SystemState(spec_system_state_fields(bytes)))
    } else {
        Err(Error::Unknown)
    }
}

/// Whether `bytes` are a frame as the encoder writes it: 16 bytes, tag 1, a
/// gate-state byte of 0 or 1, and zero in bytes 7..=15.
pub open spec fn spec_is_canonical(bytes: Seq<u8>) -> bool {
    &&& bytes.len() == 16
    &&& bytes[0] == TAG_SYSTEM_STATE
    &&& bytes[2] <= 1
    &&& forall|i: int| 7 <= i < 16 ==> bytes[i] == 0
}

/// Splitting a number into big-endian bytes and joining them again gives it back.
pub proof fn lemma_be_value_of_bytes(value: u32)
    ensures
        spec_be_bytes(value).len() == 4,
        spec_be_value(
            spec_be_bytes(value)[0],
            spec_be_bytes(value)[1],
            spec_be_bytes(value)[2],
            spec_be_bytes(value)[3],
        ) == value,
{
    let d0 = value / 0x100_0000;
    let d1 = (value / 0x1_0000) % 0x100;
    let d2 = (value / 0x100) % 0x100;
    let d3 = value % 0x100;
    assert(d0 < 0x100 && d1 < 0x100 && d2 < 0x100 && d3 < 0x100 && value == d0 * 0x100_0000 + d1
        * 0x1_0000 + d2 * 0x100 + d3) by (bit_vector)
        requires
            d0 == value / 0x100_0000,
            d1 == (value / 0x1_0000) % 0x100,
            d2 == (value / 0x100) % 0x100,
            d3 == value % 0x100,
    ;
}

/// Joining four bytes into a number and splitting it again gives the bytes back.
pub proof fn lemma_be_bytes_of_value(b0: u8, b1: u8, b2: u8, b3: u8)
    ensures
        spec_be_bytes(spec_be_value(b0, b1, b2, b3)) =~= seq![b0, b1, b2, b3],
{
    let d0 = b0 as u32;
    let d1 = b1 as u32;
    let d2 = b2 as u32;
    let d3 = b3 as u32;
    let value = spec_be_value(b0, b1, b2, b3);
    assert(value == d0 * 0x100_0000 + d1 * 0x1_0000 + d2 * 0x100 + d3);
    assert(value / 0x100_0000 == d0 && (value / 0x1_0000) % 0x100 == d1 && (value / 0x100) % 0x100
        == d2 && value % 0x100 == d3) by (bit_vector)
        requires
            value == d0 * 0x100_0000 + d1 * 0x1_0000 + d2 * 0x100 + d3,
            d0 < 0x100,
            d1 < 0x100,
            d2 < 0x100,
            d3 < 0x100,
    ;
}

/// Writes `millis` into bytes 3..=6 of `data`, most significant byte first.
fn write_time(millis: u32, data: &mut FrameData)
    ensures
        final(data)@ == old(data)@.update(3, spec_be_bytes(millis)[0]).update(
            4,
            spec_be_bytes(millis)[1],
        ).update(5, spec_be_bytes(millis)[2]).update(6, spec_be_bytes(millis)[3]),
{
    assert((millis >> 24) & 0xFF == millis / 0x100_0000) by (bit_vector);
    assert((millis >> 16) & 0xFF == (millis / 0x1_0000) % 0x100) by (bit_vector);
    assert((millis >> 8) & 0xFF == (millis / 0x100) % 0x100) by (bit_vector);
    assert(millis & 0xFF == millis % 0x100) by (bit_vector);
    data.0[3] = ((millis >> 24) & 0xFF) as u8;
    data.0[4] = ((millis >> 16) & 0xFF) as u8;
    data.0[5] = ((millis >> 8) & 0xFF) as u8;
    data.0[6] = (millis & 0xFF) as u8;
}

/// Reads bytes 3..=6 of `bytes` as a time, most significant byte first.
fn read_time(bytes: &[u8]) -> (time: CoordinatedInstant)
    requires
        bytes@.len() >= 7,
    ensures
        time == spec_time_field(bytes@),
{
    let d0: u32 = bytes[3] as u32;
    let d1: u32 = bytes[4] as u32;
    let d2: u32 = bytes[5] as u32;
    let d3: u32 = bytes[6] as u32;
    assert((d0 << 24) | (d1 << 16) | (d2 << 8) | d3 == d0 * 0x100_0000 + d1 * 0x1_0000 + d2 * 0x100
        + d3) by (bit_vector)
        requires
            d0 < 0x100,
            d1 < 0x100,
            d2 < 0x100,
            d3 < 0x100,
    ;
    let time_ms: u32 = (d0 << 24) | (d1 << 16) | (d2 << 8) | d3;
    CoordinatedInstant::from_millis(time_ms)
}

/// Reads the fields of a system state from bytes 1..=6, whatever the tag is.
fn read_system_state(bytes: &[u8]) -> (state: AddressedSystemState)
    requires
        bytes@.len() >= 7,
    ensures
        state == spec_system_state_fields(bytes@),
{
    let addr = NodeAddress(bytes[1]);
    let gate_state = GateState::from_byte(bytes[2]);
    let time = read_time(bytes);
    AddressedSystemState { addr, state: NodeState { gate_state, time } }
}

/// Writes the fields of a system state into `data`: the address into byte 1, the
/// gate state into byte 2 and the time into bytes 3..=6. The other bytes stay.
pub fn serialize_system_state(x: &AddressedSystemState, data: &mut FrameData)
    ensures
        final(data)@.len() == 16,
        final(data)@[1] == x.addr@,
        final(data)@[2] == x.state.gate_state.spec_to_byte(),
        final(data)@.subrange(3, 7) == spec_be_bytes(x.state.time.millis),
        final(data)@[0] == old(data)@[0],
        forall|i: int| 7 <= i < 16 ==> final(data)@[i] == old(data)@[i],
{
    data.0[1] = x.addr.as_byte();
    data.0[2] = x.state.gate_state.to_byte();
    write_time(x.state.time.as_millis(), data);
}

impl RaceNodeMessage {
    pub const FRAME_SIZE: usize = 16;

    /// The tag that marks a frame of this kind of message.
    pub open spec fn spec_tag(&self) -> u8 {
        match self {
            RaceNodeMessage::SystemState(_) => TAG_SYSTEM_STATE,
        }
    }

    #[verifier::when_used_as_spec(spec_tag)]
    pub fn tag(&self) -> (tag: u8)
        ensures
            tag == self.spec_tag(),
    {
        match self {
            RaceNodeMessage::SystemState(_) => TAG_SYSTEM_STATE,
        }
    }

    /// Encodes the message: a frame of 16 bytes with the tag, the fields of the
    /// message, and zeros in the bytes that are left.
    pub fn data(&self) -> (data: FrameData)
        ensures
            data@ == spec_encode(*self),
            data@.len() == 16,
    {
        let mut data = FrameData([self.tag(), 0, 0, 0, 0, 0, 0, 0, 0, 0, 0, 0, 0, 0, 0, 0]);
        match self {
            RaceNodeMessage::SystemState(x) => serialize_system_state(x, &mut data),
        };
        assert(data@ =~= spec_encode(*self));
        data
    }

    /// Decodes the message that `bytes` carry.
    ///
    /// It succeeds exactly when `bytes` start with tag 1 and are at least the
    /// seven bytes that hold the fields. Empty bytes, any other tag and fewer
    /// bytes fail with `Error::Unknown`. Bytes after the seventh are not looked at.
    pub fn decode(bytes: &[u8]) -> (msg: Result<RaceNodeMessage, Error>)
        ensures
            msg == spec_decode(bytes@),
            msg.is_ok() <==> (bytes@.len() >= 7 && bytes@[0] == 1),
            msg matches Err(e) ==> e == Error::Unknown,
    {
        if bytes.len() == 0 {
            return Err(Error::Unknown);
        }
        let msg_id = bytes[0];
        if msg_id == TAG_SYSTEM_STATE {
            if bytes.len() < 7 {
                return Err(Error::Unknown);
            }
            Ok(RaceNodeMessage::SystemState(read_system_state(bytes)))
        } else {
            Err(Error::Unknown)
        }
    }
}

/// Every encoded message is a canonical frame.
pub proof fn lemma_encode_is_canonical(msg: RaceNodeMessage)
    ensures
        spec_encode(msg).len() == 16,
        spec_encode(msg)[0] == 1,
        spec_is_canonical(spec_encode(msg)),
{
}

/// Decoding an encoded message gives the message back.
pub proof fn lemma_decode_encode(msg: RaceNodeMessage)
    ensures
        spec_decode(spec_encode(msg)) == Ok::<RaceNodeMessage, Error>(msg),
{
    match msg {
        RaceNodeMessage::SystemState(x) => {
            lemma_be_value_of_bytes(x.state.time.millis);
        },
    }
}

/// Encoding what a canonical frame decodes to gives the frame back: a canonical
/// frame always decodes, and no two canonical frames carry the same message.
pub proof fn lemma_encode_decode(bytes: Seq<u8>)
    requires
        spec_is_canonical(bytes),
    ensures
        spec_decode(bytes) matches Ok(msg) && spec_encode(msg) == bytes,
{
    lemma_be_bytes_of_value(bytes[3], bytes[4], bytes[5], bytes[6]);
    let msg = spec_decode(bytes).unwrap();
    assert(spec_encode(msg) =~= bytes);
}

/// Bytes decode exactly when they start with tag 1 and are at least seven: empty
/// bytes, bytes that start with any other tag and fewer than seven bytes never
/// decode, and the error is always the same.
pub proof fn lemma_decode_failures(bytes: Seq<u8>)
    ensures
        spec_decode(bytes) is Ok <==> (bytes.len() >= 7 && bytes[0] == 1),
        bytes.len() == 0 ==> spec_decode(bytes) is Err,
        bytes.len() > 0 && bytes[0] != 1 ==> spec_decode(bytes) is Err,
        bytes.len() < 7 ==> spec_decode(bytes) is Err,
        spec_decode(bytes) is Err ==> spec_decode(bytes) == Err::<RaceNodeMessage, Error>(
            Error::Unknown,
        ),
{
}

/// Whatever decodes, decodes to the same message after it is encoded again: the
/// encoder only normalises what the decoder does not look at.
pub proof fn lemma_reencoding_keeps_the_message(bytes: Seq<u8>)
    requires
        spec_decodable(bytes),
    ensures
        spec_decode(bytes) matches Ok(msg) && spec_decode(spec_encode(msg)) == spec_decode(bytes),
{
    lemma_decode_encode(spec_decode(bytes).unwrap());
}

impl FrameData {
    /// The frame that holds exactly `bytes`.
    pub open spec fn spec_holding(bytes: Seq<u8>) -> FrameData {
        choose|data: FrameData| data@ == bytes
    }

    /// A frame is determined by the bytes that it holds.
    pub proof fn lemma_determined_by_bytes(self)
        ensures
            Self::spec_holding(self@) == self,
    {
        let other = Self::spec_holding(self@);
        assert(other@ == self@);
        assert(other.0 =~= self.0);
    }

    /// For any 16 bytes there is the frame that holds them.
    pub proof fn lemma_holding(bytes: Seq<u8>)
        requires
            bytes.len() == 16,
        ensures
            Self::spec_holding(bytes)@ == bytes,
    {
        let array: [u8; 16] = [
            bytes[0],
            bytes[1],
            bytes[2],
            bytes[3],
            bytes[4],
            bytes[5],
            bytes[6],
            bytes[7],
            bytes[8],
            bytes[9],
            bytes[10],
            bytes[11],
            bytes[12],
            bytes[13],
            bytes[14],
            bytes[15],
        ];
        let data = FrameData(array);
        assert(data@ =~= bytes);
    }
}

/// The frame that carries `msg`, as a frame: its bytes are the encoding of `msg`.
pub proof fn lemma_frame_of_message(msg: RaceNodeMessage)
    ensures
        FrameData::spec_holding(spec_encode(msg))@ == spec_encode(msg),
{
    FrameData::lemma_holding(spec_encode(msg));
}

impl From<&RaceNodeMessage> for FrameData {
    fn from(msg: &RaceNodeMessage) -> (data: Self) {
        let data = msg.data();
        proof {
            data.lemma_determined_by_bytes();
        }
        data
    }
}

impl vstd::std_specs::convert::FromSpecImpl<&RaceNodeMessage> for FrameData {
    open spec fn obeys_from_spec() -> bool {
        true
    }

    open spec fn from_spec(msg: &RaceNodeMessage) -> Self {
        FrameData::spec_holding(spec_encode(*msg))
    }
}

impl From<&AddressedSystemState> for FrameData {
    fn from(value: &AddressedSystemState) -> (data: Self) {
        FrameData::from(&RaceNodeMessage::SystemState(*value))
    }
}

impl vstd::std_specs::convert::FromSpecImpl<&AddressedSystemState> for FrameData {
    open spec fn obeys_from_spec() -> bool {
        true
    }

    open spec fn from_spec(value: &AddressedSystemState) -> Self {
        FrameData::spec_holding(spec_encode(RaceNodeMessage::SystemState(*value)))
    }
}

impl From<CoordinatorBeacon> for FrameData {
    fn from(beacon: CoordinatorBeacon) -> (data: Self) {
        FrameData::from(&beacon.system_state())
    }
}

impl vstd::std_specs::convert::FromSpecImpl<CoordinatorBeacon> for FrameData {
    open spec fn obeys_from_spec() -> bool {
        true
    }

    open spec fn from_spec(beacon: CoordinatorBeacon) -> Self {
        FrameData::spec_holding(
            spec_encode(RaceNodeMessage::SystemState(beacon.spec_system_state())),
        )
    }
}

impl From<GateBeacon> for FrameData {
    fn from(beacon: GateBeacon) -> (data: Self) {
        FrameData::from(&beacon.system_state())
    }
}

impl vstd::std_specs::convert::FromSpecImpl<GateBeacon> for FrameData {
    open spec fn obeys_from_spec() -> bool {
        true
    }

    open spec fn from_spec(beacon: GateBeacon) -> Self {
        FrameData::spec_holding(
            spec_encode(RaceNodeMessage::SystemState(beacon.spec_system_state())),
        )
    }
}

impl TryFrom<FrameData> for AddressedSystemState {
    type Error = Error;

    /// Reads the fields of a system state from a whole frame. The tag is not looked
    /// at, and a whole frame holds every field, so this always succeeds.
    fn try_from(data: FrameData) -> (state: Result<AddressedSystemState, Error>) {
        Ok(read_system_state(data.as_bytes()))
    }
}

impl vstd::std_specs::convert::TryFromSpecImpl<FrameData> for AddressedSystemState {
    open spec fn obeys_try_from_spec() -> bool {
        true
    }

    open spec fn try_from_spec(data: FrameData) -> Result<Self, Error> {
        Ok(spec_system_state_fields(data@))
    }
}

impl TryFrom<FrameData> for RaceNodeMessage {
    type Error = Error;

    /// Decodes a whole frame. It succeeds exactly when the tag is 1, with the
    /// system state that the fields hold; any other tag fails with
    /// `Error::Unknown`, whatever the bytes after it are.
    fn try_from(data: FrameData) -> (msg: Result<RaceNodeMessage, Error>) {
        RaceNodeMessage::decode(data.as_bytes())
    }
}

impl vstd::std_specs::convert::TryFromSpecImpl<FrameData> for RaceNodeMessage {
    open spec fn obeys_try_from_spec() -> bool {
        true
    }

    open spec fn try_from_spec(data: FrameData) -> Result<Self, Error> {
        if data@[0] == TAG_SYSTEM_STATE {
            Ok(RaceNodeMessage::SystemState(spec_system_state_fields(data@)))
        } else {
            Err(Error::Unknown)
        }
    }
}

/// A whole frame decodes exactly when its tag is 1, to the system state that its
/// fields hold; with any other tag it gives the error.
pub proof fn lemma_whole_frame_decodes_by_tag(data: FrameData)
    ensures
        spec_decode(data@) is Ok <==> data@[0] == 1,
        data@[0] == 1 ==> spec_decode(data@) == Ok::<RaceNodeMessage, Error>(
            RaceNodeMessage::SystemState(spec_system_state_fields(data@)),
        ),
        data@[0] != 1 ==> spec_decode(data@) == Err::<RaceNodeMessage, Error>(Error::Unknown),
{
}

} // verus!
