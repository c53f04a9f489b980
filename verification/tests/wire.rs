use racegate::hal::gate::GateState;
use racegate::svc::clock::CoordinatedInstant;
use racegate::svc::race_node::{
    serialize_system_state, AddressedSystemState, Beacon, CoordinatorBeacon, Error, FrameData,
    GateBeacon, NodeAddress, NodeState, RaceNodeMessage,
};

fn system_state(addr: u8, gate_state: GateState, millis: u32) -> AddressedSystemState {
    AddressedSystemState {
        addr: NodeAddress::from(addr),
        state: NodeState { gate_state, time: CoordinatedInstant::from_millis(millis) },
    }
}

#[test]
fn test_serialize_system_state() {
    let x = AddressedSystemState {
        addr: NodeAddress::start(),
        state: NodeState {
            gate_state: GateState::Active,
            time: CoordinatedInstant::from_millis(12345),
        },
    };

    let msg = RaceNodeMessage::SystemState(x);
    let data = msg.data();
    let data = data.as_bytes();

    assert_eq!(data, &[1u8, 1, 1, 0, 0, 48, 57, 0, 0, 0, 0, 0, 0, 0, 0, 0][..]);
}

#[test]
fn node_address_roles() {
    assert!(NodeAddress::coordinator().is_coordinator());
    assert!(NodeAddress::start().is_start());
    assert!(NodeAddress::finish().is_finish());
    assert_eq!(NodeAddress::coordinator().as_byte(), 0);
    assert_eq!(NodeAddress::start().as_byte(), 1);
    assert_eq!(NodeAddress::finish().as_byte(), 32);
    assert!(NodeAddress::start().is_gate());
    assert!(NodeAddress::finish().is_gate());
    assert!(!NodeAddress::coordinator().is_gate());
    assert!(!NodeAddress::coordinator().is_start());
    assert!(!NodeAddress::start().is_finish());
    assert!(!NodeAddress::finish().is_coordinator());
}

#[test]
fn reserved_addresses_have_no_role() {
    for byte in 0..=255u8 {
        let address = NodeAddress::from(byte);
        assert_eq!(address.is_coordinator(), byte == 0);
        assert_eq!(address.is_start(), byte == 1);
        assert_eq!(address.is_finish(), byte == 32);
        assert_eq!(address.is_gate(), byte == 1 || byte == 32);
        assert_eq!(address.as_byte(), byte);
    }
}

#[test]
fn frame_is_always_sixteen_bytes() {
    assert_eq!(RaceNodeMessage::FRAME_SIZE, 16);
    let frames = [
        RaceNodeMessage::SystemState(system_state(0, GateState::Inactive, 0)).data(),
        FrameData::from(CoordinatorBeacon { time: CoordinatedInstant::from_millis(u32::MAX) }),
        FrameData::from(GateBeacon {
            addr: NodeAddress::finish(),
            state: GateState::Active,
            last_activation_time: None,
        }),
    ];
    for frame in frames {
        assert_eq!(frame.as_bytes().len(), 16);
        assert_eq!(frame.as_bytes()[0], 1);
    }
}

#[test]
fn timestamp_is_big_endian() {
    let msg = RaceNodeMessage::SystemState(system_state(32, GateState::Inactive, 0x0102_0304));
    assert_eq!(msg.data().0, [1, 32, 0, 1, 2, 3, 4, 0, 0, 0, 0, 0, 0, 0, 0, 0]);
    let msg = RaceNodeMessage::SystemState(system_state(32, GateState::Inactive, u32::MAX));
    assert_eq!(msg.data().0, [1, 32, 0, 255, 255, 255, 255, 0, 0, 0, 0, 0, 0, 0, 0, 0]);
}

#[test]
fn coordinator_beacon_frame() {
    let beacon = CoordinatorBeacon { time: CoordinatedInstant::from_millis(3500) };
    assert_eq!(beacon.system_state(), system_state(0, GateState::Inactive, 3500));
    let data = FrameData::from(beacon);
    assert_eq!(data.0, [1, 0, 0, 0, 0, 0x0D, 0xAC, 0, 0, 0, 0, 0, 0, 0, 0, 0]);
    let heard = AddressedSystemState::try_from(data).unwrap();
    assert_eq!(Beacon::of_system_state(&heard), Beacon::Coordinator(beacon));
}

#[test]
fn gate_beacon_frame_with_activation() {
    let beacon = GateBeacon {
        addr: NodeAddress::finish(),
        state: GateState::Active,
        last_activation_time: Some(CoordinatedInstant::from_millis(4500)),
    };
    assert_eq!(beacon.system_state(), system_state(32, GateState::Active, 4500));
    let data = FrameData::from(beacon);
    assert_eq!(data.0, [1, 32, 1, 0, 0, 0x11, 0x94, 0, 0, 0, 0, 0, 0, 0, 0, 0]);
    let heard = AddressedSystemState::try_from(data).unwrap();
    assert_eq!(Beacon::of_system_state(&heard), Beacon::Gate(beacon));
    assert_eq!(GateBeacon::of_system_state(&heard), beacon);
}

#[test]
fn gate_beacon_frame_without_activation() {
    let beacon = GateBeacon {
        addr: NodeAddress::start(),
        state: GateState::Inactive,
        last_activation_time: None,
    };
    let data = FrameData::from(beacon);
    assert_eq!(data.0, [1, 1, 0, 0, 0, 0, 0, 0, 0, 0, 0, 0, 0, 0, 0, 0]);
    let heard = AddressedSystemState::try_from(data).unwrap();
    assert_eq!(Beacon::of_system_state(&heard), Beacon::Gate(beacon));
}

#[test]
fn gate_activation_at_time_zero_is_heard_as_none() {
    let beacon = GateBeacon {
        addr: NodeAddress::start(),
        state: GateState::Active,
        last_activation_time: Some(CoordinatedInstant::from_millis(0)),
    };
    let data = FrameData::from(beacon);
    assert_eq!(data.0, [1, 1, 1, 0, 0, 0, 0, 0, 0, 0, 0, 0, 0, 0, 0, 0]);
    let heard = AddressedSystemState::try_from(data).unwrap();
    assert_eq!(
        GateBeacon::of_system_state(&heard),
        GateBeacon {
            addr: NodeAddress::start(),
            state: GateState::Active,
            last_activation_time: None,
        }
    );
    let later = GateBeacon {
        last_activation_time: Some(CoordinatedInstant::from_millis(1)),
        ..beacon
    };
    let heard = AddressedSystemState::try_from(FrameData::from(later)).unwrap();
    assert_eq!(GateBeacon::of_system_state(&heard), later);
}

#[test]
fn beacons_are_told_apart_by_address() {
    let from_coordinator = system_state(0, GateState::Active, 77);
    assert_eq!(
        Beacon::of_system_state(&from_coordinator),
        Beacon::Coordinator(CoordinatorBeacon { time: CoordinatedInstant::from_millis(77) })
    );
    for addr in [1u8, 32, 5, 255] {
        let from_other = system_state(addr, GateState::Active, 77);
        let beacon = GateBeacon {
            addr: NodeAddress::from(addr),
            state: GateState::Active,
            last_activation_time: Some(CoordinatedInstant::from_millis(77)),
        };
        assert_eq!(Beacon::of_system_state(&from_other), Beacon::Gate(beacon));
        assert_eq!(Beacon::Gate(beacon).system_state(), from_other);
    }
}

#[test]
fn decoding_an_encoded_message_gives_it_back() {
    let times = [0u32, 1, 255, 256, 12345, 0x00FF_FF00, 0x8000_0000, u32::MAX];
    let states = [GateState::Inactive, GateState::Active];
    let addresses = [0u8, 1, 32, 7, 255];
    for &millis in &times {
        for &gate_state in &states {
            for &addr in &addresses {
                let msg = RaceNodeMessage::SystemState(system_state(addr, gate_state, millis));
                assert_eq!(RaceNodeMessage::decode(msg.data().as_bytes()), Ok(msg));
                assert_eq!(RaceNodeMessage::try_from(msg.data()), Ok(msg));
                assert_eq!(RaceNodeMessage::try_from(FrameData::from(&msg)), Ok(msg));
            }
        }
    }
}

#[test]
fn encoding_a_decoded_frame_gives_it_back() {
    let frames: [[u8; 16]; 4] = [
        [1, 1, 1, 0, 0, 48, 57, 0, 0, 0, 0, 0, 0, 0, 0, 0],
        [1, 32, 0, 0xDE, 0xAD, 0xBE, 0xEF, 0, 0, 0, 0, 0, 0, 0, 0, 0],
        [1, 0, 0, 0, 1, 2, 3, 0, 0, 0, 0, 0, 0, 0, 0, 0],
        [1, 255, 1, 255, 255, 255, 255, 0, 0, 0, 0, 0, 0, 0, 0, 0],
    ];
    for frame in frames {
        let msg = RaceNodeMessage::decode(&frame).unwrap();
        assert_eq!(msg.data().0, frame);
        assert_eq!(FrameData::from(&msg), FrameData::from(frame));
    }
}

#[test]
fn gate_state_byte_other_than_one_is_inactive() {
    for byte in [0u8, 2, 3, 0x80, 255] {
        let frame = [1, 1, byte, 0, 0, 0, 5, 0, 0, 0, 0, 0, 0, 0, 0, 0];
        let msg = RaceNodeMessage::decode(&frame).unwrap();
        assert_eq!(msg, RaceNodeMessage::SystemState(system_state(1, GateState::Inactive, 5)));
    }
    let frame = [1, 1, 1, 0, 0, 0, 5, 0, 0, 0, 0, 0, 0, 0, 0, 0];
    let msg = RaceNodeMessage::decode(&frame).unwrap();
    assert_eq!(msg, RaceNodeMessage::SystemState(system_state(1, GateState::Active, 5)));
}

#[test]
fn reserved_bytes_are_ignored_and_written_as_zero() {
    let frame = [1, 1, 7, 0, 0, 0, 5, 9, 9, 9, 9, 9, 9, 9, 9, 9];
    let msg = RaceNodeMessage::decode(&frame).unwrap();
    assert_eq!(msg.data().0, [1, 1, 0, 0, 0, 0, 5, 0, 0, 0, 0, 0, 0, 0, 0, 0]);
    assert_eq!(RaceNodeMessage::decode(msg.data().as_bytes()), Ok(msg));
}

#[test]
fn unknown_tag_fails() {
    let well_formed = [2u8, 1, 1, 0, 0, 48, 57, 0, 0, 0, 0, 0, 0, 0, 0, 0];
    assert_eq!(RaceNodeMessage::decode(&well_formed), Err(Error::Unknown));
    assert_eq!(RaceNodeMessage::try_from(FrameData::from(well_formed)), Err(Error::Unknown));
    for tag in 0..=255u8 {
        if tag == 1 {
            continue;
        }
        let mut frame = [0u8; 16];
        frame[0] = tag;
        assert_eq!(RaceNodeMessage::decode(&frame), Err(Error::Unknown));
        assert_eq!(RaceNodeMessage::try_from(FrameData::from(frame)), Err(Error::Unknown));
        let mut frame = well_formed;
        frame[0] = tag;
        assert_eq!(RaceNodeMessage::decode(&frame), Err(Error::Unknown));
        assert_eq!(RaceNodeMessage::try_from(FrameData::from(frame)), Err(Error::Unknown));
    }
}

#[test]
fn whole_frame_decodes_exactly_with_tag_one() {
    for tag in 0..=255u8 {
        let frame = FrameData::from([tag, 32, 1, 0, 0, 1, 0, 3, 3, 3, 3, 3, 3, 3, 3, 3]);
        let decoded = RaceNodeMessage::try_from(frame);
        assert_eq!(decoded.is_ok(), tag == 1);
        if tag == 1 {
            let fields = AddressedSystemState::try_from(frame).unwrap();
            assert_eq!(decoded, Ok(RaceNodeMessage::SystemState(fields)));
            assert_eq!(fields, system_state(32, GateState::Active, 256));
        }
    }
}

#[test]
fn truncated_frame_fails() {
    let whole = [1u8, 1, 1, 0, 0, 48, 57, 0, 0, 0, 0, 0, 0, 0, 0, 0];
    for len in 0..7 {
        assert_eq!(RaceNodeMessage::decode(&whole[..len]), Err(Error::Unknown));
    }
    for len in 7..=16 {
        assert_eq!(
            RaceNodeMessage::decode(&whole[..len]),
            Ok(RaceNodeMessage::SystemState(system_state(1, GateState::Active, 12345)))
        );
    }
    assert_eq!(RaceNodeMessage::decode(&[]), Err(Error::Unknown));
    assert_eq!(RaceNodeMessage::decode(&[1]), Err(Error::Unknown));
}

#[test]
fn system_state_fields_are_read_whatever_the_tag() {
    let frame = FrameData::from([9, 32, 1, 0, 0, 1, 0, 0, 0, 0, 0, 0, 0, 0, 0, 0]);
    assert_eq!(AddressedSystemState::try_from(frame), Ok(system_state(32, GateState::Active, 256)));
    let frame = FrameData::from(&system_state(1, GateState::Active, 77));
    assert_eq!(frame.0[0], 1);
    assert_eq!(AddressedSystemState::try_from(frame), Ok(system_state(1, GateState::Active, 77)));
}

#[test]
fn serializer_leaves_other_bytes() {
    let mut data = FrameData::from([0xAA; 16]);
    serialize_system_state(&system_state(1, GateState::Active, 0x0A0B_0C0D), &mut data);
    assert_eq!(
        data.0,
        [0xAA, 1, 1, 0x0A, 0x0B, 0x0C, 0x0D, 0xAA, 0xAA, 0xAA, 0xAA, 0xAA, 0xAA, 0xAA, 0xAA, 0xAA]
    );
}

#[test]
fn message_tag() {
    assert_eq!(RaceNodeMessage::SystemState(system_state(0, GateState::Inactive, 0)).tag(), 1);
}

#[test]
fn gate_state_bytes() {
    assert_eq!(GateState::Active.to_byte(), 1);
    assert_eq!(GateState::Inactive.to_byte(), 0);
    assert_eq!(GateState::from_byte(1), GateState::Active);
    assert_eq!(GateState::from_byte(0), GateState::Inactive);
    assert_eq!(GateState::from_byte(2), GateState::Inactive);
    assert!(GateState::Active.is_active());
    assert!(!GateState::Inactive.is_active());
    assert_eq!(GateState::default(), GateState::Inactive);
}
