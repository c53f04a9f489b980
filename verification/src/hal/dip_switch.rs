//! The selector switches that give a node its address.

use crate::svc::race_node::NodeAddress;
use vstd::prelude::*;

verus! {

/// What a switch adds to the address: its weight where it is on, nothing where
/// it is off.
pub open spec fn spec_switch(on: bool, weight: u8) -> int {
    if on {
        weight as int
    } else {
        0
    }
}

/// The address that eight switches set in binary, the first switch being the
/// lowest bit.
pub open spec fn spec_address_from_switches(switches: Seq<bool>) -> NodeAddress {
    NodeAddress(
        (spec_switch(switches[0], 1) + spec_switch(switches[1], 2) + spec_switch(switches[2], 4)
            + spec_switch(switches[3], 8) + spec_switch(switches[4], 16) + spec_switch(
            switches[5],
            32,
        ) + spec_switch(switches[6], 64) + spec_switch(switches[7], 128)) as u8,
    )
}

/// Reads the address that the selector switches set.
///
/// With all switches off the node is the coordinator, with only the first switch
/// on the start gate, and with only the sixth on the finish gate.
pub fn address_from_switches(switches: &[bool; 8]) -> (address: NodeAddress)
    ensures
        address == spec_address_from_switches(switches@),
{
    let mut value: u8 = 0;
    if switches[0] {
        value = value + 1;
    }
    if switches[1] {
        value = value + 2;
    }
    if switches[2] {
        value = value + 4;
    }
    if switches[3] {
        value = value + 8;
    }
    if switches[4] {
        value = value + 16;
    }
    if switches[5] {
        value = value + 32;
    }
    if switches[6] {
        value = value + 64;
    }
    if switches[7] {
        value = value + 128;
    }
    NodeAddress(value)
}

/// The three roles on the switches: all off, only the first on, only the sixth on.
pub proof fn lemma_switches_of_roles(switches: Seq<bool>)
    requires
        switches.len() == 8,
    ensures
        spec_address_from_switches(switches).spec_is_coordinator() <==> (forall|i: int|
            0 <= i < 8 ==> !switches[i]),
        spec_address_from_switches(switches).spec_is_start() <==> (forall|i: int|
            0 <= i < 8 ==> (switches[i] <==> i == 0)),
        spec_address_from_switches(switches).spec_is_finish() <==> (forall|i: int|
            0 <= i < 8 ==> (switches[i] <==> i == 5)),
{
}

} // verus!
