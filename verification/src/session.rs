//! Session parameters chosen when a device is opened.
//!
//! Opening a device scans its configuration descriptors: the first inbound
//! endpoint becomes the read address, the first outbound endpoint the
//! write address, and the interface number is taken from the last
//! interface seen. The scan itself runs against the USB library; the
//! choice is made here, over the plain endpoint facts the scan collected.

use vstd::prelude::*;

verus! {

/// What the selection reads of one endpoint descriptor: its address and
/// its direction.
#[derive(Clone, Copy, Debug, PartialEq, Eq, Structural)]
pub struct EndpointDesc {
    pub address: u8,
    pub direction_in: bool,
}

/// The addresses a session uses: the claimed interface, the interrupt
/// endpoint read from, and the endpoint written to.
#[derive(Clone, Copy, Debug, PartialEq, Eq, Structural)]
pub struct SessionParams {
    pub interface: u8,
    pub read_address: u8,
    pub write_address: u8,
}

/// The address of the first inbound endpoint, or the conventional
/// interrupt-in address `0x82` where none is listed.
pub open spec fn spec_read_address(eps: Seq<EndpointDesc>) -> u8
    decreases eps.len(),
{
    if eps.len() == 0 {
        0x82
    } else if eps.first().direction_in {
        eps.first().address
    } else {
        spec_read_address(eps.drop_first())
    }
}

/// The address of the first outbound endpoint, or zero where none is
/// listed.
pub open spec fn spec_write_address(eps: Seq<EndpointDesc>) -> u8
    decreases eps.len(),
{
    if eps.len() == 0 {
        0x00
    } else if !eps.first().direction_in {
        eps.first().address
    } else {
        spec_write_address(eps.drop_first())
    }
}

/// The interface number used: the last interface listed, or zero where
/// none is.
pub open spec fn spec_interface(numbers: Seq<u8>) -> u8 {
    if numbers.len() == 0 {
        0x00
    } else {
        numbers.last()
    }
}

proof fn lemma_read_address_skip(eps: Seq<EndpointDesc>, i: int)
    requires
        0 <= i <= eps.len(),
        forall|j: int| 0 <= j < i ==> !(#[trigger] eps[j]).direction_in,
    ensures
        spec_read_address(eps) == spec_read_address(eps.skip(i)),
    decreases i,
{
    if i > 0 {
        assert forall|j: int| 0 <= j < i - 1 implies !(#[trigger] eps.drop_first()[j]).direction_in by {
            assert(eps.drop_first()[j] == eps[j + 1]);
        }
        lemma_read_address_skip(eps.drop_first(), i - 1);
        assert(eps.drop_first().skip(i - 1) =~= eps.skip(i));
    } else {
        assert(eps.skip(0) =~= eps);
    }
}

proof fn lemma_write_address_skip(eps: Seq<EndpointDesc>, i: int)
    requires
        0 <= i <= eps.len(),
        forall|j: int| 0 <= j < i ==> (#[trigger] eps[j]).direction_in,
    ensures
        spec_write_address(eps) == spec_write_address(eps.skip(i)),
    decreases i,
{
    if i > 0 {
        assert forall|j: int| 0 <= j < i - 1 implies (#[trigger] eps.drop_first()[j]).direction_in by {
            assert(eps.drop_first()[j] == eps[j + 1]);
        }
        lemma_write_address_skip(eps.drop_first(), i - 1);
        assert(eps.drop_first().skip(i - 1) =~= eps.skip(i));
    } else {
        assert(eps.skip(0) =~= eps);
    }
}

fn first_in_address(eps: &Vec<EndpointDesc>) -> (r: u8)
    ensures
        r == spec_read_address(eps@),
{
    let mut i: usize = 0;
    while i < eps.len()
        invariant
            i <= eps@.len(),
            forall|j: int| 0 <= j < i ==> !(#[trigger] eps@[j]).direction_in,
        decreases eps@.len() - i,
    {
        let e = eps[i];
        if e.direction_in {
            proof {
                lemma_read_address_skip(eps@, i as int);
                assert(eps@.skip(i as int).first() == eps@[i as int]);
            }
            return e.address;
        }
        i = i + 1;
    }
    proof {
        lemma_read_address_skip(eps@, eps@.len() as int);
        assert(eps@.skip(eps@.len() as int) =~= Seq::<EndpointDesc>::empty());
    }
    0x82
}

fn first_out_address(eps: &Vec<EndpointDesc>) -> (r: u8)
    ensures
        r == spec_write_address(eps@),
{
    let mut i: usize = 0;
    while i < eps.len()
        invariant
            i <= eps@.len(),
            forall|j: int| 0 <= j < i ==> (#[trigger] eps@[j]).direction_in,
        decreases eps@.len() - i,
    {
        let e = eps[i];
        if !e.direction_in {
            proof {
                lemma_write_address_skip(eps@, i as int);
                assert(eps@.skip(i as int).first() == eps@[i as int]);
            }
            return e.address;
        }
        i = i + 1;
    }
    proof {
        lemma_write_address_skip(eps@, eps@.len() as int);
        assert(eps@.skip(eps@.len() as int) =~= Seq::<EndpointDesc>::empty());
    }
    0x00
}

/// Chooses the session parameters from the scanned interface numbers and
/// endpoint descriptors, in descriptor order.
pub fn select_session_params(interface_numbers: &Vec<u8>, endpoints: &Vec<EndpointDesc>) -> (r: SessionParams)
    ensures
        r.interface == spec_interface(interface_numbers@),
        r.read_address == spec_read_address(endpoints@),
        r.write_address == spec_write_address(endpoints@),
{
    let interface: u8 = if interface_numbers.len() == 0 {
        0x00
    } else {
        interface_numbers[interface_numbers.len() - 1]
    };
    SessionParams {
        interface,
        read_address: first_in_address(endpoints),
        write_address: first_out_address(endpoints),
    }
}

} // verus!
