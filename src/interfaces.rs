//! Choosing which local interface addresses to report.

use vstd::prelude::*;

verus! {

/// An IP address: four octets, or eight 16-bit segments.
#[derive(Clone, Copy, Debug, PartialEq, Eq)]
pub enum IpAddress {
    V4([u8; 4]),
    V6([u16; 8]),
}

/// One address binding of a network interface, as the OS lists it.
#[derive(Clone, Copy, Debug)]
pub struct InterfaceBinding {
    /// The bound address; `None` when there is none or it is neither IPv4
    /// nor IPv6.
    pub address: Option<IpAddress>,
    /// The interface is a loopback interface.
    pub is_loopback: bool,
    /// The interface is administratively up.
    pub is_up: bool,
}

/// An IPv6 address in `fe80::/10`: its first ten bits are `1111111010`.
pub open spec fn is_link_local(a: IpAddress) -> bool {
    match a {
        IpAddress::V4(_) => false,
        IpAddress::V6(seg) => 0xfe80 <= seg@[0] && seg@[0] <= 0xfebf,
    }
}

/// An IPv6 multicast address, in `ff00::/8`.
pub open spec fn is_multicast_v6(a: IpAddress) -> bool {
    match a {
        IpAddress::V4(_) => false,
        IpAddress::V6(seg) => 0xff00 <= seg@[0],
    }
}

/// A binding worth reporting: an IPv4 or IPv6 address on an interface that
/// is up and not loopback, and not IPv6 link-local or multicast.
pub open spec fn usable(b: InterfaceBinding) -> bool {
    match b.address {
        None => false,
        Some(a) => !b.is_loopback && b.is_up && !is_link_local(a) && !is_multicast_v6(a),
    }
}

/// The addresses of the usable bindings, in the order listed.
pub open spec fn usable_of(bs: Seq<InterfaceBinding>) -> Seq<IpAddress>
    decreases bs.len(),
{
    if bs.len() == 0 {
        Seq::empty()
    } else if usable(bs.last()) {
        usable_of(bs.drop_last()).push(bs.last().address.unwrap())
    } else {
        usable_of(bs.drop_last())
    }
}

/// Whether `b` is to be reported.
pub fn is_usable(b: &InterfaceBinding) -> (r: bool)
    ensures
        r == usable(*b),
{
    match b.address {
        None => false,
        Some(IpAddress::V4(_)) => !b.is_loopback && b.is_up,
        Some(IpAddress::V6(seg)) => {
            let first = seg[0];
            !b.is_loopback && b.is_up && !(0xfe80 <= first && first <= 0xfebf) && first < 0xff00
        },
    }
}

/// The addresses of the usable bindings, in the order the OS listed them.
pub fn usable_addresses(bindings: &Vec<InterfaceBinding>) -> (r: Vec<IpAddress>)
    ensures
        r@ == usable_of(bindings@),
{
    let mut r: Vec<IpAddress> = Vec::new();
    let mut i: usize = 0;
    while i < bindings.len()
        invariant
            i <= bindings.len(),
            r@ == usable_of(bindings@.take(i as int)),
        decreases bindings.len() - i,
    {
        let b = bindings[i];
        assert(bindings@.take(i + 1).drop_last() =~= bindings@.take(i as int));
        if is_usable(&b) {
            r.push(b.address.unwrap());
        }
        i = i + 1;
    }
    assert(bindings@.take(bindings.len() as int) =~= bindings@);
    r
}

} // verus!
