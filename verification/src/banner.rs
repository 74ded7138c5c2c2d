//! The startup banner rows: one row per non-loopback IPv4 interface, each
//! carrying the interface name, its address and the port the server listens
//! on. The caller enumerates the host's interfaces and hands them in as plain
//! values; printing the resulting table is equally the caller's business.

use vstd::prelude::*;

verus! {

/// An IPv4 address as its four octets, most significant first.
#[derive(Debug, Clone, Copy, PartialEq, Eq, Structural)]
pub struct Ipv4Octets {
    pub a: u8,
    pub b: u8,
    pub c: u8,
    pub d: u8,
}

impl Ipv4Octets {
    /// Whether the address lies in the loopback block `127.0.0.0/8`.
    pub open spec fn spec_is_loopback(&self) -> bool {
        self.a == 127
    }

    /// Whether the address lies in the loopback block `127.0.0.0/8`.
    pub fn is_loopback(&self) -> (r: bool)
        ensures
            r == self.spec_is_loopback(),
    {
        self.a == 127
    }
}

/// The address of one network interface, as far as the banner cares: an IPv4
/// address, or anything else (IPv6, link-level), which the banner skips.
#[derive(Debug, Clone, Copy)]
pub enum InterfaceAddr {
    V4(Ipv4Octets),
    Other,
}

/// One network interface of the host, by name and address.
#[derive(Debug, Clone)]
pub struct Interface {
    pub name: String,
    pub addr: InterfaceAddr,
}

/// What an interface amounts to in specifications: its name's characters and
/// its address.
pub ghost struct InterfaceView {
    pub name: Seq<char>,
    pub addr: InterfaceAddr,
}

impl View for Interface {
    type V = InterfaceView;

    open spec fn view(&self) -> InterfaceView {
        InterfaceView { name: self.name@, addr: self.addr }
    }
}

/// One row of the startup banner.
#[derive(Debug, Clone)]
pub struct ListeningOn {
    pub interface: String,
    pub address: Ipv4Octets,
    pub port: u16,
}

/// What a banner row amounts to in specifications.
pub ghost struct ListeningOnView {
    pub interface: Seq<char>,
    pub address: Ipv4Octets,
    pub port: u16,
}

impl View for ListeningOn {
    type V = ListeningOnView;

    open spec fn view(&self) -> ListeningOnView {
        ListeningOnView { interface: self.interface@, address: self.address, port: self.port }
    }
}

/// The banner rows one interface contributes: one row if it carries a
/// non-loopback IPv4 address, none otherwise.
pub open spec fn rows_of(iface: InterfaceView, port: u16) -> Seq<ListeningOnView> {
    match iface.addr {
        InterfaceAddr::V4(ip) => if !ip.spec_is_loopback() {
            seq![ListeningOnView { interface: iface.name, address: ip, port }]
        } else {
            Seq::empty()
        },
        InterfaceAddr::Other => Seq::empty(),
    }
}

/// The banner rows for a whole interface list, in the list's order.
pub open spec fn banner_rows(ifaces: Seq<InterfaceView>, port: u16) -> Seq<ListeningOnView>
    decreases ifaces.len(),
{
    if ifaces.len() == 0 {
        Seq::empty()
    } else {
        banner_rows(ifaces.drop_last(), port) + rows_of(ifaces.last(), port)
    }
}

/// The views of a sequence of interfaces.
pub open spec fn iface_views(s: Seq<Interface>) -> Seq<InterfaceView> {
    s.map_values(|x: Interface| x@)
}

/// The views of a sequence of banner rows.
pub open spec fn row_views(s: Seq<ListeningOn>) -> Seq<ListeningOnView> {
    s.map_values(|x: ListeningOn| x@)
}

/// Builds the banner rows for the given interfaces: every non-loopback IPv4
/// interface appears exactly once, in the order handed in, with the given
/// port; loopback and non-IPv4 interfaces are dropped.
pub fn show_addresses(interfaces: &Vec<Interface>, port: u16) -> (rows: Vec<ListeningOn>)
    ensures
        row_views(rows@) =~= banner_rows(iface_views(interfaces@), port),
{
    let mut rows: Vec<ListeningOn> = Vec::new();
    let n = interfaces.len();
    let mut i: usize = 0;
    while i < n
        invariant
            i <= n,
            n == interfaces@.len(),
            row_views(rows@) =~= banner_rows(iface_views(interfaces@.take(i as int)), port),
        decreases n - i,
    {
        let iface = &interfaces[i];
        match iface.addr {
            InterfaceAddr::V4(ip) => {
                if !ip.is_loopback() {
                    rows.push(
                        ListeningOn { interface: iface.name.clone(), address: ip, port },
                    );
                }
            },
            InterfaceAddr::Other => {},
        }
        i = i + 1;
        proof {
            assert(iface_views(interfaces@.take(i as int)).drop_last() =~= iface_views(
                interfaces@.take(i - 1),
            ));
            assert(iface_views(interfaces@.take(i as int)).last() == interfaces@[i - 1]@);
        }
    }
    proof {
        assert(interfaces@.take(n as int) =~= interfaces@);
    }
    rows
}

} // verus!
