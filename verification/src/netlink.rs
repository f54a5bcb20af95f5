//! Address and interface bookkeeping for the Keep's network setup.
//!
//! The route netlink socket itself — opening, serializing, sending — is the
//! embedding program's part.  This module holds what goes over it: which
//! message fields each operation carries, how an address attribute is read,
//! and how the interface whose subnet covers a wanted address is found.

use vstd::prelude::*;

use crate::subnet::{spec_mask, valid_prefix, IpAddress, Subnet};

verus! {

/// Message flag: this is a request.
pub const NLM_F_REQUEST: u16 = 0x0001;

/// Message flag: acknowledge the request.
pub const NLM_F_ACK: u16 = 0x0004;

/// Message flag: do not touch an existing object.
pub const NLM_F_EXCL: u16 = 0x0200;

/// Message flag: create the object if it does not exist.
pub const NLM_F_CREATE: u16 = 0x0400;

/// Message flag: dump all objects.
pub const NLM_F_DUMP: u16 = 0x0300;

/// Address family: IPv4.
pub const AF_INET: u16 = 2;

/// Address family: IPv6.
pub const AF_INET6: u16 = 10;

/// Link flag: the interface is up.
pub const IFF_UP: u32 = 1;

/// Route kind: a unicast route.
pub const RTN_UNICAST: u8 = 1;

/// IPVLAN operating mode: layer 3 symmetric.
pub const IPVLAN_MODE_L3S: u16 = 2;

/// Errors of the netlink exchange.
#[derive(Clone, Copy, Debug, PartialEq, Eq, Structural)]
pub enum Error {
    /// The socket failed with this OS error.
    Io(i32),
    /// A message could not be decoded, or carried the wrong payload.
    Decode,
}

/// The value of a 4-byte network-order attribute.
pub open spec fn spec_be32(s: Seq<u8>) -> u32
    recommends
        s.len() == 4,
{
    ((s[0] as u32) << 24u32) | ((s[1] as u32) << 16u32) | ((s[2] as u32) << 8u32) | (s[3] as u32)
}

/// The value of a 16-byte network-order attribute.
pub open spec fn spec_be128(s: Seq<u8>) -> u128
    recommends
        s.len() == 16,
{
    ((s[0] as u128) << 120u32) | ((s[1] as u128) << 112u32) | ((s[2] as u128) << 104u32) | ((
    s[3] as u128) << 96u32) | ((s[4] as u128) << 88u32) | ((s[5] as u128) << 80u32) | ((
    s[6] as u128) << 72u32) | ((s[7] as u128) << 64u32) | ((s[8] as u128) << 56u32) | ((
    s[9] as u128) << 48u32) | ((s[10] as u128) << 40u32) | ((s[11] as u128) << 32u32) | ((
    s[12] as u128) << 24u32) | ((s[13] as u128) << 16u32) | ((s[14] as u128) << 8u32) | (
    s[15] as u128)
}

/// The network-order bytes of an address: 4 for IPv4, 16 for IPv6.
pub open spec fn ip_octets(addr: IpAddress) -> Seq<u8> {
    match addr {
        IpAddress::V4(v) => seq![
            (v >> 24u32) as u8,
            (v >> 16u32) as u8,
            (v >> 8u32) as u8,
            v as u8,
        ],
        IpAddress::V6(v) => seq![
            (v >> 120u32) as u8,
            (v >> 112u32) as u8,
            (v >> 104u32) as u8,
            (v >> 96u32) as u8,
            (v >> 88u32) as u8,
            (v >> 80u32) as u8,
            (v >> 72u32) as u8,
            (v >> 64u32) as u8,
            (v >> 56u32) as u8,
            (v >> 48u32) as u8,
            (v >> 40u32) as u8,
            (v >> 32u32) as u8,
            (v >> 24u32) as u8,
            (v >> 16u32) as u8,
            (v >> 8u32) as u8,
            v as u8,
        ],
    }
}

/// The address family word of an address.
pub open spec fn ip_family(addr: IpAddress) -> u16 {
    match addr {
        IpAddress::V4(_) => AF_INET,
        IpAddress::V6(_) => AF_INET6,
    }
}

/// The network-order bytes of an address.
pub fn ip_to_bytes(addr: &IpAddress) -> (out: Vec<u8>)
    ensures
        out@ == ip_octets(*addr),
{
    let mut out: Vec<u8> = Vec::new();
    match addr {
        IpAddress::V4(v) => {
            let v = *v;
            out.push((v >> 24u32) as u8);
            out.push((v >> 16u32) as u8);
            out.push((v >> 8u32) as u8);
            out.push(v as u8);
        },
        IpAddress::V6(v) => {
            let v = *v;
            out.push((v >> 120u32) as u8);
            out.push((v >> 112u32) as u8);
            out.push((v >> 104u32) as u8);
            out.push((v >> 96u32) as u8);
            out.push((v >> 88u32) as u8);
            out.push((v >> 80u32) as u8);
            out.push((v >> 72u32) as u8);
            out.push((v >> 64u32) as u8);
            out.push((v >> 56u32) as u8);
            out.push((v >> 48u32) as u8);
            out.push((v >> 40u32) as u8);
            out.push((v >> 32u32) as u8);
            out.push((v >> 24u32) as u8);
            out.push((v >> 16u32) as u8);
            out.push((v >> 8u32) as u8);
            out.push(v as u8);
        },
    }
    proof {
        assert(out@ =~= ip_octets(*addr));
    }
    out
}

/// An address an interface carries: the interface index, the address, and
/// the subnet it belongs to.
#[derive(Clone, Copy, Debug, PartialEq, Eq, Structural)]
pub struct Address {
    index: u32,
    subnet: Subnet,
    address: IpAddress,
}

impl Address {
    /// The interface's index.
    pub closed spec fn spec_index(self) -> u32 {
        self.index
    }

    /// The address itself.
    pub closed spec fn spec_ip(self) -> IpAddress {
        self.address
    }

    /// The subnet the address belongs to.
    pub closed spec fn spec_subnet(self) -> Subnet {
        self.subnet
    }

    /// An address record is well formed when its subnet is its address's,
    /// so that containment checks never mix families.
    pub open spec fn wf(self) -> bool {
        &&& valid_prefix(self.spec_ip(), self.spec_subnet().spec_prefix())
        &&& self.spec_subnet().spec_address() == spec_mask(
            self.spec_ip(),
            self.spec_subnet().spec_prefix(),
        )
        &&& self.spec_subnet().wf()
    }

    /// An address on interface `index` with this prefix length.
    pub fn new(index: u32, address: IpAddress, prefix: u8) -> (r: Address)
        requires
            valid_prefix(address, prefix),
        ensures
            r.wf(),
            r.spec_index() == index,
            r.spec_ip() == address,
            r.spec_subnet().spec_prefix() == prefix,
            r.spec_subnet().spec_address() == spec_mask(address, prefix),
    {
        Address { index, address, subnet: Subnet::new(address, prefix) }
    }

    /// The subnet the address belongs to.
    pub fn subnet(&self) -> (r: Subnet)
        ensures
            r == self.spec_subnet(),
    {
        self.subnet
    }

    /// The address itself.
    pub fn address(&self) -> (r: IpAddress)
        ensures
            r == self.spec_ip(),
    {
        self.address
    }

    /// The interface index the address sits on.
    pub fn interface_index(&self) -> (r: u32)
        ensures
            r == self.spec_index(),
    {
        self.index
    }

    /// Whether this record's subnet covers `ip`: same family, and with its
    /// host bits cleared `ip` is the subnet's network address.
    pub fn covers(&self, ip: IpAddress) -> (r: bool)
        requires
            self.wf(),
        ensures
            r == spec_covers(*self, ip),
    {
        let same_family = match (self.address, ip) {
            (IpAddress::V4(_), IpAddress::V4(_)) => true,
            (IpAddress::V6(_), IpAddress::V6(_)) => true,
            _ => false,
        };
        if !same_family {
            return false;
        }
        self.subnet.contains(ip)
    }
}

/// Whether an address record's subnet covers `ip`.
pub open spec fn spec_covers(a: Address, ip: IpAddress) -> bool {
    &&& ip_family(ip) == ip_family(a.spec_ip())
    &&& spec_mask(ip, a.spec_subnet().spec_prefix()) == a.spec_subnet().spec_address()
}

/// Read one new-address message: the family selects how many bytes the
/// address attribute must carry; a family this module does not know, a
/// malformed attribute, or a prefix outside the family's range yields
/// nothing.
pub fn address_from_parts(index: u32, family: u16, bytes: &Vec<u8>, prefix_len: u8) -> (r: Option<
    Address,
>)
    ensures
        family == AF_INET && bytes@.len() == 4 && 1 <= prefix_len <= 32 ==> (r matches Some(a)
            && a.wf() && a.spec_index() == index && a.spec_ip() == IpAddress::V4(spec_be32(bytes@))
            && a.spec_subnet().spec_prefix() == prefix_len),
        family == AF_INET6 && bytes@.len() == 16 && 1 <= prefix_len <= 128 ==> (r matches Some(a)
            && a.wf() && a.spec_index() == index && a.spec_ip() == IpAddress::V6(
        spec_be128(bytes@)) && a.spec_subnet().spec_prefix() == prefix_len),
        !((family == AF_INET && bytes@.len() == 4 && 1 <= prefix_len <= 32) || (family == AF_INET6
            && bytes@.len() == 16 && 1 <= prefix_len <= 128)) ==> r is None,
{
    if family == AF_INET && bytes.len() == 4 && 1 <= prefix_len && prefix_len <= 32 {
        let v = ((bytes[0] as u32) << 24u32) | ((bytes[1] as u32) << 16u32) | ((bytes[2] as u32)
            << 8u32) | (bytes[3] as u32);
        Some(Address::new(index, IpAddress::V4(v), prefix_len))
    } else if family == AF_INET6 && bytes.len() == 16 && 1 <= prefix_len && prefix_len <= 128 {
        let v = ((bytes[0] as u128) << 120u32) | ((bytes[1] as u128) << 112u32) | ((
        bytes[2] as u128) << 104u32) | ((bytes[3] as u128) << 96u32) | ((bytes[4] as u128)
            << 88u32) | ((bytes[5] as u128) << 80u32) | ((bytes[6] as u128) << 72u32) | ((
        bytes[7] as u128) << 64u32) | ((bytes[8] as u128) << 56u32) | ((bytes[9] as u128)
            << 48u32) | ((bytes[10] as u128) << 40u32) | ((bytes[11] as u128) << 32u32) | ((
        bytes[12] as u128) << 24u32) | ((bytes[13] as u128) << 16u32) | ((bytes[14] as u128)
            << 8u32) | (bytes[15] as u128);
        Some(Address::new(index, IpAddress::V6(v), prefix_len))
    } else {
        None
    }
}

/// The first listed address whose subnet covers `addr` without being
/// exactly `addr`: the interface to build the Keep's IPVLAN on.
pub fn find_address(addresses: &Vec<Address>, addr: IpAddress) -> (r: Option<Address>)
    requires
        forall|i: int| 0 <= i < addresses@.len() ==> (#[trigger] addresses@[i]).wf(),
    ensures
        r matches Some(a) ==> exists|i: int|
            0 <= i < addresses@.len() && addresses@[i] == a && spec_covers(a, addr)
                && a.spec_ip() != addr,
        r is None ==> forall|i: int|
            0 <= i < addresses@.len() ==> !(spec_covers(#[trigger] addresses@[i], addr)
                && addresses@[i].spec_ip() != addr),
{
    let mut i: usize = 0;
    while i < addresses.len()
        invariant
            i <= addresses@.len(),
            forall|j: int| 0 <= j < addresses@.len() ==> (#[trigger] addresses@[j]).wf(),
            forall|j: int|
                0 <= j < i ==> !(spec_covers(#[trigger] addresses@[j], addr) && addresses@[j].spec_ip()
                    != addr),
        decreases addresses@.len() - i,
    {
        let a = addresses[i];
        let differs = match (a.address(), addr) {
            (IpAddress::V4(x), IpAddress::V4(y)) => x != y,
            (IpAddress::V6(x), IpAddress::V6(y)) => x != y,
            _ => true,
        };
        if a.covers(addr) && differs {
            return Some(a);
        }
        i += 1;
    }
    None
}

/// An interface, by index and name.
#[derive(Clone, Debug)]
pub struct Interface {
    index: u32,
    alias: String,
}

impl Interface {
    /// The interface's index.
    pub closed spec fn spec_index(self) -> u32 {
        self.index
    }

    /// The interface's name.
    pub closed spec fn spec_alias(self) -> Seq<char> {
        self.alias@
    }

    /// An interface with this index and name.
    pub fn new(index: u32, alias: String) -> (r: Interface)
        ensures
            r.spec_index() == index,
            r.spec_alias() == alias@,
    {
        Interface { index, alias }
    }

    /// The interface's index.
    pub fn index(&self) -> (r: u32)
        ensures
            r == self.spec_index(),
    {
        self.index
    }

    /// Read one new-link message: the message names the link in its first
    /// name attribute; a message without one cannot name an interface.
    pub fn from_link_names(index: u32, names: Vec<String>) -> (r: Result<Interface, Error>)
        ensures
            names@.len() > 0 ==> (r matches Ok(i) && i.spec_index() == index && i.spec_alias()
                == names@[0]@),
            names@.len() == 0 ==> r == Err::<Interface, Error>(Error::Decode),
    {
        let mut names = names;
        if names.len() == 0 {
            return Err(Error::Decode);
        }
        let alias = names.remove(0);
        Ok(Interface { index, alias })
    }

    /// The message fields that add `address/prefix` to this interface.
    pub fn plan_add_address(&self, address: &IpAddress, prefix: u8) -> (r: AddressPlan)
        ensures
            r.flags == (NLM_F_REQUEST | NLM_F_ACK | NLM_F_EXCL | NLM_F_CREATE),
            r.index == self.spec_index(),
            r.family == ip_family(*address),
            r.prefix == prefix,
            r.bytes@ == ip_octets(*address),
    {
        let family = match address {
            IpAddress::V4(_) => AF_INET,
            IpAddress::V6(_) => AF_INET6,
        };
        AddressPlan {
            flags: NLM_F_REQUEST | NLM_F_ACK | NLM_F_EXCL | NLM_F_CREATE,
            index: self.index,
            family,
            prefix,
            bytes: ip_to_bytes(address),
        }
    }

    /// The message fields that create an IPVLAN on top of this interface.
    pub fn plan_add_ipvlan(&self, alias: &str) -> (r: IpvlanPlan)
        ensures
            r.flags == (NLM_F_REQUEST | NLM_F_ACK | NLM_F_EXCL | NLM_F_CREATE),
            r.link == self.spec_index(),
            r.alias@ == alias@,
            r.mode == IPVLAN_MODE_L3S,
            r.mode_flags == 0,
    {
        IpvlanPlan {
            flags: NLM_F_REQUEST | NLM_F_ACK | NLM_F_EXCL | NLM_F_CREATE,
            link: self.index,
            alias: alias.to_owned(),
            mode: IPVLAN_MODE_L3S,
            mode_flags: 0,
        }
    }

    /// The message fields that move this interface into the network
    /// namespace behind `nsfd`.
    pub fn plan_move_to_namespace(&self, nsfd: i32) -> (r: NamespacePlan)
        ensures
            r.flags == (NLM_F_REQUEST | NLM_F_ACK),
            r.index == self.spec_index(),
            r.nsfd == nsfd,
    {
        NamespacePlan { flags: NLM_F_REQUEST | NLM_F_ACK, index: self.index, nsfd }
    }

    /// The message fields that bring this interface up.
    pub fn plan_up(&self) -> (r: LinkFlagsPlan)
        ensures
            r.flags == (NLM_F_REQUEST | NLM_F_ACK),
            r.index == self.spec_index(),
            r.link_flags == IFF_UP,
    {
        LinkFlagsPlan { flags: NLM_F_REQUEST | NLM_F_ACK, index: self.index, link_flags: IFF_UP }
    }

    /// The message fields that route everything through `address` via this
    /// interface.
    pub fn plan_add_gateway(&self, address: &IpAddress) -> (r: GatewayPlan)
        ensures
            r.flags == (NLM_F_REQUEST | NLM_F_ACK | NLM_F_EXCL | NLM_F_CREATE),
            r.kind == RTN_UNICAST,
            r.family == ip_family(*address),
            r.gateway@ == ip_octets(*address),
            r.oif == self.spec_index(),
    {
        let family = match address {
            IpAddress::V4(_) => AF_INET,
            IpAddress::V6(_) => AF_INET6,
        };
        GatewayPlan {
            flags: NLM_F_REQUEST | NLM_F_ACK | NLM_F_EXCL | NLM_F_CREATE,
            kind: RTN_UNICAST,
            family,
            gateway: ip_to_bytes(address),
            oif: self.index,
        }
    }
}

/// The fields of a new-address message.
#[derive(Clone, Debug)]
pub struct AddressPlan {
    /// The message header flags.
    pub flags: u16,
    /// The interface to address.
    pub index: u32,
    /// The address family word.
    pub family: u16,
    /// The prefix length.
    pub prefix: u8,
    /// The address, in network order; sent as both address and local.
    pub bytes: Vec<u8>,
}

/// The fields of a new-link message creating an IPVLAN.
#[derive(Clone, Debug)]
pub struct IpvlanPlan {
    /// The message header flags.
    pub flags: u16,
    /// The underlying interface.
    pub link: u32,
    /// The new interface's name.
    pub alias: String,
    /// The IPVLAN operating mode.
    pub mode: u16,
    /// The IPVLAN mode flags.
    pub mode_flags: u16,
}

/// The fields of a set-link message moving an interface between network
/// namespaces.
#[derive(Clone, Copy, Debug, PartialEq, Eq, Structural)]
pub struct NamespacePlan {
    /// The message header flags.
    pub flags: u16,
    /// The interface to move.
    pub index: u32,
    /// The file descriptor naming the namespace.
    pub nsfd: i32,
}

/// The fields of a new-link message changing link flags.
#[derive(Clone, Copy, Debug, PartialEq, Eq, Structural)]
pub struct LinkFlagsPlan {
    /// The message header flags.
    pub flags: u16,
    /// The interface to change.
    pub index: u32,
    /// The link flags to set.
    pub link_flags: u32,
}

/// The fields of a new-route message adding a default gateway.
#[derive(Clone, Debug)]
pub struct GatewayPlan {
    /// The message header flags.
    pub flags: u16,
    /// The route kind.
    pub kind: u8,
    /// The address family word.
    pub family: u16,
    /// The gateway address, in network order.
    pub gateway: Vec<u8>,
    /// The output interface.
    pub oif: u32,
}

} // verus!
