//! IP subnets.
//!
//! A [`Subnet`] is an address with its host bits cleared plus a prefix
//! length; [`Subnet::contains`] asks whether an address falls inside it.
//! Addresses are carried as plain integers in network order, one word per
//! family.

use vstd::prelude::*;

verus! {

/// An IP address: a 32-bit or a 128-bit integer in network order.
#[derive(Clone, Copy, Debug, PartialEq, Eq, Structural)]
pub enum IpAddress {
    /// An IPv4 address.
    V4(u32),
    /// An IPv6 address.
    V6(u128),
}

/// Whether a prefix length is valid for this address family: at least one
/// bit and at most the address width.
pub open spec fn valid_prefix(address: IpAddress, prefix: u8) -> bool {
    match address {
        IpAddress::V4(_) => 1 <= prefix <= 32,
        IpAddress::V6(_) => 1 <= prefix <= 128,
    }
}

/// An IPv4 address with all but the first `prefix` bits cleared.
pub open spec fn spec_mask_v4(addr: u32, prefix: u8) -> u32
    recommends
        1 <= prefix <= 32,
{
    let shift = (32 - prefix) as u32;
    addr & ((!0u32 >> shift) << shift)
}

/// An IPv6 address with all but the first `prefix` bits cleared.
pub open spec fn spec_mask_v6(addr: u128, prefix: u8) -> u128
    recommends
        1 <= prefix <= 128,
{
    let shift = (128 - prefix) as u32;
    addr & ((!0u128 >> shift) << shift)
}

/// An address with all but the first `prefix` bits cleared.
pub open spec fn spec_mask(address: IpAddress, prefix: u8) -> IpAddress
    recommends
        valid_prefix(address, prefix),
{
    match address {
        IpAddress::V4(a) => IpAddress::V4(spec_mask_v4(a, prefix)),
        IpAddress::V6(a) => IpAddress::V6(spec_mask_v6(a, prefix)),
    }
}

/// Clearing the host bits twice clears them once: masking is idempotent.
pub proof fn lemma_mask_idempotent(address: IpAddress, prefix: u8)
    requires
        valid_prefix(address, prefix),
    ensures
        spec_mask(spec_mask(address, prefix), prefix) == spec_mask(address, prefix),
{
    match address {
        IpAddress::V4(a) => {
            let shift = (32 - prefix) as u32;
            assert(spec_mask_v4(spec_mask_v4(a, prefix), prefix) == spec_mask_v4(a, prefix))
                by (bit_vector)
                requires
                    1 <= prefix <= 32,
            ;
        },
        IpAddress::V6(a) => {
            let shift = (128 - prefix) as u32;
            assert(spec_mask_v6(spec_mask_v6(a, prefix), prefix) == spec_mask_v6(a, prefix))
                by (bit_vector)
                requires
                    1 <= prefix <= 128,
            ;
        },
    }
}

/// A subnet: the network address (host bits cleared) and the prefix length.
#[derive(Clone, Copy, Debug, PartialEq, Eq, Structural)]
pub struct Subnet {
    address: IpAddress,
    prefix: u8,
}

impl Subnet {
    /// The subnet's network address.
    pub closed spec fn spec_address(self) -> IpAddress {
        self.address
    }

    /// The subnet's prefix length.
    pub closed spec fn spec_prefix(self) -> u8 {
        self.prefix
    }

    /// A subnet is well formed when its prefix fits its family and its
    /// address carries no host bits.
    pub open spec fn wf(self) -> bool {
        &&& valid_prefix(self.spec_address(), self.spec_prefix())
        &&& self.spec_address() == spec_mask(self.spec_address(), self.spec_prefix())
    }

    /// Clear all but the first `prefix` bits of an address.
    fn mask(addr: IpAddress, prefix: u8) -> (r: IpAddress)
        requires
            valid_prefix(addr, prefix),
        ensures
            r == spec_mask(addr, prefix),
    {
        match addr {
            IpAddress::V4(a) => {
                let shift = 32 - prefix as u32;
                let mask = (!0u32 >> shift) << shift;
                IpAddress::V4(a & mask)
            },
            IpAddress::V6(a) => {
                let shift = 128 - prefix as u32;
                let mask = (!0u128 >> shift) << shift;
                IpAddress::V6(a & mask)
            },
        }
    }

    /// The subnet of `address` with this prefix length: the host bits are
    /// cleared.
    pub fn new(address: IpAddress, prefix: u8) -> (r: Subnet)
        requires
            valid_prefix(address, prefix),
        ensures
            r.spec_address() == spec_mask(address, prefix),
            r.spec_prefix() == prefix,
            r.wf(),
    {
        proof {
            lemma_mask_idempotent(address, prefix);
        }
        Subnet { address: Self::mask(address, prefix), prefix }
    }

    /// The prefix length.
    pub fn prefix(&self) -> (r: u8)
        ensures
            r == self.spec_prefix(),
    {
        self.prefix
    }

    /// Whether `addr` falls inside this subnet: with its host bits cleared
    /// it is the subnet's network address.
    pub fn contains(&self, addr: IpAddress) -> (r: bool)
        requires
            valid_prefix(addr, self.spec_prefix()),
        ensures
            r == (spec_mask(addr, self.spec_prefix()) == self.spec_address()),
    {
        let masked = Self::mask(addr, self.prefix);
        match (masked, self.address) {
            (IpAddress::V4(a), IpAddress::V4(b)) => a == b,
            (IpAddress::V6(a), IpAddress::V6(b)) => a == b,
            _ => false,
        }
    }
}

/// A subnet contains the address it was made from: for every address and
/// valid prefix, `Subnet::new(addr, p).contains(addr)`.  `s` is what
/// [`Subnet::new`] ensures it returns; the conclusion is what
/// [`Subnet::contains`] ensures it tests.
pub proof fn lemma_new_contains_self(addr: IpAddress, prefix: u8, s: Subnet)
    requires
        valid_prefix(addr, prefix),
        s.spec_address() == spec_mask(addr, prefix),
        s.spec_prefix() == prefix,
    ensures
        spec_mask(addr, s.spec_prefix()) == s.spec_address(),
{
}

} // verus!
