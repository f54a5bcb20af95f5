//! Subnets, address records, and the netlink message plans.

use keepldr::netlink::{
    address_from_parts, find_address, Address, Interface, AF_INET, AF_INET6, IFF_UP,
    IPVLAN_MODE_L3S, NLM_F_ACK, NLM_F_CREATE, NLM_F_EXCL, NLM_F_REQUEST, RTN_UNICAST,
};
use keepldr::subnet::{IpAddress, Subnet};

fn v4(a: u8, b: u8, c: u8, d: u8) -> IpAddress {
    IpAddress::V4(u32::from_be_bytes([a, b, c, d]))
}

#[test]
fn a_subnet_contains_the_address_it_was_made_from() {
    let addr = v4(192, 168, 1, 77);
    let subnet = Subnet::new(addr, 24);
    assert!(subnet.contains(addr));
    assert_eq!(subnet.prefix(), 24);

    let addr6 = IpAddress::V6(0x2001_0db8_0000_0000_0000_0000_0000_0001);
    let subnet6 = Subnet::new(addr6, 64);
    assert!(subnet6.contains(addr6));
}

#[test]
fn a_subnet_excludes_other_networks() {
    let subnet = Subnet::new(v4(192, 168, 1, 77), 24);
    assert!(subnet.contains(v4(192, 168, 1, 1)));
    assert!(subnet.contains(v4(192, 168, 1, 255)));
    assert!(!subnet.contains(v4(192, 168, 2, 1)));
    assert!(!subnet.contains(v4(10, 0, 0, 1)));
}

#[test]
fn single_host_and_wide_subnets() {
    let addr = v4(10, 1, 2, 3);
    let host = Subnet::new(addr, 32);
    assert!(host.contains(addr));
    assert!(!host.contains(v4(10, 1, 2, 4)));
    let wide = Subnet::new(addr, 1);
    assert!(wide.contains(v4(127, 255, 255, 255)));
    assert!(!wide.contains(v4(128, 0, 0, 1)));
}

#[test]
fn address_records_read_netlink_attributes() {
    let a = address_from_parts(3, AF_INET, &vec![192, 168, 1, 2], 24).unwrap();
    assert_eq!(a.interface_index(), 3);
    assert_eq!(a.address(), v4(192, 168, 1, 2));
    assert_eq!(a.subnet().prefix(), 24);
    assert!(a.subnet().contains(v4(192, 168, 1, 200)));

    let bytes6 = vec![0x20, 0x01, 0x0d, 0xb8, 0, 0, 0, 0, 0, 0, 0, 0, 0, 0, 0, 1];
    let a6 = address_from_parts(4, AF_INET6, &bytes6, 64).unwrap();
    assert_eq!(a6.address(), IpAddress::V6(0x2001_0db8_0000_0000_0000_0000_0000_0001));
}

#[test]
fn malformed_attributes_yield_nothing() {
    // Wrong length for the family.
    assert!(address_from_parts(1, AF_INET, &vec![1, 2, 3], 24).is_none());
    // Unknown family.
    assert!(address_from_parts(1, 7, &vec![1, 2, 3, 4], 24).is_none());
    // A prefix outside the family's range.
    assert!(address_from_parts(1, AF_INET, &vec![1, 2, 3, 4], 33).is_none());
    assert!(address_from_parts(1, AF_INET, &vec![1, 2, 3, 4], 0).is_none());
}

#[test]
fn find_address_picks_the_covering_interface() {
    let list = vec![
        Address::new(1, v4(10, 0, 0, 1), 8),
        Address::new(2, v4(192, 168, 1, 1), 24),
        Address::new(3, v4(192, 168, 2, 1), 24),
    ];
    let wanted = v4(192, 168, 1, 50);
    let found = find_address(&list, wanted).unwrap();
    assert_eq!(found.interface_index(), 2);
    // The address itself does not count as its own gateway.
    let own = find_address(&list, v4(192, 168, 1, 1));
    assert_eq!(own.map(|a| a.interface_index()), None);
    // Nothing covers a foreign network.
    assert!(find_address(&list, v4(172, 16, 0, 1)).is_none());
}

#[test]
fn interface_reads_the_first_link_name() {
    let i = Interface::from_link_names(7, vec!["eth0".to_owned(), "alt".to_owned()]).unwrap();
    assert_eq!(i.index(), 7);
    assert!(Interface::from_link_names(7, Vec::new()).is_err());
}

#[test]
fn add_address_plan_carries_the_octets() {
    let i = Interface::new(5, "eth0".to_owned());
    let plan = i.plan_add_address(&v4(192, 168, 1, 9), 24);
    assert_eq!(plan.flags, NLM_F_REQUEST | NLM_F_ACK | NLM_F_EXCL | NLM_F_CREATE);
    assert_eq!(plan.index, 5);
    assert_eq!(plan.family, AF_INET);
    assert_eq!(plan.prefix, 24);
    assert_eq!(plan.bytes, vec![192, 168, 1, 9]);

    let plan6 = i.plan_add_address(&IpAddress::V6(1), 64);
    assert_eq!(plan6.family, AF_INET6);
    assert_eq!(plan6.bytes.len(), 16);
    assert_eq!(plan6.bytes[15], 1);
}

#[test]
fn ipvlan_plan_rides_the_parent_link() {
    let i = Interface::new(5, "eth0".to_owned());
    let plan = i.plan_add_ipvlan("ipvl0");
    assert_eq!(plan.flags, NLM_F_REQUEST | NLM_F_ACK | NLM_F_EXCL | NLM_F_CREATE);
    assert_eq!(plan.link, 5);
    assert_eq!(plan.alias, "ipvl0");
    assert_eq!(plan.mode, IPVLAN_MODE_L3S);
    assert_eq!(plan.mode_flags, 0);
}

#[test]
fn namespace_up_and_gateway_plans() {
    let i = Interface::new(9, "ipvl0".to_owned());
    let ns = i.plan_move_to_namespace(42);
    assert_eq!(ns.flags, NLM_F_REQUEST | NLM_F_ACK);
    assert_eq!(ns.index, 9);
    assert_eq!(ns.nsfd, 42);

    let up = i.plan_up();
    assert_eq!(up.flags, NLM_F_REQUEST | NLM_F_ACK);
    assert_eq!(up.link_flags, IFF_UP);

    let gw = i.plan_add_gateway(&v4(192, 168, 1, 1));
    assert_eq!(gw.kind, RTN_UNICAST);
    assert_eq!(gw.family, AF_INET);
    assert_eq!(gw.gateway, vec![192, 168, 1, 1]);
    assert_eq!(gw.oif, 9);
}
