use netgauze::addr::{Ipv4Addr, Ipv6Addr};
use netgauze::community::{Community, ExtendedCommunityIpv6, LargeCommunity};
use netgauze::nlri::{Ipv4Net, Ipv6Net, MplsLabel, RouteDistinguisher};

#[test]
fn test_ipv4_addr_from_u32() {
    let a = Ipv4Addr::from_u32(0xC0A80164);
    assert_eq!(a, Ipv4Addr::new(192, 168, 1, 100));
}

#[test]
fn test_ipv6_localhost_segments() {
    let a = Ipv6Addr::localhost();
    assert_eq!(a, Ipv6Addr::new(0, 0, 0, 0, 0, 0, 0, 1));
}

#[test]
fn test_prefix_length_bounds() {
    assert!(Ipv4Net::new(Ipv4Addr::new(10, 0, 0, 0), 8).is_some());
    assert!(Ipv4Net::new(Ipv4Addr::new(10, 0, 0, 0), 32).is_some());
    assert!(Ipv4Net::new(Ipv4Addr::new(10, 0, 0, 0), 33).is_none());
    assert!(Ipv6Net::new(Ipv6Addr::localhost(), 128).is_some());
    assert!(Ipv6Net::new(Ipv6Addr::localhost(), 129).is_none());
}

#[test]
fn test_mpls_label_bottom_of_stack() {
    assert!(MplsLabel::new(0x00, 0x01, 0x01).is_bottom());
    assert!(!MplsLabel::new(0x00, 0x01, 0x00).is_bottom());
}

#[test]
fn test_route_distinguisher_type_codes() {
    let rd2 = RouteDistinguisher::As2Administrator { asn2: 13, number: 34 };
    let rd_ip = RouteDistinguisher::Ipv4Administrator {
        ip: Ipv4Addr::new(10, 0, 0, 1),
        number: 7,
    };
    let rd4 = RouteDistinguisher::As4Administrator { asn4: 70000, number: 7 };
    assert_eq!(rd2.get_type(), 0);
    assert_eq!(rd_ip.get_type(), 1);
    assert_eq!(rd4.get_type(), 2);
}

#[test]
fn test_community_values() {
    assert_eq!(Community::new(0xFFFF_FF01).value(), 0xFFFF_FF01);
    let lc = LargeCommunity::new(1, 2, 3);
    assert_eq!(lc.global_admin, 1);
    assert_eq!(lc.local_data1, 2);
    assert_eq!(lc.local_data2, 3);
    let e6 = ExtendedCommunityIpv6::new(0x00, 0x02, Ipv6Addr::localhost(), 9);
    assert_eq!(e6.local_admin, 9);
}
