use netgauze::addr::{IpAddr, Ipv4Addr, Ipv6Addr};
use netgauze::iana::{AddressFamily, AddressType, SubsequentAddressFamily};
use netgauze::nlri::{LabeledIpv4NextHop, LabeledNextHop, RouteDistinguisher};
use netgauze::path_attribute::{
    Aggregator, As2PathSegment, As4Path, As4PathSegment, AsPath, AsPathSegmentType,
    LocalPreference, MpReach, MpUnreach, MultiExitDiscriminator, NextHop, OnlyToCustomer, Origin,
    PathAttributeValueProperties, UndefinedAsPathSegmentType, UndefinedOrigin,
};
use netgauze::iana::PathAttributeType;
use netgauze::path_attribute::{PathAttributeValue, UnknownAttribute};

#[test]
fn test_origin() {
    let undefined_code = 255;
    let defined_code = 0;
    let defined_ret = Origin::try_from(defined_code);
    let undefined_ret = Origin::try_from(undefined_code);
    let defined_u8: u8 = Origin::IGP.into();
    assert_eq!(defined_ret, Ok(Origin::IGP));
    assert_eq!(undefined_ret, Err(UndefinedOrigin(undefined_code)));
    assert_eq!(defined_u8, defined_code);
}

#[test]
fn test_as_segment_type() {
    let undefined_code = 255;
    let defined_code = 1;
    let defined_ret = AsPathSegmentType::try_from(defined_code);
    let undefined_ret = AsPathSegmentType::try_from(undefined_code);
    let defined_u8: u8 = AsPathSegmentType::AsSet.into();
    assert_eq!(defined_ret, Ok(AsPathSegmentType::AsSet));
    assert_eq!(
        undefined_ret,
        Err(UndefinedAsPathSegmentType(undefined_code))
    );
    assert_eq!(defined_u8, defined_code);
}

#[test]
fn test_path_attributes_well_known_mandatory() {
    assert!(!Origin::can_be_optional().unwrap_or(false));
    assert!(Origin::can_be_transitive().unwrap_or(false));
    assert!(!AsPath::can_be_optional().unwrap_or(false));
    assert!(AsPath::can_be_transitive().unwrap_or(false));
    assert!(!NextHop::can_be_optional().unwrap_or(false));
    assert!(NextHop::can_be_transitive().unwrap_or(false));
    assert!(!LocalPreference::can_be_optional().unwrap_or(false));
    assert!(LocalPreference::can_be_transitive().unwrap_or(false));
}

#[test]
fn test_path_attributes_well_known_discretionary() {
    assert!(MultiExitDiscriminator::can_be_optional().unwrap_or(false));
    assert!(!MultiExitDiscriminator::can_be_transitive().unwrap_or(false));
}

#[test]
fn test_path_attributes_optional() {
    assert!(As4Path::can_be_optional().unwrap_or(false));
    assert!(As4Path::can_be_transitive().unwrap_or(false));
    assert!(Aggregator::can_be_optional().unwrap_or(false));
    assert!(Aggregator::can_be_transitive().unwrap_or(false));
    assert!(MpReach::can_be_optional().unwrap_or(false));
    assert!(!MpReach::can_be_transitive().unwrap_or(false));
    assert!(OnlyToCustomer::can_be_optional().unwrap_or(false));
    assert!(OnlyToCustomer::can_be_transitive().unwrap_or(false));
}

#[test]
fn test_as_path_to_vec() {
    let as2_path = AsPath::As2PathSegments(vec![
        As2PathSegment::new(AsPathSegmentType::AsSequence, vec![100, 200]),
        As2PathSegment::new(AsPathSegmentType::AsSet, vec![300, 400]),
    ]);
    let as4_path = AsPath::As4PathSegments(vec![
        As4PathSegment::new(AsPathSegmentType::AsSequence, vec![100000, 200000]),
        As4PathSegment::new(AsPathSegmentType::AsSet, vec![300000, 400000]),
    ]);

    assert_eq!(Vec::<u32>::from(as2_path), vec![100, 200, 300, 400]);
    assert_eq!(
        Vec::<u32>::from(as4_path),
        vec![100000, 200000, 300000, 400000]
    );
}

#[test]
fn test_mp_reach_address() {
    let ipv4_unicast = MpReach::Ipv4Unicast {
        next_hop: IpAddr::V4(Ipv4Addr::new(192, 168, 1, 1)),
        next_hop_local: None,
        nlri: vec![],
    };
    let ipv4_multicast = MpReach::Ipv4Multicast {
        next_hop: IpAddr::V4(Ipv4Addr::new(192, 168, 1, 1)),
        next_hop_local: None,
        nlri: vec![],
    };
    let ipv4_nlri_mpls_labels = MpReach::Ipv4NlriMplsLabels {
        next_hop: IpAddr::V4(Ipv4Addr::new(192, 168, 1, 1)),
        next_hop_local: None,
        nlri: vec![],
    };
    let ipv4_mpls_vpn_unicast = MpReach::Ipv4MplsVpnUnicast {
        next_hop: LabeledNextHop::Ipv4(LabeledIpv4NextHop::new(
            RouteDistinguisher::As2Administrator {
                asn2: 13,
                number: 34,
            },
            Ipv4Addr::new(192, 168, 1, 1),
        )),
        nlri: vec![],
    };

    let ipv6_unicast = MpReach::Ipv6Unicast {
        next_hop_global: Ipv6Addr::localhost(),
        next_hop_local: None,
        nlri: vec![],
    };
    let ipv6_multicast = MpReach::Ipv6Multicast {
        next_hop_global: Ipv6Addr::localhost(),
        next_hop_local: None,
        nlri: vec![],
    };
    let ipv6_nlri_mpls_labels = MpReach::Ipv6NlriMplsLabels {
        next_hop: IpAddr::V4(Ipv4Addr::new(192, 168, 1, 1)),
        next_hop_local: None,
        nlri: vec![],
    };
    let ipv6_mpls_vpn_unicast = MpReach::Ipv6MplsVpnUnicast {
        next_hop: LabeledNextHop::Ipv4(LabeledIpv4NextHop::new(
            RouteDistinguisher::As2Administrator {
                asn2: 13,
                number: 34,
            },
            Ipv4Addr::new(192, 168, 1, 1),
        )),
        nlri: vec![],
    };

    let l2_evpn = MpReach::L2Evpn {
        next_hop: IpAddr::V4(Ipv4Addr::new(192, 168, 1, 1)),
        nlri: vec![],
    };
    let rt = MpReach::RouteTargetMembership {
        next_hop: IpAddr::V4(Ipv4Addr::new(192, 168, 1, 1)),
        nlri: vec![],
    };
    let bgp_ls = MpReach::BgpLs {
        next_hop: IpAddr::V4(Ipv4Addr::new(192, 168, 1, 1)),
        nlri: vec![],
    };
    let bgp_ls_vpn = MpReach::BgpLsVpn {
        next_hop: LabeledNextHop::Ipv4(LabeledIpv4NextHop::new(
            RouteDistinguisher::As2Administrator {
                asn2: 13,
                number: 34,
            },
            Ipv4Addr::new(192, 168, 1, 1),
        )),
        nlri: vec![],
    };
    let unknown = MpReach::Unknown {
        afi: AddressFamily::AppleTalk,
        safi: SubsequentAddressFamily::Unicast,
        value: vec![],
    };

    assert_eq!(ipv4_unicast.address_type(), Ok(AddressType::Ipv4Unicast));
    assert_eq!(ipv4_unicast.afi(), AddressType::Ipv4Unicast.address_family());
    assert_eq!(
        ipv4_unicast.safi(),
        AddressType::Ipv4Unicast.subsequent_address_family()
    );

    assert_eq!(ipv4_multicast.address_type(), Ok(AddressType::Ipv4Multicast));
    assert_eq!(
        ipv4_multicast.afi(),
        AddressType::Ipv4Multicast.address_family()
    );
    assert_eq!(
        ipv4_multicast.safi(),
        AddressType::Ipv4Multicast.subsequent_address_family()
    );

    assert_eq!(
        ipv4_nlri_mpls_labels.address_type(),
        Ok(AddressType::Ipv4NlriMplsLabels)
    );
    assert_eq!(
        ipv4_nlri_mpls_labels.afi(),
        AddressType::Ipv4NlriMplsLabels.address_family()
    );
    assert_eq!(
        ipv4_nlri_mpls_labels.safi(),
        AddressType::Ipv4NlriMplsLabels.subsequent_address_family()
    );

    assert_eq!(
        ipv4_mpls_vpn_unicast.address_type(),
        Ok(AddressType::Ipv4MplsLabeledVpn)
    );
    assert_eq!(
        ipv4_mpls_vpn_unicast.afi(),
        AddressType::Ipv4MplsLabeledVpn.address_family()
    );
    assert_eq!(
        ipv4_mpls_vpn_unicast.safi(),
        AddressType::Ipv4MplsLabeledVpn.subsequent_address_family()
    );

    assert_eq!(ipv6_unicast.address_type(), Ok(AddressType::Ipv6Unicast));
    assert_eq!(ipv6_unicast.afi(), AddressType::Ipv6Unicast.address_family());
    assert_eq!(
        ipv6_unicast.safi(),
        AddressType::Ipv6Unicast.subsequent_address_family()
    );

    assert_eq!(ipv6_multicast.address_type(), Ok(AddressType::Ipv6Multicast));
    assert_eq!(
        ipv6_multicast.afi(),
        AddressType::Ipv6Multicast.address_family()
    );
    assert_eq!(
        ipv6_multicast.safi(),
        AddressType::Ipv6Multicast.subsequent_address_family()
    );

    assert_eq!(
        ipv6_nlri_mpls_labels.address_type(),
        Ok(AddressType::Ipv6NlriMplsLabels)
    );
    assert_eq!(
        ipv6_nlri_mpls_labels.afi(),
        AddressType::Ipv6NlriMplsLabels.address_family()
    );
    assert_eq!(
        ipv6_nlri_mpls_labels.safi(),
        AddressType::Ipv6NlriMplsLabels.subsequent_address_family()
    );

    assert_eq!(
        ipv6_mpls_vpn_unicast.address_type(),
        Ok(AddressType::Ipv6MplsLabeledVpn)
    );
    assert_eq!(
        ipv6_mpls_vpn_unicast.afi(),
        AddressType::Ipv6MplsLabeledVpn.address_family()
    );
    assert_eq!(
        ipv6_mpls_vpn_unicast.safi(),
        AddressType::Ipv6MplsLabeledVpn.subsequent_address_family()
    );

    assert_eq!(l2_evpn.address_type(), Ok(AddressType::L2VpnBgpEvpn));
    assert_eq!(l2_evpn.afi(), AddressType::L2VpnBgpEvpn.address_family());
    assert_eq!(
        l2_evpn.safi(),
        AddressType::L2VpnBgpEvpn.subsequent_address_family()
    );

    assert_eq!(rt.address_type(), Ok(AddressType::RouteTargetConstrains));
    assert_eq!(rt.afi(), AddressType::RouteTargetConstrains.address_family());
    assert_eq!(
        rt.safi(),
        AddressType::RouteTargetConstrains.subsequent_address_family()
    );

    assert_eq!(bgp_ls.address_type(), Ok(AddressType::BgpLs));
    assert_eq!(bgp_ls.afi(), AddressType::BgpLs.address_family());
    assert_eq!(bgp_ls.safi(), AddressType::BgpLs.subsequent_address_family());

    assert_eq!(bgp_ls_vpn.address_type(), Ok(AddressType::BgpLsVpn));
    assert_eq!(bgp_ls_vpn.afi(), AddressType::BgpLsVpn.address_family());
    assert_eq!(
        bgp_ls_vpn.safi(),
        AddressType::BgpLsVpn.subsequent_address_family()
    );

    assert_eq!(
        unknown.address_type(),
        Err((AddressFamily::AppleTalk, SubsequentAddressFamily::Unicast))
    );
    assert_eq!(unknown.afi(), AddressFamily::AppleTalk);
    assert_eq!(unknown.safi(), SubsequentAddressFamily::Unicast);
}

#[test]
fn test_mp_unreach_address() {
    let ipv4_unicast = MpUnreach::Ipv4Unicast { nlri: vec![] };
    let ipv4_multicast = MpUnreach::Ipv4Multicast { nlri: vec![] };
    let ipv4_nlri_mpls_labels = MpUnreach::Ipv4NlriMplsLabels { nlri: vec![] };
    let ipv4_mpls_vpn_unicast = MpUnreach::Ipv4MplsVpnUnicast { nlri: vec![] };

    let ipv6_unicast = MpUnreach::Ipv6Unicast { nlri: vec![] };
    let ipv6_multicast = MpUnreach::Ipv6Multicast { nlri: vec![] };
    let ipv6_nlri_mpls_labels = MpUnreach::Ipv6NlriMplsLabels { nlri: vec![] };
    let ipv6_mpls_vpn_unicast = MpUnreach::Ipv6MplsVpnUnicast { nlri: vec![] };

    let l2_evpn = MpUnreach::L2Evpn { nlri: vec![] };
    let rt = MpUnreach::RouteTargetMembership { nlri: vec![] };
    let bgp_ls = MpUnreach::BgpLs { nlri: vec![] };
    let bgp_ls_vpn = MpUnreach::BgpLsVpn { nlri: vec![] };
    let unknown = MpUnreach::Unknown {
        afi: AddressFamily::AppleTalk,
        safi: SubsequentAddressFamily::Unicast,
        nlri: vec![],
    };

    assert_eq!(ipv4_unicast.address_type(), Ok(AddressType::Ipv4Unicast));
    assert_eq!(ipv4_unicast.afi(), AddressType::Ipv4Unicast.address_family());
    assert_eq!(
        ipv4_unicast.safi(),
        AddressType::Ipv4Unicast.subsequent_address_family()
    );

    assert_eq!(ipv4_multicast.address_type(), Ok(AddressType::Ipv4Multicast));
    assert_eq!(
        ipv4_multicast.afi(),
        AddressType::Ipv4Multicast.address_family()
    );
    assert_eq!(
        ipv4_multicast.safi(),
        AddressType::Ipv4Multicast.subsequent_address_family()
    );

    assert_eq!(
        ipv4_nlri_mpls_labels.address_type(),
        Ok(AddressType::Ipv4NlriMplsLabels)
    );
    assert_eq!(
        ipv4_nlri_mpls_labels.afi(),
        AddressType::Ipv4NlriMplsLabels.address_family()
    );
    assert_eq!(
        ipv4_nlri_mpls_labels.safi(),
        AddressType::Ipv4NlriMplsLabels.subsequent_address_family()
    );

    assert_eq!(
        ipv4_mpls_vpn_unicast.address_type(),
        Ok(AddressType::Ipv4MplsLabeledVpn)
    );
    assert_eq!(
        ipv4_mpls_vpn_unicast.afi(),
        AddressType::Ipv4MplsLabeledVpn.address_family()
    );
    assert_eq!(
        ipv4_mpls_vpn_unicast.safi(),
        AddressType::Ipv4MplsLabeledVpn.subsequent_address_family()
    );

    assert_eq!(ipv6_unicast.address_type(), Ok(AddressType::Ipv6Unicast));
    assert_eq!(ipv6_unicast.afi(), AddressType::Ipv6Unicast.address_family());
    assert_eq!(
        ipv6_unicast.safi(),
        AddressType::Ipv6Unicast.subsequent_address_family()
    );

    assert_eq!(ipv6_multicast.address_type(), Ok(AddressType::Ipv6Multicast));
    assert_eq!(
        ipv6_multicast.afi(),
        AddressType::Ipv6Multicast.address_family()
    );
    assert_eq!(
        ipv6_multicast.safi(),
        AddressType::Ipv6Multicast.subsequent_address_family()
    );

    assert_eq!(
        ipv6_nlri_mpls_labels.address_type(),
        Ok(AddressType::Ipv6NlriMplsLabels)
    );
    assert_eq!(
        ipv6_nlri_mpls_labels.afi(),
        AddressType::Ipv6NlriMplsLabels.address_family()
    );
    assert_eq!(
        ipv6_nlri_mpls_labels.safi(),
        AddressType::Ipv6NlriMplsLabels.subsequent_address_family()
    );

    assert_eq!(
        ipv6_mpls_vpn_unicast.address_type(),
        Ok(AddressType::Ipv6MplsLabeledVpn)
    );
    assert_eq!(
        ipv6_mpls_vpn_unicast.afi(),
        AddressType::Ipv6MplsLabeledVpn.address_family()
    );
    assert_eq!(
        ipv6_mpls_vpn_unicast.safi(),
        AddressType::Ipv6MplsLabeledVpn.subsequent_address_family()
    );

    assert_eq!(l2_evpn.address_type(), Ok(AddressType::L2VpnBgpEvpn));
    assert_eq!(l2_evpn.afi(), AddressType::L2VpnBgpEvpn.address_family());
    assert_eq!(
        l2_evpn.safi(),
        AddressType::L2VpnBgpEvpn.subsequent_address_family()
    );

    assert_eq!(rt.address_type(), Ok(AddressType::RouteTargetConstrains));
    assert_eq!(rt.afi(), AddressType::RouteTargetConstrains.address_family());
    assert_eq!(
        rt.safi(),
        AddressType::RouteTargetConstrains.subsequent_address_family()
    );

    assert_eq!(bgp_ls.address_type(), Ok(AddressType::BgpLs));
    assert_eq!(bgp_ls.afi(), AddressType::BgpLs.address_family());
    assert_eq!(bgp_ls.safi(), AddressType::BgpLs.subsequent_address_family());

    assert_eq!(bgp_ls_vpn.address_type(), Ok(AddressType::BgpLsVpn));
    assert_eq!(bgp_ls_vpn.afi(), AddressType::BgpLsVpn.address_family());
    assert_eq!(
        bgp_ls_vpn.safi(),
        AddressType::BgpLsVpn.subsequent_address_family()
    );

    assert_eq!(
        unknown.address_type(),
        Err((AddressFamily::AppleTalk, SubsequentAddressFamily::Unicast))
    );
    assert_eq!(unknown.afi(), AddressFamily::AppleTalk);
    assert_eq!(unknown.safi(), SubsequentAddressFamily::Unicast);
}

#[test]
fn test_path_attribute_type_codes() {
    assert_eq!(PathAttributeType::Origin.code(), 1);
    assert_eq!(PathAttributeType::AsPath.code(), 2);
    assert_eq!(PathAttributeType::MpReachNlri.code(), 14);
    assert_eq!(PathAttributeType::LargeCommunities.code(), 32);
    assert_eq!(PathAttributeType::try_from(1), Ok(PathAttributeType::Origin));
    assert_eq!(PathAttributeType::try_from(99), Err(99));
}

#[test]
fn test_attribute_type_of_values() {
    assert_eq!(
        PathAttributeValue::Origin(Origin::IGP).path_attribute_type(),
        Ok(PathAttributeType::Origin)
    );
    assert_eq!(
        PathAttributeValue::UnknownAttribute(UnknownAttribute::new(200, vec![1])).path_attribute_type(),
        Err(200)
    );
}
