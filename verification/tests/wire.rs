use netgauze::addr::Ipv4Addr;
use netgauze::deserializer::{
    check_length, parse_path_attribute, OriginParsingError, PathAttributeParsingError,
};
use netgauze::iana::AddressType;
use netgauze::message::{BgpCapability, BgpMessage, BgpNotificationMessage, BgpOpenMessage};
use netgauze::path_attribute::{
    Aggregator, As2PathSegment, As4Aggregator, AsPath, AsPathSegmentType, InvalidPathAttribute,
    LocalPreference, MultiExitDiscriminator, NextHop, Origin, PathAttribute, PathAttributeLength,
    PathAttributeValue,
};
use netgauze::serializer::{round_len, write_path_attribute};
use netgauze::community::Community;
use netgauze::community::ExtendedCommunity;
use netgauze::community::LargeCommunity;
use netgauze::path_attribute::Aigp;
use netgauze::path_attribute::Communities;
use netgauze::path_attribute::ExtendedCommunities;
use netgauze::path_attribute::LargeCommunities;
use netgauze::path_attribute::MpUnreach;
use netgauze::path_attribute::OnlyToCustomer;
use netgauze::path_attribute::{ClusterId, ClusterList};
use netgauze::serializer::path_attribute_len;

#[test]
fn test_round_len() {
    assert_eq!(round_len(0), 0);
    assert_eq!(round_len(1), 1);
    assert_eq!(round_len(8), 1);
    assert_eq!(round_len(9), 2);
    assert_eq!(round_len(24), 3);
    assert_eq!(round_len(25), 4);
    assert_eq!(round_len(32), 4);
}

#[test]
fn test_check_length() {
    assert!(check_length(PathAttributeLength::U8(1), 1));
    assert!(check_length(PathAttributeLength::U16(1), 1));
    assert!(!check_length(PathAttributeLength::U8(2), 1));
    assert!(!check_length(PathAttributeLength::U16(300), 1));
}

#[test]
fn test_flag_matrix_rejects() {
    // ORIGIN is well-known: optional must be false, transitive true,
    // partial false.
    let r = PathAttribute::from(true, true, false, false, PathAttributeValue::Origin(Origin::IGP));
    assert_eq!(
        r,
        Err((
            PathAttributeValue::Origin(Origin::IGP),
            InvalidPathAttribute::InvalidOptionalFlagValue(true)
        ))
    );
    let r = PathAttribute::from(false, false, false, false, PathAttributeValue::Origin(Origin::IGP));
    assert_eq!(
        r,
        Err((
            PathAttributeValue::Origin(Origin::IGP),
            InvalidPathAttribute::InvalidTransitiveFlagValue(false)
        ))
    );
    let r = PathAttribute::from(false, true, true, false, PathAttributeValue::Origin(Origin::IGP));
    assert_eq!(
        r,
        Err((
            PathAttributeValue::Origin(Origin::IGP),
            InvalidPathAttribute::InvalidPartialFlagValue(true)
        ))
    );
    let r = PathAttribute::from(false, true, false, false, PathAttributeValue::Origin(Origin::IGP));
    assert!(r.is_ok());
    // MED is optional non-transitive.
    let r = PathAttribute::from(
        true,
        false,
        false,
        false,
        PathAttributeValue::MultiExitDiscriminator(MultiExitDiscriminator::new(5)),
    );
    assert!(r.is_ok());
}

fn encode_attribute(attr: &PathAttribute) -> Vec<u8> {
    let mut out = Vec::new();
    write_path_attribute(attr, &mut out).unwrap();
    out
}

#[test]
fn test_origin_attribute_round_trip() {
    let attr = PathAttribute::from(false, true, false, false, PathAttributeValue::Origin(Origin::EGP))
        .unwrap();
    let wire = encode_attribute(&attr);
    assert_eq!(wire, vec![0x40, 0x01, 0x01, 0x01]);
    let (decoded, end) = parse_path_attribute(&wire, 0, false).unwrap();
    assert_eq!(end, wire.len());
    assert_eq!(decoded, attr);
}

#[test]
fn test_as_path_attribute_round_trip() {
    let path = AsPath::As2PathSegments(vec![As2PathSegment::new(
        AsPathSegmentType::AsSequence,
        vec![64512, 64513],
    )]);
    let attr =
        PathAttribute::from(false, true, false, false, PathAttributeValue::AsPath(path)).unwrap();
    let wire = encode_attribute(&attr);
    assert_eq!(
        wire,
        vec![0x40, 0x02, 0x06, 0x02, 0x02, 0xFC, 0x00, 0xFC, 0x01]
    );
    let (decoded, end) = parse_path_attribute(&wire, 0, false).unwrap();
    assert_eq!(end, wire.len());
    assert_eq!(decoded, attr);
}

#[test]
fn test_aggregator_attribute_round_trip_asn4() {
    let attr = PathAttribute::from(
        true,
        true,
        false,
        false,
        PathAttributeValue::Aggregator(Aggregator::As4Aggregator(As4Aggregator::new(
            65550,
            Ipv4Addr::new(10, 0, 0, 1),
        ))),
    )
    .unwrap();
    let wire = encode_attribute(&attr);
    assert_eq!(
        wire,
        vec![0xC0, 0x07, 0x08, 0x00, 0x01, 0x00, 0x0E, 10, 0, 0, 1]
    );
    let (decoded, end) = parse_path_attribute(&wire, 0, true).unwrap();
    assert_eq!(end, wire.len());
    assert_eq!(decoded, attr);
}

#[test]
fn test_local_pref_extended_length_round_trip() {
    let attr = PathAttribute::from(
        false,
        true,
        false,
        true,
        PathAttributeValue::LocalPreference(LocalPreference::new(300)),
    )
    .unwrap();
    let wire = encode_attribute(&attr);
    assert_eq!(wire, vec![0x50, 0x05, 0x00, 0x04, 0x00, 0x00, 0x01, 0x2C]);
    let (decoded, end) = parse_path_attribute(&wire, 0, false).unwrap();
    assert_eq!(end, wire.len());
    assert_eq!(decoded, attr);
}

#[test]
fn test_unknown_attribute_preserved() {
    // Type code 99 is unassigned: the raw value must survive decode and
    // re-encode, whatever the flags say.
    let wire = vec![0xE0, 99, 0x03, 0xAA, 0xBB, 0xCC];
    let (decoded, end) = parse_path_attribute(&wire, 0, false).unwrap();
    assert_eq!(end, wire.len());
    match decoded.value() {
        PathAttributeValue::UnknownAttribute(u) => {
            assert_eq!(u.code(), 99);
            assert_eq!(u.value(), &vec![0xAA, 0xBB, 0xCC]);
        }
        other => panic!("expected an unknown attribute, got {other:?}"),
    }
    assert_eq!(encode_attribute(&decoded), wire);
}

#[test]
fn test_decoder_rejects_bad_flags() {
    // ORIGIN with the optional bit set violates the well-known matrix.
    let wire = vec![0xC0, 0x01, 0x01, 0x00];
    let err = parse_path_attribute(&wire, 0, false).unwrap_err();
    assert_eq!(
        *err.error(),
        PathAttributeParsingError::InvalidPathAttribute(
            InvalidPathAttribute::InvalidOptionalFlagValue(true)
        )
    );
}

#[test]
fn test_decoder_rejects_undefined_origin() {
    let wire = vec![0x40, 0x01, 0x01, 0x07];
    let err = parse_path_attribute(&wire, 0, false).unwrap_err();
    assert_eq!(err.span(), 3);
    match err.error() {
        PathAttributeParsingError::OriginError(OriginParsingError::UndefinedOrigin(u)) => {
            assert_eq!(u.0, 7);
        }
        other => panic!("expected an undefined origin error, got {other:?}"),
    }
}

#[test]
fn test_decoder_rejects_bad_origin_length() {
    let wire = vec![0x40, 0x01, 0x02, 0x00, 0x00];
    let err = parse_path_attribute(&wire, 0, false).unwrap_err();
    assert!(matches!(
        err.error(),
        PathAttributeParsingError::OriginError(OriginParsingError::InvalidOriginLength(
            PathAttributeLength::U8(2)
        ))
    ));
}

#[test]
fn test_decoder_rejects_truncated_attribute() {
    let wire = vec![0x40, 0x02, 0x06, 0x02];
    let err = parse_path_attribute(&wire, 0, false).unwrap_err();
    assert!(matches!(
        err.error(),
        PathAttributeParsingError::AsPathError(_)
    ));
}

#[test]
fn test_keepalive_message_write() {
    let msg = BgpMessage::KeepAlive;
    let mut out = Vec::new();
    msg.write(&mut out).unwrap();
    let mut expected = vec![0xFF; 16];
    expected.extend_from_slice(&[0x00, 0x13, 0x04]);
    assert_eq!(out, expected);
    assert_eq!(msg.len(), 19);
}

#[test]
fn test_notification_message_write() {
    let msg = BgpMessage::Notification(BgpNotificationMessage {
        code: 4,
        sub_code: 0,
        value: vec![],
    });
    let mut out = Vec::new();
    msg.write(&mut out).unwrap();
    let mut expected = vec![0xFF; 16];
    expected.extend_from_slice(&[0x00, 0x15, 0x03, 0x04, 0x00]);
    assert_eq!(out, expected);
}

#[test]
fn test_open_message_with_asn4_capability() {
    let open = BgpOpenMessage::new(
        4,
        64512,
        180,
        Ipv4Addr::new(10, 0, 0, 1),
        vec![
            BgpCapability::MultiProtocolExtensions(AddressType::Ipv4Unicast),
            BgpCapability::FourOctetAs(64512),
        ],
    );
    assert!(open.asn4_enabled());
    let msg = BgpMessage::Open(open);
    let mut out = Vec::new();
    msg.write(&mut out).unwrap();
    let mut expected = vec![0xFF; 16];
    expected.extend_from_slice(&[0x00, 0x2D, 0x01]);
    expected.extend_from_slice(&[0x04, 0xFC, 0x00, 0x00, 0xB4, 10, 0, 0, 1, 0x10]);
    expected.extend_from_slice(&[0x02, 0x06, 0x01, 0x04, 0x00, 0x01, 0x00, 0x01]);
    expected.extend_from_slice(&[0x02, 0x06, 0x41, 0x04, 0x00, 0x00, 0xFC, 0x00]);
    assert_eq!(out, expected);
    assert_eq!(msg.len(), expected.len());
}

#[test]
fn test_open_without_asn4_capability() {
    let open = BgpOpenMessage::new(
        4,
        64512,
        180,
        Ipv4Addr::new(10, 0, 0, 1),
        vec![BgpCapability::RouteRefresh],
    );
    assert!(!open.asn4_enabled());
}

#[test]
fn test_next_hop_attribute_round_trip() {
    let attr = PathAttribute::from(
        false,
        true,
        false,
        false,
        PathAttributeValue::NextHop(NextHop::new(Ipv4Addr::new(192, 0, 2, 1))),
    )
    .unwrap();
    let wire = encode_attribute(&attr);
    assert_eq!(wire, vec![0x40, 0x03, 0x04, 192, 0, 2, 1]);
    let (decoded, end) = parse_path_attribute(&wire, 0, false).unwrap();
    assert_eq!(end, wire.len());
    assert_eq!(decoded, attr);
}

#[test]
fn test_asn4_context_selects_four_octet_segments() {
    // After an OPEN carrying the four-octet AS capability, AS_PATH decodes
    // as four-octet segments.
    let open = BgpOpenMessage::new(
        4,
        23456,
        180,
        Ipv4Addr::new(10, 0, 0, 2),
        vec![BgpCapability::FourOctetAs(655400)],
    );
    let asn4 = open.asn4_enabled();
    assert!(asn4);
    let wire = vec![
        0x40, 0x02, 0x0A, 0x02, 0x02, 0x00, 0x03, 0x01, 0x03, 0x02, 0x01, 0x04, 0x04,
    ];
    let (decoded, _) = parse_path_attribute(&wire, 0, asn4).unwrap();
    match decoded.value() {
        PathAttributeValue::AsPath(AsPath::As4PathSegments(segs)) => {
            assert_eq!(segs.len(), 1);
            assert_eq!(segs[0].as_numbers, vec![0x0003_0103, 0x0201_0404]);
        }
        other => panic!("expected four-octet segments, got {other:?}"),
    }
    // Without the capability, the same octets decode as two-octet
    // segments.
    let (decoded, _) = parse_path_attribute(&wire, 0, false).unwrap();
    match decoded.value() {
        PathAttributeValue::AsPath(AsPath::As2PathSegments(segs)) => {
            assert_eq!(segs.len(), 2);
            assert_eq!(segs[0].as_numbers, vec![0x0003, 0x0103]);
            assert_eq!(segs[1].as_numbers, vec![0x0404]);
        }
        other => panic!("expected two-octet segments, got {other:?}"),
    }
}


#[test]
fn test_communities_round_trip() {
    let attr = PathAttribute::from(
        true,
        true,
        false,
        false,
        PathAttributeValue::Communities(Communities::new(vec![
            Community::new(0xFFFF0001),
            Community::new(0x00640005),
        ])),
    )
    .unwrap();
    let wire = encode_attribute(&attr);
    assert_eq!(
        wire,
        vec![0xC0, 0x08, 0x08, 0xFF, 0xFF, 0x00, 0x01, 0x00, 0x64, 0x00, 0x05]
    );
    let (decoded, end) = parse_path_attribute(&wire, 0, false).unwrap();
    assert_eq!(end, wire.len());
    assert_eq!(decoded, attr);
}

#[test]
fn test_large_communities_round_trip() {
    let attr = PathAttribute::from(
        true,
        true,
        false,
        false,
        PathAttributeValue::LargeCommunities(LargeCommunities::new(vec![LargeCommunity::new(
            64512, 7, 9,
        )])),
    )
    .unwrap();
    let wire = encode_attribute(&attr);
    assert_eq!(
        wire,
        vec![0xC0, 0x20, 0x0C, 0x00, 0x00, 0xFC, 0x00, 0, 0, 0, 7, 0, 0, 0, 9]
    );
    let (decoded, end) = parse_path_attribute(&wire, 0, false).unwrap();
    assert_eq!(end, wire.len());
    assert_eq!(decoded, attr);
}

#[test]
fn test_extended_communities_round_trip() {
    let c = ExtendedCommunity::new(0x00, 0x02, 0x0000FC0000000064).unwrap();
    let attr = PathAttribute::from(
        true,
        true,
        false,
        false,
        PathAttributeValue::ExtendedCommunities(ExtendedCommunities::new(vec![c])),
    )
    .unwrap();
    let wire = encode_attribute(&attr);
    assert_eq!(
        wire,
        vec![0xC0, 0x10, 0x08, 0x00, 0x02, 0xFC, 0x00, 0x00, 0x00, 0x00, 0x64]
    );
    let (decoded, end) = parse_path_attribute(&wire, 0, false).unwrap();
    assert_eq!(end, wire.len());
    assert_eq!(decoded, attr);
}

#[test]
fn test_extended_community_rejects_wide_value() {
    assert_eq!(
        ExtendedCommunity::new(0, 2, 0x0001_0000_0000_0000),
        Err(0x0001_0000_0000_0000)
    );
}

#[test]
fn test_cluster_list_round_trip() {
    let attr = PathAttribute::from(
        true,
        false,
        false,
        false,
        PathAttributeValue::ClusterList(ClusterList::new(vec![
            ClusterId::new(Ipv4Addr::new(10, 0, 0, 1)),
            ClusterId::new(Ipv4Addr::new(10, 0, 0, 2)),
        ])),
    )
    .unwrap();
    let wire = encode_attribute(&attr);
    assert_eq!(wire, vec![0x80, 0x0A, 0x08, 10, 0, 0, 1, 10, 0, 0, 2]);
    let (decoded, end) = parse_path_attribute(&wire, 0, false).unwrap();
    assert_eq!(end, wire.len());
    assert_eq!(decoded, attr);
}

#[test]
fn test_aigp_round_trip() {
    let attr = PathAttribute::from(
        true,
        false,
        false,
        false,
        PathAttributeValue::Aigp(Aigp::AccumulatedIgpMetric(0x0102030405060708)),
    )
    .unwrap();
    let wire = encode_attribute(&attr);
    assert_eq!(
        wire,
        vec![0x80, 0x1A, 0x0B, 0x01, 0x00, 0x0B, 1, 2, 3, 4, 5, 6, 7, 8]
    );
    let (decoded, end) = parse_path_attribute(&wire, 0, false).unwrap();
    assert_eq!(end, wire.len());
    assert_eq!(decoded, attr);
}

#[test]
fn test_aigp_rejects_wrong_tlv_type() {
    let wire = vec![0x80, 0x1A, 0x0B, 0x02, 0x00, 0x0B, 1, 2, 3, 4, 5, 6, 7, 8];
    let err = parse_path_attribute(&wire, 0, false).unwrap_err();
    assert_eq!(
        *err.error(),
        PathAttributeParsingError::InvalidAigpTlv { tlv_type: 2 }
    );
}

#[test]
fn test_only_to_customer_round_trip() {
    let attr = PathAttribute::from(
        true,
        true,
        false,
        false,
        PathAttributeValue::OnlyToCustomer(OnlyToCustomer::new(64496)),
    )
    .unwrap();
    let wire = encode_attribute(&attr);
    assert_eq!(wire, vec![0xC0, 0x23, 0x04, 0x00, 0x00, 0xFB, 0xF0]);
    let (decoded, end) = parse_path_attribute(&wire, 0, false).unwrap();
    assert_eq!(end, wire.len());
    assert_eq!(decoded, attr);
}

#[test]
fn test_mp_unreach_unknown_round_trip() {
    // AFI 12 (AppleTalk) with SAFI 1 is not a registered pair; the
    // payload must survive decode and re-encode untouched.
    let wire = vec![0x80, 0x0F, 0x06, 0x00, 0x0C, 0x01, 0xDE, 0xAD, 0xBE];
    let (decoded, end) = parse_path_attribute(&wire, 0, false).unwrap();
    assert_eq!(end, wire.len());
    match decoded.value() {
        PathAttributeValue::MpUnreach(MpUnreach::Unknown { afi, safi, nlri }) => {
            assert_eq!(afi.code(), 12);
            assert_eq!(safi.code(), 1);
            assert_eq!(nlri, &vec![0xDE, 0xAD, 0xBE]);
        }
        other => panic!("expected a raw multiprotocol withdraw, got {other:?}"),
    }
    assert_eq!(encode_attribute(&decoded), wire);
}

#[test]
fn test_bgp_ls_raw_round_trip() {
    // The link-state attribute payload is carried raw.
    let wire = vec![0x80, 0x1D, 0x04, 0x01, 0x02, 0x03, 0x04];
    let (decoded, end) = parse_path_attribute(&wire, 0, false).unwrap();
    assert_eq!(end, wire.len());
    match decoded.value() {
        PathAttributeValue::BgpLs(b) => assert_eq!(b.value, vec![1, 2, 3, 4]),
        other => panic!("expected a link-state attribute, got {other:?}"),
    }
    assert_eq!(encode_attribute(&decoded), wire);
}

#[test]
fn test_path_attribute_len_matches_encoding() {
    let attr = PathAttribute::from(
        false,
        true,
        false,
        false,
        PathAttributeValue::NextHop(NextHop::new(Ipv4Addr::new(192, 0, 2, 1))),
    )
    .unwrap();
    let wire = encode_attribute(&attr);
    assert_eq!(path_attribute_len(&attr).unwrap(), wire.len());
}

#[test]
fn test_message_too_large_rejected() {
    // An OPEN whose parameters cannot fit is rejected, never truncated.
    let open = BgpOpenMessage::new(
        4,
        64512,
        180,
        Ipv4Addr::new(10, 0, 0, 1),
        vec![
            BgpCapability::Unrecognized {
                code: 200,
                value: vec![0xAB; 200],
            },
            BgpCapability::Unrecognized {
                code: 201,
                value: vec![0xCD; 200],
            },
        ],
    );
    let msg = BgpMessage::Open(open);
    let mut out = Vec::new();
    assert!(msg.write(&mut out).is_err());
    assert!(out.is_empty());
}
