use netgauze::addr::Ipv4Addr;
use netgauze::bmp::{
    BmpV4MessageValue, BmpV4PeerDownTlv, BmpV4RouteMonitoringError, BmpV4RouteMonitoringMessage,
    BmpV4RouteMonitoringTlv, BmpV4RouteMonitoringTlvError, BmpV4RouteMonitoringTlvType,
    BmpV4RouteMonitoringTlvValue, InitiationMessage, PathMarking, PathStatus, PeerHeader,
    BMPV4_TLV_GROUP_GBIT,
};
use netgauze::iana::{BgpMessageType, BmpMessageType};
use netgauze::message::{BgpMessage, BgpUpdateMessage};

fn peer_header() -> PeerHeader {
    PeerHeader {
        peer_type: 0,
        peer_flags: 0,
        rd: None,
        address: None,
        peer_as: 64512,
        bgp_id: Ipv4Addr::new(10, 0, 0, 1),
        timestamp_seconds: 0,
        timestamp_microseconds: 0,
    }
}

fn empty_update() -> BgpMessage {
    BgpMessage::Update(BgpUpdateMessage {
        withdrawn_routes: vec![],
        path_attributes: vec![],
        nlri: vec![],
    })
}

#[test]
fn test_route_monitoring_tlv_rejects_wrong_pdu_type() {
    let r = BmpV4RouteMonitoringTlv::build(
        0,
        BmpV4RouteMonitoringTlvValue::BgpUpdatePdu(BgpMessage::KeepAlive),
    );
    assert_eq!(
        r,
        Err(BmpV4RouteMonitoringTlvError::BadBgpMessageType(
            BgpMessageType::KeepAlive
        ))
    );
}

#[test]
fn test_route_monitoring_tlv_rejects_group_index_without_gbit() {
    let r = BmpV4RouteMonitoringTlv::build(5, BmpV4RouteMonitoringTlvValue::GroupTlv(vec![1, 2]));
    assert_eq!(r, Err(BmpV4RouteMonitoringTlvError::BadGroupTlvIndex(5)));

    let r = BmpV4RouteMonitoringTlv::build(
        BMPV4_TLV_GROUP_GBIT | 5,
        BmpV4RouteMonitoringTlvValue::GroupTlv(vec![1, 2]),
    );
    assert!(r.is_ok());
}

#[test]
fn test_route_monitoring_tlv_rejects_long_vrf_table_name() {
    let long_name: String = std::iter::repeat('a').take(256).collect();
    let r = BmpV4RouteMonitoringTlv::build(
        1,
        BmpV4RouteMonitoringTlvValue::VrfTableName(long_name),
    );
    assert_eq!(
        r,
        Err(BmpV4RouteMonitoringTlvError::VrfTableNameStringIsTooLong(
            256
        ))
    );

    let ok_name: String = std::iter::repeat('a').take(255).collect();
    let r =
        BmpV4RouteMonitoringTlv::build(1, BmpV4RouteMonitoringTlvValue::VrfTableName(ok_name));
    assert!(r.is_ok());
}

#[test]
fn test_route_monitoring_message_build() {
    let msg = BmpV4RouteMonitoringMessage::build(peer_header(), empty_update(), vec![]).unwrap();
    assert_eq!(msg.update_message_tlv().index(), 0);
    assert_eq!(
        msg.update_message_tlv().get_type(),
        Ok(BmpV4RouteMonitoringTlvType::BgpUpdatePdu)
    );
    assert_eq!(msg.update_message().get_type(), BgpMessageType::Update);
    assert_eq!(msg.peer_header(), &peer_header());
    assert_eq!(msg.tlvs().len(), 0);

    let bad = BmpV4RouteMonitoringMessage::build(peer_header(), BgpMessage::KeepAlive, vec![]);
    assert_eq!(
        bad,
        Err(BmpV4RouteMonitoringError::TlvError(
            BmpV4RouteMonitoringTlvError::BadBgpMessageType(BgpMessageType::KeepAlive)
        ))
    );
}

#[test]
fn test_bmp_message_get_type() {
    let msg = BmpV4RouteMonitoringMessage::build(peer_header(), empty_update(), vec![]).unwrap();
    assert_eq!(
        BmpV4MessageValue::RouteMonitoring(msg).get_type(),
        BmpMessageType::RouteMonitoring
    );
    assert_eq!(
        BmpV4MessageValue::Initiation(InitiationMessage {
            information: vec![]
        })
        .get_type(),
        BmpMessageType::Initiation
    );
    assert_eq!(
        BmpV4MessageValue::Experimental251(vec![]).get_type(),
        BmpMessageType::Experimental251
    );
}

#[test]
fn test_peer_down_tlv_code() {
    let tlv = BmpV4PeerDownTlv::Unknown {
        code: 7,
        value: vec![1, 2, 3],
    };
    assert_eq!(tlv.code(), 7);
}

#[test]
fn test_path_status_bits() {
    assert_eq!(PathStatus::Invalid.value(), 0x00000001);
    assert_eq!(PathStatus::Best.value(), 0x00000002);
    assert_eq!(PathStatus::Suppressed.value(), 0x00001000);
    assert_eq!(PathStatus::Best.bitor(PathStatus::Backup), 0x00000012);
    let marking = PathMarking {
        path_status: PathStatus::Best.bitor(PathStatus::Primary),
        reason_code: None,
    };
    assert_eq!(marking.path_status, 0x0000000A);
}

#[test]
fn test_unknown_tlv_type_code() {
    let tlv = BmpV4RouteMonitoringTlv::build(
        1,
        BmpV4RouteMonitoringTlvValue::Unknown {
            code: 900,
            value: vec![],
        },
    )
    .unwrap();
    assert_eq!(tlv.get_type(), Err(900));
    assert_eq!(tlv.value(),
        &BmpV4RouteMonitoringTlvValue::Unknown {
            code: 900,
            value: vec![],
        }
    );
}
