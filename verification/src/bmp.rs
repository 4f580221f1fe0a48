//! BMP v4 messages: the typed payloads of the BGP Monitoring Protocol,
//! and the TLV discipline of the v4 route monitoring message.
//!
//! The v4 route monitoring message carries one required TLV at index 0
//! whose value must be a BGP UPDATE PDU; group TLV indices must have their
//! high bit set, and a VRF table name is at most 255 octets. The builders
//! reject violations with a specific error each.

use vstd::prelude::*;

use crate::addr::Ipv4Addr;
use crate::addr::IpAddr;
use crate::iana::BgpMessageType;
use crate::iana::BmpMessageType;
use crate::message::BgpCapability;
use crate::message::BgpMessage;
use crate::message::BgpOpenMessage;
use crate::nlri::RouteDistinguisher;

verus! {

/// One information TLV of an Initiation, Termination or Statistics
/// message: a type code and raw value octets.
#[derive(Debug, Clone, PartialEq, Eq, Hash)]
pub struct InformationTlv {
    pub code: u16,
    pub value: Vec<u8>,
}

/// The per-peer header that precedes most BMP payloads.
#[derive(Debug, Clone, PartialEq, Eq, Hash)]
pub struct PeerHeader {
    pub peer_type: u8,
    pub peer_flags: u8,
    pub rd: Option<RouteDistinguisher>,
    pub address: Option<IpAddr>,
    pub peer_as: u32,
    pub bgp_id: Ipv4Addr,
    pub timestamp_seconds: u32,
    pub timestamp_microseconds: u32,
}

/// The Initiation message: information about the monitored router.
#[derive(Debug, Clone, PartialEq, Eq, Hash)]
pub struct InitiationMessage {
    pub information: Vec<InformationTlv>,
}

/// The Termination message: why the BMP session ends.
#[derive(Debug, Clone, PartialEq, Eq, Hash)]
pub struct TerminationMessage {
    pub information: Vec<InformationTlv>,
}

/// The Statistics Report message: per-peer counters.
#[derive(Debug, Clone, PartialEq, Eq, Hash)]
pub struct StatisticsReportMessage {
    pub peer_header: PeerHeader,
    pub counters: Vec<InformationTlv>,
}

/// The Peer Down notification: the reason code and its data octets.
#[derive(Debug, Clone, PartialEq, Eq, Hash)]
pub struct PeerDownNotificationMessage {
    pub peer_header: PeerHeader,
    pub reason: u8,
    pub data: Vec<u8>,
}

/// The Peer Up notification: the session addresses and the OPEN messages
/// exchanged.
#[derive(Debug, Clone, PartialEq, Eq, Hash)]
pub struct PeerUpNotificationMessage {
    pub peer_header: PeerHeader,
    pub local_address: Option<IpAddr>,
    pub local_port: Option<u16>,
    pub remote_port: Option<u16>,
    pub sent_message: BgpOpenMessage,
    pub received_message: BgpOpenMessage,
}

/// The Route Mirroring message: verbatim message octets from the peer.
#[derive(Debug, Clone, PartialEq, Eq, Hash)]
pub struct RouteMirroringMessage {
    pub peer_header: PeerHeader,
    pub mirrored: Vec<u8>,
}

/// The typed payload of a BMP v4 message.
#[derive(Debug, Clone, PartialEq, Eq, Hash)]
pub enum BmpV4MessageValue {
    RouteMonitoring(BmpV4RouteMonitoringMessage),
    StatisticsReport(StatisticsReportMessage),
    PeerDownNotification { v3_notif: PeerDownNotificationMessage, tlvs: Vec<BmpV4PeerDownTlv> },
    PeerUpNotification(PeerUpNotificationMessage),
    Initiation(InitiationMessage),
    Termination(TerminationMessage),
    RouteMirroring(RouteMirroringMessage),
    Experimental251(Vec<u8>),
    Experimental252(Vec<u8>),
    Experimental253(Vec<u8>),
    Experimental254(Vec<u8>),
}

impl BmpV4MessageValue {
    /// The BMP message type of the carried payload.
    pub open spec fn spec_get_type(self) -> BmpMessageType {
        match self {
            BmpV4MessageValue::RouteMonitoring(_) => BmpMessageType::RouteMonitoring,
            BmpV4MessageValue::StatisticsReport(_) => BmpMessageType::StatisticsReport,
            BmpV4MessageValue::PeerDownNotification { .. } => BmpMessageType::PeerDownNotification,
            BmpV4MessageValue::PeerUpNotification(_) => BmpMessageType::PeerUpNotification,
            BmpV4MessageValue::Initiation(_) => BmpMessageType::Initiation,
            BmpV4MessageValue::Termination(_) => BmpMessageType::Termination,
            BmpV4MessageValue::RouteMirroring(_) => BmpMessageType::RouteMirroring,
            BmpV4MessageValue::Experimental251(_) => BmpMessageType::Experimental251,
            BmpV4MessageValue::Experimental252(_) => BmpMessageType::Experimental252,
            BmpV4MessageValue::Experimental253(_) => BmpMessageType::Experimental253,
            BmpV4MessageValue::Experimental254(_) => BmpMessageType::Experimental254,
        }
    }

    pub fn get_type(&self) -> (r: BmpMessageType)
        ensures
            r == self.spec_get_type(),
    {
        match self {
            BmpV4MessageValue::RouteMonitoring(_) => BmpMessageType::RouteMonitoring,
            BmpV4MessageValue::StatisticsReport(_) => BmpMessageType::StatisticsReport,
            BmpV4MessageValue::PeerDownNotification { .. } => BmpMessageType::PeerDownNotification,
            BmpV4MessageValue::PeerUpNotification(_) => BmpMessageType::PeerUpNotification,
            BmpV4MessageValue::Initiation(_) => BmpMessageType::Initiation,
            BmpV4MessageValue::Termination(_) => BmpMessageType::Termination,
            BmpV4MessageValue::RouteMirroring(_) => BmpMessageType::RouteMirroring,
            BmpV4MessageValue::Experimental251(_) => BmpMessageType::Experimental251,
            BmpV4MessageValue::Experimental252(_) => BmpMessageType::Experimental252,
            BmpV4MessageValue::Experimental253(_) => BmpMessageType::Experimental253,
            BmpV4MessageValue::Experimental254(_) => BmpMessageType::Experimental254,
        }
    }
}

/// A TLV appended to a v4 Peer Down notification.
#[derive(Debug, Clone, PartialEq, Eq, Hash)]
pub enum BmpV4PeerDownTlv {
    Unknown { code: u16, value: Vec<u8> },
}

impl BmpV4PeerDownTlv {
    /// The type code of the TLV.
    pub open spec fn spec_code(self) -> u16 {
        match self {
            BmpV4PeerDownTlv::Unknown { code, .. } => code,
        }
    }

    pub fn code(&self) -> (r: u16)
        ensures
            r == self.spec_code(),
    {
        match self {
            BmpV4PeerDownTlv::Unknown { code, .. } => *code,
        }
    }
}

/// The G flag: the high bit a group TLV index must carry.
pub const BMPV4_TLV_GROUP_GBIT: u16 = 0x8000;

/// The TLV type codes of the v4 route monitoring message.
#[derive(Debug, Clone, Copy, PartialEq, Eq, Hash, Structural)]
pub enum BmpV4RouteMonitoringTlvType {
    GroupTlv,
    StatelessParsing,
    BgpUpdatePdu,
    VrfTableName,
    PathMarking,
}

impl BmpV4RouteMonitoringTlvType {
    /// The 16-bit code of the TLV type.
    pub open spec fn spec_code(self) -> u16 {
        match self {
            BmpV4RouteMonitoringTlvType::GroupTlv => 0,
            BmpV4RouteMonitoringTlvType::StatelessParsing => 1,
            BmpV4RouteMonitoringTlvType::BgpUpdatePdu => 2,
            BmpV4RouteMonitoringTlvType::VrfTableName => 3,
            BmpV4RouteMonitoringTlvType::PathMarking => 4,
        }
    }

    pub fn code(self) -> (r: u16)
        ensures
            r == self.spec_code(),
    {
        match self {
            BmpV4RouteMonitoringTlvType::GroupTlv => 0,
            BmpV4RouteMonitoringTlvType::StatelessParsing => 1,
            BmpV4RouteMonitoringTlvType::BgpUpdatePdu => 2,
            BmpV4RouteMonitoringTlvType::VrfTableName => 3,
            BmpV4RouteMonitoringTlvType::PathMarking => 4,
        }
    }
}

/// The Path Status TLV: a status bit set and an optional reason code.
#[derive(Debug, Hash, Clone, Copy, Eq, PartialEq, Structural)]
pub struct PathMarking {
    pub path_status: u32,
    pub reason_code: Option<u16>,
}

/// One bit of the path status field.
#[derive(Debug, Clone, Copy, PartialEq, Eq, Hash, Structural)]
pub enum PathStatus {
    Invalid,
    Best,
    NonSelected,
    Primary,
    Backup,
    NonInstalled,
    BestExternal,
    AddPath,
    FilteredInInboundPolicy,
    FilteredInOutboundPolicy,
    InvalidRov,
    Stale,
    Suppressed,
}

impl PathStatus {
    /// The bit this status occupies in the four-octet status field.
    pub open spec fn spec_value(self) -> u32 {
        match self {
            PathStatus::Invalid => 0x00000001,
            PathStatus::Best => 0x00000002,
            PathStatus::NonSelected => 0x00000004,
            PathStatus::Primary => 0x00000008,
            PathStatus::Backup => 0x00000010,
            PathStatus::NonInstalled => 0x00000020,
            PathStatus::BestExternal => 0x00000040,
            PathStatus::AddPath => 0x00000080,
            PathStatus::FilteredInInboundPolicy => 0x00000100,
            PathStatus::FilteredInOutboundPolicy => 0x00000200,
            PathStatus::InvalidRov => 0x00000400,
            PathStatus::Stale => 0x00000800,
            PathStatus::Suppressed => 0x00001000,
        }
    }

    /// The bit this status occupies in the four-octet status field.
    pub fn value(self) -> (r: u32)
        ensures
            r == self.spec_value(),
    {
        match self {
            PathStatus::Invalid => 0x00000001,
            PathStatus::Best => 0x00000002,
            PathStatus::NonSelected => 0x00000004,
            PathStatus::Primary => 0x00000008,
            PathStatus::Backup => 0x00000010,
            PathStatus::NonInstalled => 0x00000020,
            PathStatus::BestExternal => 0x00000040,
            PathStatus::AddPath => 0x00000080,
            PathStatus::FilteredInInboundPolicy => 0x00000100,
            PathStatus::FilteredInOutboundPolicy => 0x00000200,
            PathStatus::InvalidRov => 0x00000400,
            PathStatus::Stale => 0x00000800,
            PathStatus::Suppressed => 0x00001000,
        }
    }

    /// The union of two status bits, as the four-octet status field.
    pub fn bitor(self, rhs: Self) -> (r: u32)
        ensures
            r == self.spec_value() | rhs.spec_value(),
    {
        self.value() | rhs.value()
    }
}

/// The reason codes of a path marking.
#[derive(Debug, Clone, Copy, PartialEq, Eq, Hash, Structural)]
pub enum PathMarkingReason {
    InvalidAsLoop,
    InvalidUnresolvableNexthop,
    NotPreferredLocalPref,
    NotPreferredAsPathLength,
    NotPreferredOrigin,
    NotPreferredMed,
    NotPreferredPeerType,
    NotPreferredIgpCost,
    NotPreferredRouterId,
    NotPreferredPeerAddress,
    NotPreferredAigp,
}

impl PathMarkingReason {
    /// The 16-bit code of the reason.
    pub open spec fn spec_code(self) -> u16 {
        match self {
            PathMarkingReason::InvalidAsLoop => 0x0001,
            PathMarkingReason::InvalidUnresolvableNexthop => 0x0002,
            PathMarkingReason::NotPreferredLocalPref => 0x0003,
            PathMarkingReason::NotPreferredAsPathLength => 0x0004,
            PathMarkingReason::NotPreferredOrigin => 0x0005,
            PathMarkingReason::NotPreferredMed => 0x0006,
            PathMarkingReason::NotPreferredPeerType => 0x0007,
            PathMarkingReason::NotPreferredIgpCost => 0x0008,
            PathMarkingReason::NotPreferredRouterId => 0x0009,
            PathMarkingReason::NotPreferredPeerAddress => 0x000A,
            PathMarkingReason::NotPreferredAigp => 0x000B,
        }
    }

    pub fn code(self) -> (r: u16)
        ensures
            r == self.spec_code(),
    {
        match self {
            PathMarkingReason::InvalidAsLoop => 0x0001,
            PathMarkingReason::InvalidUnresolvableNexthop => 0x0002,
            PathMarkingReason::NotPreferredLocalPref => 0x0003,
            PathMarkingReason::NotPreferredAsPathLength => 0x0004,
            PathMarkingReason::NotPreferredOrigin => 0x0005,
            PathMarkingReason::NotPreferredMed => 0x0006,
            PathMarkingReason::NotPreferredPeerType => 0x0007,
            PathMarkingReason::NotPreferredIgpCost => 0x0008,
            PathMarkingReason::NotPreferredRouterId => 0x0009,
            PathMarkingReason::NotPreferredPeerAddress => 0x000A,
            PathMarkingReason::NotPreferredAigp => 0x000B,
        }
    }
}

/// The value of one v4 route monitoring TLV.
#[derive(Debug, Clone, PartialEq, Eq, Hash)]
pub enum BmpV4RouteMonitoringTlvValue {
    BgpUpdatePdu(BgpMessage),
    VrfTableName(String),
    GroupTlv(Vec<u16>),
    StatelessParsing(BgpCapability),
    PathMarking(PathMarking),
    Unknown { code: u16, value: Vec<u8> },
}

/// Why a v4 route monitoring TLV was rejected.
#[derive(Debug, Clone, PartialEq, Eq, Hash)]
pub enum BmpV4RouteMonitoringTlvError {
    BadGroupTlvIndex(u16),
    BadBgpMessageType(BgpMessageType),
    VrfTableNameStringIsTooLong(usize),
}

/// One TLV of a v4 route monitoring message: an index and a typed value.
#[derive(Debug, Clone, PartialEq, Eq, Hash)]
pub struct BmpV4RouteMonitoringTlv {
    pub index: u16,
    pub value: BmpV4RouteMonitoringTlvValue,
}

impl BmpV4RouteMonitoringTlv {
    /// The error [`BmpV4RouteMonitoringTlv::build`] reports for an index
    /// and value, if any.
    pub open spec fn spec_build_error(
        index: u16,
        value: BmpV4RouteMonitoringTlvValue,
    ) -> Option<BmpV4RouteMonitoringTlvError> {
        match value {
            BmpV4RouteMonitoringTlvValue::GroupTlv(_) => {
                if index < BMPV4_TLV_GROUP_GBIT {
                    Some(BmpV4RouteMonitoringTlvError::BadGroupTlvIndex(index))
                } else {
                    None
                }
            },
            BmpV4RouteMonitoringTlvValue::VrfTableName(s) => {
                if vstd::utf8::encode_utf8(s@).len() as usize > 255 {
                    Some(
                        BmpV4RouteMonitoringTlvError::VrfTableNameStringIsTooLong(
                            vstd::utf8::encode_utf8(s@).len() as usize,
                        ),
                    )
                } else {
                    None
                }
            },
            BmpV4RouteMonitoringTlvValue::BgpUpdatePdu(pdu) => {
                if pdu.spec_get_type() != BgpMessageType::Update {
                    Some(BmpV4RouteMonitoringTlvError::BadBgpMessageType(pdu.spec_get_type()))
                } else {
                    None
                }
            },
            _ => None,
        }
    }

    /// Construct a TLV, rejecting a group TLV index without the G flag, a
    /// VRF table name over 255 octets, and an update PDU that is not a BGP
    /// UPDATE.
    pub fn build(index: u16, value: BmpV4RouteMonitoringTlvValue) -> (r: Result<
        Self,
        BmpV4RouteMonitoringTlvError,
    >)
        ensures
            match r {
                Ok(tlv) => {
                    &&& Self::spec_build_error(index, value) is None
                    &&& tlv == (BmpV4RouteMonitoringTlv { index, value })
                },
                Err(e) => Self::spec_build_error(index, value) == Some(e),
            },
    {
        match &value {
            BmpV4RouteMonitoringTlvValue::GroupTlv(_) => {
                if index < BMPV4_TLV_GROUP_GBIT {
                    // The first bit has to be one (G flag).
                    return Err(BmpV4RouteMonitoringTlvError::BadGroupTlvIndex(index));
                }
            },
            BmpV4RouteMonitoringTlvValue::VrfTableName(name) => {
                let len = name.as_str().len();
                if len > 255 {
                    return Err(BmpV4RouteMonitoringTlvError::VrfTableNameStringIsTooLong(len));
                }
            },
            BmpV4RouteMonitoringTlvValue::BgpUpdatePdu(update_pdu) => {
                let t = update_pdu.get_type();
                if !matches!(t, BgpMessageType::Update) {
                    return Err(BmpV4RouteMonitoringTlvError::BadBgpMessageType(t));
                }
            },
            _ => {},
        }
        Ok(Self { index, value })
    }

    /// The TLV type of the carried value; the raw code is returned for an
    /// unknown TLV.
    pub open spec fn spec_get_type(self) -> Result<BmpV4RouteMonitoringTlvType, u16> {
        match self.value {
            BmpV4RouteMonitoringTlvValue::BgpUpdatePdu(_) => Ok(
                BmpV4RouteMonitoringTlvType::BgpUpdatePdu,
            ),
            BmpV4RouteMonitoringTlvValue::VrfTableName(_) => Ok(
                BmpV4RouteMonitoringTlvType::VrfTableName,
            ),
            BmpV4RouteMonitoringTlvValue::GroupTlv(_) => Ok(BmpV4RouteMonitoringTlvType::GroupTlv),
            BmpV4RouteMonitoringTlvValue::StatelessParsing(_) => Ok(
                BmpV4RouteMonitoringTlvType::StatelessParsing,
            ),
            BmpV4RouteMonitoringTlvValue::PathMarking(_) => Ok(
                BmpV4RouteMonitoringTlvType::PathMarking,
            ),
            BmpV4RouteMonitoringTlvValue::Unknown { code, .. } => Err(code),
        }
    }

    /// The TLV type of the carried value; the raw code is returned for an
    /// unknown TLV.
    pub fn get_type(&self) -> (r: Result<BmpV4RouteMonitoringTlvType, u16>)
        ensures
            r == self.spec_get_type(),
    {
        match &self.value {
            BmpV4RouteMonitoringTlvValue::BgpUpdatePdu(_) => Ok(
                BmpV4RouteMonitoringTlvType::BgpUpdatePdu,
            ),
            BmpV4RouteMonitoringTlvValue::VrfTableName(_) => Ok(
                BmpV4RouteMonitoringTlvType::VrfTableName,
            ),
            BmpV4RouteMonitoringTlvValue::GroupTlv(_) => Ok(BmpV4RouteMonitoringTlvType::GroupTlv),
            BmpV4RouteMonitoringTlvValue::StatelessParsing(_) => Ok(
                BmpV4RouteMonitoringTlvType::StatelessParsing,
            ),
            BmpV4RouteMonitoringTlvValue::PathMarking(..) => Ok(
                BmpV4RouteMonitoringTlvType::PathMarking,
            ),
            BmpV4RouteMonitoringTlvValue::Unknown { code, .. } => Err(*code),
        }
    }

    pub fn index(&self) -> (r: u16)
        ensures
            r == self.index,
    {
        self.index
    }

    pub fn value(&self) -> (r: &BmpV4RouteMonitoringTlvValue)
        ensures
            r == &self.value,
    {
        &self.value
    }
}

/// Why a v4 route monitoring message was rejected.
#[derive(Debug, Clone, PartialEq, Eq, Hash)]
pub enum BmpV4RouteMonitoringError {
    TlvError(BmpV4RouteMonitoringTlvError),
}

impl From<BmpV4RouteMonitoringTlvError> for BmpV4RouteMonitoringError {
    fn from(value: BmpV4RouteMonitoringTlvError) -> BmpV4RouteMonitoringError {
        BmpV4RouteMonitoringError::TlvError(value)
    }
}

impl vstd::std_specs::convert::FromSpecImpl<BmpV4RouteMonitoringTlvError>
    for BmpV4RouteMonitoringError {
    open spec fn obeys_from_spec() -> bool {
        true
    }

    open spec fn from_spec(t: BmpV4RouteMonitoringTlvError) -> BmpV4RouteMonitoringError {
        BmpV4RouteMonitoringError::TlvError(t)
    }
}

/// The v4 Route Monitoring message: a per-peer header, the required BGP
/// UPDATE PDU TLV at index 0, and the remaining TLVs in order.
#[derive(Debug, Clone, PartialEq, Eq, Hash)]
pub struct BmpV4RouteMonitoringMessage {
    pub peer_header: PeerHeader,
    pub update_pdu: BmpV4RouteMonitoringTlv,
    pub tlvs: Vec<BmpV4RouteMonitoringTlv>,
}

impl BmpV4RouteMonitoringMessage {
    /// The required TLV carries a BGP UPDATE at index 0; the builder
    /// establishes this, and every method preserves it.
    pub open spec fn wf(self) -> bool {
        &&& self.update_pdu.index == 0
        &&& self.update_pdu.value matches BmpV4RouteMonitoringTlvValue::BgpUpdatePdu(pdu)
            && pdu.spec_get_type() == BgpMessageType::Update
    }

    /// Construct a route monitoring message, wrapping the UPDATE PDU into
    /// its required TLV; a PDU of any other message type is rejected.
    pub fn build(
        peer_header: PeerHeader,
        update_pdu: BgpMessage,
        tlvs: Vec<BmpV4RouteMonitoringTlv>,
    ) -> (r: Result<Self, BmpV4RouteMonitoringError>)
        ensures
            match r {
                Ok(m) => {
                    &&& m.wf()
                    &&& m.peer_header == peer_header
                    &&& m.update_pdu.value == BmpV4RouteMonitoringTlvValue::BgpUpdatePdu(update_pdu)
                    &&& m.tlvs == tlvs
                    &&& update_pdu.spec_get_type() == BgpMessageType::Update
                },
                Err(e) => {
                    &&& update_pdu.spec_get_type() != BgpMessageType::Update
                    &&& e == BmpV4RouteMonitoringError::TlvError(
                        BmpV4RouteMonitoringTlvError::BadBgpMessageType(
                            update_pdu.spec_get_type(),
                        ),
                    )
                },
            },
    {
        let wrapped = BmpV4RouteMonitoringTlv::build(
            0,
            BmpV4RouteMonitoringTlvValue::BgpUpdatePdu(update_pdu),
        );
        match wrapped {
            Ok(update_pdu) => Ok(Self { peer_header, update_pdu, tlvs }),
            Err(e) => Err(BmpV4RouteMonitoringError::TlvError(e)),
        }
    }

    pub fn peer_header(&self) -> (r: &PeerHeader)
        ensures
            r == &self.peer_header,
    {
        &self.peer_header
    }

    /// The required TLV holding the BGP UPDATE PDU.
    pub fn update_message_tlv(&self) -> (r: &BmpV4RouteMonitoringTlv)
        ensures
            r == &self.update_pdu,
    {
        &self.update_pdu
    }

    /// The BGP UPDATE PDU carried by the required TLV.
    pub fn update_message(&self) -> (r: &BgpMessage)
        requires
            self.wf(),
        ensures
            self.update_pdu.value == BmpV4RouteMonitoringTlvValue::BgpUpdatePdu(*r),
            r.spec_get_type() == BgpMessageType::Update,
    {
        match &self.update_pdu.value {
            BmpV4RouteMonitoringTlvValue::BgpUpdatePdu(update) => update,
            // The builder enforces that this TLV is a BgpUpdatePdu.
            _ => vstd::pervasive::unreached(),
        }
    }

    pub fn tlvs(&self) -> (r: &Vec<BmpV4RouteMonitoringTlv>)
        ensures
            r == &self.tlvs,
    {
        &self.tlvs
    }
}

} // verus!
