//! The extensible definitions for the BGP path attributes carried in an
//! UPDATE message, together with the well-known flag matrix each attribute
//! kind imposes on the attribute header.

use vstd::prelude::*;

use crate::addr::Ipv4Addr;
use crate::addr::Ipv6Addr;
use crate::addr::IpAddr;
use crate::community::Community;
use crate::community::ExtendedCommunity;
use crate::community::ExtendedCommunityIpv6;
use crate::community::LargeCommunity;
use crate::iana::AddressFamily;
use crate::iana::AddressType;
use crate::iana::PathAttributeType;
use crate::iana::SubsequentAddressFamily;
use crate::nlri::BgpLsNlri;
use crate::nlri::BgpLsVpnNlri;
use crate::nlri::Ipv4MplsVpnUnicastAddress;
use crate::nlri::Ipv4MulticastAddress;
use crate::nlri::Ipv4NlriMplsLabelsAddress;
use crate::nlri::Ipv4UnicastAddress;
use crate::nlri::Ipv6MplsVpnUnicastAddress;
use crate::nlri::Ipv6MulticastAddress;
use crate::nlri::Ipv6NlriMplsLabelsAddress;
use crate::nlri::Ipv6UnicastAddress;
use crate::nlri::L2EvpnAddress;
use crate::nlri::LabeledNextHop;
use crate::nlri::RouteTargetMembershipAddress;

verus! {

/// Whether a flag bit agrees with an attribute kind's rule: `Some(x)` means
/// the bit must be `x`, `None` leaves the bit free.
pub open spec fn spec_flag_ok(rule: Option<bool>, flag: bool) -> bool {
    match rule {
        Some(x) => x == flag,
        None => true,
    }
}

/// General properties to check the validity of a given path attribute value.
///
/// Each method answers for one flag bit of the attribute header:
/// `Some(true)` means the bit must be set, `Some(false)` that it must be
/// clear, and `None` that either value is allowed.
pub trait PathAttributeValueProperties {
    /// The rule for the `optional` bit, as a spec-level value.
    spec fn spec_can_be_optional() -> Option<bool>;

    /// The rule for the `transitive` bit, as a spec-level value.
    spec fn spec_can_be_transitive() -> Option<bool>;

    /// The rule for the `partial` bit, as a spec-level value.
    spec fn spec_can_be_partial() -> Option<bool>;

    /// The rule for the `optional` bit.
    fn can_be_optional() -> (r: Option<bool>)
        ensures
            r == Self::spec_can_be_optional(),
    ;

    /// The rule for the `transitive` bit.
    fn can_be_transitive() -> (r: Option<bool>)
        ensures
            r == Self::spec_can_be_transitive(),
    ;

    /// The rule for the `partial` bit.
    fn can_be_partial() -> (r: Option<bool>)
        ensures
            r == Self::spec_can_be_partial(),
    ;
}

/// The flag bit that disagreed with the attribute kind's matrix, carrying
/// the offending bit value.
#[derive(Debug, Clone, Copy, PartialEq, Eq, Structural)]
pub enum InvalidPathAttribute {
    InvalidOptionalFlagValue(bool),
    InvalidTransitiveFlagValue(bool),
    InvalidPartialFlagValue(bool),
}

/// ORIGIN: a well-known mandatory attribute defining the origin of the path
/// information.
#[derive(Debug, Clone, Copy, PartialEq, Eq, Hash, Structural)]
pub enum Origin {
    IGP,
    EGP,
    Incomplete,
}

impl Origin {
    /// The one-octet code of the origin value.
    pub open spec fn spec_code(self) -> u8 {
        match self {
            Origin::IGP => 0,
            Origin::EGP => 1,
            Origin::Incomplete => 2,
        }
    }

    /// The origin registered under a code, if any.
    pub open spec fn spec_from_code(code: u8) -> Option<Origin> {
        match code {
            0u8 => Some(Origin::IGP),
            1u8 => Some(Origin::EGP),
            2u8 => Some(Origin::Incomplete),
            _ => None,
        }
    }

    /// The one-octet code of the origin value.
    pub fn code(self) -> (r: u8)
        ensures
            r == self.spec_code(),
    {
        match self {
            Origin::IGP => 0,
            Origin::EGP => 1,
            Origin::Incomplete => 2,
        }
    }
}

impl PathAttributeValueProperties for Origin {
    open spec fn spec_can_be_optional() -> Option<bool> {
        Some(false)
    }

    open spec fn spec_can_be_transitive() -> Option<bool> {
        Some(true)
    }

    open spec fn spec_can_be_partial() -> Option<bool> {
        Some(false)
    }

    fn can_be_optional() -> (r: Option<bool>) {
        Some(false)
    }

    fn can_be_transitive() -> (r: Option<bool>) {
        Some(true)
    }

    fn can_be_partial() -> (r: Option<bool>) {
        Some(false)
    }
}

impl From<Origin> for u8 {
    fn from(value: Origin) -> u8 {
        match value {
            Origin::IGP => 0,
            Origin::EGP => 1,
            Origin::Incomplete => 2,
        }
    }
}

impl vstd::std_specs::convert::FromSpecImpl<Origin> for u8 {
    open spec fn obeys_from_spec() -> bool {
        true
    }

    open spec fn from_spec(t: Origin) -> u8 {
        t.spec_code()
    }
}

/// The undefined code found while reading an [`Origin`].
#[derive(Debug, Clone, Copy, PartialEq, Eq, Hash, Structural)]
pub struct UndefinedOrigin(pub u8);

impl TryFrom<u8> for Origin {
    type Error = UndefinedOrigin;

    fn try_from(value: u8) -> Result<Origin, UndefinedOrigin> {
        match value {
            0 => Ok(Origin::IGP),
            1 => Ok(Origin::EGP),
            2 => Ok(Origin::Incomplete),
            _ => Err(UndefinedOrigin(value)),
        }
    }
}

impl vstd::std_specs::convert::TryFromSpecImpl<u8> for Origin {
    open spec fn obeys_try_from_spec() -> bool {
        true
    }

    open spec fn try_from_spec(v: u8) -> Result<Origin, UndefinedOrigin> {
        match Origin::spec_from_code(v) {
            Some(o) => Ok(o),
            None => Err(UndefinedOrigin(v)),
        }
    }
}

/// AS path segment type: a set (unordered) or a sequence (ordered).
#[derive(Debug, Clone, Copy, PartialEq, Eq, Hash, Structural)]
pub enum AsPathSegmentType {
    AsSet,
    AsSequence,
}

impl AsPathSegmentType {
    /// The one-octet code of the segment type.
    pub open spec fn spec_code(self) -> u8 {
        match self {
            AsPathSegmentType::AsSet => 1,
            AsPathSegmentType::AsSequence => 2,
        }
    }

    /// The segment type registered under a code, if any.
    pub open spec fn spec_from_code(code: u8) -> Option<AsPathSegmentType> {
        match code {
            1u8 => Some(AsPathSegmentType::AsSet),
            2u8 => Some(AsPathSegmentType::AsSequence),
            _ => None,
        }
    }

    /// The one-octet code of the segment type.
    pub fn code(self) -> (r: u8)
        ensures
            r == self.spec_code(),
    {
        match self {
            AsPathSegmentType::AsSet => 1,
            AsPathSegmentType::AsSequence => 2,
        }
    }
}

impl From<AsPathSegmentType> for u8 {
    fn from(value: AsPathSegmentType) -> u8 {
        match value {
            AsPathSegmentType::AsSet => 1,
            AsPathSegmentType::AsSequence => 2,
        }
    }
}

impl vstd::std_specs::convert::FromSpecImpl<AsPathSegmentType> for u8 {
    open spec fn obeys_from_spec() -> bool {
        true
    }

    open spec fn from_spec(t: AsPathSegmentType) -> u8 {
        t.spec_code()
    }
}

/// The undefined code found while reading an [`AsPathSegmentType`].
#[derive(Debug, Clone, Copy, PartialEq, Eq, Hash, Structural)]
pub struct UndefinedAsPathSegmentType(pub u8);

impl TryFrom<u8> for AsPathSegmentType {
    type Error = UndefinedAsPathSegmentType;

    fn try_from(value: u8) -> Result<AsPathSegmentType, UndefinedAsPathSegmentType> {
        match value {
            1 => Ok(AsPathSegmentType::AsSet),
            2 => Ok(AsPathSegmentType::AsSequence),
            _ => Err(UndefinedAsPathSegmentType(value)),
        }
    }
}

impl vstd::std_specs::convert::TryFromSpecImpl<u8> for AsPathSegmentType {
    open spec fn obeys_try_from_spec() -> bool {
        true
    }

    open spec fn try_from_spec(v: u8) -> Result<AsPathSegmentType, UndefinedAsPathSegmentType> {
        match AsPathSegmentType::spec_from_code(v) {
            Some(t) => Ok(t),
            None => Err(UndefinedAsPathSegmentType(v)),
        }
    }
}

/// One AS path segment with two-octet AS numbers.
#[derive(Debug, Clone, PartialEq, Eq, Hash)]
pub struct As2PathSegment {
    pub segment_type: AsPathSegmentType,
    pub as_numbers: Vec<u16>,
}

impl As2PathSegment {
    /// The segment's AS numbers widened to 32 bits.
    pub open spec fn spec_as_u32s(self) -> Seq<u32> {
        self.as_numbers@.map_values(|x: u16| x as u32)
    }

    pub fn new(segment_type: AsPathSegmentType, as_numbers: Vec<u16>) -> (r: Self)
        ensures
            r.segment_type == segment_type,
            r.as_numbers == as_numbers,
    {
        Self { segment_type, as_numbers }
    }

    pub fn segment_type(&self) -> (r: AsPathSegmentType)
        ensures
            r == self.segment_type,
    {
        self.segment_type
    }

    pub fn as_numbers(&self) -> (r: &Vec<u16>)
        ensures
            r == &self.as_numbers,
    {
        &self.as_numbers
    }
}

/// One AS path segment with four-octet AS numbers.
#[derive(Debug, Clone, PartialEq, Eq, Hash)]
pub struct As4PathSegment {
    pub segment_type: AsPathSegmentType,
    pub as_numbers: Vec<u32>,
}

impl As4PathSegment {
    pub fn new(segment_type: AsPathSegmentType, as_numbers: Vec<u32>) -> (r: Self)
        ensures
            r.segment_type == segment_type,
            r.as_numbers == as_numbers,
    {
        Self { segment_type, as_numbers }
    }

    pub fn segment_type(&self) -> (r: AsPathSegmentType)
        ensures
            r == self.segment_type,
    {
        self.segment_type
    }

    pub fn as_numbers(&self) -> (r: &Vec<u32>)
        ensures
            r == &self.as_numbers,
    {
        &self.as_numbers
    }
}

/// `AS_PATH`: a well-known mandatory attribute composed of a sequence of AS
/// path segments, carried with two- or four-octet AS numbers depending on
/// what the session negotiated.
#[derive(Debug, Clone, PartialEq, Eq, Hash)]
pub enum AsPath {
    As2PathSegments(Vec<As2PathSegment>),
    As4PathSegments(Vec<As4PathSegment>),
}

impl AsPath {
    /// All AS numbers of the path, in order, widened to 32 bits.
    pub open spec fn spec_as_numbers(self) -> Seq<u32> {
        match self {
            AsPath::As2PathSegments(segs) => segs@.flat_map(
                |s: As2PathSegment| s.spec_as_u32s(),
            ),
            AsPath::As4PathSegments(segs) => segs@.flat_map(
                |s: As4PathSegment| s.as_numbers@,
            ),
        }
    }
}

impl PathAttributeValueProperties for AsPath {
    open spec fn spec_can_be_optional() -> Option<bool> {
        Some(false)
    }

    open spec fn spec_can_be_transitive() -> Option<bool> {
        Some(true)
    }

    open spec fn spec_can_be_partial() -> Option<bool> {
        Some(false)
    }

    fn can_be_optional() -> (r: Option<bool>) {
        Some(false)
    }

    fn can_be_transitive() -> (r: Option<bool>) {
        Some(true)
    }

    fn can_be_partial() -> (r: Option<bool>) {
        Some(false)
    }
}

impl From<AsPath> for Vec<u32> {
    fn from(value: AsPath) -> Vec<u32> {
        value.to_as_numbers()
    }
}

impl vstd::std_specs::convert::FromSpecImpl<AsPath> for Vec<u32> {
    open spec fn obeys_from_spec() -> bool {
        // A `Vec` cannot be denoted in spec code; the verified statement is
        // the contract of [`AsPath::to_as_numbers`], which the impl calls.
        false
    }

    open spec fn from_spec(t: AsPath) -> Vec<u32> {
        vstd::pervasive::arbitrary()
    }
}

impl AsPath {
    /// All AS numbers of the path, in order, widened to 32 bits.
    #[verifier::loop_isolation(false)]
    pub fn to_as_numbers(self) -> (r: Vec<u32>)
        ensures
            r@ == self.spec_as_numbers(),
    {
        let mut ret: Vec<u32> = Vec::new();
        match self {
            AsPath::As2PathSegments(segments) => {
                let ghost f = |s: As2PathSegment| s.spec_as_u32s();
                let n = segments.len();
                let mut i: usize = 0;
                while i < n
                    invariant
                        n == segments@.len(),
                        i <= n,
                        ret@ == segments@.take(i as int).flat_map(f),
                    decreases n - i,
                {
                    let seg = &segments[i];
                    let m = seg.as_numbers.len();
                    let mut j: usize = 0;
                    while j < m
                        invariant
                            n == segments@.len(),
                            i < n,
                            m == seg.as_numbers@.len(),
                            j <= m,
                            seg == segments@[i as int],
                            ret@ == segments@.take(i as int).flat_map(f) + seg.spec_as_u32s().take(
                                j as int,
                            ),
                        decreases m - j,
                    {
                        ret.push(seg.as_numbers[j] as u32);
                        assert(ret@ =~= segments@.take(i as int).flat_map(f)
                            + seg.spec_as_u32s().take(j + 1));
                        j = j + 1;
                    }
                    proof {
                        segments@.lemma_flat_map_take_append(f, i as int);
                        assert(f(segments@[i as int]) == segments@[i as int].spec_as_u32s());
                        assert(seg.spec_as_u32s().take(m as int) =~= seg.spec_as_u32s());
                        assert(ret@ =~= segments@.take(i + 1).flat_map(f));
                    }
                    i = i + 1;
                }
                proof {
                    assert(segments@.take(n as int) =~= segments@);
                }
            },
            AsPath::As4PathSegments(segments) => {
                let ghost f = |s: As4PathSegment| s.as_numbers@;
                let n = segments.len();
                let mut i: usize = 0;
                while i < n
                    invariant
                        n == segments@.len(),
                        i <= n,
                        ret@ == segments@.take(i as int).flat_map(f),
                    decreases n - i,
                {
                    let seg = &segments[i];
                    let m = seg.as_numbers.len();
                    let mut j: usize = 0;
                    while j < m
                        invariant
                            n == segments@.len(),
                            i < n,
                            m == seg.as_numbers@.len(),
                            j <= m,
                            seg == segments@[i as int],
                            ret@ == segments@.take(i as int).flat_map(f)
                                + seg.as_numbers@.take(j as int),
                        decreases m - j,
                    {
                        ret.push(seg.as_numbers[j]);
                        assert(ret@ =~= segments@.take(i as int).flat_map(f)
                            + seg.as_numbers@.take(j + 1));
                        j = j + 1;
                    }
                    proof {
                        segments@.lemma_flat_map_take_append(f, i as int);
                        assert(f(segments@[i as int]) == segments@[i as int].as_numbers@);
                        assert(seg.as_numbers@.take(m as int) =~= seg.as_numbers@);
                        assert(ret@ =~= segments@.take(i + 1).flat_map(f));
                    }
                    i = i + 1;
                }
                proof {
                    assert(segments@.take(n as int) =~= segments@);
                }
            },
        }
        ret
    }
}

/// `AS4_PATH`: the AS path encoded with four-octet AS numbers, optional
/// transitive, as introduced with four-octet AS number support.
#[derive(Debug, Clone, PartialEq, Eq, Hash)]
pub struct As4Path {
    pub segments: Vec<As4PathSegment>,
}

impl As4Path {
    pub fn new(segments: Vec<As4PathSegment>) -> (r: Self)
        ensures
            r.segments == segments,
    {
        Self { segments }
    }

    pub fn segments(&self) -> (r: &Vec<As4PathSegment>)
        ensures
            r == &self.segments,
    {
        &self.segments
    }
}

impl PathAttributeValueProperties for As4Path {
    open spec fn spec_can_be_optional() -> Option<bool> {
        Some(true)
    }

    open spec fn spec_can_be_transitive() -> Option<bool> {
        Some(true)
    }

    open spec fn spec_can_be_partial() -> Option<bool> {
        None
    }

    fn can_be_optional() -> (r: Option<bool>) {
        Some(true)
    }

    fn can_be_transitive() -> (r: Option<bool>) {
        Some(true)
    }

    fn can_be_partial() -> (r: Option<bool>) {
        None
    }
}

/// NEXT_HOP: a well-known mandatory attribute carrying the IPv4 address to
/// be used as the next hop to the destinations of the UPDATE message.
#[derive(Debug, Clone, Copy, PartialEq, Eq, Hash, Structural)]
pub struct NextHop {
    pub next_hop: Ipv4Addr,
}

impl NextHop {
    pub fn new(next_hop: Ipv4Addr) -> (r: Self)
        ensures
            r == (NextHop { next_hop }),
    {
        Self { next_hop }
    }

    pub fn next_hop(&self) -> (r: Ipv4Addr)
        ensures
            r == self.next_hop,
    {
        self.next_hop
    }
}

impl PathAttributeValueProperties for NextHop {
    open spec fn spec_can_be_optional() -> Option<bool> {
        Some(false)
    }

    open spec fn spec_can_be_transitive() -> Option<bool> {
        Some(true)
    }

    open spec fn spec_can_be_partial() -> Option<bool> {
        Some(false)
    }

    fn can_be_optional() -> (r: Option<bool>) {
        Some(false)
    }

    fn can_be_transitive() -> (r: Option<bool>) {
        Some(true)
    }

    fn can_be_partial() -> (r: Option<bool>) {
        Some(false)
    }
}

/// MULTI_EXIT_DISC: an optional non-transitive four-octet metric used to
/// discriminate among multiple entry points to a neighboring AS.
#[derive(Debug, Clone, Copy, PartialEq, Eq, Hash, Structural)]
pub struct MultiExitDiscriminator {
    pub metric: u32,
}

impl MultiExitDiscriminator {
    pub fn new(metric: u32) -> (r: Self)
        ensures
            r == (MultiExitDiscriminator { metric }),
    {
        Self { metric }
    }

    pub fn metric(&self) -> (r: u32)
        ensures
            r == self.metric,
    {
        self.metric
    }
}

impl PathAttributeValueProperties for MultiExitDiscriminator {
    open spec fn spec_can_be_optional() -> Option<bool> {
        Some(true)
    }

    open spec fn spec_can_be_transitive() -> Option<bool> {
        Some(false)
    }

    open spec fn spec_can_be_partial() -> Option<bool> {
        Some(false)
    }

    fn can_be_optional() -> (r: Option<bool>) {
        Some(true)
    }

    fn can_be_transitive() -> (r: Option<bool>) {
        Some(false)
    }

    fn can_be_partial() -> (r: Option<bool>) {
        Some(false)
    }
}

/// `LOCAL_PREF`: a well-known four-octet degree of preference advertised to
/// internal peers.
#[derive(Debug, Clone, Copy, PartialEq, Eq, Hash, Structural)]
pub struct LocalPreference {
    pub metric: u32,
}

impl LocalPreference {
    pub fn new(metric: u32) -> (r: Self)
        ensures
            r == (LocalPreference { metric }),
    {
        Self { metric }
    }

    pub fn metric(&self) -> (r: u32)
        ensures
            r == self.metric,
    {
        self.metric
    }
}

impl PathAttributeValueProperties for LocalPreference {
    open spec fn spec_can_be_optional() -> Option<bool> {
        Some(false)
    }

    open spec fn spec_can_be_transitive() -> Option<bool> {
        Some(true)
    }

    open spec fn spec_can_be_partial() -> Option<bool> {
        Some(false)
    }

    fn can_be_optional() -> (r: Option<bool>) {
        Some(false)
    }

    fn can_be_transitive() -> (r: Option<bool>) {
        Some(true)
    }

    fn can_be_partial() -> (r: Option<bool>) {
        Some(false)
    }
}

/// `ATOMIC_AGGREGATE`: a well-known discretionary attribute of length 0.
#[derive(Debug, Clone, Copy, PartialEq, Eq, Hash, Structural)]
pub struct AtomicAggregate;

impl PathAttributeValueProperties for AtomicAggregate {
    open spec fn spec_can_be_optional() -> Option<bool> {
        Some(false)
    }

    open spec fn spec_can_be_transitive() -> Option<bool> {
        Some(true)
    }

    open spec fn spec_can_be_partial() -> Option<bool> {
        Some(false)
    }

    fn can_be_optional() -> (r: Option<bool>) {
        Some(false)
    }

    fn can_be_transitive() -> (r: Option<bool>) {
        Some(true)
    }

    fn can_be_partial() -> (r: Option<bool>) {
        Some(false)
    }
}

/// AGGREGATOR with a two-octet AS number: the last AS that formed the
/// aggregate route, and the address of the speaker that formed it.
#[derive(Debug, Clone, Copy, PartialEq, Eq, Hash, Structural)]
pub struct As2Aggregator {
    pub asn: u16,
    pub origin: Ipv4Addr,
}

impl As2Aggregator {
    pub fn new(asn: u16, origin: Ipv4Addr) -> (r: Self)
        ensures
            r == (As2Aggregator { asn, origin }),
    {
        Self { asn, origin }
    }

    pub fn asn(&self) -> (r: &u16)
        ensures
            r == &self.asn,
    {
        &self.asn
    }

    pub fn origin(&self) -> (r: Ipv4Addr)
        ensures
            r == self.origin,
    {
        self.origin
    }
}

/// AGGREGATOR with a four-octet AS number.
#[derive(Debug, Clone, Copy, PartialEq, Eq, Hash, Structural)]
pub struct As4Aggregator {
    pub asn: u32,
    pub origin: Ipv4Addr,
}

impl As4Aggregator {
    pub fn new(asn: u32, origin: Ipv4Addr) -> (r: Self)
        ensures
            r == (As4Aggregator { asn, origin }),
    {
        Self { asn, origin }
    }

    pub fn asn(&self) -> (r: &u32)
        ensures
            r == &self.asn,
    {
        &self.asn
    }

    pub fn origin(&self) -> (r: Ipv4Addr)
        ensures
            r == self.origin,
    {
        self.origin
    }
}

/// AGGREGATOR: an optional transitive attribute in the width that matches
/// the session's AS number size.
#[derive(Debug, Clone, Copy, PartialEq, Eq, Hash, Structural)]
pub enum Aggregator {
    As2Aggregator(As2Aggregator),
    As4Aggregator(As4Aggregator),
}

impl PathAttributeValueProperties for Aggregator {
    open spec fn spec_can_be_optional() -> Option<bool> {
        Some(true)
    }

    open spec fn spec_can_be_transitive() -> Option<bool> {
        Some(true)
    }

    open spec fn spec_can_be_partial() -> Option<bool> {
        None
    }

    fn can_be_optional() -> (r: Option<bool>) {
        Some(true)
    }

    fn can_be_transitive() -> (r: Option<bool>) {
        Some(true)
    }

    fn can_be_partial() -> (r: Option<bool>) {
        None
    }
}

/// A path attribute length is one or two octets wide, selected by the
/// extended-length flag bit; the chosen width is preserved for re-encoding.
#[derive(Debug, Clone, Copy, PartialEq, Eq, Hash, Structural)]
pub enum PathAttributeLength {
    U8(u8),
    U16(u16),
}

impl PathAttributeLength {
    /// The carried length as a 16-bit value.
    pub open spec fn spec_value(self) -> u16 {
        match self {
            PathAttributeLength::U8(len) => len as u16,
            PathAttributeLength::U16(len) => len,
        }
    }
}

impl From<PathAttributeLength> for u16 {
    fn from(path_attr_len: PathAttributeLength) -> u16 {
        match path_attr_len {
            PathAttributeLength::U8(len) => len as u16,
            PathAttributeLength::U16(len) => len,
        }
    }
}

impl vstd::std_specs::convert::FromSpecImpl<PathAttributeLength> for u16 {
    open spec fn obeys_from_spec() -> bool {
        true
    }

    open spec fn from_spec(t: PathAttributeLength) -> u16 {
        t.spec_value()
    }
}

/// COMMUNITIES: an optional transitive set of four-octet community values.
#[derive(Debug, Clone, PartialEq, Eq, Hash)]
pub struct Communities {
    pub communities: Vec<Community>,
}

impl Communities {
    pub fn new(communities: Vec<Community>) -> (r: Self)
        ensures
            r.communities == communities,
    {
        Self { communities }
    }

    pub fn communities(&self) -> (r: &Vec<Community>)
        ensures
            r == &self.communities,
    {
        &self.communities
    }
}

impl PathAttributeValueProperties for Communities {
    open spec fn spec_can_be_optional() -> Option<bool> {
        Some(true)
    }

    open spec fn spec_can_be_transitive() -> Option<bool> {
        Some(true)
    }

    open spec fn spec_can_be_partial() -> Option<bool> {
        None
    }

    fn can_be_optional() -> (r: Option<bool>) {
        Some(true)
    }

    fn can_be_transitive() -> (r: Option<bool>) {
        Some(true)
    }

    fn can_be_partial() -> (r: Option<bool>) {
        None
    }
}

/// Extended communities: eight-octet typed community values.
#[derive(Debug, Clone, PartialEq, Eq, Hash)]
pub struct ExtendedCommunities {
    pub communities: Vec<ExtendedCommunity>,
}

impl ExtendedCommunities {
    pub fn new(communities: Vec<ExtendedCommunity>) -> (r: Self)
        ensures
            r.communities == communities,
    {
        Self { communities }
    }

    pub fn communities(&self) -> (r: &Vec<ExtendedCommunity>)
        ensures
            r == &self.communities,
    {
        &self.communities
    }
}

impl PathAttributeValueProperties for ExtendedCommunities {
    open spec fn spec_can_be_optional() -> Option<bool> {
        Some(true)
    }

    open spec fn spec_can_be_transitive() -> Option<bool> {
        Some(true)
    }

    open spec fn spec_can_be_partial() -> Option<bool> {
        None
    }

    fn can_be_optional() -> (r: Option<bool>) {
        Some(true)
    }

    fn can_be_transitive() -> (r: Option<bool>) {
        Some(true)
    }

    fn can_be_partial() -> (r: Option<bool>) {
        None
    }
}

/// IPv6-address-specific extended communities.
#[derive(Debug, Clone, PartialEq, Eq, Hash)]
pub struct ExtendedCommunitiesIpv6 {
    pub communities: Vec<ExtendedCommunityIpv6>,
}

impl ExtendedCommunitiesIpv6 {
    pub fn new(communities: Vec<ExtendedCommunityIpv6>) -> (r: Self)
        ensures
            r.communities == communities,
    {
        Self { communities }
    }

    pub fn communities(&self) -> (r: &Vec<ExtendedCommunityIpv6>)
        ensures
            r == &self.communities,
    {
        &self.communities
    }
}

impl PathAttributeValueProperties for ExtendedCommunitiesIpv6 {
    open spec fn spec_can_be_optional() -> Option<bool> {
        Some(true)
    }

    open spec fn spec_can_be_transitive() -> Option<bool> {
        Some(true)
    }

    open spec fn spec_can_be_partial() -> Option<bool> {
        None
    }

    fn can_be_optional() -> (r: Option<bool>) {
        Some(true)
    }

    fn can_be_transitive() -> (r: Option<bool>) {
        Some(true)
    }

    fn can_be_partial() -> (r: Option<bool>) {
        None
    }
}

/// Large communities: twelve-octet community values.
#[derive(Debug, Clone, PartialEq, Eq, Hash)]
pub struct LargeCommunities {
    pub communities: Vec<LargeCommunity>,
}

impl LargeCommunities {
    pub fn new(communities: Vec<LargeCommunity>) -> (r: Self)
        ensures
            r.communities == communities,
    {
        Self { communities }
    }

    pub fn communities(&self) -> (r: &Vec<LargeCommunity>)
        ensures
            r == &self.communities,
    {
        &self.communities
    }
}

impl PathAttributeValueProperties for LargeCommunities {
    open spec fn spec_can_be_optional() -> Option<bool> {
        Some(true)
    }

    open spec fn spec_can_be_transitive() -> Option<bool> {
        Some(true)
    }

    open spec fn spec_can_be_partial() -> Option<bool> {
        None
    }

    fn can_be_optional() -> (r: Option<bool>) {
        Some(true)
    }

    fn can_be_transitive() -> (r: Option<bool>) {
        Some(true)
    }

    fn can_be_partial() -> (r: Option<bool>) {
        None
    }
}

/// `ORIGINATOR_ID`: the BGP identifier of the originator of a reflected
/// route.
#[derive(Debug, Clone, Copy, PartialEq, Eq, Hash, Structural)]
pub struct Originator(pub Ipv4Addr);

impl Originator {
    pub fn new(id: Ipv4Addr) -> (r: Self)
        ensures
            r == Originator(id),
    {
        Self(id)
    }

    pub fn id(&self) -> (r: Ipv4Addr)
        ensures
            r == self.0,
    {
        self.0
    }
}

impl PathAttributeValueProperties for Originator {
    open spec fn spec_can_be_optional() -> Option<bool> {
        Some(true)
    }

    open spec fn spec_can_be_transitive() -> Option<bool> {
        Some(false)
    }

    open spec fn spec_can_be_partial() -> Option<bool> {
        Some(false)
    }

    fn can_be_optional() -> (r: Option<bool>) {
        Some(true)
    }

    fn can_be_transitive() -> (r: Option<bool>) {
        Some(false)
    }

    fn can_be_partial() -> (r: Option<bool>) {
        Some(false)
    }
}

/// One `CLUSTER_ID` value of the reflection path.
#[derive(Debug, Clone, Copy, PartialEq, Eq, Hash, Structural)]
pub struct ClusterId(pub Ipv4Addr);

impl ClusterId {
    pub fn new(id: Ipv4Addr) -> (r: Self)
        ensures
            r == ClusterId(id),
    {
        Self(id)
    }

    pub fn id(&self) -> (r: Ipv4Addr)
        ensures
            r == self.0,
    {
        self.0
    }
}

/// `CLUSTER_LIST`: the sequence of cluster identifiers a reflected route
/// has passed.
#[derive(Debug, Clone, PartialEq, Eq, Hash)]
pub struct ClusterList(pub Vec<ClusterId>);

impl ClusterList {
    pub fn new(cluster_list: Vec<ClusterId>) -> (r: Self)
        ensures
            r.0 == cluster_list,
    {
        Self(cluster_list)
    }

    pub fn cluster_list(&self) -> (r: &Vec<ClusterId>)
        ensures
            r == &self.0,
    {
        &self.0
    }
}

impl PathAttributeValueProperties for ClusterList {
    open spec fn spec_can_be_optional() -> Option<bool> {
        Some(true)
    }

    open spec fn spec_can_be_transitive() -> Option<bool> {
        Some(false)
    }

    open spec fn spec_can_be_partial() -> Option<bool> {
        Some(false)
    }

    fn can_be_optional() -> (r: Option<bool>) {
        Some(true)
    }

    fn can_be_transitive() -> (r: Option<bool>) {
        Some(false)
    }

    fn can_be_partial() -> (r: Option<bool>) {
        Some(false)
    }
}

/// The BGP-LS attribute, carried with its undecoded TLV octets.
#[derive(Debug, Clone, PartialEq, Eq, Hash)]
pub struct BgpLsAttribute {
    pub value: Vec<u8>,
}

impl PathAttributeValueProperties for BgpLsAttribute {
    open spec fn spec_can_be_optional() -> Option<bool> {
        Some(true)
    }

    open spec fn spec_can_be_transitive() -> Option<bool> {
        None
    }

    open spec fn spec_can_be_partial() -> Option<bool> {
        Some(false)
    }

    fn can_be_optional() -> (r: Option<bool>) {
        Some(true)
    }

    fn can_be_transitive() -> (r: Option<bool>) {
        None
    }

    fn can_be_partial() -> (r: Option<bool>) {
        Some(false)
    }
}

/// The BGP Prefix-SID attribute, carried with its undecoded TLV octets.
#[derive(Debug, Clone, PartialEq, Eq, Hash)]
pub struct PrefixSegmentIdentifier {
    pub tlvs: Vec<u8>,
}

impl PathAttributeValueProperties for PrefixSegmentIdentifier {
    open spec fn spec_can_be_optional() -> Option<bool> {
        Some(true)
    }

    open spec fn spec_can_be_transitive() -> Option<bool> {
        Some(true)
    }

    open spec fn spec_can_be_partial() -> Option<bool> {
        None
    }

    fn can_be_optional() -> (r: Option<bool>) {
        Some(true)
    }

    fn can_be_transitive() -> (r: Option<bool>) {
        Some(true)
    }

    fn can_be_partial() -> (r: Option<bool>) {
        None
    }
}

/// Multiprotocol Reachable NLRI (`MP_REACH_NLRI`): an optional
/// non-transitive attribute advertising feasible routes of one address
/// family, with the next hop to use for them. Unknown (AFI, SAFI) pairs
/// are preserved with their raw payload.
#[derive(Debug, Clone, PartialEq, Eq, Hash)]
pub enum MpReach {
    Ipv4Unicast { next_hop: IpAddr, next_hop_local: Option<Ipv6Addr>, nlri: Vec<Ipv4UnicastAddress> },
    Ipv4Multicast { next_hop: IpAddr, next_hop_local: Option<Ipv6Addr>, nlri: Vec<Ipv4MulticastAddress> },
    Ipv4NlriMplsLabels { next_hop: IpAddr, next_hop_local: Option<Ipv6Addr>, nlri: Vec<Ipv4NlriMplsLabelsAddress> },
    Ipv4MplsVpnUnicast { next_hop: LabeledNextHop, nlri: Vec<Ipv4MplsVpnUnicastAddress> },
    Ipv6Unicast { next_hop_global: Ipv6Addr, next_hop_local: Option<Ipv6Addr>, nlri: Vec<Ipv6UnicastAddress> },
    Ipv6Multicast { next_hop_global: Ipv6Addr, next_hop_local: Option<Ipv6Addr>, nlri: Vec<Ipv6MulticastAddress> },
    Ipv6NlriMplsLabels { next_hop: IpAddr, next_hop_local: Option<Ipv6Addr>, nlri: Vec<Ipv6NlriMplsLabelsAddress> },
    Ipv6MplsVpnUnicast { next_hop: LabeledNextHop, nlri: Vec<Ipv6MplsVpnUnicastAddress> },
    L2Evpn { next_hop: IpAddr, nlri: Vec<L2EvpnAddress> },
    RouteTargetMembership { next_hop: IpAddr, nlri: Vec<RouteTargetMembershipAddress> },
    BgpLs { next_hop: IpAddr, nlri: Vec<BgpLsNlri> },
    BgpLsVpn { next_hop: LabeledNextHop, nlri: Vec<BgpLsVpnNlri> },
    Unknown { afi: AddressFamily, safi: SubsequentAddressFamily, value: Vec<u8> },
}

impl MpReach {
    /// The registered route family of the message, or the raw (AFI, SAFI)
    /// pair of an unknown one.
    pub open spec fn spec_address_type(self) -> Result<
        AddressType,
        (AddressFamily, SubsequentAddressFamily),
    > {
        match self {
            MpReach::Ipv4Unicast { .. } => Ok(AddressType::Ipv4Unicast),
            MpReach::Ipv4Multicast { .. } => Ok(AddressType::Ipv4Multicast),
            MpReach::Ipv4NlriMplsLabels { .. } => Ok(AddressType::Ipv4NlriMplsLabels),
            MpReach::Ipv4MplsVpnUnicast { .. } => Ok(AddressType::Ipv4MplsLabeledVpn),
            MpReach::Ipv6Unicast { .. } => Ok(AddressType::Ipv6Unicast),
            MpReach::Ipv6Multicast { .. } => Ok(AddressType::Ipv6Multicast),
            MpReach::Ipv6NlriMplsLabels { .. } => Ok(AddressType::Ipv6NlriMplsLabels),
            MpReach::Ipv6MplsVpnUnicast { .. } => Ok(AddressType::Ipv6MplsLabeledVpn),
            MpReach::L2Evpn { .. } => Ok(AddressType::L2VpnBgpEvpn),
            MpReach::RouteTargetMembership { .. } => Ok(AddressType::RouteTargetConstrains),
            MpReach::BgpLs { .. } => Ok(AddressType::BgpLs),
            MpReach::BgpLsVpn { .. } => Ok(AddressType::BgpLsVpn),
            MpReach::Unknown { afi, safi, .. } => Err((afi, safi)),
        }
    }

    /// The AFI of the message.
    pub open spec fn spec_afi(self) -> AddressFamily {
        match self.spec_address_type() {
            Ok(t) => t.spec_address_family(),
            Err((afi, _)) => afi,
        }
    }

    /// The SAFI of the message.
    pub open spec fn spec_safi(self) -> SubsequentAddressFamily {
        match self.spec_address_type() {
            Ok(t) => t.spec_subsequent_address_family(),
            Err((_, safi)) => safi,
        }
    }

    /// The route family of the message; the raw (AFI, SAFI) pair is
    /// returned for [`MpReach::Unknown`].
    pub fn address_type(&self) -> (r: Result<
        AddressType,
        (AddressFamily, SubsequentAddressFamily),
    >)
        ensures
            r == self.spec_address_type(),
    {
        match self {
            MpReach::Ipv4Unicast { .. } => Ok(AddressType::Ipv4Unicast),
            MpReach::Ipv4Multicast { .. } => Ok(AddressType::Ipv4Multicast),
            MpReach::Ipv4NlriMplsLabels { .. } => Ok(AddressType::Ipv4NlriMplsLabels),
            MpReach::Ipv4MplsVpnUnicast { .. } => Ok(AddressType::Ipv4MplsLabeledVpn),
            MpReach::Ipv6Unicast { .. } => Ok(AddressType::Ipv6Unicast),
            MpReach::Ipv6Multicast { .. } => Ok(AddressType::Ipv6Multicast),
            MpReach::Ipv6NlriMplsLabels { .. } => Ok(AddressType::Ipv6NlriMplsLabels),
            MpReach::Ipv6MplsVpnUnicast { .. } => Ok(AddressType::Ipv6MplsLabeledVpn),
            MpReach::L2Evpn { .. } => Ok(AddressType::L2VpnBgpEvpn),
            MpReach::RouteTargetMembership { .. } => Ok(AddressType::RouteTargetConstrains),
            MpReach::BgpLs { .. } => Ok(AddressType::BgpLs),
            MpReach::BgpLsVpn { .. } => Ok(AddressType::BgpLsVpn),
            MpReach::Unknown { afi, safi, .. } => Err((*afi, *safi)),
        }
    }

    /// The AFI of the message.
    pub fn afi(&self) -> (r: AddressFamily)
        ensures
            r == self.spec_afi(),
    {
        match self.address_type() {
            Ok(t) => t.address_family(),
            Err((afi, _)) => afi,
        }
    }

    /// The SAFI of the message.
    pub fn safi(&self) -> (r: SubsequentAddressFamily)
        ensures
            r == self.spec_safi(),
    {
        match self.address_type() {
            Ok(t) => t.subsequent_address_family(),
            Err((_, safi)) => safi,
        }
    }
}

impl PathAttributeValueProperties for MpReach {
    open spec fn spec_can_be_optional() -> Option<bool> {
        Some(true)
    }

    open spec fn spec_can_be_transitive() -> Option<bool> {
        Some(false)
    }

    open spec fn spec_can_be_partial() -> Option<bool> {
        Some(false)
    }

    fn can_be_optional() -> (r: Option<bool>) {
        Some(true)
    }

    fn can_be_transitive() -> (r: Option<bool>) {
        Some(false)
    }

    fn can_be_partial() -> (r: Option<bool>) {
        Some(false)
    }
}

/// Multiprotocol Unreachable NLRI (`MP_UNREACH_NLRI`): an optional
/// non-transitive attribute withdrawing routes of one address family.
#[derive(Debug, Clone, PartialEq, Eq, Hash)]
pub enum MpUnreach {
    Ipv4Unicast { nlri: Vec<Ipv4UnicastAddress> },
    Ipv4Multicast { nlri: Vec<Ipv4MulticastAddress> },
    Ipv4NlriMplsLabels { nlri: Vec<Ipv4NlriMplsLabelsAddress> },
    Ipv4MplsVpnUnicast { nlri: Vec<Ipv4MplsVpnUnicastAddress> },
    Ipv6Unicast { nlri: Vec<Ipv6UnicastAddress> },
    Ipv6Multicast { nlri: Vec<Ipv6MulticastAddress> },
    Ipv6NlriMplsLabels { nlri: Vec<Ipv6NlriMplsLabelsAddress> },
    Ipv6MplsVpnUnicast { nlri: Vec<Ipv6MplsVpnUnicastAddress> },
    L2Evpn { nlri: Vec<L2EvpnAddress> },
    RouteTargetMembership { nlri: Vec<RouteTargetMembershipAddress> },
    BgpLs { nlri: Vec<BgpLsNlri> },
    BgpLsVpn { nlri: Vec<BgpLsVpnNlri> },
    Unknown { afi: AddressFamily, safi: SubsequentAddressFamily, nlri: Vec<u8> },
}

impl MpUnreach {
    /// The registered route family of the message, or the raw (AFI, SAFI)
    /// pair of an unknown one.
    pub open spec fn spec_address_type(self) -> Result<
        AddressType,
        (AddressFamily, SubsequentAddressFamily),
    > {
        match self {
            MpUnreach::Ipv4Unicast { .. } => Ok(AddressType::Ipv4Unicast),
            MpUnreach::Ipv4Multicast { .. } => Ok(AddressType::Ipv4Multicast),
            MpUnreach::Ipv4NlriMplsLabels { .. } => Ok(AddressType::Ipv4NlriMplsLabels),
            MpUnreach::Ipv4MplsVpnUnicast { .. } => Ok(AddressType::Ipv4MplsLabeledVpn),
            MpUnreach::Ipv6Unicast { .. } => Ok(AddressType::Ipv6Unicast),
            MpUnreach::Ipv6Multicast { .. } => Ok(AddressType::Ipv6Multicast),
            MpUnreach::Ipv6NlriMplsLabels { .. } => Ok(AddressType::Ipv6NlriMplsLabels),
            MpUnreach::Ipv6MplsVpnUnicast { .. } => Ok(AddressType::Ipv6MplsLabeledVpn),
            MpUnreach::L2Evpn { .. } => Ok(AddressType::L2VpnBgpEvpn),
            MpUnreach::RouteTargetMembership { .. } => Ok(AddressType::RouteTargetConstrains),
            MpUnreach::BgpLs { .. } => Ok(AddressType::BgpLs),
            MpUnreach::BgpLsVpn { .. } => Ok(AddressType::BgpLsVpn),
            MpUnreach::Unknown { afi, safi, .. } => Err((afi, safi)),
        }
    }

    /// The AFI of the message.
    pub open spec fn spec_afi(self) -> AddressFamily {
        match self.spec_address_type() {
            Ok(t) => t.spec_address_family(),
            Err((afi, _)) => afi,
        }
    }

    /// The SAFI of the message.
    pub open spec fn spec_safi(self) -> SubsequentAddressFamily {
        match self.spec_address_type() {
            Ok(t) => t.spec_subsequent_address_family(),
            Err((_, safi)) => safi,
        }
    }

    /// The route family of the message; the raw (AFI, SAFI) pair is
    /// returned for [`MpUnreach::Unknown`].
    pub fn address_type(&self) -> (r: Result<
        AddressType,
        (AddressFamily, SubsequentAddressFamily),
    >)
        ensures
            r == self.spec_address_type(),
    {
        match self {
            MpUnreach::Ipv4Unicast { .. } => Ok(AddressType::Ipv4Unicast),
            MpUnreach::Ipv4Multicast { .. } => Ok(AddressType::Ipv4Multicast),
            MpUnreach::Ipv4NlriMplsLabels { .. } => Ok(AddressType::Ipv4NlriMplsLabels),
            MpUnreach::Ipv4MplsVpnUnicast { .. } => Ok(AddressType::Ipv4MplsLabeledVpn),
            MpUnreach::Ipv6Unicast { .. } => Ok(AddressType::Ipv6Unicast),
            MpUnreach::Ipv6Multicast { .. } => Ok(AddressType::Ipv6Multicast),
            MpUnreach::Ipv6NlriMplsLabels { .. } => Ok(AddressType::Ipv6NlriMplsLabels),
            MpUnreach::Ipv6MplsVpnUnicast { .. } => Ok(AddressType::Ipv6MplsLabeledVpn),
            MpUnreach::L2Evpn { .. } => Ok(AddressType::L2VpnBgpEvpn),
            MpUnreach::RouteTargetMembership { .. } => Ok(AddressType::RouteTargetConstrains),
            MpUnreach::BgpLs { .. } => Ok(AddressType::BgpLs),
            MpUnreach::BgpLsVpn { .. } => Ok(AddressType::BgpLsVpn),
            MpUnreach::Unknown { afi, safi, .. } => Err((*afi, *safi)),
        }
    }

    /// The AFI of the message.
    pub fn afi(&self) -> (r: AddressFamily)
        ensures
            r == self.spec_afi(),
    {
        match self.address_type() {
            Ok(t) => t.address_family(),
            Err((afi, _)) => afi,
        }
    }

    /// The SAFI of the message.
    pub fn safi(&self) -> (r: SubsequentAddressFamily)
        ensures
            r == self.spec_safi(),
    {
        match self.address_type() {
            Ok(t) => t.subsequent_address_family(),
            Err((_, safi)) => safi,
        }
    }
}

impl PathAttributeValueProperties for MpUnreach {
    open spec fn spec_can_be_optional() -> Option<bool> {
        Some(true)
    }

    open spec fn spec_can_be_transitive() -> Option<bool> {
        Some(false)
    }

    open spec fn spec_can_be_partial() -> Option<bool> {
        Some(false)
    }

    fn can_be_optional() -> (r: Option<bool>) {
        Some(true)
    }

    fn can_be_transitive() -> (r: Option<bool>) {
        Some(false)
    }

    fn can_be_partial() -> (r: Option<bool>) {
        Some(false)
    }
}

/// A path attribute that is not recognized: its code and raw value are
/// parsed as is, and only the transitive and partial bits are considered.
#[derive(Debug, Clone, PartialEq, Eq, Hash)]
pub struct UnknownAttribute {
    pub code: u8,
    pub value: Vec<u8>,
}

impl UnknownAttribute {
    pub fn new(code: u8, value: Vec<u8>) -> (r: Self)
        ensures
            r.code == code,
            r.value == value,
    {
        Self { code, value }
    }

    /// Attribute type code.
    pub fn code(&self) -> (r: u8)
        ensures
            r == self.code,
    {
        self.code
    }

    /// Raw octets of the value carried in the attribute.
    pub fn value(&self) -> (r: &Vec<u8>)
        ensures
            r == &self.value,
    {
        &self.value
    }
}

impl PathAttributeValueProperties for UnknownAttribute {
    open spec fn spec_can_be_optional() -> Option<bool> {
        None
    }

    open spec fn spec_can_be_transitive() -> Option<bool> {
        None
    }

    open spec fn spec_can_be_partial() -> Option<bool> {
        None
    }

    fn can_be_optional() -> (r: Option<bool>) {
        None
    }

    fn can_be_transitive() -> (r: Option<bool>) {
        None
    }

    fn can_be_partial() -> (r: Option<bool>) {
        None
    }
}

/// Only-To-Customer: the AS number beyond which the route must not be
/// propagated upwards.
#[derive(Debug, Clone, Copy, PartialEq, Eq, Hash, Structural)]
pub struct OnlyToCustomer(pub u32);

impl OnlyToCustomer {
    pub fn new(asn: u32) -> (r: Self)
        ensures
            r == OnlyToCustomer(asn),
    {
        Self(asn)
    }

    pub fn asn(&self) -> (r: u32)
        ensures
            r == self.0,
    {
        self.0
    }
}

impl PathAttributeValueProperties for OnlyToCustomer {
    open spec fn spec_can_be_optional() -> Option<bool> {
        Some(true)
    }

    open spec fn spec_can_be_transitive() -> Option<bool> {
        Some(true)
    }

    open spec fn spec_can_be_partial() -> Option<bool> {
        Some(false)
    }

    fn can_be_optional() -> (r: Option<bool>) {
        Some(true)
    }

    fn can_be_transitive() -> (r: Option<bool>) {
        Some(true)
    }

    fn can_be_partial() -> (r: Option<bool>) {
        Some(false)
    }
}

/// Accumulated IGP metric attribute.
#[derive(Debug, Clone, Copy, PartialEq, Eq, Hash, Structural)]
pub enum Aigp {
    AccumulatedIgpMetric(u64),
}

impl PathAttributeValueProperties for Aigp {
    open spec fn spec_can_be_optional() -> Option<bool> {
        Some(true)
    }

    open spec fn spec_can_be_transitive() -> Option<bool> {
        Some(false)
    }

    open spec fn spec_can_be_partial() -> Option<bool> {
        Some(false)
    }

    fn can_be_optional() -> (r: Option<bool>) {
        Some(true)
    }

    fn can_be_transitive() -> (r: Option<bool>) {
        Some(false)
    }

    fn can_be_partial() -> (r: Option<bool>) {
        Some(false)
    }
}

/// The value carried by a path attribute, one variant per attribute kind,
/// with [`UnknownAttribute`] as the structured fallback.
#[derive(Debug, Clone, PartialEq, Eq, Hash)]
pub enum PathAttributeValue {
    Origin(Origin),
    AsPath(AsPath),
    As4Path(As4Path),
    NextHop(NextHop),
    MultiExitDiscriminator(MultiExitDiscriminator),
    LocalPreference(LocalPreference),
    AtomicAggregate(AtomicAggregate),
    Aggregator(Aggregator),
    Communities(Communities),
    ExtendedCommunities(ExtendedCommunities),
    ExtendedCommunitiesIpv6(ExtendedCommunitiesIpv6),
    LargeCommunities(LargeCommunities),
    Originator(Originator),
    ClusterList(ClusterList),
    MpReach(MpReach),
    MpUnreach(MpUnreach),
    BgpLs(BgpLsAttribute),
    OnlyToCustomer(OnlyToCustomer),
    Aigp(Aigp),
    PrefixSegmentIdentifier(PrefixSegmentIdentifier),
    UnknownAttribute(UnknownAttribute),
}

impl PathAttributeValue {
    /// The rule for the `optional` bit of the carried kind.
    pub open spec fn spec_can_be_optional(self) -> Option<bool> {
        match self {
            PathAttributeValue::Origin(_) => Origin::spec_can_be_optional(),
            PathAttributeValue::AsPath(_) => AsPath::spec_can_be_optional(),
            PathAttributeValue::As4Path(_) => As4Path::spec_can_be_optional(),
            PathAttributeValue::NextHop(_) => NextHop::spec_can_be_optional(),
            PathAttributeValue::MultiExitDiscriminator(_) => MultiExitDiscriminator::spec_can_be_optional(),
            PathAttributeValue::LocalPreference(_) => LocalPreference::spec_can_be_optional(),
            PathAttributeValue::AtomicAggregate(_) => AtomicAggregate::spec_can_be_optional(),
            PathAttributeValue::Aggregator(_) => Aggregator::spec_can_be_optional(),
            PathAttributeValue::Communities(_) => Communities::spec_can_be_optional(),
            PathAttributeValue::ExtendedCommunities(_) => ExtendedCommunities::spec_can_be_optional(),
            PathAttributeValue::ExtendedCommunitiesIpv6(_) => ExtendedCommunitiesIpv6::spec_can_be_optional(),
            PathAttributeValue::LargeCommunities(_) => LargeCommunities::spec_can_be_optional(),
            PathAttributeValue::Originator(_) => Originator::spec_can_be_optional(),
            PathAttributeValue::ClusterList(_) => ClusterList::spec_can_be_optional(),
            PathAttributeValue::MpReach(_) => MpReach::spec_can_be_optional(),
            PathAttributeValue::MpUnreach(_) => MpUnreach::spec_can_be_optional(),
            PathAttributeValue::BgpLs(_) => BgpLsAttribute::spec_can_be_optional(),
            PathAttributeValue::OnlyToCustomer(_) => OnlyToCustomer::spec_can_be_optional(),
            PathAttributeValue::Aigp(_) => Aigp::spec_can_be_optional(),
            PathAttributeValue::PrefixSegmentIdentifier(_) => PrefixSegmentIdentifier::spec_can_be_optional(),
            PathAttributeValue::UnknownAttribute(_) => UnknownAttribute::spec_can_be_partial(),
        }
    }

    /// The rule for the `transitive` bit of the carried kind.
    pub open spec fn spec_can_be_transitive(self) -> Option<bool> {
        match self {
            PathAttributeValue::Origin(_) => Origin::spec_can_be_transitive(),
            PathAttributeValue::AsPath(_) => AsPath::spec_can_be_transitive(),
            PathAttributeValue::As4Path(_) => As4Path::spec_can_be_transitive(),
            PathAttributeValue::NextHop(_) => NextHop::spec_can_be_transitive(),
            PathAttributeValue::MultiExitDiscriminator(_) => MultiExitDiscriminator::spec_can_be_transitive(),
            PathAttributeValue::LocalPreference(_) => LocalPreference::spec_can_be_transitive(),
            PathAttributeValue::AtomicAggregate(_) => AtomicAggregate::spec_can_be_transitive(),
            PathAttributeValue::Aggregator(_) => Aggregator::spec_can_be_transitive(),
            PathAttributeValue::Communities(_) => Communities::spec_can_be_transitive(),
            PathAttributeValue::ExtendedCommunities(_) => ExtendedCommunities::spec_can_be_transitive(),
            PathAttributeValue::ExtendedCommunitiesIpv6(_) => ExtendedCommunitiesIpv6::spec_can_be_transitive(),
            PathAttributeValue::LargeCommunities(_) => LargeCommunities::spec_can_be_transitive(),
            PathAttributeValue::Originator(_) => Originator::spec_can_be_transitive(),
            PathAttributeValue::ClusterList(_) => ClusterList::spec_can_be_transitive(),
            PathAttributeValue::MpReach(_) => MpReach::spec_can_be_transitive(),
            PathAttributeValue::MpUnreach(_) => MpUnreach::spec_can_be_transitive(),
            PathAttributeValue::BgpLs(_) => BgpLsAttribute::spec_can_be_transitive(),
            PathAttributeValue::OnlyToCustomer(_) => OnlyToCustomer::spec_can_be_transitive(),
            PathAttributeValue::Aigp(_) => Aigp::spec_can_be_transitive(),
            PathAttributeValue::PrefixSegmentIdentifier(_) => PrefixSegmentIdentifier::spec_can_be_transitive(),
            PathAttributeValue::UnknownAttribute(_) => UnknownAttribute::spec_can_be_transitive(),
        }
    }

    /// The rule for the `partial` bit of the carried kind.
    pub open spec fn spec_can_be_partial(self) -> Option<bool> {
        match self {
            PathAttributeValue::Origin(_) => Origin::spec_can_be_partial(),
            PathAttributeValue::AsPath(_) => AsPath::spec_can_be_partial(),
            PathAttributeValue::As4Path(_) => As4Path::spec_can_be_partial(),
            PathAttributeValue::NextHop(_) => NextHop::spec_can_be_partial(),
            PathAttributeValue::MultiExitDiscriminator(_) => MultiExitDiscriminator::spec_can_be_partial(),
            PathAttributeValue::LocalPreference(_) => LocalPreference::spec_can_be_partial(),
            PathAttributeValue::AtomicAggregate(_) => AtomicAggregate::spec_can_be_partial(),
            PathAttributeValue::Aggregator(_) => Aggregator::spec_can_be_partial(),
            PathAttributeValue::Communities(_) => Communities::spec_can_be_partial(),
            PathAttributeValue::ExtendedCommunities(_) => ExtendedCommunities::spec_can_be_partial(),
            PathAttributeValue::ExtendedCommunitiesIpv6(_) => ExtendedCommunitiesIpv6::spec_can_be_partial(),
            PathAttributeValue::LargeCommunities(_) => LargeCommunities::spec_can_be_partial(),
            PathAttributeValue::Originator(_) => Originator::spec_can_be_partial(),
            PathAttributeValue::ClusterList(_) => ClusterList::spec_can_be_partial(),
            PathAttributeValue::MpReach(_) => MpReach::spec_can_be_partial(),
            PathAttributeValue::MpUnreach(_) => MpUnreach::spec_can_be_partial(),
            PathAttributeValue::BgpLs(_) => BgpLsAttribute::spec_can_be_partial(),
            PathAttributeValue::OnlyToCustomer(_) => OnlyToCustomer::spec_can_be_partial(),
            PathAttributeValue::Aigp(_) => Aigp::spec_can_be_partial(),
            PathAttributeValue::PrefixSegmentIdentifier(_) => PrefixSegmentIdentifier::spec_can_be_partial(),
            PathAttributeValue::UnknownAttribute(_) => UnknownAttribute::spec_can_be_partial(),
        }
    }

    /// All three flag bits agree with the carried kind's matrix.
    pub open spec fn spec_flags_valid(self, optional: bool, transitive: bool, partial: bool) -> bool {
        &&& spec_flag_ok(self.spec_can_be_optional(), optional)
        &&& spec_flag_ok(self.spec_can_be_transitive(), transitive)
        &&& spec_flag_ok(self.spec_can_be_partial(), partial)
    }

    /// The attribute type of the carried kind, or the raw code of an
    /// unknown attribute.
    pub open spec fn spec_path_attribute_type(self) -> Result<PathAttributeType, u8> {
        match self {
            PathAttributeValue::Origin(_) => Ok(PathAttributeType::Origin),
            PathAttributeValue::AsPath(_) => Ok(PathAttributeType::AsPath),
            PathAttributeValue::As4Path(_) => Ok(PathAttributeType::As4Path),
            PathAttributeValue::NextHop(_) => Ok(PathAttributeType::NextHop),
            PathAttributeValue::MultiExitDiscriminator(_) => Ok(PathAttributeType::MultiExitDiscriminator),
            PathAttributeValue::LocalPreference(_) => Ok(PathAttributeType::LocalPreference),
            PathAttributeValue::AtomicAggregate(_) => Ok(PathAttributeType::AtomicAggregate),
            PathAttributeValue::Aggregator(_) => Ok(PathAttributeType::Aggregator),
            PathAttributeValue::Communities(_) => Ok(PathAttributeType::Communities),
            PathAttributeValue::ExtendedCommunities(_) => Ok(PathAttributeType::ExtendedCommunities),
            PathAttributeValue::ExtendedCommunitiesIpv6(_) => Ok(PathAttributeType::ExtendedCommunitiesIpv6),
            PathAttributeValue::LargeCommunities(_) => Ok(PathAttributeType::LargeCommunities),
            PathAttributeValue::Originator(_) => Ok(PathAttributeType::OriginatorId),
            PathAttributeValue::ClusterList(_) => Ok(PathAttributeType::ClusterList),
            PathAttributeValue::MpReach(_) => Ok(PathAttributeType::MpReachNlri),
            PathAttributeValue::MpUnreach(_) => Ok(PathAttributeType::MpUnreachNlri),
            PathAttributeValue::BgpLs(_) => Ok(PathAttributeType::BgpLsAttribute),
            PathAttributeValue::OnlyToCustomer(_) => Ok(PathAttributeType::OnlyToCustomer),
            PathAttributeValue::Aigp(_) => Ok(PathAttributeType::AccumulatedIgp),
            PathAttributeValue::PrefixSegmentIdentifier(_) => Ok(PathAttributeType::BgpPrefixSid),
            PathAttributeValue::UnknownAttribute(u) => Err(u.code),
        }
    }

    /// The rule for the `optional` bit of the carried kind.
    pub fn can_be_optional(&self) -> (r: Option<bool>)
        ensures
            r == self.spec_can_be_optional(),
    {
        match self {
            Self::Origin(_) => Origin::can_be_optional(),
            Self::AsPath(_) => AsPath::can_be_optional(),
            Self::As4Path(_) => As4Path::can_be_optional(),
            Self::NextHop(_) => NextHop::can_be_optional(),
            Self::MultiExitDiscriminator(_) => MultiExitDiscriminator::can_be_optional(),
            Self::LocalPreference(_) => LocalPreference::can_be_optional(),
            Self::AtomicAggregate(_) => AtomicAggregate::can_be_optional(),
            Self::Aggregator(_) => Aggregator::can_be_optional(),
            Self::Communities(_) => Communities::can_be_optional(),
            Self::ExtendedCommunities(_) => ExtendedCommunities::can_be_optional(),
            Self::ExtendedCommunitiesIpv6(_) => ExtendedCommunitiesIpv6::can_be_optional(),
            Self::LargeCommunities(_) => LargeCommunities::can_be_optional(),
            Self::Originator(_) => Originator::can_be_optional(),
            Self::ClusterList(_) => ClusterList::can_be_optional(),
            Self::MpReach(_) => MpReach::can_be_optional(),
            Self::MpUnreach(_) => MpUnreach::can_be_optional(),
            Self::BgpLs(_) => BgpLsAttribute::can_be_optional(),
            Self::OnlyToCustomer(_) => OnlyToCustomer::can_be_optional(),
            Self::Aigp(_) => Aigp::can_be_optional(),
            Self::PrefixSegmentIdentifier(_) => PrefixSegmentIdentifier::can_be_optional(),
            Self::UnknownAttribute(_) => UnknownAttribute::can_be_partial(),
        }
    }

    /// The rule for the `transitive` bit of the carried kind.
    pub fn can_be_transitive(&self) -> (r: Option<bool>)
        ensures
            r == self.spec_can_be_transitive(),
    {
        match self {
            Self::Origin(_) => Origin::can_be_transitive(),
            Self::AsPath(_) => AsPath::can_be_transitive(),
            Self::As4Path(_) => As4Path::can_be_transitive(),
            Self::NextHop(_) => NextHop::can_be_transitive(),
            Self::MultiExitDiscriminator(_) => MultiExitDiscriminator::can_be_transitive(),
            Self::LocalPreference(_) => LocalPreference::can_be_transitive(),
            Self::AtomicAggregate(_) => AtomicAggregate::can_be_transitive(),
            Self::Aggregator(_) => Aggregator::can_be_transitive(),
            Self::Communities(_) => Communities::can_be_transitive(),
            Self::ExtendedCommunities(_) => ExtendedCommunities::can_be_transitive(),
            Self::ExtendedCommunitiesIpv6(_) => ExtendedCommunitiesIpv6::can_be_transitive(),
            Self::LargeCommunities(_) => LargeCommunities::can_be_transitive(),
            Self::Originator(_) => Originator::can_be_transitive(),
            Self::ClusterList(_) => ClusterList::can_be_transitive(),
            Self::MpReach(_) => MpReach::can_be_transitive(),
            Self::MpUnreach(_) => MpUnreach::can_be_transitive(),
            Self::BgpLs(_) => BgpLsAttribute::can_be_transitive(),
            Self::OnlyToCustomer(_) => OnlyToCustomer::can_be_transitive(),
            Self::Aigp(_) => Aigp::can_be_transitive(),
            Self::PrefixSegmentIdentifier(_) => PrefixSegmentIdentifier::can_be_transitive(),
            Self::UnknownAttribute(_) => UnknownAttribute::can_be_transitive(),
        }
    }

    /// The rule for the `partial` bit of the carried kind.
    pub fn can_be_partial(&self) -> (r: Option<bool>)
        ensures
            r == self.spec_can_be_partial(),
    {
        match self {
            Self::Origin(_) => Origin::can_be_partial(),
            Self::AsPath(_) => AsPath::can_be_partial(),
            Self::As4Path(_) => As4Path::can_be_partial(),
            Self::NextHop(_) => NextHop::can_be_partial(),
            Self::MultiExitDiscriminator(_) => MultiExitDiscriminator::can_be_partial(),
            Self::LocalPreference(_) => LocalPreference::can_be_partial(),
            Self::AtomicAggregate(_) => AtomicAggregate::can_be_partial(),
            Self::Aggregator(_) => Aggregator::can_be_partial(),
            Self::Communities(_) => Communities::can_be_partial(),
            Self::ExtendedCommunities(_) => ExtendedCommunities::can_be_partial(),
            Self::ExtendedCommunitiesIpv6(_) => ExtendedCommunitiesIpv6::can_be_partial(),
            Self::LargeCommunities(_) => LargeCommunities::can_be_partial(),
            Self::Originator(_) => Originator::can_be_partial(),
            Self::ClusterList(_) => ClusterList::can_be_partial(),
            Self::MpReach(_) => MpReach::can_be_partial(),
            Self::MpUnreach(_) => MpUnreach::can_be_partial(),
            Self::BgpLs(_) => BgpLsAttribute::can_be_partial(),
            Self::OnlyToCustomer(_) => OnlyToCustomer::can_be_partial(),
            Self::Aigp(_) => Aigp::can_be_partial(),
            Self::PrefixSegmentIdentifier(_) => PrefixSegmentIdentifier::can_be_partial(),
            Self::UnknownAttribute(_) => UnknownAttribute::can_be_partial(),
        }
    }

    /// The attribute type of the carried kind; the raw code is returned
    /// for an unknown attribute.
    pub fn path_attribute_type(&self) -> (r: Result<PathAttributeType, u8>)
        ensures
            r == self.spec_path_attribute_type(),
    {
        match self {
            PathAttributeValue::Origin(_) => Ok(PathAttributeType::Origin),
            PathAttributeValue::AsPath(_) => Ok(PathAttributeType::AsPath),
            PathAttributeValue::As4Path(_) => Ok(PathAttributeType::As4Path),
            PathAttributeValue::NextHop(_) => Ok(PathAttributeType::NextHop),
            PathAttributeValue::MultiExitDiscriminator(_) => Ok(PathAttributeType::MultiExitDiscriminator),
            PathAttributeValue::LocalPreference(_) => Ok(PathAttributeType::LocalPreference),
            PathAttributeValue::AtomicAggregate(_) => Ok(PathAttributeType::AtomicAggregate),
            PathAttributeValue::Aggregator(_) => Ok(PathAttributeType::Aggregator),
            PathAttributeValue::Communities(_) => Ok(PathAttributeType::Communities),
            PathAttributeValue::ExtendedCommunities(_) => Ok(PathAttributeType::ExtendedCommunities),
            PathAttributeValue::ExtendedCommunitiesIpv6(_) => Ok(PathAttributeType::ExtendedCommunitiesIpv6),
            PathAttributeValue::LargeCommunities(_) => Ok(PathAttributeType::LargeCommunities),
            PathAttributeValue::Originator(_) => Ok(PathAttributeType::OriginatorId),
            PathAttributeValue::ClusterList(_) => Ok(PathAttributeType::ClusterList),
            PathAttributeValue::MpReach(_) => Ok(PathAttributeType::MpReachNlri),
            PathAttributeValue::MpUnreach(_) => Ok(PathAttributeType::MpUnreachNlri),
            PathAttributeValue::BgpLs(_) => Ok(PathAttributeType::BgpLsAttribute),
            PathAttributeValue::OnlyToCustomer(_) => Ok(PathAttributeType::OnlyToCustomer),
            PathAttributeValue::Aigp(_) => Ok(PathAttributeType::AccumulatedIgp),
            PathAttributeValue::PrefixSegmentIdentifier(_) => Ok(PathAttributeType::BgpPrefixSid),
            PathAttributeValue::UnknownAttribute(u) => Err(u.code),
        }
    }
}

/// A path attribute: the four header flag bits and the typed value.
///
/// Construction through [`PathAttribute::from`] enforces the well-known
/// flag matrix of the carried kind, so a constructed attribute always
/// satisfies [`PathAttributeValue::spec_flags_valid`].
#[derive(Debug, Clone, PartialEq, Eq, Hash)]
pub struct PathAttribute {
    pub optional: bool,
    pub transitive: bool,
    pub partial: bool,
    pub extended_length: bool,
    pub value: PathAttributeValue,
}

impl PathAttribute {
    /// The error [`PathAttribute::from`] reports for the given flags, if
    /// any: the checks run in the order optional, transitive, partial.
    pub open spec fn spec_flags_error(
        value: PathAttributeValue,
        optional: bool,
        transitive: bool,
        partial: bool,
    ) -> Option<InvalidPathAttribute> {
        if !spec_flag_ok(value.spec_can_be_optional(), optional) {
            Some(InvalidPathAttribute::InvalidOptionalFlagValue(optional))
        } else if !spec_flag_ok(value.spec_can_be_transitive(), transitive) {
            Some(InvalidPathAttribute::InvalidTransitiveFlagValue(transitive))
        } else if !spec_flag_ok(value.spec_can_be_partial(), partial) {
            Some(InvalidPathAttribute::InvalidPartialFlagValue(partial))
        } else {
            None
        }
    }

    /// Construct a path attribute, rejecting flags that disagree with the
    /// well-known matrix of the value's kind.
    pub fn from(
        optional: bool,
        transitive: bool,
        partial: bool,
        extended_length: bool,
        value: PathAttributeValue,
    ) -> (r: Result<PathAttribute, (PathAttributeValue, InvalidPathAttribute)>)
        ensures
            match r {
                Ok(a) => {
                    &&& value.spec_flags_valid(optional, transitive, partial)
                    &&& a == (PathAttribute { optional, transitive, partial, extended_length, value })
                },
                Err((v, e)) => {
                    &&& v == value
                    &&& Self::spec_flags_error(value, optional, transitive, partial) == Some(e)
                    &&& !value.spec_flags_valid(optional, transitive, partial)
                },
            },
    {
        let optional_rule = value.can_be_optional();
        if match optional_rule {
            Some(x) => x != optional,
            None => false,
        } {
            return Err((value, InvalidPathAttribute::InvalidOptionalFlagValue(optional)));
        }
        let transitive_rule = value.can_be_transitive();
        if match transitive_rule {
            Some(x) => x != transitive,
            None => false,
        } {
            return Err((value, InvalidPathAttribute::InvalidTransitiveFlagValue(transitive)));
        }
        let partial_rule = value.can_be_partial();
        if match partial_rule {
            Some(x) => x != partial,
            None => false,
        } {
            return Err((value, InvalidPathAttribute::InvalidPartialFlagValue(partial)));
        }
        Ok(PathAttribute { optional, transitive, partial, extended_length, value })
    }

    pub fn value(&self) -> (r: &PathAttributeValue)
        ensures
            r == &self.value,
    {
        &self.value
    }

    /// Whether the attribute is optional (set) or well-known (clear).
    pub fn optional(&self) -> (r: bool)
        ensures
            r == self.optional,
    {
        self.optional
    }

    /// Whether the information in an optional transitive attribute is
    /// partial (set) or complete (clear).
    pub fn partial(&self) -> (r: bool)
        ensures
            r == self.partial,
    {
        self.partial
    }

    pub fn transitive(&self) -> (r: bool)
        ensures
            r == self.transitive,
    {
        self.transitive
    }

    /// Whether the attribute length is one octet (clear) or two (set).
    pub fn extended_length(&self) -> (r: bool)
        ensures
            r == self.extended_length,
    {
        self.extended_length
    }

    pub fn path_attribute_type(&self) -> (r: Result<PathAttributeType, u8>)
        ensures
            r == self.value.spec_path_attribute_type(),
    {
        self.value.path_attribute_type()
    }
}


} // verus!
