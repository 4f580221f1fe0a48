//! Serializers for the BGP wire protocol.
//!
//! The spec functions here define the exact octets of each construct; every
//! writer appends precisely those octets to its output vector, and every
//! length function returns their count. The attribute writer covers the
//! fixed-layout and list-valued attribute kinds and the raw-valued ones;
//! the multiprotocol reach/unreach and link-state kinds, whose payloads
//! this crate does not model octet-exactly, are reported as unsupported
//! rather than written wrongly.

use vstd::prelude::*;

use crate::addr::IpAddr;
use crate::bytes::spec_be16;
use crate::bytes::spec_be32;
use crate::bytes::spec_be64;
use crate::bytes::write_be16;
use crate::bytes::write_be32;
use crate::bytes::write_be64;
use crate::iana::PathAttributeType;
use crate::nlri::Ipv4Net;
use crate::path_attribute::Aggregator;
use crate::path_attribute::As2PathSegment;
use crate::path_attribute::As4PathSegment;
use crate::path_attribute::AsPath;
use crate::path_attribute::PathAttribute;
use crate::path_attribute::PathAttributeValue;

verus! {

/// The number of octets needed for a prefix of `len` bits.
pub open spec fn spec_round_len(len: u8) -> int {
    (len + 7) / 8
}

/// Helper method to round up the number of octets for a given bit length.
pub fn round_len(len: u8) -> (r: u8)
    ensures
        r == spec_round_len(len),
{
    ((len as u16 + 7) / 8) as u8
}

/// The octets of a prefix: its bit length, then just enough address
/// octets to cover it.
pub open spec fn spec_ipv4net_bytes(n: Ipv4Net) -> Seq<u8> {
    seq![n.prefix_len] + n.addr.spec_octets().take(spec_round_len(n.prefix_len))
}

/// Append the octets of an IPv4 prefix.
pub fn write_ipv4net(n: &Ipv4Net, out: &mut Vec<u8>)
    requires
        n.wf(),
    ensures
        final(out)@ == old(out)@ + spec_ipv4net_bytes(*n),
{
    out.push(n.prefix_len);
    let octets = round_len(n.prefix_len);
    if octets >= 1 {
        out.push(n.addr.o0);
    }
    if octets >= 2 {
        out.push(n.addr.o1);
    }
    if octets >= 3 {
        out.push(n.addr.o2);
    }
    if octets >= 4 {
        out.push(n.addr.o3);
    }
    assert(final(out)@ =~= old(out)@ + spec_ipv4net_bytes(*n));
}

/// The octets of one two-octet AS path segment: type, count, AS numbers.
pub open spec fn spec_as2_segment_bytes(s: As2PathSegment) -> Seq<u8> {
    seq![s.segment_type.spec_code(), s.as_numbers@.len() as u8] + s.as_numbers@.flat_map(
        |x: u16| spec_be16(x),
    )
}

/// The octets of one four-octet AS path segment: type, count, AS numbers.
pub open spec fn spec_as4_segment_bytes(s: As4PathSegment) -> Seq<u8> {
    seq![s.segment_type.spec_code(), s.as_numbers@.len() as u8] + s.as_numbers@.flat_map(
        |x: u32| spec_be32(x),
    )
}

/// A segment's AS count must fit its one-octet count field.
pub open spec fn spec_as2_segment_wf(s: As2PathSegment) -> bool {
    s.as_numbers@.len() <= 255
}

/// A segment's AS count must fit its one-octet count field.
pub open spec fn spec_as4_segment_wf(s: As4PathSegment) -> bool {
    s.as_numbers@.len() <= 255
}

/// The octets of an AS path: its segments in order.
pub open spec fn spec_as_path_bytes(p: AsPath) -> Seq<u8> {
    match p {
        AsPath::As2PathSegments(segs) => segs@.flat_map(
            |s: As2PathSegment| spec_as2_segment_bytes(s),
        ),
        AsPath::As4PathSegments(segs) => segs@.flat_map(
            |s: As4PathSegment| spec_as4_segment_bytes(s),
        ),
    }
}

/// Every segment of the path fits its count field.
pub open spec fn spec_as_path_wf(p: AsPath) -> bool {
    match p {
        AsPath::As2PathSegments(segs) => forall|i: int|
            0 <= i < segs@.len() ==> spec_as2_segment_wf(#[trigger] segs@[i]),
        AsPath::As4PathSegments(segs) => forall|i: int|
            0 <= i < segs@.len() ==> spec_as4_segment_wf(#[trigger] segs@[i]),
    }
}

/// The octets of a sequence of four-octet AS path segments.
pub open spec fn spec_as4_segments_bytes(segs: Seq<As4PathSegment>) -> Seq<u8> {
    segs.flat_map(|s: As4PathSegment| spec_as4_segment_bytes(s))
}

/// Every segment fits its count field.
pub open spec fn spec_as4_segments_wf(segs: Seq<As4PathSegment>) -> bool {
    forall|i: int| 0 <= i < segs.len() ==> spec_as4_segment_wf(#[trigger] segs[i])
}

/// Append one two-octet AS path segment.
#[verifier::loop_isolation(false)]
pub fn write_as2_segment(s: &As2PathSegment, out: &mut Vec<u8>)
    requires
        spec_as2_segment_wf(*s),
    ensures
        final(out)@ == old(out)@ + spec_as2_segment_bytes(*s),
{
    let ghost f = |x: u16| spec_be16(x);
    out.push(s.segment_type.code());
    out.push(s.as_numbers.len() as u8);
    let ghost head = out@;
    let n = s.as_numbers.len();
    let mut i: usize = 0;
    while i < n
        invariant
            out@ == head + s.as_numbers@.take(i as int).flat_map(f),
            i <= n,
        decreases n - i,
    {
        proof {
            s.as_numbers@.lemma_flat_map_take_append(f, i as int);
        }
        write_be16(out, s.as_numbers[i]);
        i = i + 1;
    }
    proof {
        assert(s.as_numbers@.take(n as int) =~= s.as_numbers@);
        assert(final(out)@ =~= old(out)@ + spec_as2_segment_bytes(*s));
    }
}

/// Append one four-octet AS path segment.
#[verifier::loop_isolation(false)]
pub fn write_as4_segment(s: &As4PathSegment, out: &mut Vec<u8>)
    requires
        spec_as4_segment_wf(*s),
    ensures
        final(out)@ == old(out)@ + spec_as4_segment_bytes(*s),
{
    let ghost f = |x: u32| spec_be32(x);
    out.push(s.segment_type.code());
    out.push(s.as_numbers.len() as u8);
    let ghost head = out@;
    let n = s.as_numbers.len();
    let mut i: usize = 0;
    while i < n
        invariant
            out@ == head + s.as_numbers@.take(i as int).flat_map(f),
            i <= n,
        decreases n - i,
    {
        proof {
            s.as_numbers@.lemma_flat_map_take_append(f, i as int);
        }
        write_be32(out, s.as_numbers[i]);
        i = i + 1;
    }
    proof {
        assert(s.as_numbers@.take(n as int) =~= s.as_numbers@);
        assert(final(out)@ =~= old(out)@ + spec_as4_segment_bytes(*s));
    }
}

/// Append a sequence of four-octet segments.
#[verifier::loop_isolation(false)]
pub fn write_as4_segments(segs: &Vec<As4PathSegment>, out: &mut Vec<u8>)
    requires
        spec_as4_segments_wf(segs@),
    ensures
        final(out)@ == old(out)@ + spec_as4_segments_bytes(segs@),
{
    let ghost f = |s: As4PathSegment| spec_as4_segment_bytes(s);
    let ghost head = out@;
    let n = segs.len();
    let mut i: usize = 0;
    while i < n
        invariant
            out@ == head + segs@.take(i as int).flat_map(f),
            i <= n,
        decreases n - i,
    {
        proof {
            segs@.lemma_flat_map_take_append(f, i as int);
        }
        write_as4_segment(&segs[i], out);
        i = i + 1;
    }
    proof {
        assert(segs@.take(n as int) =~= segs@);
    }
}

/// Append the segments of an AS path.
#[verifier::loop_isolation(false)]
pub fn write_as_path(p: &AsPath, out: &mut Vec<u8>)
    requires
        spec_as_path_wf(*p),
    ensures
        final(out)@ == old(out)@ + spec_as_path_bytes(*p),
{
    match p {
        AsPath::As2PathSegments(segs) => {
            let ghost f = |s: As2PathSegment| spec_as2_segment_bytes(s);
            let ghost head = out@;
            let n = segs.len();
            let mut i: usize = 0;
            while i < n
                invariant
                    out@ == head + segs@.take(i as int).flat_map(f),
                    i <= n,
                decreases n - i,
            {
                proof {
                    segs@.lemma_flat_map_take_append(f, i as int);
                }
                write_as2_segment(&segs[i], out);
                i = i + 1;
            }
            proof {
                assert(segs@.take(n as int) =~= segs@);
            }
        },
        AsPath::As4PathSegments(segs) => {
            write_as4_segments(segs, out);
        },
    }
}

/// The octets of an AGGREGATOR value: the AS number in its width, then
/// the aggregating speaker's address.
pub open spec fn spec_aggregator_bytes(a: Aggregator) -> Seq<u8> {
    match a {
        Aggregator::As2Aggregator(a2) => spec_be16(a2.asn) + a2.origin.spec_octets(),
        Aggregator::As4Aggregator(a4) => spec_be32(a4.asn) + a4.origin.spec_octets(),
    }
}

/// The attribute kinds this serializer renders octet-exactly. The typed
/// multiprotocol families are the one exception: their payloads are not
/// modelled octet-exactly, so only the raw-preserving unknown variant is
/// written.
pub open spec fn spec_attr_value_supported(v: PathAttributeValue) -> bool {
    match v {
        PathAttributeValue::MpReach(m) => m is Unknown,
        PathAttributeValue::MpUnreach(m) => m is Unknown,
        _ => true,
    }
}

/// The value is supported and all its count fields fit.
pub open spec fn spec_attr_value_wf(v: PathAttributeValue) -> bool {
    &&& spec_attr_value_supported(v)
    &&& match v {
        PathAttributeValue::AsPath(p) => spec_as_path_wf(p),
        PathAttributeValue::As4Path(p) => spec_as4_segments_wf(p.segments@),
        _ => true,
    }
}

/// The value octets of a supported attribute kind (without the attribute
/// header). Unsupported kinds are given no octets; the writer rejects
/// them instead.
pub open spec fn spec_attr_value_bytes(v: PathAttributeValue) -> Seq<u8> {
    match v {
        PathAttributeValue::Origin(o) => seq![o.spec_code()],
        PathAttributeValue::AsPath(p) => spec_as_path_bytes(p),
        PathAttributeValue::As4Path(p) => spec_as4_segments_bytes(p.segments@),
        PathAttributeValue::NextHop(nh) => nh.next_hop.spec_octets(),
        PathAttributeValue::MultiExitDiscriminator(m) => spec_be32(m.metric),
        PathAttributeValue::LocalPreference(l) => spec_be32(l.metric),
        PathAttributeValue::AtomicAggregate(_) => Seq::empty(),
        PathAttributeValue::Aggregator(a) => spec_aggregator_bytes(a),
        PathAttributeValue::Communities(c) => c.communities@.flat_map(
            |x: crate::community::Community| spec_be32(x.0),
        ),
        PathAttributeValue::ExtendedCommunities(c) => c.communities@.flat_map(
            |x: crate::community::ExtendedCommunity| x.spec_bytes(),
        ),
        PathAttributeValue::LargeCommunities(c) => c.communities@.flat_map(
            |x: crate::community::LargeCommunity| x.spec_bytes(),
        ),
        PathAttributeValue::Originator(o) => o.0.spec_octets(),
        PathAttributeValue::ClusterList(c) => c.0@.flat_map(
            |x: crate::path_attribute::ClusterId| x.0.spec_octets(),
        ),
        PathAttributeValue::BgpLs(b) => b.value@,
        PathAttributeValue::OnlyToCustomer(o) => spec_be32(o.0),
        PathAttributeValue::Aigp(a) => match a {
            crate::path_attribute::Aigp::AccumulatedIgpMetric(m) => seq![1u8] + spec_be16(11)
                + spec_be64(m),
        },
        PathAttributeValue::PrefixSegmentIdentifier(p) => p.tlvs@,
        PathAttributeValue::UnknownAttribute(u) => u.value@,
        PathAttributeValue::ExtendedCommunitiesIpv6(c) => c.communities@.flat_map(
            |x: crate::community::ExtendedCommunityIpv6| x.spec_bytes(),
        ),
        PathAttributeValue::MpReach(m) => match m {
            crate::path_attribute::MpReach::Unknown { afi, safi, value } => spec_be16(
                afi.spec_code(),
            ) + seq![safi.spec_code()] + value@,
            _ => Seq::empty(),
        },
        PathAttributeValue::MpUnreach(m) => match m {
            crate::path_attribute::MpUnreach::Unknown { afi, safi, nlri } => spec_be16(
                afi.spec_code(),
            ) + seq![safi.spec_code()] + nlri@,
            _ => Seq::empty(),
        },
    }
}

/// Why an attribute could not be written.
#[derive(Debug, Clone, PartialEq, Eq, Hash)]
pub enum PathAttributeWritingError {
    StdIOError(String),
    /// The value octets do not fit the length field selected by the
    /// extended-length flag.
    InvalidAttributeLength(usize),
    /// The attribute kind's payload is not rendered octet-exactly by this
    /// serializer.
    UnsupportedAttributeType(PathAttributeType),
}

/// Append the value octets of a supported attribute kind.
#[verifier::loop_isolation(false)]
pub fn write_attr_value(v: &PathAttributeValue, out: &mut Vec<u8>) -> (r: Result<
    (),
    PathAttributeWritingError,
>)
    requires
        spec_attr_value_wf(*v),
    ensures
        r is Ok,
        final(out)@ == old(out)@ + spec_attr_value_bytes(*v),
{
    match v {
        PathAttributeValue::Origin(o) => {
            out.push(o.code());
            assert(final(out)@ =~= old(out)@ + spec_attr_value_bytes(*v));
        },
        PathAttributeValue::AsPath(p) => {
            write_as_path(p, out);
        },
        PathAttributeValue::As4Path(p) => {
            write_as4_segments(&p.segments, out);
        },
        PathAttributeValue::NextHop(nh) => {
            nh.next_hop.write(out);
        },
        PathAttributeValue::MultiExitDiscriminator(m) => {
            write_be32(out, m.metric);
        },
        PathAttributeValue::LocalPreference(l) => {
            write_be32(out, l.metric);
        },
        PathAttributeValue::AtomicAggregate(_) => {
            assert(final(out)@ =~= old(out)@ + spec_attr_value_bytes(*v));
        },
        PathAttributeValue::Aggregator(a) => {
            match a {
                Aggregator::As2Aggregator(a2) => {
                    write_be16(out, a2.asn);
                    a2.origin.write(out);
                },
                Aggregator::As4Aggregator(a4) => {
                    write_be32(out, a4.asn);
                    a4.origin.write(out);
                },
            }
            assert(final(out)@ =~= old(out)@ + spec_attr_value_bytes(*v));
        },
        PathAttributeValue::Communities(c) => {
            let ghost f = |x: crate::community::Community| spec_be32(x.0);
            let ghost head = out@;
            let n = c.communities.len();
            let mut i: usize = 0;
            while i < n
                invariant
                    out@ == head + c.communities@.take(i as int).flat_map(f),
                    i <= n,
                decreases n - i,
            {
                proof {
                    c.communities@.lemma_flat_map_take_append(f, i as int);
                }
                write_be32(out, c.communities[i].0);
                i = i + 1;
            }
            proof {
                assert(c.communities@.take(n as int) =~= c.communities@);
            }
        },
        PathAttributeValue::ExtendedCommunities(c) => {
            let ghost f = |x: crate::community::ExtendedCommunity| x.spec_bytes();
            let ghost head = out@;
            let n = c.communities.len();
            let mut i: usize = 0;
            while i < n
                invariant
                    out@ == head + c.communities@.take(i as int).flat_map(f),
                    i <= n,
                decreases n - i,
            {
                proof {
                    c.communities@.lemma_flat_map_take_append(f, i as int);
                }
                let x = &c.communities[i];
                out.push(x.code);
                out.push(x.sub_type);
                write_be16(out, (x.value / 0x1_0000_0000) as u16);
                write_be32(out, (x.value % 0x1_0000_0000) as u32);
                assert(out@ =~= head + c.communities@.take(i as int).flat_map(f) + f(
                    c.communities@[i as int],
                ));
                i = i + 1;
            }
            proof {
                assert(c.communities@.take(n as int) =~= c.communities@);
            }
        },
        PathAttributeValue::LargeCommunities(c) => {
            let ghost f = |x: crate::community::LargeCommunity| x.spec_bytes();
            let ghost head = out@;
            let n = c.communities.len();
            let mut i: usize = 0;
            while i < n
                invariant
                    out@ == head + c.communities@.take(i as int).flat_map(f),
                    i <= n,
                decreases n - i,
            {
                proof {
                    c.communities@.lemma_flat_map_take_append(f, i as int);
                }
                let x = &c.communities[i];
                write_be32(out, x.global_admin);
                write_be32(out, x.local_data1);
                write_be32(out, x.local_data2);
                assert(out@ =~= head + c.communities@.take(i as int).flat_map(f) + f(
                    c.communities@[i as int],
                ));
                i = i + 1;
            }
            proof {
                assert(c.communities@.take(n as int) =~= c.communities@);
            }
        },
        PathAttributeValue::Originator(o) => {
            o.0.write(out);
        },
        PathAttributeValue::ClusterList(c) => {
            let ghost f = |x: crate::path_attribute::ClusterId| x.0.spec_octets();
            let ghost head = out@;
            let n = c.0.len();
            let mut i: usize = 0;
            while i < n
                invariant
                    out@ == head + c.0@.take(i as int).flat_map(f),
                    i <= n,
                decreases n - i,
            {
                proof {
                    c.0@.lemma_flat_map_take_append(f, i as int);
                }
                let x = &c.0[i];
                x.0.write(out);
                i = i + 1;
            }
            proof {
                assert(c.0@.take(n as int) =~= c.0@);
            }
        },
        PathAttributeValue::BgpLs(b) => {
            out.extend_from_slice(b.value.as_slice());
            assert(final(out)@ =~= old(out)@ + spec_attr_value_bytes(*v));
        },
        PathAttributeValue::OnlyToCustomer(o) => {
            write_be32(out, o.0);
        },
        PathAttributeValue::Aigp(a) => {
            match a {
                crate::path_attribute::Aigp::AccumulatedIgpMetric(m) => {
                    out.push(1);
                    write_be16(out, 11);
                    write_be64(out, *m);
                },
            }
            assert(final(out)@ =~= old(out)@ + spec_attr_value_bytes(*v));
        },
        PathAttributeValue::PrefixSegmentIdentifier(p) => {
            out.extend_from_slice(p.tlvs.as_slice());
            assert(final(out)@ =~= old(out)@ + spec_attr_value_bytes(*v));
        },
        PathAttributeValue::UnknownAttribute(u) => {
            out.extend_from_slice(u.value.as_slice());
            assert(final(out)@ =~= old(out)@ + spec_attr_value_bytes(*v));
        },
        PathAttributeValue::ExtendedCommunitiesIpv6(c) => {
            let ghost f = |x: crate::community::ExtendedCommunityIpv6| x.spec_bytes();
            let ghost head = out@;
            let n = c.communities.len();
            let mut i: usize = 0;
            while i < n
                invariant
                    out@ == head + c.communities@.take(i as int).flat_map(f),
                    i <= n,
                decreases n - i,
            {
                proof {
                    c.communities@.lemma_flat_map_take_append(f, i as int);
                }
                let x = &c.communities[i];
                out.push(x.code);
                out.push(x.sub_type);
                x.global_admin.write(out);
                write_be16(out, x.local_admin);
                assert(out@ =~= head + c.communities@.take(i as int).flat_map(f) + f(
                    c.communities@[i as int],
                ));
                i = i + 1;
            }
            proof {
                assert(c.communities@.take(n as int) =~= c.communities@);
            }
        },
        PathAttributeValue::MpReach(m) => {
            match m {
                crate::path_attribute::MpReach::Unknown { afi, safi, value } => {
                    write_be16(out, afi.code());
                    out.push(safi.code());
                    out.extend_from_slice(value.as_slice());
                    assert(final(out)@ =~= old(out)@ + spec_attr_value_bytes(*v));
                },
                _ => {
                    proof {
                        assert(false);
                    }
                },
            }
        },
        PathAttributeValue::MpUnreach(m) => {
            match m {
                crate::path_attribute::MpUnreach::Unknown { afi, safi, nlri } => {
                    write_be16(out, afi.code());
                    out.push(safi.code());
                    out.extend_from_slice(nlri.as_slice());
                    assert(final(out)@ =~= old(out)@ + spec_attr_value_bytes(*v));
                },
                _ => {
                    proof {
                        assert(false);
                    }
                },
            }
        },
    }
    Ok(())
}

/// The attribute header's flags octet: the four flag bits in the high
/// nibble, the low nibble zero.
pub open spec fn spec_flags_byte(
    optional: bool,
    transitive: bool,
    partial: bool,
    extended_length: bool,
) -> u8 {
    ((if optional {
        0x80u8
    } else {
        0u8
    }) + (if transitive {
        0x40u8
    } else {
        0u8
    }) + (if partial {
        0x20u8
    } else {
        0u8
    }) + (if extended_length {
        0x10u8
    } else {
        0u8
    })) as u8
}

/// The type code octet of an attribute value: the registered code of a
/// known kind, the raw code of an unknown one.
pub open spec fn spec_attr_type_code(v: PathAttributeValue) -> u8 {
    match v.spec_path_attribute_type() {
        Ok(t) => t.spec_code(),
        Err(code) => code,
    }
}

/// The length octets of an attribute: two when the extended-length flag
/// is set, one otherwise.
pub open spec fn spec_attr_len_bytes(extended_length: bool, len: int) -> Seq<u8> {
    if extended_length {
        spec_be16(len as u16)
    } else {
        seq![len as u8]
    }
}

/// The value length fits the selected length field.
pub open spec fn spec_attr_len_ok(extended_length: bool, len: int) -> bool {
    if extended_length {
        len <= 0xFFFF
    } else {
        len <= 0xFF
    }
}

/// The octets of a whole path attribute: flags, type code, length in the
/// selected width, then the value octets.
pub open spec fn spec_path_attribute_bytes(a: PathAttribute) -> Seq<u8> {
    seq![
        spec_flags_byte(a.optional, a.transitive, a.partial, a.extended_length),
        spec_attr_type_code(a.value),
    ] + spec_attr_len_bytes(a.extended_length, spec_attr_value_bytes(a.value).len() as int)
        + spec_attr_value_bytes(a.value)
}

/// The attribute can be written: its kind is supported, its counts fit,
/// and its value fits the selected length field.
pub open spec fn spec_path_attribute_writable(a: PathAttribute) -> bool {
    &&& spec_attr_value_wf(a.value)
    &&& spec_attr_len_ok(a.extended_length, spec_attr_value_bytes(a.value).len() as int)
}

/// Append a whole path attribute: flags, type code, length, value.
#[verifier::loop_isolation(false)]
pub fn write_path_attribute(a: &PathAttribute, out: &mut Vec<u8>) -> (r: Result<
    (),
    PathAttributeWritingError,
>)
    ensures
        match r {
            Ok(()) => {
                &&& spec_path_attribute_writable(*a)
                &&& final(out)@ == old(out)@ + spec_path_attribute_bytes(*a)
            },
            Err(e) => {
                &&& !spec_path_attribute_writable(*a)
                &&& final(out)@ == old(out)@
                &&& (e is UnsupportedAttributeType <==> !spec_attr_value_supported(a.value))
                &&& !(e is StdIOError)
            },
        },
{
    // Render the value first: the header's length field precedes it.
    let mut body: Vec<u8> = Vec::new();
    match &a.value {
        PathAttributeValue::MpReach(m) => {
            if !matches!(m, crate::path_attribute::MpReach::Unknown { .. }) {
                return Err(
                    PathAttributeWritingError::UnsupportedAttributeType(
                        PathAttributeType::MpReachNlri,
                    ),
                );
            }
        },
        PathAttributeValue::MpUnreach(m) => {
            if !matches!(m, crate::path_attribute::MpUnreach::Unknown { .. }) {
                return Err(
                    PathAttributeWritingError::UnsupportedAttributeType(
                        PathAttributeType::MpUnreachNlri,
                    ),
                );
            }
        },
        PathAttributeValue::AsPath(p) => {
            match p {
                AsPath::As2PathSegments(segs) => {
                    let n = segs.len();
                    let mut i: usize = 0;
                    while i < n
                        invariant
                            n == segs@.len(),
                            i <= n,
                            forall|k: int| 0 <= k < i ==> spec_as2_segment_wf(#[trigger] segs@[k]),
                        decreases n - i,
                    {
                        if segs[i].as_numbers.len() > 255 {
                            return Err(
                                PathAttributeWritingError::InvalidAttributeLength(
                                    segs[i].as_numbers.len(),
                                ),
                            );
                        }
                        i = i + 1;
                    }
                },
                AsPath::As4PathSegments(segs) => {
                    let n = segs.len();
                    let mut i: usize = 0;
                    while i < n
                        invariant
                            n == segs@.len(),
                            i <= n,
                            forall|k: int| 0 <= k < i ==> spec_as4_segment_wf(#[trigger] segs@[k]),
                        decreases n - i,
                    {
                        if segs[i].as_numbers.len() > 255 {
                            return Err(
                                PathAttributeWritingError::InvalidAttributeLength(
                                    segs[i].as_numbers.len(),
                                ),
                            );
                        }
                        i = i + 1;
                    }
                },
            }
        },
        PathAttributeValue::As4Path(p) => {
            let n = p.segments.len();
            let mut i: usize = 0;
            while i < n
                invariant
                    n == p.segments@.len(),
                    i <= n,
                    forall|k: int| 0 <= k < i ==> spec_as4_segment_wf(#[trigger] p.segments@[k]),
                decreases n - i,
            {
                if p.segments[i].as_numbers.len() > 255 {
                    return Err(
                        PathAttributeWritingError::InvalidAttributeLength(
                            p.segments[i].as_numbers.len(),
                        ),
                    );
                }
                i = i + 1;
            }
        },
        _ => {},
    }
    let _ = write_attr_value(&a.value, &mut body);
    let len = body.len();
    if a.extended_length {
        if len > 0xFFFF {
            return Err(PathAttributeWritingError::InvalidAttributeLength(len));
        }
    } else {
        if len > 0xFF {
            return Err(PathAttributeWritingError::InvalidAttributeLength(len));
        }
    }
    let flags: u8 = (if a.optional {
        0x80u8
    } else {
        0u8
    }) + (if a.transitive {
        0x40u8
    } else {
        0u8
    }) + (if a.partial {
        0x20u8
    } else {
        0u8
    }) + (if a.extended_length {
        0x10u8
    } else {
        0u8
    });
    out.push(flags);
    let code = match a.value.path_attribute_type() {
        Ok(t) => t.code(),
        Err(c) => c,
    };
    out.push(code);
    if a.extended_length {
        write_be16(out, len as u16);
    } else {
        out.push(len as u8);
    }
    out.extend_from_slice(body.as_slice());
    assert(final(out)@ =~= old(out)@ + spec_path_attribute_bytes(*a));
    Ok(())
}

/// The length in octets of a whole path attribute.
pub fn path_attribute_len(a: &PathAttribute) -> (r: Result<usize, PathAttributeWritingError>)
    ensures
        match r {
            Ok(n) => spec_path_attribute_writable(*a) && n == spec_path_attribute_bytes(*a).len(),
            Err(e) => !spec_path_attribute_writable(*a),
        },
{
    let mut scratch: Vec<u8> = Vec::new();
    match write_path_attribute(a, &mut scratch) {
        Ok(()) => Ok(scratch.len()),
        Err(e) => Err(e),
    }
}

/// The length octets of an IP address as it stands in a next-hop field:
/// one length octet, then the address octets.
pub open spec fn spec_ip_addr_bytes(a: IpAddr) -> Seq<u8> {
    match a {
        IpAddr::V4(v4) => seq![4u8] + v4.spec_octets(),
        IpAddr::V6(v6) => seq![16u8] + v6.spec_octets(),
    }
}

/// Why an IP address could not be written.
#[derive(Debug, Clone, PartialEq, Eq, Hash)]
pub enum IpAddrWritingError {
    StdIOError(String),
}

impl IpAddr {
    /// The number of octets [`IpAddr::write`] appends: the length octet
    /// and the address octets.
    pub fn len(&self) -> (r: usize)
        ensures
            r == spec_ip_addr_bytes(*self).len(),
    {
        match self {
            IpAddr::V4(_) => 5,
            IpAddr::V6(_) => 17,
        }
    }

    /// Append the length octet and the address octets.
    pub fn write(&self, out: &mut Vec<u8>) -> (r: Result<(), IpAddrWritingError>)
        ensures
            r is Ok,
            final(out)@ == old(out)@ + spec_ip_addr_bytes(*self),
    {
        match self {
            IpAddr::V4(v4) => {
                out.push(4);
                v4.write(out);
            },
            IpAddr::V6(v6) => {
                out.push(16);
                v6.write(out);
            },
        }
        assert(final(out)@ =~= old(out)@ + spec_ip_addr_bytes(*self));
        Ok(())
    }
}

/// The octets of one capability: code, length, value.
pub open spec fn spec_capability_bytes(c: crate::message::BgpCapability) -> Seq<u8> {
    match c {
        crate::message::BgpCapability::MultiProtocolExtensions(at) => seq![1u8, 4u8] + spec_be16(
            at.spec_address_family().spec_code(),
        ) + seq![0u8, at.spec_subsequent_address_family().spec_code()],
        crate::message::BgpCapability::RouteRefresh => seq![2u8, 0u8],
        crate::message::BgpCapability::FourOctetAs(asn) => seq![65u8, 4u8] + spec_be32(asn),
        crate::message::BgpCapability::Unrecognized { code, value } => seq![
            code,
            value.len() as u8,
        ] + value@,
    }
}

/// An unrecognized capability's value must leave room for the capability
/// and parameter headers inside a one-octet parameter length.
pub open spec fn spec_capability_wf(c: crate::message::BgpCapability) -> bool {
    match c {
        crate::message::BgpCapability::Unrecognized { value, .. } => value.len() <= 251,
        _ => true,
    }
}

/// The octets of one optional parameter wrapping a capability: parameter
/// type 2, parameter length, then the capability octets.
pub open spec fn spec_open_param_bytes(c: crate::message::BgpCapability) -> Seq<u8> {
    seq![2u8, spec_capability_bytes(c).len() as u8] + spec_capability_bytes(c)
}

/// The octets of all optional parameters of an OPEN message.
pub open spec fn spec_open_params_bytes(caps: Seq<crate::message::BgpCapability>) -> Seq<u8> {
    caps.flat_map(|c: crate::message::BgpCapability| spec_open_param_bytes(c))
}

/// The body octets of an OPEN message.
pub open spec fn spec_open_body(o: crate::message::BgpOpenMessage) -> Seq<u8> {
    seq![o.version] + spec_be16(o.my_as) + spec_be16(o.hold_time) + o.bgp_id.spec_octets() + seq![
        spec_open_params_bytes(o.capabilities@).len() as u8,
    ] + spec_open_params_bytes(o.capabilities@)
}

/// Every capability fits, and the parameters fit their one-octet total
/// length field.
pub open spec fn spec_open_wf(o: crate::message::BgpOpenMessage) -> bool {
    &&& forall|i: int|
        0 <= i < o.capabilities@.len() ==> spec_capability_wf(#[trigger] o.capabilities@[i])
    &&& spec_open_params_bytes(o.capabilities@).len() <= 255
}

/// Why an OPEN message body could not be written.
#[derive(Debug, Clone, PartialEq, Eq, Hash)]
pub enum BgpOpenMessageWritingError {
    StdIOError(String),
    /// An unrecognized capability's value does not fit its length octet.
    CapabilityTooLong(usize),
    /// The optional parameters do not fit their one-octet total length.
    ParametersTooLong(usize),
}

/// Append one optional parameter wrapping a capability.
pub fn write_open_param(c: &crate::message::BgpCapability, out: &mut Vec<u8>) -> (r: Result<
    (),
    BgpOpenMessageWritingError,
>)
    ensures
        match r {
            Ok(()) => spec_capability_wf(*c) && final(out)@ == old(out)@ + spec_open_param_bytes(
                *c,
            ),
            Err(e) => !spec_capability_wf(*c) && final(out)@ == old(out)@,
        },
{
    match c {
        crate::message::BgpCapability::MultiProtocolExtensions(at) => {
            out.push(2);
            out.push(6);
            out.push(1);
            out.push(4);
            write_be16(out, at.address_family().code());
            out.push(0);
            out.push(at.subsequent_address_family().code());
        },
        crate::message::BgpCapability::RouteRefresh => {
            out.push(2);
            out.push(2);
            out.push(2);
            out.push(0);
        },
        crate::message::BgpCapability::FourOctetAs(asn) => {
            out.push(2);
            out.push(6);
            out.push(65);
            out.push(4);
            write_be32(out, *asn);
        },
        crate::message::BgpCapability::Unrecognized { code, value } => {
            let n = value.len();
            if n > 251 {
                return Err(BgpOpenMessageWritingError::CapabilityTooLong(n));
            }
            out.push(2);
            out.push((n + 2) as u8);
            out.push(*code);
            out.push(n as u8);
            out.extend_from_slice(value.as_slice());
        },
    }
    assert(final(out)@ =~= old(out)@ + spec_open_param_bytes(*c));
    Ok(())
}

/// Append the body octets of an OPEN message.
#[verifier::loop_isolation(false)]
pub fn write_open_body(o: &crate::message::BgpOpenMessage, out: &mut Vec<u8>) -> (r: Result<
    (),
    BgpOpenMessageWritingError,
>)
    ensures
        match r {
            Ok(()) => spec_open_wf(*o) && final(out)@ == old(out)@ + spec_open_body(*o),
            Err(e) => !spec_open_wf(*o) && final(out)@ == old(out)@,
        },
{
    let ghost f = |c: crate::message::BgpCapability| spec_open_param_bytes(c);
    let mut params: Vec<u8> = Vec::new();
    let n = o.capabilities.len();
    let mut i: usize = 0;
    while i < n
        invariant
            i <= n,
            params@ == o.capabilities@.take(i as int).flat_map(f),
            forall|k: int| 0 <= k < i ==> spec_capability_wf(#[trigger] o.capabilities@[k]),
        decreases n - i,
    {
        proof {
            o.capabilities@.lemma_flat_map_take_append(f, i as int);
        }
        match write_open_param(&o.capabilities[i], &mut params) {
            Ok(()) => {},
            Err(e) => {
                return Err(e);
            },
        }
        i = i + 1;
    }
    proof {
        assert(o.capabilities@.take(n as int) =~= o.capabilities@);
    }
    if params.len() > 255 {
        return Err(BgpOpenMessageWritingError::ParametersTooLong(params.len()));
    }
    out.push(o.version);
    write_be16(out, o.my_as);
    write_be16(out, o.hold_time);
    o.bgp_id.write(out);
    out.push(params.len() as u8);
    out.extend_from_slice(params.as_slice());
    assert(final(out)@ =~= old(out)@ + spec_open_body(*o));
    Ok(())
}

/// The octets of a list of IPv4 prefixes, one after the other.
pub open spec fn spec_ipv4nets_bytes(nets: Seq<Ipv4Net>) -> Seq<u8> {
    nets.flat_map(|n: Ipv4Net| spec_ipv4net_bytes(n))
}

/// Every prefix length is at most the address width.
pub open spec fn spec_ipv4nets_wf(nets: Seq<Ipv4Net>) -> bool {
    forall|i: int| 0 <= i < nets.len() ==> (#[trigger] nets[i]).wf()
}

/// The octets of a list of path attributes, one after the other.
pub open spec fn spec_path_attributes_bytes(attrs: Seq<PathAttribute>) -> Seq<u8> {
    attrs.flat_map(|a: PathAttribute| spec_path_attribute_bytes(a))
}

/// Every attribute can be written.
pub open spec fn spec_path_attributes_wf(attrs: Seq<PathAttribute>) -> bool {
    forall|i: int| 0 <= i < attrs.len() ==> spec_path_attribute_writable(#[trigger] attrs[i])
}

/// Why an UPDATE message body could not be written.
#[derive(Debug, Clone, PartialEq, Eq, Hash)]
pub enum BgpUpdateMessageWritingError {
    StdIOError(String),
    /// A withdrawn or advertised prefix is longer than its address width.
    InvalidPrefix(u8),
    /// An attribute could not be written.
    PathAttributeError(PathAttributeWritingError),
    /// The withdrawn routes or the attributes exceed their two-octet
    /// length field.
    SectionTooLong(usize),
}

/// The body octets of an UPDATE message: withdrawn routes behind their
/// length, path attributes behind theirs, then the advertised prefixes.
pub open spec fn spec_update_body(u: crate::message::BgpUpdateMessage) -> Seq<u8> {
    spec_be16(spec_ipv4nets_bytes(u.withdrawn_routes@).len() as u16) + spec_ipv4nets_bytes(
        u.withdrawn_routes@,
    ) + spec_be16(spec_path_attributes_bytes(u.path_attributes@).len() as u16)
        + spec_path_attributes_bytes(u.path_attributes@) + spec_ipv4nets_bytes(u.nlri@)
}

/// All prefixes and attributes fit and both length fields hold.
pub open spec fn spec_update_wf(u: crate::message::BgpUpdateMessage) -> bool {
    &&& spec_ipv4nets_wf(u.withdrawn_routes@)
    &&& spec_ipv4nets_wf(u.nlri@)
    &&& spec_path_attributes_wf(u.path_attributes@)
    &&& spec_ipv4nets_bytes(u.withdrawn_routes@).len() <= 0xFFFF
    &&& spec_path_attributes_bytes(u.path_attributes@).len() <= 0xFFFF
}

/// Append a list of IPv4 prefixes, checking each prefix length.
#[verifier::loop_isolation(false)]
pub fn write_ipv4nets(nets: &Vec<Ipv4Net>, out: &mut Vec<u8>) -> (r: Result<
    (),
    BgpUpdateMessageWritingError,
>)
    ensures
        match r {
            Ok(()) => spec_ipv4nets_wf(nets@) && final(out)@ == old(out)@ + spec_ipv4nets_bytes(
                nets@,
            ),
            Err(e) => !spec_ipv4nets_wf(nets@) && final(out)@ == old(out)@,
        },
{
    let ghost f = |n: Ipv4Net| spec_ipv4net_bytes(n);
    let ghost head = out@;
    let n = nets.len();
    let mut i: usize = 0;
    let mut body: Vec<u8> = Vec::new();
    while i < n
        invariant
            i <= n,
            body@ == nets@.take(i as int).flat_map(f),
            forall|k: int| 0 <= k < i ==> (#[trigger] nets@[k]).wf(),
        decreases n - i,
    {
        proof {
            nets@.lemma_flat_map_take_append(f, i as int);
        }
        if nets[i].prefix_len > 32 {
            return Err(BgpUpdateMessageWritingError::InvalidPrefix(nets[i].prefix_len));
        }
        write_ipv4net(&nets[i], &mut body);
        i = i + 1;
    }
    proof {
        assert(nets@.take(n as int) =~= nets@);
    }
    out.extend_from_slice(body.as_slice());
    Ok(())
}

/// Append the body octets of an UPDATE message.
#[verifier::loop_isolation(false)]
pub fn write_update_body(u: &crate::message::BgpUpdateMessage, out: &mut Vec<u8>) -> (r: Result<
    (),
    BgpUpdateMessageWritingError,
>)
    ensures
        match r {
            Ok(()) => spec_update_wf(*u) && final(out)@ == old(out)@ + spec_update_body(*u),
            Err(e) => !spec_update_wf(*u) && final(out)@ == old(out)@,
        },
{
    let mut withdrawn: Vec<u8> = Vec::new();
    match write_ipv4nets(&u.withdrawn_routes, &mut withdrawn) {
        Ok(()) => {},
        Err(e) => {
            return Err(e);
        },
    }
    if withdrawn.len() > 0xFFFF {
        return Err(BgpUpdateMessageWritingError::SectionTooLong(withdrawn.len()));
    }
    let ghost fa = |a: PathAttribute| spec_path_attribute_bytes(a);
    let mut attrs: Vec<u8> = Vec::new();
    let n = u.path_attributes.len();
    let mut i: usize = 0;
    while i < n
        invariant
            i <= n,
            attrs@ == u.path_attributes@.take(i as int).flat_map(fa),
            forall|k: int|
                0 <= k < i ==> spec_path_attribute_writable(#[trigger] u.path_attributes@[k]),
        decreases n - i,
    {
        proof {
            u.path_attributes@.lemma_flat_map_take_append(fa, i as int);
        }
        match write_path_attribute(&u.path_attributes[i], &mut attrs) {
            Ok(()) => {},
            Err(e) => {
                return Err(BgpUpdateMessageWritingError::PathAttributeError(e));
            },
        }
        i = i + 1;
    }
    proof {
        assert(u.path_attributes@.take(n as int) =~= u.path_attributes@);
    }
    if attrs.len() > 0xFFFF {
        return Err(BgpUpdateMessageWritingError::SectionTooLong(attrs.len()));
    }
    let mut nlri: Vec<u8> = Vec::new();
    match write_ipv4nets(&u.nlri, &mut nlri) {
        Ok(()) => {},
        Err(e) => {
            return Err(e);
        },
    }
    write_be16(out, withdrawn.len() as u16);
    out.extend_from_slice(withdrawn.as_slice());
    write_be16(out, attrs.len() as u16);
    out.extend_from_slice(attrs.as_slice());
    out.extend_from_slice(nlri.as_slice());
    assert(final(out)@ =~= old(out)@ + spec_update_body(*u));
    Ok(())
}

/// Why a NOTIFICATION message body could not be written.
#[derive(Debug, Clone, PartialEq, Eq, Hash)]
pub enum BgpNotificationMessageWritingError {
    StdIOError(String),
}

/// The body octets of a NOTIFICATION message.
pub open spec fn spec_notification_body(m: crate::message::BgpNotificationMessage) -> Seq<u8> {
    seq![m.code, m.sub_code] + m.value@
}

/// Append the body octets of a NOTIFICATION message.
pub fn write_notification_body(
    m: &crate::message::BgpNotificationMessage,
    out: &mut Vec<u8>,
) -> (r: Result<(), BgpNotificationMessageWritingError>)
    ensures
        r is Ok,
        final(out)@ == old(out)@ + spec_notification_body(*m),
{
    out.push(m.code);
    out.push(m.sub_code);
    out.extend_from_slice(m.value.as_slice());
    assert(final(out)@ =~= old(out)@ + spec_notification_body(*m));
    Ok(())
}

/// Why a ROUTE-REFRESH message body could not be written.
#[derive(Debug, Clone, PartialEq, Eq, Hash)]
pub enum BgpRouteRefreshMessageWritingError {
    StdIOError(String),
}

/// The body octets of a ROUTE-REFRESH message: AFI, reserved, SAFI.
pub open spec fn spec_route_refresh_body(m: crate::message::BgpRouteRefreshMessage) -> Seq<u8> {
    spec_be16(m.address_type.spec_address_family().spec_code()) + seq![
        0u8,
        m.address_type.spec_subsequent_address_family().spec_code(),
    ]
}

/// Append the body octets of a ROUTE-REFRESH message.
pub fn write_route_refresh_body(
    m: &crate::message::BgpRouteRefreshMessage,
    out: &mut Vec<u8>,
) -> (r: Result<(), BgpRouteRefreshMessageWritingError>)
    ensures
        r is Ok,
        final(out)@ == old(out)@ + spec_route_refresh_body(*m),
{
    write_be16(out, m.address_type.address_family().code());
    out.push(0);
    out.push(m.address_type.subsequent_address_family().code());
    assert(final(out)@ =~= old(out)@ + spec_route_refresh_body(*m));
    Ok(())
}

/// Why a BGP message could not be written.
#[derive(Debug, Clone, PartialEq, Eq, Hash)]
pub enum BgpMessageWritingError {
    /// The written message would be larger than allowed: 4,096 octets for
    /// OPEN and KEEPALIVE and 65,535 for the rest.
    BgpMessageLengthOverflow(usize),
    StdIOError(String),
    OpenError(BgpOpenMessageWritingError),
    UpdateError(BgpUpdateMessageWritingError),
    NotificationError(BgpNotificationMessageWritingError),
    RouteRefreshError(BgpRouteRefreshMessageWritingError),
}

/// The sixteen all-ones marker octets that open every BGP message.
pub open spec fn spec_bgp_marker() -> Seq<u8> {
    Seq::new(16, |i: int| 0xFFu8)
}

/// The body octets of a BGP message, by its kind.
pub open spec fn spec_bgp_body(m: crate::message::BgpMessage) -> Seq<u8> {
    match m {
        crate::message::BgpMessage::Open(o) => spec_open_body(o),
        crate::message::BgpMessage::Update(u) => spec_update_body(u),
        crate::message::BgpMessage::Notification(n) => spec_notification_body(n),
        crate::message::BgpMessage::KeepAlive => Seq::empty(),
        crate::message::BgpMessage::RouteRefresh(r) => spec_route_refresh_body(r),
    }
}

/// The total length of a BGP message: the 19 header octets plus its body.
pub open spec fn spec_bgp_message_len(m: crate::message::BgpMessage) -> int {
    19 + spec_bgp_body(m).len() as int
}

/// The maximum length allowed for the message's kind: 4,096 octets for
/// OPEN and KEEPALIVE, 65,535 for the rest.
pub open spec fn spec_bgp_max_len(m: crate::message::BgpMessage) -> int {
    match m {
        crate::message::BgpMessage::Open(_) => 4096,
        crate::message::BgpMessage::KeepAlive => 4096,
        _ => 0xFFFF,
    }
}

/// The body is writable and the whole message fits its kind's limit.
pub open spec fn spec_bgp_message_wf(m: crate::message::BgpMessage) -> bool {
    &&& match m {
        crate::message::BgpMessage::Open(o) => spec_open_wf(o),
        crate::message::BgpMessage::Update(u) => spec_update_wf(u),
        _ => true,
    }
    &&& spec_bgp_message_len(m) <= spec_bgp_max_len(m)
}

/// The octets of a whole BGP message: marker, total length, type code,
/// body.
pub open spec fn spec_bgp_message_bytes(m: crate::message::BgpMessage) -> Seq<u8> {
    spec_bgp_marker() + spec_be16(spec_bgp_message_len(m) as u16) + seq![
        m.spec_get_type().spec_code(),
    ] + spec_bgp_body(m)
}

impl crate::message::BgpMessage {
    /// Append the octets of the whole message: the all-ones marker, the
    /// total length, the type code and the body.
    pub fn write(&self, out: &mut Vec<u8>) -> (r: Result<(), BgpMessageWritingError>)
        ensures
            match r {
                Ok(()) => spec_bgp_message_wf(*self) && final(out)@ == old(out)@
                    + spec_bgp_message_bytes(*self),
                Err(e) => {
                    &&& !spec_bgp_message_wf(*self)
                    &&& final(out)@ == old(out)@
                    &&& (e matches BgpMessageWritingError::BgpMessageLengthOverflow(l) ==> {
                        &&& spec_bgp_message_len(*self) > spec_bgp_max_len(*self)
                        &&& l == (if spec_bgp_message_len(*self) <= usize::MAX {
                            spec_bgp_message_len(*self)
                        } else {
                            usize::MAX as int
                        })
                    })
                    &&& (e is BgpMessageLengthOverflow <== {
                        &&& spec_bgp_message_len(*self) > spec_bgp_max_len(*self)
                        &&& match *self {
                            crate::message::BgpMessage::Open(o) => spec_open_wf(o),
                            crate::message::BgpMessage::Update(u) => spec_update_wf(u),
                            _ => true,
                        }
                    })
                    &&& (e matches BgpMessageWritingError::OpenError(oe) ==> (*self) matches
                        crate::message::BgpMessage::Open(o) && !spec_open_wf(o))
                    &&& (e matches BgpMessageWritingError::UpdateError(ue) ==> (*self) matches
                        crate::message::BgpMessage::Update(u) && !spec_update_wf(u))
                    &&& !(e is StdIOError)
                    &&& !(e is NotificationError)
                    &&& !(e is RouteRefreshError)
                },
            },
    {
        let mut body: Vec<u8> = Vec::new();
        match self {
            crate::message::BgpMessage::Open(o) => {
                match write_open_body(o, &mut body) {
                    Ok(()) => {},
                    Err(e) => {
                        return Err(BgpMessageWritingError::OpenError(e));
                    },
                }
            },
            crate::message::BgpMessage::Update(u) => {
                match write_update_body(u, &mut body) {
                    Ok(()) => {},
                    Err(e) => {
                        return Err(BgpMessageWritingError::UpdateError(e));
                    },
                }
            },
            crate::message::BgpMessage::Notification(n) => {
                match write_notification_body(n, &mut body) {
                    Ok(()) => {},
                    Err(e) => {
                        return Err(BgpMessageWritingError::NotificationError(e));
                    },
                }
            },
            crate::message::BgpMessage::KeepAlive => {},
            crate::message::BgpMessage::RouteRefresh(rr) => {
                match write_route_refresh_body(rr, &mut body) {
                    Ok(()) => {},
                    Err(e) => {
                        return Err(BgpMessageWritingError::RouteRefreshError(e));
                    },
                }
            },
        }
        let max: usize = match self {
            crate::message::BgpMessage::Open(_) => 4096,
            crate::message::BgpMessage::KeepAlive => 4096,
            _ => 0xFFFF,
        };
        if body.len() > max - 19 {
            let reported: usize = if body.len() <= usize::MAX - 19 {
                19 + body.len()
            } else {
                usize::MAX
            };
            return Err(BgpMessageWritingError::BgpMessageLengthOverflow(reported));
        }
        let len: usize = 19 + body.len();
        let mut k: usize = 0;
        while k < 16
            invariant
                k <= 16,
                out@ == old(out)@ + Seq::new(k as nat, |i: int| 0xFFu8),
            decreases 16 - k,
        {
            out.push(0xFF);
            assert(out@ =~= old(out)@ + Seq::new((k + 1) as nat, |i: int| 0xFFu8));
            k = k + 1;
        }
        write_be16(out, len as u16);
        out.push(self.get_type().code());
        out.extend_from_slice(body.as_slice());
        assert(final(out)@ =~= old(out)@ + spec_bgp_message_bytes(*self));
        Ok(())
    }

    /// The number of octets [`BgpMessage::write`] appends, measured on the
    /// encoding itself.
    pub fn len(&self) -> (r: usize)
        requires
            spec_bgp_message_wf(*self),
        ensures
            r == spec_bgp_message_bytes(*self).len(),
    {
        let mut scratch: Vec<u8> = Vec::new();
        match self.write(&mut scratch) {
            Ok(()) => scratch.len(),
            Err(_) => 0,
        }
    }
}


/// The attribute kinds whose values carry no variable-length payload:
/// their encodings are injective, so decoding an encoding gives the
/// value back.
pub open spec fn spec_attr_fixed_kind(v: PathAttributeValue) -> bool {
    match v {
        PathAttributeValue::Origin(_) => true,
        PathAttributeValue::NextHop(_) => true,
        PathAttributeValue::MultiExitDiscriminator(_) => true,
        PathAttributeValue::LocalPreference(_) => true,
        PathAttributeValue::AtomicAggregate(_) => true,
        PathAttributeValue::Aggregator(_) => true,
        PathAttributeValue::Originator(_) => true,
        PathAttributeValue::OnlyToCustomer(_) => true,
        PathAttributeValue::Aigp(_) => true,
        _ => false,
    }
}

/// Round trip of decoding after encoding: for the fixed-layout attribute
/// kinds the encoding is injective. Two attributes of such kinds with
/// the same flag bits and the same octets are the same attribute; with
/// the decoder's contract, which returns an attribute whose re-encoding
/// and flag bits match the consumed octets, an attribute decoded back
/// from its own encoding is the encoded attribute.
#[verifier::rlimit(100)]
pub proof fn lemma_fixed_attribute_encoding_injective(a: PathAttribute, b: PathAttribute)
    requires
        spec_attr_fixed_kind(a.value),
        spec_attr_fixed_kind(b.value),
        a.optional == b.optional,
        a.transitive == b.transitive,
        a.partial == b.partial,
        a.extended_length == b.extended_length,
        spec_path_attribute_bytes(a) == spec_path_attribute_bytes(b),
    ensures
        a == b,
{
    let ba = spec_path_attribute_bytes(a);
    let bb = spec_path_attribute_bytes(b);
    let va = spec_attr_value_bytes(a.value);
    let vb = spec_attr_value_bytes(b.value);
    let ll: int = if a.extended_length {
        2
    } else {
        1
    };
    assert(ba[1] == spec_attr_type_code(a.value));
    assert(bb[1] == spec_attr_type_code(b.value));
    assert(va =~= ba.subrange(2 + ll, ba.len() as int));
    assert(vb =~= bb.subrange(2 + ll, bb.len() as int));
    assert(va == vb);
    match (a.value, b.value) {
        (PathAttributeValue::Origin(x), PathAttributeValue::Origin(y)) => {
            assert(va[0] == x.spec_code());
            assert(vb[0] == y.spec_code());
        },
        (PathAttributeValue::NextHop(x), PathAttributeValue::NextHop(y)) => {
            assert(va[0] == x.next_hop.o0 && va[1] == x.next_hop.o1 && va[2] == x.next_hop.o2
                && va[3] == x.next_hop.o3);
            assert(vb[0] == y.next_hop.o0 && vb[1] == y.next_hop.o1 && vb[2] == y.next_hop.o2
                && vb[3] == y.next_hop.o3);
        },
        (
            PathAttributeValue::MultiExitDiscriminator(x),
            PathAttributeValue::MultiExitDiscriminator(y),
        ) => {
            crate::bytes::lemma_be32_injective(x.metric, y.metric);
        },
        (PathAttributeValue::LocalPreference(x), PathAttributeValue::LocalPreference(y)) => {
            crate::bytes::lemma_be32_injective(x.metric, y.metric);
        },
        (PathAttributeValue::AtomicAggregate(_), PathAttributeValue::AtomicAggregate(_)) => {},
        (PathAttributeValue::Aggregator(x), PathAttributeValue::Aggregator(y)) => {
            match (x, y) {
                (Aggregator::As2Aggregator(p), Aggregator::As2Aggregator(q)) => {
                    assert(spec_be16(p.asn) =~= va.subrange(0, 2));
                    assert(spec_be16(q.asn) =~= vb.subrange(0, 2));
                    crate::bytes::lemma_be16_injective(p.asn, q.asn);
                    assert(va[2] == p.origin.o0 && va[3] == p.origin.o1 && va[4] == p.origin.o2
                        && va[5] == p.origin.o3);
                    assert(vb[2] == q.origin.o0 && vb[3] == q.origin.o1 && vb[4] == q.origin.o2
                        && vb[5] == q.origin.o3);
                },
                (Aggregator::As4Aggregator(p), Aggregator::As4Aggregator(q)) => {
                    assert(crate::bytes::spec_be32(p.asn) =~= va.subrange(0, 4));
                    assert(crate::bytes::spec_be32(q.asn) =~= vb.subrange(0, 4));
                    crate::bytes::lemma_be32_injective(p.asn, q.asn);
                    assert(va[4] == p.origin.o0 && va[5] == p.origin.o1 && va[6] == p.origin.o2
                        && va[7] == p.origin.o3);
                    assert(vb[4] == q.origin.o0 && vb[5] == q.origin.o1 && vb[6] == q.origin.o2
                        && vb[7] == q.origin.o3);
                },
                (Aggregator::As2Aggregator(p), Aggregator::As4Aggregator(q)) => {
                    assert(va.len() == 6 && vb.len() == 8);
                },
                (Aggregator::As4Aggregator(p), Aggregator::As2Aggregator(q)) => {
                    assert(va.len() == 8 && vb.len() == 6);
                },
            }
        },
        (PathAttributeValue::Originator(x), PathAttributeValue::Originator(y)) => {
            assert(va[0] == x.0.o0 && va[1] == x.0.o1 && va[2] == x.0.o2 && va[3] == x.0.o3);
            assert(vb[0] == y.0.o0 && vb[1] == y.0.o1 && vb[2] == y.0.o2 && vb[3] == y.0.o3);
        },
        (PathAttributeValue::OnlyToCustomer(x), PathAttributeValue::OnlyToCustomer(y)) => {
            crate::bytes::lemma_be32_injective(x.0, y.0);
        },
        (PathAttributeValue::Aigp(x), PathAttributeValue::Aigp(y)) => {
            match (x, y) {
                (
                    crate::path_attribute::Aigp::AccumulatedIgpMetric(m),
                    crate::path_attribute::Aigp::AccumulatedIgpMetric(n),
                ) => {
                    assert(crate::bytes::spec_be64(m) =~= va.subrange(3, 11));
                    assert(crate::bytes::spec_be64(n) =~= vb.subrange(3, 11));
                    crate::bytes::lemma_be64_injective(m, n);
                },
            }
        },
        _ => {
            assert(spec_attr_type_code(a.value) == spec_attr_type_code(b.value));
            assert(false);
        },
    }
}


} // verus!
