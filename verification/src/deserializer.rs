//! Deserializers for BGP path attributes.
//!
//! Each parser consumes octets from a shared buffer starting at a given
//! position and returns the decoded value with the position of the first
//! unconsumed octet. Every error carries the absolute offset at which it
//! was detected. On success, re-encoding the decoded value reproduces the
//! consumed octets exactly (for the attribute header, up to the unused low
//! nibble of the flags octet, which re-encodes as zero).

use vstd::prelude::*;

use crate::bytes::read_be16;
use crate::bytes::read_be32;
use crate::bytes::read_be64;
use crate::bytes::spec_be16;
use crate::bytes::spec_be16_val;
use crate::path_attribute::AsPathSegmentType;
use crate::path_attribute::Origin;
use crate::path_attribute::PathAttributeLength;
use crate::path_attribute::PathAttributeValue;
use crate::path_attribute::PathAttributeValueProperties;
use crate::path_attribute::UndefinedAsPathSegmentType;
use crate::path_attribute::UndefinedOrigin;
use crate::serializer::spec_attr_len_bytes;

verus! {

/// Whether a parsed attribute length equals the expected number of
/// octets.
pub open spec fn spec_check_length(attr_len: PathAttributeLength, expected: u16) -> bool {
    attr_len.spec_value() == expected
}

/// Whether a parsed attribute length equals the expected number of
/// octets.
pub fn check_length(attr_len: PathAttributeLength, expected: u16) -> (r: bool)
    ensures
        r == spec_check_length(attr_len, expected),
{
    match attr_len {
        PathAttributeLength::U8(len) => len as u16 == expected,
        PathAttributeLength::U16(len) => len == expected,
    }
}

/// How many octets the attribute length field occupies.
pub open spec fn spec_len_octets(extended_length: bool) -> int {
    if extended_length {
        2
    } else {
        1
    }
}

/// The attribute length field as it stands in the buffer, in the width
/// the extended-length flag selects.
pub open spec fn spec_len_field(buf: Seq<u8>, pos: int, extended_length: bool) -> PathAttributeLength {
    if extended_length {
        PathAttributeLength::U16(spec_be16_val(buf[pos], buf[pos + 1]))
    } else {
        PathAttributeLength::U8(buf[pos])
    }
}

/// Why an ORIGIN attribute failed to parse.
#[derive(Debug, Clone, Copy, PartialEq, Eq, Structural)]
pub enum OriginParsingError {
    /// More octets were needed than remain.
    Truncated { expected: usize, remaining: usize },
    InvalidOriginLength(PathAttributeLength),
    UndefinedOrigin(UndefinedOrigin),
}

/// An ORIGIN parse error with the offset at which it was detected.
#[derive(Debug, Clone, Copy, PartialEq, Eq, Structural)]
pub struct LocatedOriginParsingError {
    pub span: usize,
    pub error: OriginParsingError,
}

impl LocatedOriginParsingError {
    pub fn new(span: usize, error: OriginParsingError) -> (r: Self)
        ensures
            r == (LocatedOriginParsingError { span, error }),
    {
        Self { span, error }
    }

    pub fn span(&self) -> (r: usize)
        ensures
            r == self.span,
    {
        self.span
    }

    pub fn error(&self) -> (r: &OriginParsingError)
        ensures
            r == &self.error,
    {
        &self.error
    }

    pub fn into_located_attribute_parsing_error(self) -> (r: LocatedPathAttributeParsingError)
        ensures
            r == (LocatedPathAttributeParsingError {
                span: self.span,
                error: PathAttributeParsingError::OriginError(self.error),
            }),
    {
        LocatedPathAttributeParsingError {
            span: self.span,
            error: PathAttributeParsingError::OriginError(self.error),
        }
    }
}

/// Why an AS path attribute failed to parse.
#[derive(Debug, Clone, Copy, PartialEq, Eq, Structural)]
pub enum AsPathParsingError {
    /// More octets were needed than remain.
    Truncated { expected: usize, remaining: usize },
    UndefinedAsPathSegmentType(UndefinedAsPathSegmentType),
}

/// An AS path parse error with the offset at which it was detected.
#[derive(Debug, Clone, Copy, PartialEq, Eq, Structural)]
pub struct LocatedAsPathParsingError {
    pub span: usize,
    pub error: AsPathParsingError,
}

impl LocatedAsPathParsingError {
    pub fn new(span: usize, error: AsPathParsingError) -> (r: Self)
        ensures
            r == (LocatedAsPathParsingError { span, error }),
    {
        Self { span, error }
    }

    pub fn span(&self) -> (r: usize)
        ensures
            r == self.span,
    {
        self.span
    }

    pub fn error(&self) -> (r: &AsPathParsingError)
        ensures
            r == &self.error,
    {
        &self.error
    }

    pub fn into_located_attribute_parsing_error(self) -> (r: LocatedPathAttributeParsingError)
        ensures
            r == (LocatedPathAttributeParsingError {
                span: self.span,
                error: PathAttributeParsingError::AsPathError(self.error),
            }),
    {
        LocatedPathAttributeParsingError {
            span: self.span,
            error: PathAttributeParsingError::AsPathError(self.error),
        }
    }
}

/// Why a NEXT_HOP attribute failed to parse.
#[derive(Debug, Clone, Copy, PartialEq, Eq, Structural)]
pub enum NextHopParsingError {
    /// More octets were needed than remain.
    Truncated { expected: usize, remaining: usize },
    InvalidNextHopLength(PathAttributeLength),
}

/// A NEXT_HOP parse error with the offset at which it was detected.
#[derive(Debug, Clone, Copy, PartialEq, Eq, Structural)]
pub struct LocatedNextHopParsingError {
    pub span: usize,
    pub error: NextHopParsingError,
}

impl LocatedNextHopParsingError {
    pub fn new(span: usize, error: NextHopParsingError) -> (r: Self)
        ensures
            r == (LocatedNextHopParsingError { span, error }),
    {
        Self { span, error }
    }

    pub fn span(&self) -> (r: usize)
        ensures
            r == self.span,
    {
        self.span
    }

    pub fn error(&self) -> (r: &NextHopParsingError)
        ensures
            r == &self.error,
    {
        &self.error
    }

    pub fn into_located_attribute_parsing_error(self) -> (r: LocatedPathAttributeParsingError)
        ensures
            r == (LocatedPathAttributeParsingError {
                span: self.span,
                error: PathAttributeParsingError::NextHopError(self.error),
            }),
    {
        LocatedPathAttributeParsingError {
            span: self.span,
            error: PathAttributeParsingError::NextHopError(self.error),
        }
    }
}

/// Why a path attribute failed to parse.
#[derive(Debug, Clone, Copy, PartialEq, Eq, Structural)]
pub enum PathAttributeParsingError {
    /// More octets were needed than remain.
    Truncated { expected: usize, remaining: usize },
    OriginError(OriginParsingError),
    AsPathError(AsPathParsingError),
    NextHopError(NextHopParsingError),
    /// A fixed-size or list-valued attribute whose declared length does
    /// not fit its layout.
    InvalidAttributeLength { code: u8, declared: u16 },
    /// The accumulated IGP attribute did not hold the metric TLV.
    InvalidAigpTlv { tlv_type: u8 },
    /// The flags of a known attribute kind disagree with its matrix.
    InvalidPathAttribute(crate::path_attribute::InvalidPathAttribute),
}

/// A path attribute parse error with the offset at which it was detected.
#[derive(Debug, Clone, Copy, PartialEq, Eq, Structural)]
pub struct LocatedPathAttributeParsingError {
    pub span: usize,
    pub error: PathAttributeParsingError,
}

impl LocatedPathAttributeParsingError {
    pub fn new(span: usize, error: PathAttributeParsingError) -> (r: Self)
        ensures
            r == (LocatedPathAttributeParsingError { span, error }),
    {
        Self { span, error }
    }

    pub fn span(&self) -> (r: usize)
        ensures
            r == self.span,
    {
        self.span
    }

    pub fn error(&self) -> (r: &PathAttributeParsingError)
        ensures
            r == &self.error,
    {
        &self.error
    }
}

/// Read an attribute length field in the width selected by the
/// extended-length flag. The error carries how many octets were needed
/// and how many remain.
pub fn read_attr_len(buf: &[u8], pos: usize, extended_length: bool) -> (r: Result<
    (PathAttributeLength, usize),
    (usize, usize),
>)
    requires
        pos <= buf.len(),
    ensures
        match r {
            Ok((len, np)) => {
                &&& np == pos + spec_len_octets(extended_length)
                &&& np <= buf.len()
                &&& (len is U8 <==> !extended_length)
                &&& len == spec_len_field(buf@, pos as int, extended_length)
                &&& buf@.subrange(pos as int, np as int) == spec_attr_len_bytes(
                    extended_length,
                    len.spec_value() as int,
                )
            },
            Err((expected, remaining)) => {
                &&& remaining == buf.len() - pos
                &&& expected == spec_len_octets(extended_length)
                &&& expected > remaining
            },
        },
{
    if extended_length {
        if buf.len() - pos < 2 {
            return Err((2, buf.len() - pos));
        }
        let raw = read_be16(buf, pos);
        proof {
            crate::bytes::lemma_be16_bytes(buf@[pos as int], buf@[pos + 1]);
        }
        Ok((PathAttributeLength::U16(raw), pos + 2))
    } else {
        if buf.len() - pos < 1 {
            return Err((1, 0));
        }
        let raw = buf[pos];
        assert(buf@.subrange(pos as int, pos + 1) =~= seq![raw]);
        Ok((PathAttributeLength::U8(raw), pos + 1))
    }
}

/// Exactly when and how parsing an ORIGIN value fails: a truncated
/// length field or value, a declared length other than one, or an
/// undefined origin code, each reported at its own offset.
pub open spec fn spec_origin_error(buf: Seq<u8>, pos: int, extended_length: bool) -> Option<
    LocatedOriginParsingError,
> {
    let ll = spec_len_octets(extended_length);
    if buf.len() - pos < ll {
        Some(
            LocatedOriginParsingError {
                span: pos as usize,
                error: OriginParsingError::Truncated {
                    expected: ll as usize,
                    remaining: (buf.len() - pos) as usize,
                },
            },
        )
    } else {
        let length = spec_len_field(buf, pos, extended_length);
        if length.spec_value() != 1 {
            Some(
                LocatedOriginParsingError {
                    span: pos as usize,
                    error: OriginParsingError::InvalidOriginLength(length),
                },
            )
        } else if buf.len() - (pos + ll) < 1 {
            Some(
                LocatedOriginParsingError {
                    span: (pos + ll) as usize,
                    error: OriginParsingError::Truncated {
                        expected: 1,
                        remaining: (buf.len() - (pos + ll)) as usize,
                    },
                },
            )
        } else if Origin::spec_from_code(buf[pos + ll]) is None {
            Some(
                LocatedOriginParsingError {
                    span: (pos + ll) as usize,
                    error: OriginParsingError::UndefinedOrigin(UndefinedOrigin(buf[pos + ll])),
                },
            )
        } else {
            None
        }
    }
}

/// Parse an ORIGIN attribute value (its length field and one code
/// octet). On success the consumed octets are exactly the value's
/// canonical encoding; it fails exactly as [`spec_origin_error`] says.
pub fn parse_origin(buf: &[u8], pos: usize, extended_length: bool) -> (r: Result<
    (Origin, usize),
    LocatedOriginParsingError,
>)
    requires
        pos <= buf.len(),
    ensures
        match r {
            Ok((o, end)) => {
                &&& pos < end <= buf.len()
                &&& buf@.subrange(pos as int, end as int) == spec_attr_len_bytes(
                    extended_length,
                    1,
                ) + seq![o.spec_code()]
                &&& spec_origin_error(buf@, pos as int, extended_length) is None
            },
            Err(e) => spec_origin_error(buf@, pos as int, extended_length) == Some(e),
        },
{
    let (length, after_len) = match read_attr_len(buf, pos, extended_length) {
        Ok(v) => v,
        Err((expected, remaining)) => {
            return Err(
                LocatedOriginParsingError::new(
                    pos,
                    OriginParsingError::Truncated { expected, remaining },
                ),
            );
        },
    };
    if !check_length(length, 1) {
        return Err(
            LocatedOriginParsingError::new(pos, OriginParsingError::InvalidOriginLength(length)),
        );
    }
    if buf.len() - after_len < 1 {
        return Err(
            LocatedOriginParsingError::new(
                after_len,
                OriginParsingError::Truncated { expected: 1, remaining: buf.len() - after_len },
            ),
        );
    }
    let code = buf[after_len];
    let origin = match Origin::try_from(code) {
        Ok(o) => o,
        Err(u) => {
            return Err(
                LocatedOriginParsingError::new(after_len, OriginParsingError::UndefinedOrigin(u)),
            );
        },
    };
    assert(buf@.subrange(pos as int, after_len + 1) =~= spec_attr_len_bytes(extended_length, 1)
        + seq![origin.spec_code()]);
    Ok((origin, after_len + 1))
}

/// Exactly when and how parsing a NEXT_HOP value fails: a truncated
/// length field or value, or a declared length other than four.
pub open spec fn spec_next_hop_error(buf: Seq<u8>, pos: int, extended_length: bool) -> Option<
    LocatedNextHopParsingError,
> {
    let ll = spec_len_octets(extended_length);
    if buf.len() - pos < ll {
        Some(
            LocatedNextHopParsingError {
                span: pos as usize,
                error: NextHopParsingError::Truncated {
                    expected: ll as usize,
                    remaining: (buf.len() - pos) as usize,
                },
            },
        )
    } else {
        let length = spec_len_field(buf, pos, extended_length);
        if length.spec_value() != 4 {
            Some(
                LocatedNextHopParsingError {
                    span: pos as usize,
                    error: NextHopParsingError::InvalidNextHopLength(length),
                },
            )
        } else if buf.len() - (pos + ll) < 4 {
            Some(
                LocatedNextHopParsingError {
                    span: (pos + ll) as usize,
                    error: NextHopParsingError::Truncated {
                        expected: 4,
                        remaining: (buf.len() - (pos + ll)) as usize,
                    },
                },
            )
        } else {
            None
        }
    }
}

/// Parse a NEXT_HOP attribute value (its length field and four address
/// octets). On success the consumed octets are exactly the value's
/// canonical encoding; it fails exactly as [`spec_next_hop_error`] says.
pub fn parse_next_hop(buf: &[u8], pos: usize, extended_length: bool) -> (r: Result<
    (crate::path_attribute::NextHop, usize),
    LocatedNextHopParsingError,
>)
    requires
        pos <= buf.len(),
    ensures
        match r {
            Ok((nh, end)) => {
                &&& pos < end <= buf.len()
                &&& buf@.subrange(pos as int, end as int) == spec_attr_len_bytes(
                    extended_length,
                    4,
                ) + nh.next_hop.spec_octets()
                &&& spec_next_hop_error(buf@, pos as int, extended_length) is None
            },
            Err(e) => spec_next_hop_error(buf@, pos as int, extended_length) == Some(e),
        },
{
    let (length, after_len) = match read_attr_len(buf, pos, extended_length) {
        Ok(v) => v,
        Err((expected, remaining)) => {
            return Err(
                LocatedNextHopParsingError::new(
                    pos,
                    NextHopParsingError::Truncated { expected, remaining },
                ),
            );
        },
    };
    if !check_length(length, 4) {
        return Err(
            LocatedNextHopParsingError::new(
                pos,
                NextHopParsingError::InvalidNextHopLength(length),
            ),
        );
    }
    if buf.len() - after_len < 4 {
        return Err(
            LocatedNextHopParsingError::new(
                after_len,
                NextHopParsingError::Truncated { expected: 4, remaining: buf.len() - after_len },
            ),
        );
    }
    let addr = crate::addr::Ipv4Addr::new(
        buf[after_len],
        buf[after_len + 1],
        buf[after_len + 2],
        buf[after_len + 3],
    );
    let nh = crate::path_attribute::NextHop::new(addr);
    assert(buf@.subrange(pos as int, after_len + 4) =~= spec_attr_len_bytes(extended_length, 4)
        + nh.next_hop.spec_octets());
    Ok((nh, after_len + 4))
}


/// Where one two-octet AS path segment ends, given where it starts.
pub open spec fn spec_as2_segment_end(buf: Seq<u8>, pos: int) -> int {
    pos + 2 + 2 * (buf[pos + 1] as int)
}

/// Where one four-octet AS path segment ends, given where it starts.
pub open spec fn spec_as4_segment_end(buf: Seq<u8>, pos: int) -> int {
    pos + 2 + 4 * (buf[pos + 1] as int)
}

/// Exactly when and how one two-octet AS path segment fails to parse: a
/// truncated header or body, or an undefined segment type.
pub open spec fn spec_as2_segment_error(buf: Seq<u8>, pos: int, limit: int) -> Option<
    LocatedAsPathParsingError,
> {
    if limit - pos < 2 {
        Some(
            LocatedAsPathParsingError {
                span: pos as usize,
                error: AsPathParsingError::Truncated {
                    expected: 2,
                    remaining: (limit - pos) as usize,
                },
            },
        )
    } else if AsPathSegmentType::spec_from_code(buf[pos]) is None {
        Some(
            LocatedAsPathParsingError {
                span: pos as usize,
                error: AsPathParsingError::UndefinedAsPathSegmentType(
                    UndefinedAsPathSegmentType(buf[pos]),
                ),
            },
        )
    } else if limit - (pos + 2) < 2 * (buf[pos + 1] as int) {
        Some(
            LocatedAsPathParsingError {
                span: (pos + 2) as usize,
                error: AsPathParsingError::Truncated {
                    expected: (2 * (buf[pos + 1] as int)) as usize,
                    remaining: (limit - (pos + 2)) as usize,
                },
            },
        )
    } else {
        None
    }
}

/// Exactly when and how one four-octet AS path segment fails to parse.
pub open spec fn spec_as4_segment_error(buf: Seq<u8>, pos: int, limit: int) -> Option<
    LocatedAsPathParsingError,
> {
    if limit - pos < 2 {
        Some(
            LocatedAsPathParsingError {
                span: pos as usize,
                error: AsPathParsingError::Truncated {
                    expected: 2,
                    remaining: (limit - pos) as usize,
                },
            },
        )
    } else if AsPathSegmentType::spec_from_code(buf[pos]) is None {
        Some(
            LocatedAsPathParsingError {
                span: pos as usize,
                error: AsPathParsingError::UndefinedAsPathSegmentType(
                    UndefinedAsPathSegmentType(buf[pos]),
                ),
            },
        )
    } else if limit - (pos + 2) < 4 * (buf[pos + 1] as int) {
        Some(
            LocatedAsPathParsingError {
                span: (pos + 2) as usize,
                error: AsPathParsingError::Truncated {
                    expected: (4 * (buf[pos + 1] as int)) as usize,
                    remaining: (limit - (pos + 2)) as usize,
                },
            },
        )
    } else {
        None
    }
}

/// The first failure among the two-octet segments that fill `[pos,
/// limit)`, if any.
pub open spec fn spec_as2_segments_error(buf: Seq<u8>, pos: int, limit: int) -> Option<
    LocatedAsPathParsingError,
>
    decreases limit - pos,
{
    if pos >= limit {
        None
    } else {
        match spec_as2_segment_error(buf, pos, limit) {
            Some(e) => Some(e),
            None => {
                let end = spec_as2_segment_end(buf, pos);
                if pos < end <= limit {
                    spec_as2_segments_error(buf, end, limit)
                } else {
                    None
                }
            },
        }
    }
}

/// The first failure among the four-octet segments that fill `[pos,
/// limit)`, if any.
pub open spec fn spec_as4_segments_error(buf: Seq<u8>, pos: int, limit: int) -> Option<
    LocatedAsPathParsingError,
>
    decreases limit - pos,
{
    if pos >= limit {
        None
    } else {
        match spec_as4_segment_error(buf, pos, limit) {
            Some(e) => Some(e),
            None => {
                let end = spec_as4_segment_end(buf, pos);
                if pos < end <= limit {
                    spec_as4_segments_error(buf, end, limit)
                } else {
                    None
                }
            },
        }
    }
}

/// Exactly when and how an AS path value fails to parse: a truncated
/// length field or body, or a failing segment inside the declared body.
pub open spec fn spec_as_path_error(
    buf: Seq<u8>,
    pos: int,
    extended_length: bool,
    asn4: bool,
) -> Option<LocatedAsPathParsingError> {
    let ll = spec_len_octets(extended_length);
    if buf.len() - pos < ll {
        Some(
            LocatedAsPathParsingError {
                span: pos as usize,
                error: AsPathParsingError::Truncated {
                    expected: ll as usize,
                    remaining: (buf.len() - pos) as usize,
                },
            },
        )
    } else {
        let declared = spec_len_field(buf, pos, extended_length).spec_value() as int;
        if buf.len() - (pos + ll) < declared {
            Some(
                LocatedAsPathParsingError {
                    span: (pos + ll) as usize,
                    error: AsPathParsingError::Truncated {
                        expected: declared as usize,
                        remaining: (buf.len() - (pos + ll)) as usize,
                    },
                },
            )
        } else if asn4 {
            spec_as4_segments_error(buf, pos + ll, pos + ll + declared)
        } else {
            spec_as2_segments_error(buf, pos + ll, pos + ll + declared)
        }
    }
}

/// Exactly when and how an AS4_PATH value fails to parse.
pub open spec fn spec_as4_path_error(buf: Seq<u8>, pos: int, extended_length: bool) -> Option<
    LocatedAsPathParsingError,
> {
    let ll = spec_len_octets(extended_length);
    if buf.len() - pos < ll {
        Some(
            LocatedAsPathParsingError {
                span: pos as usize,
                error: AsPathParsingError::Truncated {
                    expected: ll as usize,
                    remaining: (buf.len() - pos) as usize,
                },
            },
        )
    } else {
        let declared = spec_len_field(buf, pos, extended_length).spec_value() as int;
        if buf.len() - (pos + ll) < declared {
            Some(
                LocatedAsPathParsingError {
                    span: (pos + ll) as usize,
                    error: AsPathParsingError::Truncated {
                        expected: declared as usize,
                        remaining: (buf.len() - (pos + ll)) as usize,
                    },
                },
            )
        } else {
            spec_as4_segments_error(buf, pos + ll, pos + ll + declared)
        }
    }
}

/// Parse one AS path segment with two-octet AS numbers, bounded by
/// `limit`. On success the consumed octets are exactly the segment's
/// encoding.
#[verifier::loop_isolation(false)]
pub fn parse_as2_segment(buf: &[u8], pos: usize, limit: usize) -> (r: Result<
    (crate::path_attribute::As2PathSegment, usize),
    LocatedAsPathParsingError,
>)
    requires
        pos <= limit <= buf.len(),
    ensures
        match r {
            Ok((s, np)) => {
                &&& pos < np <= limit
                &&& buf@.subrange(pos as int, np as int)
                    == crate::serializer::spec_as2_segment_bytes(s)
                &&& crate::serializer::spec_as2_segment_wf(s)
                &&& spec_as2_segment_error(buf@, pos as int, limit as int) is None
                &&& np == spec_as2_segment_end(buf@, pos as int)
            },
            Err(e) => spec_as2_segment_error(buf@, pos as int, limit as int) == Some(e),
        },
{
    let ghost f = |x: u16| spec_be16(x);
    if limit - pos < 2 {
        return Err(
            LocatedAsPathParsingError::new(
                pos,
                AsPathParsingError::Truncated { expected: 2, remaining: limit - pos },
            ),
        );
    }
    let type_code = buf[pos];
    let segment_type = match AsPathSegmentType::try_from(type_code) {
        Ok(t) => t,
        Err(u) => {
            return Err(
                LocatedAsPathParsingError::new(
                    pos,
                    AsPathParsingError::UndefinedAsPathSegmentType(u),
                ),
            );
        },
    };
    let count = buf[pos + 1];
    if limit - (pos + 2) < 2 * (count as usize) {
        return Err(
            LocatedAsPathParsingError::new(
                pos + 2,
                AsPathParsingError::Truncated {
                    expected: 2 * (count as usize),
                    remaining: limit - (pos + 2),
                },
            ),
        );
    }
    let mut as_numbers: Vec<u16> = Vec::new();
    let mut j: usize = 0;
    while j < count as usize
        invariant
            j <= count as usize,
            as_numbers@.len() == j,
            buf@.subrange(pos + 2, pos + 2 + 2 * j) == as_numbers@.flat_map(f),
        decreases count as usize - j,
    {
        let v = read_be16(buf, pos + 2 + 2 * j);
        proof {
            as_numbers@.lemma_flat_map_push(f, v);
            assert(buf@.subrange(pos + 2, pos + 2 + 2 * (j + 1)) =~= buf@.subrange(
                pos + 2,
                pos + 2 + 2 * j,
            ) + buf@.subrange(pos + 2 + 2 * j, pos + 2 + 2 * j + 2));
        }
        as_numbers.push(v);
        j = j + 1;
    }
    let s = crate::path_attribute::As2PathSegment { segment_type, as_numbers };
    let np = pos + 2 + 2 * (count as usize);
    proof {
        assert(segment_type.spec_code() == type_code);
        assert(buf@.subrange(pos as int, np as int) =~= seq![type_code, count] + buf@.subrange(
            pos + 2,
            np as int,
        ));
        assert(buf@.subrange(pos as int, np as int)
            =~= crate::serializer::spec_as2_segment_bytes(s));
    }
    Ok((s, np))
}

/// Parse one AS path segment with four-octet AS numbers, bounded by
/// `limit`. On success the consumed octets are exactly the segment's
/// encoding.
#[verifier::loop_isolation(false)]
pub fn parse_as4_segment(buf: &[u8], pos: usize, limit: usize) -> (r: Result<
    (crate::path_attribute::As4PathSegment, usize),
    LocatedAsPathParsingError,
>)
    requires
        pos <= limit <= buf.len(),
    ensures
        match r {
            Ok((s, np)) => {
                &&& pos < np <= limit
                &&& buf@.subrange(pos as int, np as int)
                    == crate::serializer::spec_as4_segment_bytes(s)
                &&& crate::serializer::spec_as4_segment_wf(s)
                &&& spec_as4_segment_error(buf@, pos as int, limit as int) is None
                &&& np == spec_as4_segment_end(buf@, pos as int)
            },
            Err(e) => spec_as4_segment_error(buf@, pos as int, limit as int) == Some(e),
        },
{
    let ghost f = |x: u32| crate::bytes::spec_be32(x);
    if limit - pos < 2 {
        return Err(
            LocatedAsPathParsingError::new(
                pos,
                AsPathParsingError::Truncated { expected: 2, remaining: limit - pos },
            ),
        );
    }
    let type_code = buf[pos];
    let segment_type = match AsPathSegmentType::try_from(type_code) {
        Ok(t) => t,
        Err(u) => {
            return Err(
                LocatedAsPathParsingError::new(
                    pos,
                    AsPathParsingError::UndefinedAsPathSegmentType(u),
                ),
            );
        },
    };
    let count = buf[pos + 1];
    if limit - (pos + 2) < 4 * (count as usize) {
        return Err(
            LocatedAsPathParsingError::new(
                pos + 2,
                AsPathParsingError::Truncated {
                    expected: 4 * (count as usize),
                    remaining: limit - (pos + 2),
                },
            ),
        );
    }
    let mut as_numbers: Vec<u32> = Vec::new();
    let mut j: usize = 0;
    while j < count as usize
        invariant
            j <= count as usize,
            as_numbers@.len() == j,
            buf@.subrange(pos + 2, pos + 2 + 4 * j) == as_numbers@.flat_map(f),
        decreases count as usize - j,
    {
        let v = read_be32(buf, pos + 2 + 4 * j);
        proof {
            as_numbers@.lemma_flat_map_push(f, v);
            assert(buf@.subrange(pos + 2, pos + 2 + 4 * (j + 1)) =~= buf@.subrange(
                pos + 2,
                pos + 2 + 4 * j,
            ) + buf@.subrange(pos + 2 + 4 * j, pos + 2 + 4 * j + 4));
        }
        as_numbers.push(v);
        j = j + 1;
    }
    let s = crate::path_attribute::As4PathSegment { segment_type, as_numbers };
    let np = pos + 2 + 4 * (count as usize);
    proof {
        assert(segment_type.spec_code() == type_code);
        assert(buf@.subrange(pos as int, np as int) =~= seq![type_code, count] + buf@.subrange(
            pos + 2,
            np as int,
        ));
        assert(buf@.subrange(pos as int, np as int)
            =~= crate::serializer::spec_as4_segment_bytes(s));
    }
    Ok((s, np))
}

/// Parse two-octet AS path segments until `seg_end`.
#[verifier::loop_isolation(false)]
fn parse_as2_segments(buf: &[u8], start: usize, seg_end: usize) -> (r: Result<
    Vec<crate::path_attribute::As2PathSegment>,
    LocatedAsPathParsingError,
>)
    requires
        start <= seg_end <= buf.len(),
    ensures
        match r {
            Ok(segments) => {
                &&& buf@.subrange(start as int, seg_end as int) == segments@.flat_map(
                    |s: crate::path_attribute::As2PathSegment|
                        crate::serializer::spec_as2_segment_bytes(s),
                )
                &&& forall|k: int|
                    0 <= k < segments@.len() ==> crate::serializer::spec_as2_segment_wf(
                        #[trigger] segments@[k],
                    )
                &&& spec_as2_segments_error(buf@, start as int, seg_end as int) is None
            },
            Err(e) => spec_as2_segments_error(buf@, start as int, seg_end as int) == Some(e),
        },
{
    let ghost f = |s: crate::path_attribute::As2PathSegment|
        crate::serializer::spec_as2_segment_bytes(s);
    let mut segments: Vec<crate::path_attribute::As2PathSegment> = Vec::new();
    let mut cur = start;
    while cur < seg_end
        invariant
            start <= cur <= seg_end,
            buf@.subrange(start as int, cur as int) == segments@.flat_map(f),
            spec_as2_segments_error(buf@, cur as int, seg_end as int) == spec_as2_segments_error(
                buf@,
                start as int,
                seg_end as int,
            ),
            forall|k: int|
                0 <= k < segments@.len() ==> crate::serializer::spec_as2_segment_wf(
                    #[trigger] segments@[k],
                ),
        decreases seg_end - cur,
    {
        let (s, np) = match parse_as2_segment(buf, cur, seg_end) {
            Ok(v) => v,
            Err(e) => {
                proof {
                    assert(spec_as2_segments_error(buf@, cur as int, seg_end as int) == Some(e));
                }
                return Err(e);
            },
        };
        proof {
            assert(spec_as2_segments_error(buf@, cur as int, seg_end as int)
                == spec_as2_segments_error(buf@, np as int, seg_end as int));
            segments@.lemma_flat_map_push(f, s);
            assert(buf@.subrange(start as int, np as int) =~= buf@.subrange(
                start as int,
                cur as int,
            ) + buf@.subrange(cur as int, np as int));
        }
        segments.push(s);
        cur = np;
    }
    Ok(segments)
}

/// Parse four-octet AS path segments until `seg_end`.
#[verifier::loop_isolation(false)]
fn parse_as4_segments(buf: &[u8], start: usize, seg_end: usize) -> (r: Result<
    Vec<crate::path_attribute::As4PathSegment>,
    LocatedAsPathParsingError,
>)
    requires
        start <= seg_end <= buf.len(),
    ensures
        match r {
            Ok(segments) => {
                &&& buf@.subrange(start as int, seg_end as int) == segments@.flat_map(
                    |s: crate::path_attribute::As4PathSegment|
                        crate::serializer::spec_as4_segment_bytes(s),
                )
                &&& forall|k: int|
                    0 <= k < segments@.len() ==> crate::serializer::spec_as4_segment_wf(
                        #[trigger] segments@[k],
                    )
                &&& spec_as4_segments_error(buf@, start as int, seg_end as int) is None
            },
            Err(e) => spec_as4_segments_error(buf@, start as int, seg_end as int) == Some(e),
        },
{
    let ghost f = |s: crate::path_attribute::As4PathSegment|
        crate::serializer::spec_as4_segment_bytes(s);
    let mut segments: Vec<crate::path_attribute::As4PathSegment> = Vec::new();
    let mut cur = start;
    while cur < seg_end
        invariant
            start <= cur <= seg_end,
            buf@.subrange(start as int, cur as int) == segments@.flat_map(f),
            spec_as4_segments_error(buf@, cur as int, seg_end as int) == spec_as4_segments_error(
                buf@,
                start as int,
                seg_end as int,
            ),
            forall|k: int|
                0 <= k < segments@.len() ==> crate::serializer::spec_as4_segment_wf(
                    #[trigger] segments@[k],
                ),
        decreases seg_end - cur,
    {
        let (s, np) = match parse_as4_segment(buf, cur, seg_end) {
            Ok(v) => v,
            Err(e) => {
                proof {
                    assert(spec_as4_segments_error(buf@, cur as int, seg_end as int) == Some(e));
                }
                return Err(e);
            },
        };
        proof {
            assert(spec_as4_segments_error(buf@, cur as int, seg_end as int)
                == spec_as4_segments_error(buf@, np as int, seg_end as int));
            segments@.lemma_flat_map_push(f, s);
            assert(buf@.subrange(start as int, np as int) =~= buf@.subrange(
                start as int,
                cur as int,
            ) + buf@.subrange(cur as int, np as int));
        }
        segments.push(s);
        cur = np;
    }
    Ok(segments)
}

/// Parse an AS_PATH attribute value: its length field, then segments
/// until the declared length is consumed, in the AS number width the
/// session negotiated. On success the consumed octets are exactly the
/// value's canonical encoding.
#[verifier::loop_isolation(false)]
pub fn parse_as_path(buf: &[u8], pos: usize, extended_length: bool, asn4: bool) -> (r: Result<
    (crate::path_attribute::AsPath, usize),
    LocatedAsPathParsingError,
>)
    requires
        pos <= buf.len(),
    ensures
        match r {
            Ok((p, end)) => {
                &&& pos < end <= buf.len()
                &&& buf@.subrange(pos as int, end as int) == spec_attr_len_bytes(
                    extended_length,
                    crate::serializer::spec_as_path_bytes(p).len() as int,
                ) + crate::serializer::spec_as_path_bytes(p)
                &&& crate::serializer::spec_as_path_wf(p)
                &&& crate::serializer::spec_attr_len_ok(
                    extended_length,
                    crate::serializer::spec_as_path_bytes(p).len() as int,
                )
                &&& (p is As4PathSegments <==> asn4)
                &&& spec_as_path_error(buf@, pos as int, extended_length, asn4) is None
            },
            Err(e) => spec_as_path_error(buf@, pos as int, extended_length, asn4) == Some(e),
        },
{
    let (length, after_len) = match read_attr_len(buf, pos, extended_length) {
        Ok(v) => v,
        Err((expected, remaining)) => {
            return Err(
                LocatedAsPathParsingError::new(
                    pos,
                    AsPathParsingError::Truncated { expected, remaining },
                ),
            );
        },
    };
    let body_len = match length {
        PathAttributeLength::U8(l) => l as usize,
        PathAttributeLength::U16(l) => l as usize,
    };
    if buf.len() - after_len < body_len {
        return Err(
            LocatedAsPathParsingError::new(
                after_len,
                AsPathParsingError::Truncated {
                    expected: body_len,
                    remaining: buf.len() - after_len,
                },
            ),
        );
    }
    let seg_end = after_len + body_len;
    if asn4 {
        let segments = match parse_as4_segments(buf, after_len, seg_end) {
            Ok(v) => v,
            Err(e) => {
                return Err(e);
            },
        };
        let p = crate::path_attribute::AsPath::As4PathSegments(segments);
        assert(buf@.subrange(pos as int, seg_end as int) =~= buf@.subrange(
            pos as int,
            after_len as int,
        ) + buf@.subrange(after_len as int, seg_end as int));
        Ok((p, seg_end))
    } else {
        let segments = match parse_as2_segments(buf, after_len, seg_end) {
            Ok(v) => v,
            Err(e) => {
                return Err(e);
            },
        };
        let p = crate::path_attribute::AsPath::As2PathSegments(segments);
        assert(buf@.subrange(pos as int, seg_end as int) =~= buf@.subrange(
            pos as int,
            after_len as int,
        ) + buf@.subrange(after_len as int, seg_end as int));
        Ok((p, seg_end))
    }
}

/// Parse an AS4_PATH attribute value: always four-octet AS numbers. On
/// success the consumed octets are exactly the value's canonical
/// encoding.
#[verifier::loop_isolation(false)]
pub fn parse_as4_path(buf: &[u8], pos: usize, extended_length: bool) -> (r: Result<
    (crate::path_attribute::As4Path, usize),
    LocatedAsPathParsingError,
>)
    requires
        pos <= buf.len(),
    ensures
        match r {
            Ok((p, end)) => {
                &&& pos < end <= buf.len()
                &&& buf@.subrange(pos as int, end as int) == spec_attr_len_bytes(
                    extended_length,
                    crate::serializer::spec_as4_segments_bytes(p.segments@).len() as int,
                ) + crate::serializer::spec_as4_segments_bytes(p.segments@)
                &&& crate::serializer::spec_as4_segments_wf(p.segments@)
                &&& crate::serializer::spec_attr_len_ok(
                    extended_length,
                    crate::serializer::spec_as4_segments_bytes(p.segments@).len() as int,
                )
                &&& spec_as4_path_error(buf@, pos as int, extended_length) is None
            },
            Err(e) => spec_as4_path_error(buf@, pos as int, extended_length) == Some(e),
        },
{
    let (length, after_len) = match read_attr_len(buf, pos, extended_length) {
        Ok(v) => v,
        Err((expected, remaining)) => {
            return Err(
                LocatedAsPathParsingError::new(
                    pos,
                    AsPathParsingError::Truncated { expected, remaining },
                ),
            );
        },
    };
    let body_len = match length {
        PathAttributeLength::U8(l) => l as usize,
        PathAttributeLength::U16(l) => l as usize,
    };
    if buf.len() - after_len < body_len {
        return Err(
            LocatedAsPathParsingError::new(
                after_len,
                AsPathParsingError::Truncated {
                    expected: body_len,
                    remaining: buf.len() - after_len,
                },
            ),
        );
    }
    let seg_end = after_len + body_len;
    let segments = match parse_as4_segments(buf, after_len, seg_end) {
        Ok(v) => v,
        Err(e) => {
            return Err(e);
        },
    };
    let p = crate::path_attribute::As4Path { segments };
    assert(buf@.subrange(pos as int, seg_end as int) =~= buf@.subrange(
        pos as int,
        after_len as int,
    ) + buf@.subrange(after_len as int, seg_end as int));
    Ok((p, seg_end))
}

/// Copy the octets in `[a, b)` into an owned vector.
fn read_bytes(buf: &[u8], a: usize, b: usize) -> (r: Vec<u8>)
    requires
        a <= b <= buf.len(),
    ensures
        r@ == buf@.subrange(a as int, b as int),
{
    vstd::slice::slice_to_vec(&buf[a..b])
}

/// The canonical flags octet of the four extracted bits equals the high
/// nibble of the octet they came from.
proof fn lemma_flags_byte_nibble(b: u8)
    ensures
        crate::serializer::spec_flags_byte(
            b & 0x80 == 0x80,
            b & 0x40 == 0x40,
            b & 0x20 == 0x20,
            b & 0x10 == 0x10,
        ) == b & 0xF0,
{
    assert(((if b & 0x80 == 0x80 {
        0x80u8
    } else {
        0u8
    }) + (if b & 0x40 == 0x40 {
        0x40u8
    } else {
        0u8
    }) + (if b & 0x20 == 0x20 {
        0x20u8
    } else {
        0u8
    }) + (if b & 0x10 == 0x10 {
        0x10u8
    } else {
        0u8
    })) as u8 == b & 0xF0) by (bit_vector);
}


/// Exactly when and how parsing a fixed four-octet attribute value
/// (MED, LOCAL_PREF, ORIGINATOR_ID, OTC) fails.
pub open spec fn spec_u32_value_error(
    buf: Seq<u8>,
    pos: int,
    extended_length: bool,
    code: u8,
) -> Option<LocatedPathAttributeParsingError> {
    let ll = spec_len_octets(extended_length);
    if buf.len() - pos < ll {
        Some(
            LocatedPathAttributeParsingError {
                span: pos as usize,
                error: PathAttributeParsingError::Truncated {
                    expected: ll as usize,
                    remaining: (buf.len() - pos) as usize,
                },
            },
        )
    } else {
        let length = spec_len_field(buf, pos, extended_length);
        if length.spec_value() != 4 {
            Some(
                LocatedPathAttributeParsingError {
                    span: pos as usize,
                    error: PathAttributeParsingError::InvalidAttributeLength {
                        code,
                        declared: length.spec_value(),
                    },
                },
            )
        } else if buf.len() - (pos + ll) < 4 {
            Some(
                LocatedPathAttributeParsingError {
                    span: (pos + ll) as usize,
                    error: PathAttributeParsingError::Truncated {
                        expected: 4,
                        remaining: (buf.len() - (pos + ll)) as usize,
                    },
                },
            )
        } else {
            None
        }
    }
}

/// Exactly when and how parsing a raw-valued attribute fails: only on a
/// truncated length field or value.
pub open spec fn spec_raw_value_error(buf: Seq<u8>, pos: int, extended_length: bool) -> Option<
    LocatedPathAttributeParsingError,
> {
    let ll = spec_len_octets(extended_length);
    if buf.len() - pos < ll {
        Some(
            LocatedPathAttributeParsingError {
                span: pos as usize,
                error: PathAttributeParsingError::Truncated {
                    expected: ll as usize,
                    remaining: (buf.len() - pos) as usize,
                },
            },
        )
    } else {
        let declared = spec_len_field(buf, pos, extended_length).spec_value();
        if buf.len() - (pos + ll) < declared {
            Some(
                LocatedPathAttributeParsingError {
                    span: (pos + ll) as usize,
                    error: PathAttributeParsingError::Truncated {
                        expected: declared as usize,
                        remaining: (buf.len() - (pos + ll)) as usize,
                    },
                },
            )
        } else {
            None
        }
    }
}

/// Exactly when and how parsing an AGGREGATOR value fails: its declared
/// length must be eight octets with four-octet AS numbers and six with
/// two-octet ones.
pub open spec fn spec_aggregator_error(
    buf: Seq<u8>,
    pos: int,
    extended_length: bool,
    asn4: bool,
) -> Option<LocatedPathAttributeParsingError> {
    let ll = spec_len_octets(extended_length);
    let expected: int = if asn4 {
        8
    } else {
        6
    };
    if buf.len() - pos < ll {
        Some(
            LocatedPathAttributeParsingError {
                span: pos as usize,
                error: PathAttributeParsingError::Truncated {
                    expected: ll as usize,
                    remaining: (buf.len() - pos) as usize,
                },
            },
        )
    } else {
        let length = spec_len_field(buf, pos, extended_length);
        if length.spec_value() != expected {
            Some(
                LocatedPathAttributeParsingError {
                    span: pos as usize,
                    error: PathAttributeParsingError::InvalidAttributeLength {
                        code: 7,
                        declared: length.spec_value(),
                    },
                },
            )
        } else if buf.len() - (pos + ll) < expected {
            Some(
                LocatedPathAttributeParsingError {
                    span: (pos + ll) as usize,
                    error: PathAttributeParsingError::Truncated {
                        expected: expected as usize,
                        remaining: (buf.len() - (pos + ll)) as usize,
                    },
                },
            )
        } else {
            None
        }
    }
}

/// Exactly when and how parsing a list-valued attribute (communities of
/// every width, cluster lists) fails: the declared length must be a
/// multiple of the item width `unit` and must fit the buffer.
pub open spec fn spec_list_value_error(
    buf: Seq<u8>,
    pos: int,
    extended_length: bool,
    unit: int,
    code: u8,
) -> Option<LocatedPathAttributeParsingError> {
    let ll = spec_len_octets(extended_length);
    if buf.len() - pos < ll {
        Some(
            LocatedPathAttributeParsingError {
                span: pos as usize,
                error: PathAttributeParsingError::Truncated {
                    expected: ll as usize,
                    remaining: (buf.len() - pos) as usize,
                },
            },
        )
    } else {
        let declared = spec_len_field(buf, pos, extended_length).spec_value();
        if declared as int % unit != 0 {
            Some(
                LocatedPathAttributeParsingError {
                    span: pos as usize,
                    error: PathAttributeParsingError::InvalidAttributeLength { code, declared },
                },
            )
        } else if buf.len() - (pos + ll) < declared {
            Some(
                LocatedPathAttributeParsingError {
                    span: (pos + ll) as usize,
                    error: PathAttributeParsingError::Truncated {
                        expected: declared as usize,
                        remaining: (buf.len() - (pos + ll)) as usize,
                    },
                },
            )
        } else {
            None
        }
    }
}

/// Exactly when and how parsing an accumulated IGP metric value fails:
/// the value is one eleven-octet TLV of type one.
pub open spec fn spec_aigp_error(buf: Seq<u8>, pos: int, extended_length: bool) -> Option<
    LocatedPathAttributeParsingError,
> {
    let ll = spec_len_octets(extended_length);
    if buf.len() - pos < ll {
        Some(
            LocatedPathAttributeParsingError {
                span: pos as usize,
                error: PathAttributeParsingError::Truncated {
                    expected: ll as usize,
                    remaining: (buf.len() - pos) as usize,
                },
            },
        )
    } else {
        let length = spec_len_field(buf, pos, extended_length);
        if length.spec_value() != 11 {
            Some(
                LocatedPathAttributeParsingError {
                    span: pos as usize,
                    error: PathAttributeParsingError::InvalidAttributeLength {
                        code: 26,
                        declared: length.spec_value(),
                    },
                },
            )
        } else if buf.len() - (pos + ll) < 11 {
            Some(
                LocatedPathAttributeParsingError {
                    span: (pos + ll) as usize,
                    error: PathAttributeParsingError::Truncated {
                        expected: 11,
                        remaining: (buf.len() - (pos + ll)) as usize,
                    },
                },
            )
        } else if buf[pos + ll] != 1 {
            Some(
                LocatedPathAttributeParsingError {
                    span: (pos + ll) as usize,
                    error: PathAttributeParsingError::InvalidAigpTlv { tlv_type: buf[pos + ll] },
                },
            )
        } else if spec_be16_val(buf[pos + ll + 1], buf[pos + ll + 2]) != 11 {
            Some(
                LocatedPathAttributeParsingError {
                    span: (pos + ll + 1) as usize,
                    error: PathAttributeParsingError::InvalidAttributeLength {
                        code: 26,
                        declared: spec_be16_val(buf[pos + ll + 1], buf[pos + ll + 2]),
                    },
                },
            )
        } else {
            None
        }
    }
}

/// Exactly when and how parsing an ATOMIC_AGGREGATE value fails: its
/// declared length must be zero.
pub open spec fn spec_atomic_aggregate_error(
    buf: Seq<u8>,
    pos: int,
    extended_length: bool,
) -> Option<LocatedPathAttributeParsingError> {
    let ll = spec_len_octets(extended_length);
    if buf.len() - pos < ll {
        Some(
            LocatedPathAttributeParsingError {
                span: pos as usize,
                error: PathAttributeParsingError::Truncated {
                    expected: ll as usize,
                    remaining: (buf.len() - pos) as usize,
                },
            },
        )
    } else {
        let length = spec_len_field(buf, pos, extended_length);
        if length.spec_value() != 0 {
            Some(
                LocatedPathAttributeParsingError {
                    span: pos as usize,
                    error: PathAttributeParsingError::InvalidAttributeLength {
                        code: 6,
                        declared: length.spec_value(),
                    },
                },
            )
        } else {
            None
        }
    }
}

/// Exactly when and how parsing a raw multiprotocol value fails: the raw
/// value must parse and hold at least the AFI and SAFI octets.
pub open spec fn spec_mp_unknown_error(buf: Seq<u8>, pos: int, extended_length: bool) -> Option<
    LocatedPathAttributeParsingError,
> {
    match spec_raw_value_error(buf, pos, extended_length) {
        Some(e) => Some(e),
        None => {
            let declared = spec_len_field(buf, pos, extended_length).spec_value();
            if declared < 3 {
                Some(
                    LocatedPathAttributeParsingError {
                        span: pos as usize,
                        error: PathAttributeParsingError::Truncated {
                            expected: 3,
                            remaining: declared as usize,
                        },
                    },
                )
            } else {
                None
            }
        },
    }
}

/// Parse a four-octet attribute value behind its length field, which
/// must declare exactly four octets.
fn parse_u32_value(buf: &[u8], pos: usize, extended_length: bool, code: u8) -> (r: Result<
    (u32, usize),
    LocatedPathAttributeParsingError,
>)
    requires
        pos <= buf.len(),
    ensures
        match r {
            Ok((v, end)) => {
                &&& pos < end <= buf.len()
                &&& buf@.subrange(pos as int, end as int) == spec_attr_len_bytes(
                    extended_length,
                    4,
                ) + crate::bytes::spec_be32(v)
                &&& spec_u32_value_error(buf@, pos as int, extended_length, code) is None
            },
            Err(e) => spec_u32_value_error(buf@, pos as int, extended_length, code) == Some(e),
        },
{
    let (length, after_len) = match read_attr_len(buf, pos, extended_length) {
        Ok(v) => v,
        Err((expected, remaining)) => {
            return Err(
                LocatedPathAttributeParsingError::new(
                    pos,
                    PathAttributeParsingError::Truncated { expected, remaining },
                ),
            );
        },
    };
    if !check_length(length, 4) {
        return Err(
            LocatedPathAttributeParsingError::new(
                pos,
                PathAttributeParsingError::InvalidAttributeLength {
                    code,
                    declared: match length {
                        PathAttributeLength::U8(l) => l as u16,
                        PathAttributeLength::U16(l) => l,
                    },
                },
            ),
        );
    }
    if buf.len() - after_len < 4 {
        return Err(
            LocatedPathAttributeParsingError::new(
                after_len,
                PathAttributeParsingError::Truncated {
                    expected: 4,
                    remaining: buf.len() - after_len,
                },
            ),
        );
    }
    let v = read_be32(buf, after_len);
    assert(buf@.subrange(pos as int, after_len + 4) =~= spec_attr_len_bytes(extended_length, 4)
        + crate::bytes::spec_be32(v));
    Ok((v, after_len + 4))
}

/// Parse a raw-valued attribute: the declared number of octets is kept
/// as is.
fn parse_raw_value(buf: &[u8], pos: usize, extended_length: bool) -> (r: Result<
    (Vec<u8>, usize),
    LocatedPathAttributeParsingError,
>)
    requires
        pos <= buf.len(),
    ensures
        match r {
            Ok((v, end)) => {
                &&& pos < end <= buf.len()
                &&& buf@.subrange(pos as int, end as int) == spec_attr_len_bytes(
                    extended_length,
                    v@.len() as int,
                ) + v@
                &&& v@.len() == spec_len_field(buf@, pos as int, extended_length).spec_value()
                &&& v@.len() <= 0xFFFF
                &&& (!extended_length ==> v@.len() <= 0xFF)
                &&& spec_raw_value_error(buf@, pos as int, extended_length) is None
            },
            Err(e) => spec_raw_value_error(buf@, pos as int, extended_length) == Some(e),
        },
{
    let (length, after_len) = match read_attr_len(buf, pos, extended_length) {
        Ok(v) => v,
        Err((expected, remaining)) => {
            return Err(
                LocatedPathAttributeParsingError::new(
                    pos,
                    PathAttributeParsingError::Truncated { expected, remaining },
                ),
            );
        },
    };
    let body_len = match length {
        PathAttributeLength::U8(l) => l as usize,
        PathAttributeLength::U16(l) => l as usize,
    };
    if buf.len() - after_len < body_len {
        return Err(
            LocatedPathAttributeParsingError::new(
                after_len,
                PathAttributeParsingError::Truncated {
                    expected: body_len,
                    remaining: buf.len() - after_len,
                },
            ),
        );
    }
    let v = read_bytes(buf, after_len, after_len + body_len);
    assert(buf@.subrange(pos as int, after_len + body_len) =~= spec_attr_len_bytes(
        extended_length,
        v@.len() as int,
    ) + v@);
    Ok((v, after_len + body_len))
}

/// Parse an AGGREGATOR value in the AS number width the session
/// negotiated: six octets with a two-octet AS, eight with a four-octet
/// one.
fn parse_aggregator(buf: &[u8], pos: usize, extended_length: bool, asn4: bool) -> (r: Result<
    (crate::path_attribute::Aggregator, usize),
    LocatedPathAttributeParsingError,
>)
    requires
        pos <= buf.len(),
    ensures
        match r {
            Ok((a, end)) => {
                &&& pos < end <= buf.len()
                &&& buf@.subrange(pos as int, end as int) == spec_attr_len_bytes(
                    extended_length,
                    crate::serializer::spec_aggregator_bytes(a).len() as int,
                ) + crate::serializer::spec_aggregator_bytes(a)
                &&& (a is As4Aggregator <==> asn4)
                &&& spec_aggregator_error(buf@, pos as int, extended_length, asn4) is None
            },
            Err(e) => spec_aggregator_error(buf@, pos as int, extended_length, asn4) == Some(e),
        },
{
    let (length, after_len) = match read_attr_len(buf, pos, extended_length) {
        Ok(v) => v,
        Err((expected, remaining)) => {
            return Err(
                LocatedPathAttributeParsingError::new(
                    pos,
                    PathAttributeParsingError::Truncated { expected, remaining },
                ),
            );
        },
    };
    let expected: u16 = if asn4 {
        8
    } else {
        6
    };
    if !check_length(length, expected) {
        return Err(
            LocatedPathAttributeParsingError::new(
                pos,
                PathAttributeParsingError::InvalidAttributeLength {
                    code: 7,
                    declared: match length {
                        PathAttributeLength::U8(l) => l as u16,
                        PathAttributeLength::U16(l) => l,
                    },
                },
            ),
        );
    }
    if buf.len() - after_len < expected as usize {
        return Err(
            LocatedPathAttributeParsingError::new(
                after_len,
                PathAttributeParsingError::Truncated {
                    expected: expected as usize,
                    remaining: buf.len() - after_len,
                },
            ),
        );
    }
    if asn4 {
        let asn = read_be32(buf, after_len);
        let origin = crate::addr::Ipv4Addr::new(
            buf[after_len + 4],
            buf[after_len + 5],
            buf[after_len + 6],
            buf[after_len + 7],
        );
        let a = crate::path_attribute::Aggregator::As4Aggregator(
            crate::path_attribute::As4Aggregator { asn, origin },
        );
        assert(buf@.subrange(pos as int, after_len + 8) =~= spec_attr_len_bytes(
            extended_length,
            8,
        ) + crate::serializer::spec_aggregator_bytes(a));
        Ok((a, after_len + 8))
    } else {
        let asn = read_be16(buf, after_len);
        let origin = crate::addr::Ipv4Addr::new(
            buf[after_len + 2],
            buf[after_len + 3],
            buf[after_len + 4],
            buf[after_len + 5],
        );
        let a = crate::path_attribute::Aggregator::As2Aggregator(
            crate::path_attribute::As2Aggregator { asn, origin },
        );
        assert(buf@.subrange(pos as int, after_len + 6) =~= spec_attr_len_bytes(
            extended_length,
            6,
        ) + crate::serializer::spec_aggregator_bytes(a));
        Ok((a, after_len + 6))
    }
}

/// Read the four-octet communities that fill `[start, end)`.
#[verifier::loop_isolation(false)]
fn parse_community_items(buf: &[u8], start: usize, end: usize) -> (c: Vec<
    crate::community::Community,
>)
    requires
        start <= end <= buf.len(),
        (end - start) % 4 == 0,
    ensures
        buf@.subrange(start as int, end as int) == c@.flat_map(
            |x: crate::community::Community| crate::bytes::spec_be32(x.0),
        ),
        4 * c@.len() == end - start,
{
    let ghost f = |x: crate::community::Community| crate::bytes::spec_be32(x.0);
    let mut c: Vec<crate::community::Community> = Vec::new();
    let mut cur = start;
    while cur < end
        invariant
            start <= cur <= end,
            (end - cur) % 4 == 0,
            buf@.subrange(start as int, cur as int) == c@.flat_map(f),
            cur - start == 4 * c@.len(),
        decreases end - cur,
    {
        let v = read_be32(buf, cur);
        proof {
            c@.lemma_flat_map_push(f, crate::community::Community(v));
            assert(buf@.subrange(start as int, cur + 4) =~= buf@.subrange(
                start as int,
                cur as int,
            ) + buf@.subrange(cur as int, cur + 4));
        }
        c.push(crate::community::Community(v));
        cur = cur + 4;
    }
    c
}

/// Read the twelve-octet large communities that fill `[start, end)`.
#[verifier::loop_isolation(false)]
fn parse_large_community_items(buf: &[u8], start: usize, end: usize) -> (c: Vec<
    crate::community::LargeCommunity,
>)
    requires
        start <= end <= buf.len(),
        (end - start) % 12 == 0,
    ensures
        buf@.subrange(start as int, end as int) == c@.flat_map(
            |x: crate::community::LargeCommunity| x.spec_bytes(),
        ),
        12 * c@.len() == end - start,
{
    let ghost f = |x: crate::community::LargeCommunity| x.spec_bytes();
    let mut c: Vec<crate::community::LargeCommunity> = Vec::new();
    let mut cur = start;
    while cur < end
        invariant
            start <= cur <= end,
            (end - cur) % 12 == 0,
            buf@.subrange(start as int, cur as int) == c@.flat_map(f),
            cur - start == 12 * c@.len(),
        decreases end - cur,
    {
        let x = parse_one_large_community(buf, cur);
        proof {
            c@.lemma_flat_map_push(f, x);
            assert(buf@.subrange(start as int, cur + 12) =~= buf@.subrange(
                start as int,
                cur as int,
            ) + buf@.subrange(cur as int, cur + 12));
        }
        c.push(x);
        cur = cur + 12;
    }
    c
}

/// Read the eight-octet extended communities that fill `[start, end)`.
#[verifier::loop_isolation(false)]
fn parse_extended_community_items(buf: &[u8], start: usize, end: usize) -> (c: Vec<
    crate::community::ExtendedCommunity,
>)
    requires
        start <= end <= buf.len(),
        (end - start) % 8 == 0,
    ensures
        buf@.subrange(start as int, end as int) == c@.flat_map(
            |x: crate::community::ExtendedCommunity| x.spec_bytes(),
        ),
        8 * c@.len() == end - start,
        forall|k: int| 0 <= k < c@.len() ==> (#[trigger] c@[k]).wf(),
{
    let ghost f = |x: crate::community::ExtendedCommunity| x.spec_bytes();
    let mut c: Vec<crate::community::ExtendedCommunity> = Vec::new();
    let mut cur = start;
    while cur < end
        invariant
            start <= cur <= end,
            (end - cur) % 8 == 0,
            buf@.subrange(start as int, cur as int) == c@.flat_map(f),
            cur - start == 8 * c@.len(),
            forall|k: int| 0 <= k < c@.len() ==> (#[trigger] c@[k]).wf(),
        decreases end - cur,
    {
        let x = parse_one_extended_community(buf, cur);
        proof {
            c@.lemma_flat_map_push(f, x);
            assert(buf@.subrange(start as int, cur + 8) =~= buf@.subrange(
                start as int,
                cur as int,
            ) + buf@.subrange(cur as int, cur + 8));
        }
        c.push(x);
        cur = cur + 8;
    }
    c
}

/// Read one eight-octet extended community.
fn parse_one_extended_community(buf: &[u8], pos: usize) -> (x: crate::community::ExtendedCommunity)
    requires
        pos + 8 <= buf.len(),
    ensures
        buf@.subrange(pos as int, pos + 8) == x.spec_bytes(),
        x.wf(),
{
    let code = buf[pos];
    let sub_type = buf[pos + 1];
    let hi = read_be16(buf, pos + 2);
    let lo = read_be32(buf, pos + 4);
    let value: u64 = (hi as u64) * 0x1_0000_0000 + (lo as u64);
    let x = crate::community::ExtendedCommunity { code, sub_type, value };
    proof {
        vstd::arithmetic::div_mod::lemma_fundamental_div_mod_converse(
            value as int,
            0x1_0000_0000,
            hi as int,
            lo as int,
        );
        assert(buf@.subrange(pos as int, pos + 8) =~= seq![code, sub_type] + buf@.subrange(
            pos + 2,
            pos + 4,
        ) + buf@.subrange(pos + 4, pos + 8));
    }
    x
}

/// Parse a COMMUNITIES value: the declared length must be a multiple of
/// four, one community per four octets.
#[verifier::loop_isolation(false)]
#[verifier::rlimit(100)]
fn parse_communities(buf: &[u8], pos: usize, extended_length: bool) -> (r: Result<
    (crate::path_attribute::Communities, usize),
    LocatedPathAttributeParsingError,
>)
    requires
        pos <= buf.len(),
    ensures
        match r {
            Ok((c, end)) => {
                &&& pos < end <= buf.len()
                &&& buf@.subrange(pos as int, end as int) == spec_attr_len_bytes(
                    extended_length,
                    c.communities@.flat_map(
                        |x: crate::community::Community| crate::bytes::spec_be32(x.0),
                    ).len() as int,
                ) + c.communities@.flat_map(
                    |x: crate::community::Community| crate::bytes::spec_be32(x.0),
                )
                &&& crate::serializer::spec_attr_len_ok(
                    extended_length,
                    c.communities@.flat_map(
                        |x: crate::community::Community| crate::bytes::spec_be32(x.0),
                    ).len() as int,
                )
                &&& spec_list_value_error(buf@, pos as int, extended_length, 4, 8) is None
            },
            Err(e) => spec_list_value_error(buf@, pos as int, extended_length, 4, 8) == Some(e),
        },
{
    let ghost f = |x: crate::community::Community| crate::bytes::spec_be32(x.0);
    let (length, after_len) = match read_attr_len(buf, pos, extended_length) {
        Ok(v) => v,
        Err((expected, remaining)) => {
            return Err(
                LocatedPathAttributeParsingError::new(
                    pos,
                    PathAttributeParsingError::Truncated { expected, remaining },
                ),
            );
        },
    };
    let body_len = match length {
        PathAttributeLength::U8(l) => l as usize,
        PathAttributeLength::U16(l) => l as usize,
    };
    if body_len % 4 != 0 {
        return Err(
            LocatedPathAttributeParsingError::new(
                pos,
                PathAttributeParsingError::InvalidAttributeLength {
                    code: 8,
                    declared: body_len as u16,
                },
            ),
        );
    }
    if buf.len() - after_len < body_len {
        return Err(
            LocatedPathAttributeParsingError::new(
                after_len,
                PathAttributeParsingError::Truncated {
                    expected: body_len,
                    remaining: buf.len() - after_len,
                },
            ),
        );
    }
    let end = after_len + body_len;
    let communities = parse_community_items(buf, after_len, end);
    let c = crate::path_attribute::Communities { communities };
    assert(buf@.subrange(pos as int, end as int) =~= buf@.subrange(pos as int, after_len as int)
        + buf@.subrange(after_len as int, end as int));
    Ok((c, end))
}

/// Read one twelve-octet large community.
fn parse_one_large_community(buf: &[u8], pos: usize) -> (x: crate::community::LargeCommunity)
    requires
        pos + 12 <= buf.len(),
    ensures
        buf@.subrange(pos as int, pos + 12) == x.spec_bytes(),
{
    let global_admin = read_be32(buf, pos);
    let local_data1 = read_be32(buf, pos + 4);
    let local_data2 = read_be32(buf, pos + 8);
    let x = crate::community::LargeCommunity { global_admin, local_data1, local_data2 };
    assert(buf@.subrange(pos as int, pos + 12) =~= buf@.subrange(pos as int, pos + 4)
        + buf@.subrange(pos + 4, pos + 8) + buf@.subrange(pos + 8, pos + 12));
    x
}

/// Parse a LARGE_COMMUNITIES value: the declared length must be a
/// multiple of twelve.
#[verifier::loop_isolation(false)]
#[verifier::rlimit(100)]
fn parse_large_communities(buf: &[u8], pos: usize, extended_length: bool) -> (r: Result<
    (crate::path_attribute::LargeCommunities, usize),
    LocatedPathAttributeParsingError,
>)
    requires
        pos <= buf.len(),
    ensures
        match r {
            Ok((c, end)) => {
                &&& pos < end <= buf.len()
                &&& buf@.subrange(pos as int, end as int) == spec_attr_len_bytes(
                    extended_length,
                    c.communities@.flat_map(
                        |x: crate::community::LargeCommunity| x.spec_bytes(),
                    ).len() as int,
                ) + c.communities@.flat_map(
                    |x: crate::community::LargeCommunity| x.spec_bytes(),
                )
                &&& crate::serializer::spec_attr_len_ok(
                    extended_length,
                    c.communities@.flat_map(
                        |x: crate::community::LargeCommunity| x.spec_bytes(),
                    ).len() as int,
                )
                &&& spec_list_value_error(buf@, pos as int, extended_length, 12, 32) is None
            },
            Err(e) => spec_list_value_error(buf@, pos as int, extended_length, 12, 32) == Some(e),
        },
{
    let ghost f = |x: crate::community::LargeCommunity| x.spec_bytes();
    let (length, after_len) = match read_attr_len(buf, pos, extended_length) {
        Ok(v) => v,
        Err((expected, remaining)) => {
            return Err(
                LocatedPathAttributeParsingError::new(
                    pos,
                    PathAttributeParsingError::Truncated { expected, remaining },
                ),
            );
        },
    };
    let body_len = match length {
        PathAttributeLength::U8(l) => l as usize,
        PathAttributeLength::U16(l) => l as usize,
    };
    if body_len % 12 != 0 {
        return Err(
            LocatedPathAttributeParsingError::new(
                pos,
                PathAttributeParsingError::InvalidAttributeLength {
                    code: 32,
                    declared: body_len as u16,
                },
            ),
        );
    }
    if buf.len() - after_len < body_len {
        return Err(
            LocatedPathAttributeParsingError::new(
                after_len,
                PathAttributeParsingError::Truncated {
                    expected: body_len,
                    remaining: buf.len() - after_len,
                },
            ),
        );
    }
    let end = after_len + body_len;
    let communities = parse_large_community_items(buf, after_len, end);
    let c = crate::path_attribute::LargeCommunities { communities };
    assert(buf@.subrange(pos as int, end as int) =~= buf@.subrange(pos as int, after_len as int)
        + buf@.subrange(after_len as int, end as int));
    Ok((c, end))
}

/// Read one four-octet cluster identifier.
fn parse_one_cluster_id(buf: &[u8], pos: usize) -> (x: crate::path_attribute::ClusterId)
    requires
        pos + 4 <= buf.len(),
    ensures
        buf@.subrange(pos as int, pos + 4) == x.0.spec_octets(),
{
    let x = crate::path_attribute::ClusterId(
        crate::addr::Ipv4Addr::new(buf[pos], buf[pos + 1], buf[pos + 2], buf[pos + 3]),
    );
    assert(buf@.subrange(pos as int, pos + 4) =~= x.0.spec_octets());
    x
}

/// Parse a CLUSTER_LIST value: the declared length must be a multiple of
/// four, one cluster identifier per four octets.
#[verifier::loop_isolation(false)]
fn parse_cluster_list(buf: &[u8], pos: usize, extended_length: bool) -> (r: Result<
    (crate::path_attribute::ClusterList, usize),
    LocatedPathAttributeParsingError,
>)
    requires
        pos <= buf.len(),
    ensures
        match r {
            Ok((c, end)) => {
                &&& pos < end <= buf.len()
                &&& buf@.subrange(pos as int, end as int) == spec_attr_len_bytes(
                    extended_length,
                    c.0@.flat_map(
                        |x: crate::path_attribute::ClusterId| x.0.spec_octets(),
                    ).len() as int,
                ) + c.0@.flat_map(
                    |x: crate::path_attribute::ClusterId| x.0.spec_octets(),
                )
                &&& crate::serializer::spec_attr_len_ok(
                    extended_length,
                    c.0@.flat_map(
                        |x: crate::path_attribute::ClusterId| x.0.spec_octets(),
                    ).len() as int,
                )
                &&& spec_list_value_error(buf@, pos as int, extended_length, 4, 10) is None
            },
            Err(e) => spec_list_value_error(buf@, pos as int, extended_length, 4, 10) == Some(e),
        },
{
    let ghost f = |x: crate::path_attribute::ClusterId| x.0.spec_octets();
    let (length, after_len) = match read_attr_len(buf, pos, extended_length) {
        Ok(v) => v,
        Err((expected, remaining)) => {
            return Err(
                LocatedPathAttributeParsingError::new(
                    pos,
                    PathAttributeParsingError::Truncated { expected, remaining },
                ),
            );
        },
    };
    let body_len = match length {
        PathAttributeLength::U8(l) => l as usize,
        PathAttributeLength::U16(l) => l as usize,
    };
    if body_len % 4 != 0 {
        return Err(
            LocatedPathAttributeParsingError::new(
                pos,
                PathAttributeParsingError::InvalidAttributeLength {
                    code: 10,
                    declared: body_len as u16,
                },
            ),
        );
    }
    if buf.len() - after_len < body_len {
        return Err(
            LocatedPathAttributeParsingError::new(
                after_len,
                PathAttributeParsingError::Truncated {
                    expected: body_len,
                    remaining: buf.len() - after_len,
                },
            ),
        );
    }
    let end = after_len + body_len;
    let mut ids: Vec<crate::path_attribute::ClusterId> = Vec::new();
    let mut cur = after_len;
    while cur < end
        invariant
            after_len <= cur <= end,
            (end - cur) % 4 == 0,
            buf@.subrange(after_len as int, cur as int) == ids@.flat_map(f),
            cur - after_len == 4 * ids@.len(),
        decreases end - cur,
    {
        let x = parse_one_cluster_id(buf, cur);
        proof {
            ids@.lemma_flat_map_push(f, x);
            assert(buf@.subrange(after_len as int, cur + 4) =~= buf@.subrange(
                after_len as int,
                cur as int,
            ) + buf@.subrange(cur as int, cur + 4));
        }
        ids.push(x);
        cur = cur + 4;
    }
    let c = crate::path_attribute::ClusterList(ids);
    assert(buf@.subrange(pos as int, end as int) =~= buf@.subrange(pos as int, after_len as int)
        + buf@.subrange(after_len as int, end as int));
    Ok((c, end))
}

/// Parse an accumulated IGP metric value: an eleven-octet TLV of type 1
/// carrying the metric.
fn parse_aigp(buf: &[u8], pos: usize, extended_length: bool) -> (r: Result<
    (crate::path_attribute::Aigp, usize),
    LocatedPathAttributeParsingError,
>)
    requires
        pos <= buf.len(),
    ensures
        match r {
            Ok((a, end)) => {
                &&& pos < end <= buf.len()
                &&& buf@.subrange(pos as int, end as int) == spec_attr_len_bytes(
                    extended_length,
                    11,
                ) + (match a {
                    crate::path_attribute::Aigp::AccumulatedIgpMetric(m) => seq![1u8] + spec_be16(
                        11,
                    ) + crate::bytes::spec_be64(m),
                })
                &&& spec_aigp_error(buf@, pos as int, extended_length) is None
            },
            Err(e) => spec_aigp_error(buf@, pos as int, extended_length) == Some(e),
        },
{
    let (length, after_len) = match read_attr_len(buf, pos, extended_length) {
        Ok(v) => v,
        Err((expected, remaining)) => {
            return Err(
                LocatedPathAttributeParsingError::new(
                    pos,
                    PathAttributeParsingError::Truncated { expected, remaining },
                ),
            );
        },
    };
    if !check_length(length, 11) {
        return Err(
            LocatedPathAttributeParsingError::new(
                pos,
                PathAttributeParsingError::InvalidAttributeLength {
                    code: 26,
                    declared: match length {
                        PathAttributeLength::U8(l) => l as u16,
                        PathAttributeLength::U16(l) => l,
                    },
                },
            ),
        );
    }
    if buf.len() - after_len < 11 {
        return Err(
            LocatedPathAttributeParsingError::new(
                after_len,
                PathAttributeParsingError::Truncated {
                    expected: 11,
                    remaining: buf.len() - after_len,
                },
            ),
        );
    }
    let tlv_type = buf[after_len];
    if tlv_type != 1 {
        return Err(
            LocatedPathAttributeParsingError::new(
                after_len,
                PathAttributeParsingError::InvalidAigpTlv { tlv_type },
            ),
        );
    }
    let tlv_len = read_be16(buf, after_len + 1);
    if tlv_len != 11 {
        return Err(
            LocatedPathAttributeParsingError::new(
                after_len + 1,
                PathAttributeParsingError::InvalidAttributeLength { code: 26, declared: tlv_len },
            ),
        );
    }
    let m = read_be64(buf, after_len + 3);
    let a = crate::path_attribute::Aigp::AccumulatedIgpMetric(m);
    assert(buf@.subrange(pos as int, after_len + 11) =~= spec_attr_len_bytes(extended_length, 11)
        + (seq![1u8] + spec_be16(11) + crate::bytes::spec_be64(m)));
    Ok((a, after_len + 11))
}


/// Parse an ATOMIC_AGGREGATE value: the declared length must be zero.
fn parse_atomic_aggregate(buf: &[u8], pos: usize, extended_length: bool) -> (r: Result<
    (crate::path_attribute::AtomicAggregate, usize),
    LocatedPathAttributeParsingError,
>)
    requires
        pos <= buf.len(),
    ensures
        match r {
            Ok((a, end)) => {
                &&& pos < end <= buf.len()
                &&& buf@.subrange(pos as int, end as int) == spec_attr_len_bytes(
                    extended_length,
                    0,
                )
                &&& spec_atomic_aggregate_error(buf@, pos as int, extended_length) is None
            },
            Err(e) => spec_atomic_aggregate_error(buf@, pos as int, extended_length) == Some(e),
        },
{
    let (length, after_len) = match read_attr_len(buf, pos, extended_length) {
        Ok(v) => v,
        Err((expected, remaining)) => {
            return Err(
                LocatedPathAttributeParsingError::new(
                    pos,
                    PathAttributeParsingError::Truncated { expected, remaining },
                ),
            );
        },
    };
    if !check_length(length, 0) {
        return Err(
            LocatedPathAttributeParsingError::new(
                pos,
                PathAttributeParsingError::InvalidAttributeLength {
                    code: 6,
                    declared: match length {
                        PathAttributeLength::U8(l) => l as u16,
                        PathAttributeLength::U16(l) => l,
                    },
                },
            ),
        );
    }
    Ok((crate::path_attribute::AtomicAggregate, after_len))
}

/// Parse an ORIGINATOR_ID value: exactly four address octets.
fn parse_originator(buf: &[u8], pos: usize, extended_length: bool) -> (r: Result<
    (crate::path_attribute::Originator, usize),
    LocatedPathAttributeParsingError,
>)
    requires
        pos <= buf.len(),
    ensures
        match r {
            Ok((o, end)) => {
                &&& pos < end <= buf.len()
                &&& buf@.subrange(pos as int, end as int) == spec_attr_len_bytes(
                    extended_length,
                    4,
                ) + o.0.spec_octets()
                &&& spec_u32_value_error(buf@, pos as int, extended_length, 9) is None
            },
            Err(e) => spec_u32_value_error(buf@, pos as int, extended_length, 9) == Some(e),
        },
{
    let (length, after_len) = match read_attr_len(buf, pos, extended_length) {
        Ok(v) => v,
        Err((expected, remaining)) => {
            return Err(
                LocatedPathAttributeParsingError::new(
                    pos,
                    PathAttributeParsingError::Truncated { expected, remaining },
                ),
            );
        },
    };
    if !check_length(length, 4) {
        return Err(
            LocatedPathAttributeParsingError::new(
                pos,
                PathAttributeParsingError::InvalidAttributeLength {
                    code: 9,
                    declared: match length {
                        PathAttributeLength::U8(l) => l as u16,
                        PathAttributeLength::U16(l) => l,
                    },
                },
            ),
        );
    }
    if buf.len() - after_len < 4 {
        return Err(
            LocatedPathAttributeParsingError::new(
                after_len,
                PathAttributeParsingError::Truncated {
                    expected: 4,
                    remaining: buf.len() - after_len,
                },
            ),
        );
    }
    let o = crate::path_attribute::Originator(
        crate::addr::Ipv4Addr::new(
            buf[after_len],
            buf[after_len + 1],
            buf[after_len + 2],
            buf[after_len + 3],
        ),
    );
    assert(buf@.subrange(pos as int, after_len + 4) =~= spec_attr_len_bytes(extended_length, 4)
        + o.0.spec_octets());
    Ok((o, after_len + 4))
}

/// Parse an extended communities value: the declared length must be a
/// multiple of eight.
#[verifier::loop_isolation(false)]
#[verifier::rlimit(60)]
fn parse_extended_communities(buf: &[u8], pos: usize, extended_length: bool) -> (r: Result<
    (crate::path_attribute::ExtendedCommunities, usize),
    LocatedPathAttributeParsingError,
>)
    requires
        pos <= buf.len(),
    ensures
        match r {
            Ok((c, end)) => {
                &&& pos < end <= buf.len()
                &&& buf@.subrange(pos as int, end as int) == spec_attr_len_bytes(
                    extended_length,
                    c.communities@.flat_map(
                        |x: crate::community::ExtendedCommunity| x.spec_bytes(),
                    ).len() as int,
                ) + c.communities@.flat_map(
                    |x: crate::community::ExtendedCommunity| x.spec_bytes(),
                )
                &&& crate::serializer::spec_attr_len_ok(
                    extended_length,
                    c.communities@.flat_map(
                        |x: crate::community::ExtendedCommunity| x.spec_bytes(),
                    ).len() as int,
                )
                &&& forall|k: int|
                    0 <= k < c.communities@.len() ==> (#[trigger] c.communities@[k]).wf()
                &&& spec_list_value_error(buf@, pos as int, extended_length, 8, 16) is None
            },
            Err(e) => spec_list_value_error(buf@, pos as int, extended_length, 8, 16) == Some(e),
        },
{
    let ghost f = |x: crate::community::ExtendedCommunity| x.spec_bytes();
    let (length, after_len) = match read_attr_len(buf, pos, extended_length) {
        Ok(v) => v,
        Err((expected, remaining)) => {
            return Err(
                LocatedPathAttributeParsingError::new(
                    pos,
                    PathAttributeParsingError::Truncated { expected, remaining },
                ),
            );
        },
    };
    let body_len = match length {
        PathAttributeLength::U8(l) => l as usize,
        PathAttributeLength::U16(l) => l as usize,
    };
    if body_len % 8 != 0 {
        return Err(
            LocatedPathAttributeParsingError::new(
                pos,
                PathAttributeParsingError::InvalidAttributeLength {
                    code: 16,
                    declared: body_len as u16,
                },
            ),
        );
    }
    if buf.len() - after_len < body_len {
        return Err(
            LocatedPathAttributeParsingError::new(
                after_len,
                PathAttributeParsingError::Truncated {
                    expected: body_len,
                    remaining: buf.len() - after_len,
                },
            ),
        );
    }
    let end = after_len + body_len;
    let communities = parse_extended_community_items(buf, after_len, end);
    let c = crate::path_attribute::ExtendedCommunities { communities };
    assert(buf@.subrange(pos as int, end as int) =~= buf@.subrange(pos as int, after_len as int)
        + buf@.subrange(after_len as int, end as int));
    Ok((c, end))
}

/// Read one twenty-octet IPv6-address-specific extended community.
fn parse_one_extended_community_ipv6(buf: &[u8], pos: usize) -> (x:
    crate::community::ExtendedCommunityIpv6)
    requires
        pos + 20 <= buf.len(),
    ensures
        buf@.subrange(pos as int, pos + 20) == x.spec_bytes(),
{
    let code = buf[pos];
    let sub_type = buf[pos + 1];
    let s0 = read_be16(buf, pos + 2);
    let s1 = read_be16(buf, pos + 4);
    let s2 = read_be16(buf, pos + 6);
    let s3 = read_be16(buf, pos + 8);
    let s4 = read_be16(buf, pos + 10);
    let s5 = read_be16(buf, pos + 12);
    let s6 = read_be16(buf, pos + 14);
    let s7 = read_be16(buf, pos + 16);
    let local_admin = read_be16(buf, pos + 18);
    let global_admin = crate::addr::Ipv6Addr { s0, s1, s2, s3, s4, s5, s6, s7 };
    let x = crate::community::ExtendedCommunityIpv6 { code, sub_type, global_admin, local_admin };
    proof {
        assert(global_admin.spec_octets() =~= buf@.subrange(pos + 2, pos + 18));
        assert(buf@.subrange(pos as int, pos + 20) =~= seq![code, sub_type] + buf@.subrange(
            pos + 2,
            pos + 18,
        ) + buf@.subrange(pos + 18, pos + 20));
    }
    x
}

/// Parse an IPv6-address-specific extended communities value: the
/// declared length must be a multiple of twenty.
#[verifier::loop_isolation(false)]
#[verifier::rlimit(100)]
fn parse_extended_communities_ipv6(buf: &[u8], pos: usize, extended_length: bool) -> (r: Result<
    (crate::path_attribute::ExtendedCommunitiesIpv6, usize),
    LocatedPathAttributeParsingError,
>)
    requires
        pos <= buf.len(),
    ensures
        match r {
            Ok((c, end)) => {
                &&& pos < end <= buf.len()
                &&& buf@.subrange(pos as int, end as int) == spec_attr_len_bytes(
                    extended_length,
                    c.communities@.flat_map(
                        |x: crate::community::ExtendedCommunityIpv6| x.spec_bytes(),
                    ).len() as int,
                ) + c.communities@.flat_map(
                    |x: crate::community::ExtendedCommunityIpv6| x.spec_bytes(),
                )
                &&& crate::serializer::spec_attr_len_ok(
                    extended_length,
                    c.communities@.flat_map(
                        |x: crate::community::ExtendedCommunityIpv6| x.spec_bytes(),
                    ).len() as int,
                )
                &&& spec_list_value_error(buf@, pos as int, extended_length, 20, 25) is None
            },
            Err(e) => spec_list_value_error(buf@, pos as int, extended_length, 20, 25) == Some(e),
        },
{
    let ghost f = |x: crate::community::ExtendedCommunityIpv6| x.spec_bytes();
    let (length, after_len) = match read_attr_len(buf, pos, extended_length) {
        Ok(v) => v,
        Err((expected, remaining)) => {
            return Err(
                LocatedPathAttributeParsingError::new(
                    pos,
                    PathAttributeParsingError::Truncated { expected, remaining },
                ),
            );
        },
    };
    let body_len = match length {
        PathAttributeLength::U8(l) => l as usize,
        PathAttributeLength::U16(l) => l as usize,
    };
    if body_len % 20 != 0 {
        return Err(
            LocatedPathAttributeParsingError::new(
                pos,
                PathAttributeParsingError::InvalidAttributeLength {
                    code: 25,
                    declared: body_len as u16,
                },
            ),
        );
    }
    if buf.len() - after_len < body_len {
        return Err(
            LocatedPathAttributeParsingError::new(
                after_len,
                PathAttributeParsingError::Truncated {
                    expected: body_len,
                    remaining: buf.len() - after_len,
                },
            ),
        );
    }
    let end = after_len + body_len;
    let mut communities: Vec<crate::community::ExtendedCommunityIpv6> = Vec::new();
    let mut cur = after_len;
    while cur < end
        invariant
            after_len <= cur <= end,
            (end - cur) % 20 == 0,
            buf@.subrange(after_len as int, cur as int) == communities@.flat_map(f),
            cur - after_len == 20 * communities@.len(),
        decreases end - cur,
    {
        let x = parse_one_extended_community_ipv6(buf, cur);
        proof {
            communities@.lemma_flat_map_push(f, x);
            assert(buf@.subrange(after_len as int, cur + 20) =~= buf@.subrange(
                after_len as int,
                cur as int,
            ) + buf@.subrange(cur as int, cur + 20));
        }
        communities.push(x);
        cur = cur + 20;
    }
    let c = crate::path_attribute::ExtendedCommunitiesIpv6 { communities };
    assert(buf@.subrange(pos as int, end as int) =~= buf@.subrange(pos as int, after_len as int)
        + buf@.subrange(after_len as int, end as int));
    Ok((c, end))
}



/// A sub-parser's error, lifted into the attribute error family.
pub open spec fn lift_origin_error(o: Option<LocatedOriginParsingError>) -> Option<
    LocatedPathAttributeParsingError,
> {
    match o {
        Some(e) => Some(
            LocatedPathAttributeParsingError {
                span: e.span,
                error: PathAttributeParsingError::OriginError(e.error),
            },
        ),
        None => None,
    }
}

/// A sub-parser's error, lifted into the attribute error family.
pub open spec fn lift_as_path_error(o: Option<LocatedAsPathParsingError>) -> Option<
    LocatedPathAttributeParsingError,
> {
    match o {
        Some(e) => Some(
            LocatedPathAttributeParsingError {
                span: e.span,
                error: PathAttributeParsingError::AsPathError(e.error),
            },
        ),
        None => None,
    }
}

/// A sub-parser's error, lifted into the attribute error family.
pub open spec fn lift_next_hop_error(o: Option<LocatedNextHopParsingError>) -> Option<
    LocatedPathAttributeParsingError,
> {
    match o {
        Some(e) => Some(
            LocatedPathAttributeParsingError {
                span: e.span,
                error: PathAttributeParsingError::NextHopError(e.error),
            },
        ),
        None => None,
    }
}

/// The first flag bit that disagrees with a kind's rules, checked in the
/// order optional, transitive, partial.
pub open spec fn spec_rules_flags_error(
    opt: Option<bool>,
    tra: Option<bool>,
    par: Option<bool>,
    optional: bool,
    transitive: bool,
    partial: bool,
) -> Option<crate::path_attribute::InvalidPathAttribute> {
    if !crate::path_attribute::spec_flag_ok(opt, optional) {
        Some(crate::path_attribute::InvalidPathAttribute::InvalidOptionalFlagValue(optional))
    } else if !crate::path_attribute::spec_flag_ok(tra, transitive) {
        Some(crate::path_attribute::InvalidPathAttribute::InvalidTransitiveFlagValue(transitive))
    } else if !crate::path_attribute::spec_flag_ok(par, partial) {
        Some(crate::path_attribute::InvalidPathAttribute::InvalidPartialFlagValue(partial))
    } else {
        None
    }
}

/// The flag-matrix violation, if any, for the attribute kind registered
/// under a type code; unrecognized codes accept any flags.
pub open spec fn spec_code_flags_error(
    code: u8,
    optional: bool,
    transitive: bool,
    partial: bool,
) -> Option<crate::path_attribute::InvalidPathAttribute> {
    match code {
        1u8 => spec_rules_flags_error(
            Origin::spec_can_be_optional(),
            Origin::spec_can_be_transitive(),
            Origin::spec_can_be_partial(),
            optional,
            transitive,
            partial,
        ),
        2u8 => spec_rules_flags_error(
            crate::path_attribute::AsPath::spec_can_be_optional(),
            crate::path_attribute::AsPath::spec_can_be_transitive(),
            crate::path_attribute::AsPath::spec_can_be_partial(),
            optional,
            transitive,
            partial,
        ),
        3u8 => spec_rules_flags_error(
            crate::path_attribute::NextHop::spec_can_be_optional(),
            crate::path_attribute::NextHop::spec_can_be_transitive(),
            crate::path_attribute::NextHop::spec_can_be_partial(),
            optional,
            transitive,
            partial,
        ),
        4u8 => spec_rules_flags_error(
            crate::path_attribute::MultiExitDiscriminator::spec_can_be_optional(),
            crate::path_attribute::MultiExitDiscriminator::spec_can_be_transitive(),
            crate::path_attribute::MultiExitDiscriminator::spec_can_be_partial(),
            optional,
            transitive,
            partial,
        ),
        5u8 => spec_rules_flags_error(
            crate::path_attribute::LocalPreference::spec_can_be_optional(),
            crate::path_attribute::LocalPreference::spec_can_be_transitive(),
            crate::path_attribute::LocalPreference::spec_can_be_partial(),
            optional,
            transitive,
            partial,
        ),
        6u8 => spec_rules_flags_error(
            crate::path_attribute::AtomicAggregate::spec_can_be_optional(),
            crate::path_attribute::AtomicAggregate::spec_can_be_transitive(),
            crate::path_attribute::AtomicAggregate::spec_can_be_partial(),
            optional,
            transitive,
            partial,
        ),
        7u8 => spec_rules_flags_error(
            crate::path_attribute::Aggregator::spec_can_be_optional(),
            crate::path_attribute::Aggregator::spec_can_be_transitive(),
            crate::path_attribute::Aggregator::spec_can_be_partial(),
            optional,
            transitive,
            partial,
        ),
        8u8 => spec_rules_flags_error(
            crate::path_attribute::Communities::spec_can_be_optional(),
            crate::path_attribute::Communities::spec_can_be_transitive(),
            crate::path_attribute::Communities::spec_can_be_partial(),
            optional,
            transitive,
            partial,
        ),
        9u8 => spec_rules_flags_error(
            crate::path_attribute::Originator::spec_can_be_optional(),
            crate::path_attribute::Originator::spec_can_be_transitive(),
            crate::path_attribute::Originator::spec_can_be_partial(),
            optional,
            transitive,
            partial,
        ),
        10u8 => spec_rules_flags_error(
            crate::path_attribute::ClusterList::spec_can_be_optional(),
            crate::path_attribute::ClusterList::spec_can_be_transitive(),
            crate::path_attribute::ClusterList::spec_can_be_partial(),
            optional,
            transitive,
            partial,
        ),
        14u8 => spec_rules_flags_error(
            crate::path_attribute::MpReach::spec_can_be_optional(),
            crate::path_attribute::MpReach::spec_can_be_transitive(),
            crate::path_attribute::MpReach::spec_can_be_partial(),
            optional,
            transitive,
            partial,
        ),
        15u8 => spec_rules_flags_error(
            crate::path_attribute::MpUnreach::spec_can_be_optional(),
            crate::path_attribute::MpUnreach::spec_can_be_transitive(),
            crate::path_attribute::MpUnreach::spec_can_be_partial(),
            optional,
            transitive,
            partial,
        ),
        16u8 => spec_rules_flags_error(
            crate::path_attribute::ExtendedCommunities::spec_can_be_optional(),
            crate::path_attribute::ExtendedCommunities::spec_can_be_transitive(),
            crate::path_attribute::ExtendedCommunities::spec_can_be_partial(),
            optional,
            transitive,
            partial,
        ),
        17u8 => spec_rules_flags_error(
            crate::path_attribute::As4Path::spec_can_be_optional(),
            crate::path_attribute::As4Path::spec_can_be_transitive(),
            crate::path_attribute::As4Path::spec_can_be_partial(),
            optional,
            transitive,
            partial,
        ),
        25u8 => spec_rules_flags_error(
            crate::path_attribute::ExtendedCommunitiesIpv6::spec_can_be_optional(),
            crate::path_attribute::ExtendedCommunitiesIpv6::spec_can_be_transitive(),
            crate::path_attribute::ExtendedCommunitiesIpv6::spec_can_be_partial(),
            optional,
            transitive,
            partial,
        ),
        26u8 => spec_rules_flags_error(
            crate::path_attribute::Aigp::spec_can_be_optional(),
            crate::path_attribute::Aigp::spec_can_be_transitive(),
            crate::path_attribute::Aigp::spec_can_be_partial(),
            optional,
            transitive,
            partial,
        ),
        29u8 => spec_rules_flags_error(
            crate::path_attribute::BgpLsAttribute::spec_can_be_optional(),
            crate::path_attribute::BgpLsAttribute::spec_can_be_transitive(),
            crate::path_attribute::BgpLsAttribute::spec_can_be_partial(),
            optional,
            transitive,
            partial,
        ),
        32u8 => spec_rules_flags_error(
            crate::path_attribute::LargeCommunities::spec_can_be_optional(),
            crate::path_attribute::LargeCommunities::spec_can_be_transitive(),
            crate::path_attribute::LargeCommunities::spec_can_be_partial(),
            optional,
            transitive,
            partial,
        ),
        35u8 => spec_rules_flags_error(
            crate::path_attribute::OnlyToCustomer::spec_can_be_optional(),
            crate::path_attribute::OnlyToCustomer::spec_can_be_transitive(),
            crate::path_attribute::OnlyToCustomer::spec_can_be_partial(),
            optional,
            transitive,
            partial,
        ),
        40u8 => spec_rules_flags_error(
            crate::path_attribute::PrefixSegmentIdentifier::spec_can_be_optional(),
            crate::path_attribute::PrefixSegmentIdentifier::spec_can_be_transitive(),
            crate::path_attribute::PrefixSegmentIdentifier::spec_can_be_partial(),
            optional,
            transitive,
            partial,
        ),
        _ => None,
    }
}

/// Which value kind the decoder yields for a type code: the registered
/// kind for each code it understands, the raw unknown attribute for the
/// rest (including the four-octet AGGREGATOR code, whose payload this
/// decoder preserves raw).
pub open spec fn spec_value_kind_for_code(code: u8, v: PathAttributeValue) -> bool {
    match code {
        1u8 => v is Origin,
        2u8 => v is AsPath,
        3u8 => v is NextHop,
        4u8 => v is MultiExitDiscriminator,
        5u8 => v is LocalPreference,
        6u8 => v is AtomicAggregate,
        7u8 => v is Aggregator,
        8u8 => v is Communities,
        9u8 => v is Originator,
        10u8 => v is ClusterList,
        14u8 => v is MpReach,
        15u8 => v is MpUnreach,
        16u8 => v is ExtendedCommunities,
        17u8 => v is As4Path,
        25u8 => v is ExtendedCommunitiesIpv6,
        26u8 => v is Aigp,
        29u8 => v is BgpLs,
        32u8 => v is LargeCommunities,
        35u8 => v is OnlyToCustomer,
        40u8 => v is PrefixSegmentIdentifier,
        _ => v is UnknownAttribute,
    }
}

/// A value of the kind the decoder yields for a code obeys exactly the
/// flag rules the code's registered kind imposes.
proof fn lemma_code_flags_error(
    code: u8,
    v: PathAttributeValue,
    optional: bool,
    transitive: bool,
    partial: bool,
)
    requires
        spec_value_kind_for_code(code, v),
    ensures
        crate::path_attribute::PathAttribute::spec_flags_error(v, optional, transitive, partial)
            == spec_code_flags_error(code, optional, transitive, partial),
{
}

/// The error of the sub-parser the type code at `pos + 1` dispatches to,
/// if any.
pub open spec fn spec_attr_sub_error(buf: Seq<u8>, pos: int, asn4: bool) -> Option<
    LocatedPathAttributeParsingError,
> {
    let ext = buf[pos] & 0x10 == 0x10;
    let vp = pos + 2;
    match buf[pos + 1] {
        1u8 => lift_origin_error(spec_origin_error(buf, vp, ext)),
        2u8 => lift_as_path_error(spec_as_path_error(buf, vp, ext, asn4)),
        3u8 => lift_next_hop_error(spec_next_hop_error(buf, vp, ext)),
        4u8 => spec_u32_value_error(buf, vp, ext, 4),
        5u8 => spec_u32_value_error(buf, vp, ext, 5),
        6u8 => spec_atomic_aggregate_error(buf, vp, ext),
        7u8 => spec_aggregator_error(buf, vp, ext, asn4),
        8u8 => spec_list_value_error(buf, vp, ext, 4, 8),
        9u8 => spec_u32_value_error(buf, vp, ext, 9),
        10u8 => spec_list_value_error(buf, vp, ext, 4, 10),
        14u8 => spec_mp_unknown_error(buf, vp, ext),
        15u8 => spec_mp_unknown_error(buf, vp, ext),
        16u8 => spec_list_value_error(buf, vp, ext, 8, 16),
        17u8 => lift_as_path_error(spec_as4_path_error(buf, vp, ext)),
        25u8 => spec_list_value_error(buf, vp, ext, 20, 25),
        26u8 => spec_aigp_error(buf, vp, ext),
        29u8 => spec_raw_value_error(buf, vp, ext),
        32u8 => spec_list_value_error(buf, vp, ext, 12, 32),
        35u8 => spec_u32_value_error(buf, vp, ext, 35),
        40u8 => spec_raw_value_error(buf, vp, ext),
        _ => spec_raw_value_error(buf, vp, ext),
    }
}

/// Exactly when and how parsing a whole path attribute fails: a buffer
/// too short for the two header octets, a failing value parse for the
/// dispatched type code, or flags that disagree with the code's
/// well-known matrix.
pub open spec fn spec_attr_error(buf: Seq<u8>, pos: int, asn4: bool) -> Option<
    LocatedPathAttributeParsingError,
> {
    if buf.len() - pos < 2 {
        Some(
            LocatedPathAttributeParsingError {
                span: pos as usize,
                error: PathAttributeParsingError::Truncated {
                    expected: 2,
                    remaining: (buf.len() - pos) as usize,
                },
            },
        )
    } else {
        match spec_attr_sub_error(buf, pos, asn4) {
            Some(e) => Some(e),
            None => match spec_code_flags_error(
                buf[pos + 1],
                buf[pos] & 0x80 == 0x80,
                buf[pos] & 0x40 == 0x40,
                buf[pos] & 0x20 == 0x20,
            ) {
                Some(fe) => Some(
                    LocatedPathAttributeParsingError {
                        span: pos as usize,
                        error: PathAttributeParsingError::InvalidPathAttribute(fe),
                    },
                ),
                None => None,
            },
        }
    }
}

/// Assemble a parsed attribute from its header octets and decoded value,
/// holding the flags to the well-known matrix of the value's kind.
#[verifier::rlimit(100)]
fn build_parsed_attribute(
    buf: &[u8],
    pos: usize,
    value: crate::path_attribute::PathAttributeValue,
    end: usize,
) -> (r: Result<
    (crate::path_attribute::PathAttribute, usize),
    LocatedPathAttributeParsingError,
>)
    requires
        pos + 2 < end <= buf.len(),
        crate::serializer::spec_attr_type_code(value) == buf@[pos + 1],
        crate::serializer::spec_attr_value_wf(value),
        crate::serializer::spec_attr_len_ok(
            buf@[pos as int] & 0x10 == 0x10,
            crate::serializer::spec_attr_value_bytes(value).len() as int,
        ),
        buf@.subrange(pos + 2, end as int) == spec_attr_len_bytes(
            buf@[pos as int] & 0x10 == 0x10,
            crate::serializer::spec_attr_value_bytes(value).len() as int,
        ) + crate::serializer::spec_attr_value_bytes(value),
    ensures
        match r {
            Ok((attr, aend)) => {
                &&& aend == end
                &&& attr.optional == (buf@[pos as int] & 0x80 == 0x80)
                &&& attr.transitive == (buf@[pos as int] & 0x40 == 0x40)
                &&& attr.partial == (buf@[pos as int] & 0x20 == 0x20)
                &&& attr.extended_length == (buf@[pos as int] & 0x10 == 0x10)
                &&& attr.value == value
                &&& attr.value.spec_flags_valid(attr.optional, attr.transitive, attr.partial)
                &&& crate::serializer::spec_path_attribute_writable(attr)
                &&& crate::serializer::spec_path_attribute_bytes(attr) == seq![
                    (buf@[pos as int] & 0xF0) as u8,
                ] + buf@.subrange(pos + 1, end as int)
            },
            Err(e) => ({
                let fe = crate::path_attribute::PathAttribute::spec_flags_error(
                    value,
                    buf@[pos as int] & 0x80 == 0x80,
                    buf@[pos as int] & 0x40 == 0x40,
                    buf@[pos as int] & 0x20 == 0x20,
                );
                &&& fe matches Some(f) && e == (LocatedPathAttributeParsingError {
                    span: pos,
                    error: PathAttributeParsingError::InvalidPathAttribute(f),
                })
            }),
        },
{
    let attributes = buf[pos];
    let optional = attributes & 0x80 == 0x80;
    let transitive = attributes & 0x40 == 0x40;
    let partial = attributes & 0x20 == 0x20;
    let extended_length = attributes & 0x10 == 0x10;
    match crate::path_attribute::PathAttribute::from(
        optional,
        transitive,
        partial,
        extended_length,
        value,
    ) {
        Ok(attr) => {
            proof {
                lemma_flags_byte_nibble(attributes);
                assert(buf@.subrange(pos + 1, end as int) =~= seq![buf@[pos + 1]] + buf@.subrange(
                    pos + 2,
                    end as int,
                ));
                assert(crate::serializer::spec_path_attribute_bytes(attr) =~= seq![
                    (attributes & 0xF0) as u8,
                ] + buf@.subrange(pos + 1, end as int));
            }
            Ok((attr, end))
        },
        Err((_, e)) => Err(
            LocatedPathAttributeParsingError::new(
                pos,
                PathAttributeParsingError::InvalidPathAttribute(e),
            ),
        ),
    }
}

/// Parse a multiprotocol attribute value whose family-specific payload is
/// preserved raw: the AFI, the SAFI, then the remaining octets as is.
fn parse_mp_unknown(buf: &[u8], pos: usize, extended_length: bool, reach: bool) -> (r: Result<
    (crate::path_attribute::PathAttributeValue, usize),
    LocatedPathAttributeParsingError,
>)
    requires
        pos <= buf.len(),
    ensures
        match r {
            Ok((v, end)) => {
                &&& pos < end <= buf.len()
                &&& buf@.subrange(pos as int, end as int) == spec_attr_len_bytes(
                    extended_length,
                    crate::serializer::spec_attr_value_bytes(v).len() as int,
                ) + crate::serializer::spec_attr_value_bytes(v)
                &&& crate::serializer::spec_attr_value_wf(v)
                &&& crate::serializer::spec_attr_len_ok(
                    extended_length,
                    crate::serializer::spec_attr_value_bytes(v).len() as int,
                )
                &&& (reach ==> v matches crate::path_attribute::PathAttributeValue::MpReach(
                    crate::path_attribute::MpReach::Unknown { .. },
                ))
                &&& (!reach ==> v matches crate::path_attribute::PathAttributeValue::MpUnreach(
                    crate::path_attribute::MpUnreach::Unknown { .. },
                ))
                &&& spec_mp_unknown_error(buf@, pos as int, extended_length) is None
            },
            Err(e) => spec_mp_unknown_error(buf@, pos as int, extended_length) == Some(e),
        },
{
    let (raw, end) = match parse_raw_value(buf, pos, extended_length) {
        Ok(v) => v,
        Err(e) => {
            return Err(e);
        },
    };
    if raw.len() < 3 {
        return Err(
            LocatedPathAttributeParsingError::new(
                pos,
                PathAttributeParsingError::Truncated { expected: 3, remaining: raw.len() },
            ),
        );
    }
    let afi_raw = read_be16(raw.as_slice(), 0);
    let safi_raw = raw[2];
    let afi = crate::iana::AddressFamily::from_code(afi_raw);
    let safi = crate::iana::SubsequentAddressFamily::from_code(safi_raw);
    let rest = read_bytes(raw.as_slice(), 3, raw.len());
    proof {
        assert(afi.spec_code() == afi_raw);
        assert(safi.spec_code() == safi_raw);
    }
    if reach {
        let v = crate::path_attribute::PathAttributeValue::MpReach(
            crate::path_attribute::MpReach::Unknown { afi, safi, value: rest },
        );
        proof {
            assert(crate::serializer::spec_attr_value_bytes(v) =~= raw@);
        }
        Ok((v, end))
    } else {
        let v = crate::path_attribute::PathAttributeValue::MpUnreach(
            crate::path_attribute::MpUnreach::Unknown { afi, safi, nlri: rest },
        );
        proof {
            assert(crate::serializer::spec_attr_value_bytes(v) =~= raw@);
        }
        Ok((v, end))
    }
}

/// Parse one whole path attribute: the flags octet, the type code, the
/// length in the width the extended-length bit selects, and the value.
///
/// Classic AS_PATH and AGGREGATOR read two- or four-octet AS numbers
/// according to `asn4`. The flags of every recognized attribute kind are
/// held to the well-known flag matrix; an unrecognized code is preserved
/// as an [`crate::path_attribute::UnknownAttribute`] with any flags. The
/// multiprotocol and link-state payloads are preserved raw.
///
/// On success, re-encoding the decoded attribute reproduces the consumed
/// octets exactly, except that the unused low nibble of the flags octet
/// re-encodes as zero.
#[verifier::rlimit(100)]
pub fn parse_path_attribute(buf: &[u8], pos: usize, asn4: bool) -> (r: Result<
    (crate::path_attribute::PathAttribute, usize),
    LocatedPathAttributeParsingError,
>)
    requires
        pos <= buf.len(),
    ensures
        match r {
            Ok((attr, end)) => {
                &&& pos + 2 < end <= buf.len()
                &&& attr.optional == (buf@[pos as int] & 0x80 == 0x80)
                &&& attr.transitive == (buf@[pos as int] & 0x40 == 0x40)
                &&& attr.partial == (buf@[pos as int] & 0x20 == 0x20)
                &&& attr.extended_length == (buf@[pos as int] & 0x10 == 0x10)
                &&& attr.value.spec_flags_valid(attr.optional, attr.transitive, attr.partial)
                &&& crate::serializer::spec_path_attribute_writable(attr)
                &&& crate::serializer::spec_path_attribute_bytes(attr) == seq![
                    (buf@[pos as int] & 0xF0) as u8,
                ] + buf@.subrange(pos + 1, end as int)
                &&& spec_value_kind_for_code(buf@[pos + 1], attr.value)
                &&& (attr.value matches PathAttributeValue::AsPath(p) ==> (p is As4PathSegments
                    <==> asn4))
                &&& (attr.value matches PathAttributeValue::Aggregator(a) ==> (a is As4Aggregator
                    <==> asn4))
                &&& (attr.value matches PathAttributeValue::MpReach(m) ==> m is Unknown)
                &&& (attr.value matches PathAttributeValue::MpUnreach(m) ==> m is Unknown)
                &&& spec_attr_error(buf@, pos as int, asn4) is None
            },
            Err(e) => spec_attr_error(buf@, pos as int, asn4) == Some(e),
        },
{
    if buf.len() - pos < 2 {
        return Err(
            LocatedPathAttributeParsingError::new(
                pos,
                PathAttributeParsingError::Truncated {
                    expected: 2,
                    remaining: buf.len() - pos,
                },
            ),
        );
    }
    let attributes = buf[pos];
    let optional = attributes & 0x80 == 0x80;
    let transitive = attributes & 0x40 == 0x40;
    let partial = attributes & 0x20 == 0x20;
    let extended_length = attributes & 0x10 == 0x10;
    let code = buf[pos + 1];
    let vp = pos + 2;
    let parsed: (crate::path_attribute::PathAttributeValue, usize) = match code {
        1 => {
            let (o, end) = match parse_origin(buf, vp, extended_length) {
                Ok(v) => v,
                Err(e) => {
                    let le = e.into_located_attribute_parsing_error();
                    proof {
                        assert(spec_attr_sub_error(buf@, pos as int, asn4) == Some(le));
                    }
                    return Err(le);
                },
            };
            let v = crate::path_attribute::PathAttributeValue::Origin(o);
            proof {
                assert(crate::serializer::spec_attr_value_bytes(v) =~= seq![o.spec_code()]);
                assert(crate::serializer::spec_attr_len_ok(
                    extended_length,
                    crate::serializer::spec_attr_value_bytes(v).len() as int,
                ));
                assert(buf@.subrange(vp as int, end as int) == spec_attr_len_bytes(
                    extended_length,
                    crate::serializer::spec_attr_value_bytes(v).len() as int,
                ) + crate::serializer::spec_attr_value_bytes(v));
                assert(spec_value_kind_for_code(code, v));
                assert(spec_attr_sub_error(buf@, pos as int, asn4) is None);
            }
            (v, end)
        },
        2 => {
            let (p, end) = match parse_as_path(buf, vp, extended_length, asn4) {
                Ok(v) => v,
                Err(e) => {
                    let le = e.into_located_attribute_parsing_error();
                    proof {
                        assert(spec_attr_sub_error(buf@, pos as int, asn4) == Some(le));
                    }
                    return Err(le);
                },
            };
            let v = crate::path_attribute::PathAttributeValue::AsPath(p);
            proof {
                assert(crate::serializer::spec_attr_value_bytes(v)
                    == crate::serializer::spec_as_path_bytes(p));
                assert(crate::serializer::spec_attr_len_ok(
                    extended_length,
                    crate::serializer::spec_attr_value_bytes(v).len() as int,
                ));
                assert(buf@.subrange(vp as int, end as int) == spec_attr_len_bytes(
                    extended_length,
                    crate::serializer::spec_attr_value_bytes(v).len() as int,
                ) + crate::serializer::spec_attr_value_bytes(v));
                assert(spec_value_kind_for_code(code, v));
                assert(spec_attr_sub_error(buf@, pos as int, asn4) is None);
            }
            (v, end)
        },
        3 => {
            let (nh, end) = match parse_next_hop(buf, vp, extended_length) {
                Ok(v) => v,
                Err(e) => {
                    let le = e.into_located_attribute_parsing_error();
                    proof {
                        assert(spec_attr_sub_error(buf@, pos as int, asn4) == Some(le));
                    }
                    return Err(le);
                },
            };
            let v = crate::path_attribute::PathAttributeValue::NextHop(nh);
            proof {
                assert(crate::serializer::spec_attr_value_bytes(v) == nh.next_hop.spec_octets());
                assert(nh.next_hop.spec_octets().len() == 4);
                assert(crate::serializer::spec_attr_len_ok(
                    extended_length,
                    crate::serializer::spec_attr_value_bytes(v).len() as int,
                ));
                assert(buf@.subrange(vp as int, end as int) == spec_attr_len_bytes(
                    extended_length,
                    crate::serializer::spec_attr_value_bytes(v).len() as int,
                ) + crate::serializer::spec_attr_value_bytes(v));
                assert(spec_value_kind_for_code(code, v));
                assert(spec_attr_sub_error(buf@, pos as int, asn4) is None);
            }
            (v, end)
        },
        4 => {
            let (m, end) = match parse_u32_value(buf, vp, extended_length, 4) {
                Ok(v) => v,
                Err(e) => {
                    proof {
                        assert(spec_attr_sub_error(buf@, pos as int, asn4) == Some(e));
                    }
                    return Err(e);
                },
            };
            let v = crate::path_attribute::PathAttributeValue::MultiExitDiscriminator(
                crate::path_attribute::MultiExitDiscriminator { metric: m },
            );
            proof {
                assert(crate::serializer::spec_attr_value_bytes(v) == crate::bytes::spec_be32(m));
                assert(crate::bytes::spec_be32(m).len() == 4);
                assert(crate::serializer::spec_attr_len_ok(
                    extended_length,
                    crate::serializer::spec_attr_value_bytes(v).len() as int,
                ));
                assert(buf@.subrange(vp as int, end as int) == spec_attr_len_bytes(
                    extended_length,
                    crate::serializer::spec_attr_value_bytes(v).len() as int,
                ) + crate::serializer::spec_attr_value_bytes(v));
                assert(spec_value_kind_for_code(code, v));
                assert(spec_attr_sub_error(buf@, pos as int, asn4) is None);
            }
            (v, end)
        },
        5 => {
            let (m, end) = match parse_u32_value(buf, vp, extended_length, 5) {
                Ok(v) => v,
                Err(e) => {
                    proof {
                        assert(spec_attr_sub_error(buf@, pos as int, asn4) == Some(e));
                    }
                    return Err(e);
                },
            };
            let v = crate::path_attribute::PathAttributeValue::LocalPreference(
                crate::path_attribute::LocalPreference { metric: m },
            );
            proof {
                assert(crate::serializer::spec_attr_value_bytes(v) == crate::bytes::spec_be32(m));
                assert(crate::bytes::spec_be32(m).len() == 4);
                assert(crate::serializer::spec_attr_len_ok(
                    extended_length,
                    crate::serializer::spec_attr_value_bytes(v).len() as int,
                ));
                assert(buf@.subrange(vp as int, end as int) == spec_attr_len_bytes(
                    extended_length,
                    crate::serializer::spec_attr_value_bytes(v).len() as int,
                ) + crate::serializer::spec_attr_value_bytes(v));
                assert(spec_value_kind_for_code(code, v));
                assert(spec_attr_sub_error(buf@, pos as int, asn4) is None);
            }
            (v, end)
        },
        6 => {
            let (a, end) = match parse_atomic_aggregate(buf, vp, extended_length) {
                Ok(v) => v,
                Err(e) => {
                    proof {
                        assert(spec_attr_sub_error(buf@, pos as int, asn4) == Some(e));
                    }
                    return Err(e);
                },
            };
            let v = crate::path_attribute::PathAttributeValue::AtomicAggregate(a);
            proof {
                assert(crate::serializer::spec_attr_value_bytes(v) =~= Seq::empty());
                assert(crate::serializer::spec_attr_len_ok(
                    extended_length,
                    crate::serializer::spec_attr_value_bytes(v).len() as int,
                ));
                assert(buf@.subrange(vp as int, end as int) == spec_attr_len_bytes(
                    extended_length,
                    crate::serializer::spec_attr_value_bytes(v).len() as int,
                ) + crate::serializer::spec_attr_value_bytes(v));
                assert(spec_value_kind_for_code(code, v));
                assert(spec_attr_sub_error(buf@, pos as int, asn4) is None);
            }
            (v, end)
        },
        7 => {
            let (a, end) = match parse_aggregator(buf, vp, extended_length, asn4) {
                Ok(v) => v,
                Err(e) => {
                    proof {
                        assert(spec_attr_sub_error(buf@, pos as int, asn4) == Some(e));
                    }
                    return Err(e);
                },
            };
            let v = crate::path_attribute::PathAttributeValue::Aggregator(a);
            proof {
                assert(crate::serializer::spec_attr_value_bytes(v)
                    == crate::serializer::spec_aggregator_bytes(a));
                assert(crate::serializer::spec_aggregator_bytes(a).len() <= 8);
                assert(crate::serializer::spec_attr_len_ok(
                    extended_length,
                    crate::serializer::spec_attr_value_bytes(v).len() as int,
                ));
                assert(buf@.subrange(vp as int, end as int) == spec_attr_len_bytes(
                    extended_length,
                    crate::serializer::spec_attr_value_bytes(v).len() as int,
                ) + crate::serializer::spec_attr_value_bytes(v));
                assert(spec_value_kind_for_code(code, v));
                assert(spec_attr_sub_error(buf@, pos as int, asn4) is None);
            }
            (v, end)
        },
        8 => {
            let (c, end) = match parse_communities(buf, vp, extended_length) {
                Ok(v) => v,
                Err(e) => {
                    proof {
                        assert(spec_attr_sub_error(buf@, pos as int, asn4) == Some(e));
                    }
                    return Err(e);
                },
            };
            let v = crate::path_attribute::PathAttributeValue::Communities(c);
            proof {
                assert(crate::serializer::spec_attr_value_bytes(v) == c.communities@.flat_map(
                    |x: crate::community::Community| crate::bytes::spec_be32(x.0),
                ));
                assert(crate::serializer::spec_attr_len_ok(
                    extended_length,
                    crate::serializer::spec_attr_value_bytes(v).len() as int,
                ));
                assert(buf@.subrange(vp as int, end as int) == spec_attr_len_bytes(
                    extended_length,
                    crate::serializer::spec_attr_value_bytes(v).len() as int,
                ) + crate::serializer::spec_attr_value_bytes(v));
                assert(spec_value_kind_for_code(code, v));
                assert(spec_attr_sub_error(buf@, pos as int, asn4) is None);
            }
            (v, end)
        },
        9 => {
            let (o, end) = match parse_originator(buf, vp, extended_length) {
                Ok(v) => v,
                Err(e) => {
                    proof {
                        assert(spec_attr_sub_error(buf@, pos as int, asn4) == Some(e));
                    }
                    return Err(e);
                },
            };
            let v = crate::path_attribute::PathAttributeValue::Originator(o);
            proof {
                assert(crate::serializer::spec_attr_value_bytes(v) == o.0.spec_octets());
                assert(o.0.spec_octets().len() == 4);
                assert(crate::serializer::spec_attr_len_ok(
                    extended_length,
                    crate::serializer::spec_attr_value_bytes(v).len() as int,
                ));
                assert(buf@.subrange(vp as int, end as int) == spec_attr_len_bytes(
                    extended_length,
                    crate::serializer::spec_attr_value_bytes(v).len() as int,
                ) + crate::serializer::spec_attr_value_bytes(v));
                assert(spec_value_kind_for_code(code, v));
                assert(spec_attr_sub_error(buf@, pos as int, asn4) is None);
            }
            (v, end)
        },
        10 => {
            let (c, end) = match parse_cluster_list(buf, vp, extended_length) {
                Ok(v) => v,
                Err(e) => {
                    proof {
                        assert(spec_attr_sub_error(buf@, pos as int, asn4) == Some(e));
                    }
                    return Err(e);
                },
            };
            let v = crate::path_attribute::PathAttributeValue::ClusterList(c);
            proof {
                assert(crate::serializer::spec_attr_value_bytes(v) == c.0@.flat_map(
                    |x: crate::path_attribute::ClusterId| x.0.spec_octets(),
                ));
                assert(crate::serializer::spec_attr_len_ok(
                    extended_length,
                    crate::serializer::spec_attr_value_bytes(v).len() as int,
                ));
                assert(buf@.subrange(vp as int, end as int) == spec_attr_len_bytes(
                    extended_length,
                    crate::serializer::spec_attr_value_bytes(v).len() as int,
                ) + crate::serializer::spec_attr_value_bytes(v));
                assert(spec_value_kind_for_code(code, v));
                assert(spec_attr_sub_error(buf@, pos as int, asn4) is None);
            }
            (v, end)
        },
        14 => {
            let (v, end) = match parse_mp_unknown(buf, vp, extended_length, true) {
                Ok(v) => v,
                Err(e) => {
                    proof {
                        assert(spec_attr_sub_error(buf@, pos as int, asn4) == Some(e));
                    }
                    return Err(e);
                },
            };
            proof {
                assert(spec_value_kind_for_code(code, v));
                assert(spec_attr_sub_error(buf@, pos as int, asn4) is None);
            }
            (v, end)
        },
        15 => {
            let (v, end) = match parse_mp_unknown(buf, vp, extended_length, false) {
                Ok(v) => v,
                Err(e) => {
                    proof {
                        assert(spec_attr_sub_error(buf@, pos as int, asn4) == Some(e));
                    }
                    return Err(e);
                },
            };
            proof {
                assert(spec_value_kind_for_code(code, v));
                assert(spec_attr_sub_error(buf@, pos as int, asn4) is None);
            }
            (v, end)
        },
        16 => {
            let (c, end) = match parse_extended_communities(buf, vp, extended_length) {
                Ok(v) => v,
                Err(e) => {
                    proof {
                        assert(spec_attr_sub_error(buf@, pos as int, asn4) == Some(e));
                    }
                    return Err(e);
                },
            };
            let v = crate::path_attribute::PathAttributeValue::ExtendedCommunities(c);
            proof {
                assert(crate::serializer::spec_attr_value_bytes(v) == c.communities@.flat_map(
                    |x: crate::community::ExtendedCommunity| x.spec_bytes(),
                ));
                assert(crate::serializer::spec_attr_len_ok(
                    extended_length,
                    crate::serializer::spec_attr_value_bytes(v).len() as int,
                ));
                assert(buf@.subrange(vp as int, end as int) == spec_attr_len_bytes(
                    extended_length,
                    crate::serializer::spec_attr_value_bytes(v).len() as int,
                ) + crate::serializer::spec_attr_value_bytes(v));
                assert(spec_value_kind_for_code(code, v));
                assert(spec_attr_sub_error(buf@, pos as int, asn4) is None);
            }
            (v, end)
        },
        17 => {
            let (p, end) = match parse_as4_path(buf, vp, extended_length) {
                Ok(v) => v,
                Err(e) => {
                    let le = e.into_located_attribute_parsing_error();
                    proof {
                        assert(spec_attr_sub_error(buf@, pos as int, asn4) == Some(le));
                    }
                    return Err(le);
                },
            };
            let v = crate::path_attribute::PathAttributeValue::As4Path(p);
            proof {
                assert(crate::serializer::spec_attr_value_bytes(v)
                    == crate::serializer::spec_as4_segments_bytes(p.segments@));
                assert(crate::serializer::spec_attr_len_ok(
                    extended_length,
                    crate::serializer::spec_attr_value_bytes(v).len() as int,
                ));
                assert(buf@.subrange(vp as int, end as int) == spec_attr_len_bytes(
                    extended_length,
                    crate::serializer::spec_attr_value_bytes(v).len() as int,
                ) + crate::serializer::spec_attr_value_bytes(v));
                assert(spec_value_kind_for_code(code, v));
                assert(spec_attr_sub_error(buf@, pos as int, asn4) is None);
            }
            (v, end)
        },
        25 => {
            let (c, end) = match parse_extended_communities_ipv6(buf, vp, extended_length) {
                Ok(v) => v,
                Err(e) => {
                    proof {
                        assert(spec_attr_sub_error(buf@, pos as int, asn4) == Some(e));
                    }
                    return Err(e);
                },
            };
            let v = crate::path_attribute::PathAttributeValue::ExtendedCommunitiesIpv6(c);
            proof {
                assert(crate::serializer::spec_attr_value_bytes(v) == c.communities@.flat_map(
                    |x: crate::community::ExtendedCommunityIpv6| x.spec_bytes(),
                ));
                assert(crate::serializer::spec_attr_len_ok(
                    extended_length,
                    crate::serializer::spec_attr_value_bytes(v).len() as int,
                ));
                assert(buf@.subrange(vp as int, end as int) == spec_attr_len_bytes(
                    extended_length,
                    crate::serializer::spec_attr_value_bytes(v).len() as int,
                ) + crate::serializer::spec_attr_value_bytes(v));
                assert(spec_value_kind_for_code(code, v));
                assert(spec_attr_sub_error(buf@, pos as int, asn4) is None);
            }
            (v, end)
        },
        26 => {
            let (a, end) = match parse_aigp(buf, vp, extended_length) {
                Ok(v) => v,
                Err(e) => {
                    proof {
                        assert(spec_attr_sub_error(buf@, pos as int, asn4) == Some(e));
                    }
                    return Err(e);
                },
            };
            let v = crate::path_attribute::PathAttributeValue::Aigp(a);
            proof {
                assert(crate::serializer::spec_attr_value_bytes(v) == (match a {
                    crate::path_attribute::Aigp::AccumulatedIgpMetric(m) => seq![1u8] + spec_be16(
                        11,
                    ) + crate::bytes::spec_be64(m),
                }));
                assert(crate::serializer::spec_attr_value_bytes(v).len() == 11);
                assert(crate::serializer::spec_attr_len_ok(
                    extended_length,
                    crate::serializer::spec_attr_value_bytes(v).len() as int,
                ));
                assert(buf@.subrange(vp as int, end as int) == spec_attr_len_bytes(
                    extended_length,
                    crate::serializer::spec_attr_value_bytes(v).len() as int,
                ) + crate::serializer::spec_attr_value_bytes(v));
                assert(spec_value_kind_for_code(code, v));
                assert(spec_attr_sub_error(buf@, pos as int, asn4) is None);
            }
            (v, end)
        },
        29 => {
            let (raw, end) = match parse_raw_value(buf, vp, extended_length) {
                Ok(v) => v,
                Err(e) => {
                    proof {
                        assert(spec_attr_sub_error(buf@, pos as int, asn4) == Some(e));
                    }
                    return Err(e);
                },
            };
            let ghost rawview = raw@;
            let v = crate::path_attribute::PathAttributeValue::BgpLs(
                crate::path_attribute::BgpLsAttribute { value: raw },
            );
            proof {
                assert(crate::serializer::spec_attr_value_bytes(v) == rawview);
                assert(crate::serializer::spec_attr_len_ok(
                    extended_length,
                    crate::serializer::spec_attr_value_bytes(v).len() as int,
                ));
                assert(buf@.subrange(vp as int, end as int) == spec_attr_len_bytes(
                    extended_length,
                    crate::serializer::spec_attr_value_bytes(v).len() as int,
                ) + crate::serializer::spec_attr_value_bytes(v));
                assert(spec_value_kind_for_code(code, v));
                assert(spec_attr_sub_error(buf@, pos as int, asn4) is None);
            }
            (v, end)
        },
        32 => {
            let (c, end) = match parse_large_communities(buf, vp, extended_length) {
                Ok(v) => v,
                Err(e) => {
                    proof {
                        assert(spec_attr_sub_error(buf@, pos as int, asn4) == Some(e));
                    }
                    return Err(e);
                },
            };
            let v = crate::path_attribute::PathAttributeValue::LargeCommunities(c);
            proof {
                assert(crate::serializer::spec_attr_value_bytes(v) == c.communities@.flat_map(
                    |x: crate::community::LargeCommunity| x.spec_bytes(),
                ));
                assert(crate::serializer::spec_attr_len_ok(
                    extended_length,
                    crate::serializer::spec_attr_value_bytes(v).len() as int,
                ));
                assert(buf@.subrange(vp as int, end as int) == spec_attr_len_bytes(
                    extended_length,
                    crate::serializer::spec_attr_value_bytes(v).len() as int,
                ) + crate::serializer::spec_attr_value_bytes(v));
                assert(spec_value_kind_for_code(code, v));
                assert(spec_attr_sub_error(buf@, pos as int, asn4) is None);
            }
            (v, end)
        },
        35 => {
            let (m, end) = match parse_u32_value(buf, vp, extended_length, 35) {
                Ok(v) => v,
                Err(e) => {
                    proof {
                        assert(spec_attr_sub_error(buf@, pos as int, asn4) == Some(e));
                    }
                    return Err(e);
                },
            };
            let v = crate::path_attribute::PathAttributeValue::OnlyToCustomer(
                crate::path_attribute::OnlyToCustomer(m),
            );
            proof {
                assert(crate::serializer::spec_attr_value_bytes(v) == crate::bytes::spec_be32(m));
                assert(crate::bytes::spec_be32(m).len() == 4);
                assert(crate::serializer::spec_attr_len_ok(
                    extended_length,
                    crate::serializer::spec_attr_value_bytes(v).len() as int,
                ));
                assert(buf@.subrange(vp as int, end as int) == spec_attr_len_bytes(
                    extended_length,
                    crate::serializer::spec_attr_value_bytes(v).len() as int,
                ) + crate::serializer::spec_attr_value_bytes(v));
                assert(spec_value_kind_for_code(code, v));
                assert(spec_attr_sub_error(buf@, pos as int, asn4) is None);
            }
            (v, end)
        },
        40 => {
            let (raw, end) = match parse_raw_value(buf, vp, extended_length) {
                Ok(v) => v,
                Err(e) => {
                    proof {
                        assert(spec_attr_sub_error(buf@, pos as int, asn4) == Some(e));
                    }
                    return Err(e);
                },
            };
            let ghost rawview = raw@;
            let v = crate::path_attribute::PathAttributeValue::PrefixSegmentIdentifier(
                crate::path_attribute::PrefixSegmentIdentifier { tlvs: raw },
            );
            proof {
                assert(crate::serializer::spec_attr_value_bytes(v) == rawview);
                assert(crate::serializer::spec_attr_len_ok(
                    extended_length,
                    crate::serializer::spec_attr_value_bytes(v).len() as int,
                ));
                assert(buf@.subrange(vp as int, end as int) == spec_attr_len_bytes(
                    extended_length,
                    crate::serializer::spec_attr_value_bytes(v).len() as int,
                ) + crate::serializer::spec_attr_value_bytes(v));
                assert(spec_value_kind_for_code(code, v));
                assert(spec_attr_sub_error(buf@, pos as int, asn4) is None);
            }
            (v, end)
        },
        _ => {
            let (raw, end) = match parse_raw_value(buf, vp, extended_length) {
                Ok(v) => v,
                Err(e) => {
                    proof {
                        assert(spec_attr_sub_error(buf@, pos as int, asn4) == Some(e));
                    }
                    return Err(e);
                },
            };
            let ghost rawview = raw@;
            let v = crate::path_attribute::PathAttributeValue::UnknownAttribute(
                crate::path_attribute::UnknownAttribute { code, value: raw },
            );
            proof {
                assert(crate::serializer::spec_attr_value_bytes(v) == rawview);
                assert(crate::serializer::spec_attr_len_ok(
                    extended_length,
                    crate::serializer::spec_attr_value_bytes(v).len() as int,
                ));
                assert(buf@.subrange(vp as int, end as int) == spec_attr_len_bytes(
                    extended_length,
                    crate::serializer::spec_attr_value_bytes(v).len() as int,
                ) + crate::serializer::spec_attr_value_bytes(v));
                assert(spec_value_kind_for_code(code, v));
                assert(spec_attr_sub_error(buf@, pos as int, asn4) is None);
            }
            (v, end)
        },
    };
    let (value, end) = parsed;
    assert(spec_value_kind_for_code(code, value));
    assert(spec_attr_sub_error(buf@, pos as int, asn4) is None);
    proof {
        lemma_code_flags_error(code, value, optional, transitive, partial);
    }
    match build_parsed_attribute(buf, pos, value, end) {
        Ok((attr, aend)) => {
            proof {
                assert(spec_attr_error(buf@, pos as int, asn4) is None);
            }
            Ok((attr, aend))
        },
        Err(e) => {
            proof {
                assert(spec_attr_error(buf@, pos as int, asn4) == Some(e));
            }
            Err(e)
        },
    }
}

} // verus!
