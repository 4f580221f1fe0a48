//! NetFlow v9 packets and the template cache their data sets require.
//!
//! Templates are held structurally: a field specifier is an information
//! element number and a length in octets, and a data record carries each
//! field's octets as they stood on the wire. The cache maps a template
//! identifier to its scope and field specifiers; installing is insert or
//! silent replace, and a data set arriving after a redefinition uses the
//! new definition.

use vstd::prelude::*;

use std::collections::HashMap;

use crate::bytes::spec_be16;
use crate::bytes::spec_be16_val;
use crate::bytes::spec_be32;
use crate::bytes::write_be16;
use crate::bytes::write_be32;

verus! {

broadcast use vstd::std_specs::hash::group_hash_axioms;

/// One field of a template: the information element number and the
/// field's width in octets.
#[derive(Debug, Clone, Copy, PartialEq, Eq, Hash, Structural)]
pub struct FieldSpecifier {
    pub ie: u16,
    pub length: u16,
}

impl FieldSpecifier {
    /// The four octets of the specifier: element number, then length.
    pub open spec fn spec_bytes(self) -> Seq<u8> {
        spec_be16(self.ie) + spec_be16(self.length)
    }

    /// A zero-length field would make the template's record length
    /// degenerate, so it is rejected at construction.
    pub fn new(ie: u16, length: u16) -> (r: Result<Self, u16>)
        ensures
            match r {
                Ok(f) => f == (FieldSpecifier { ie, length }) && length > 0,
                Err(e) => e == ie && length == 0,
            },
    {
        if length == 0 {
            Err(ie)
        } else {
            Ok(Self { ie, length })
        }
    }
}

/// The scope of an options template field: what the reported option is
/// about.
#[derive(Debug, Clone, Copy, PartialEq, Eq, Hash, Structural)]
pub enum ScopeIE {
    System,
    Interface,
    LineCard,
    Cache,
    Template,
    Unknown(u16),
}

impl ScopeIE {
    /// The registered 16-bit scope field type.
    pub open spec fn spec_code(self) -> u16 {
        match self {
            ScopeIE::System => 1,
            ScopeIE::Interface => 2,
            ScopeIE::LineCard => 3,
            ScopeIE::Cache => 4,
            ScopeIE::Template => 5,
            ScopeIE::Unknown(v) => v,
        }
    }

    /// The scope denoted by a 16-bit code.
    pub open spec fn spec_from_code(code: u16) -> ScopeIE {
        match code {
            1u16 => ScopeIE::System,
            2u16 => ScopeIE::Interface,
            3u16 => ScopeIE::LineCard,
            4u16 => ScopeIE::Cache,
            5u16 => ScopeIE::Template,
            _ => ScopeIE::Unknown(code),
        }
    }

    pub fn code(self) -> (r: u16)
        ensures
            r == self.spec_code(),
    {
        match self {
            ScopeIE::System => 1,
            ScopeIE::Interface => 2,
            ScopeIE::LineCard => 3,
            ScopeIE::Cache => 4,
            ScopeIE::Template => 5,
            ScopeIE::Unknown(v) => v,
        }
    }

    pub fn from_code(code: u16) -> (r: ScopeIE)
        ensures
            r == Self::spec_from_code(code),
    {
        match code {
            1 => ScopeIE::System,
            2 => ScopeIE::Interface,
            3 => ScopeIE::LineCard,
            4 => ScopeIE::Cache,
            5 => ScopeIE::Template,
            _ => ScopeIE::Unknown(code),
        }
    }
}

/// One scope field of an options template.
#[derive(Debug, Clone, Copy, PartialEq, Eq, Hash, Structural)]
pub struct ScopeFieldSpecifier {
    pub ie: ScopeIE,
    pub length: u16,
}

impl ScopeFieldSpecifier {
    /// The four octets of the specifier: scope type, then length.
    pub open spec fn spec_bytes(self) -> Seq<u8> {
        spec_be16(self.ie.spec_code()) + spec_be16(self.length)
    }

    pub fn new(ie: ScopeIE, length: u16) -> (r: Self)
        ensures
            r == (ScopeFieldSpecifier { ie, length }),
    {
        Self { ie, length }
    }
}

/// A template record: the template identifier and its ordered fields.
#[derive(Debug, Clone, PartialEq, Eq, Hash)]
pub struct TemplateRecord {
    pub id: u16,
    pub field_specifiers: Vec<FieldSpecifier>,
}

impl TemplateRecord {
    pub fn new(id: u16, field_specifiers: Vec<FieldSpecifier>) -> (r: Self)
        ensures
            r.id == id,
            r.field_specifiers == field_specifiers,
    {
        Self { id, field_specifiers }
    }

    pub fn id(&self) -> (r: u16)
        ensures
            r == self.id,
    {
        self.id
    }

    pub fn field_specifiers(&self) -> (r: &Vec<FieldSpecifier>)
        ensures
            r == &self.field_specifiers,
    {
        &self.field_specifiers
    }
}

/// An options template record: the template identifier, its scope fields
/// and its option fields.
#[derive(Debug, Clone, PartialEq, Eq, Hash)]
pub struct OptionsTemplateRecord {
    pub id: u16,
    pub scope_field_specifiers: Vec<ScopeFieldSpecifier>,
    pub field_specifiers: Vec<FieldSpecifier>,
}

impl OptionsTemplateRecord {
    pub fn new(
        id: u16,
        scope_field_specifiers: Vec<ScopeFieldSpecifier>,
        field_specifiers: Vec<FieldSpecifier>,
    ) -> (r: Self)
        ensures
            r.id == id,
            r.scope_field_specifiers == scope_field_specifiers,
            r.field_specifiers == field_specifiers,
    {
        Self { id, scope_field_specifiers, field_specifiers }
    }

    pub fn id(&self) -> (r: u16)
        ensures
            r == self.id,
    {
        self.id
    }
}

/// The identifier of a data set: at least 256, below that the values are
/// reserved for template sets.
#[derive(Debug, Clone, Copy, PartialEq, Eq, Hash, Structural)]
pub struct DataSetId(pub u16);

impl DataSetId {
    pub fn new(id: u16) -> (r: Result<Self, u16>)
        ensures
            match r {
                Ok(d) => d == DataSetId(id) && id >= 256,
                Err(e) => e == id && id < 256,
            },
    {
        if id >= 256 {
            Ok(DataSetId(id))
        } else {
            Err(id)
        }
    }

    pub fn id(&self) -> (r: u16)
        ensures
            r == self.0,
    {
        self.0
    }
}

/// One decoded field of a data record: the information element it was
/// decoded against and its octets as they stood on the wire.
#[derive(Debug, Clone, PartialEq, Eq, Hash)]
pub struct DataField {
    pub ie: u16,
    pub value: Vec<u8>,
}

/// One record of a data set: scope fields (for options data) and normal
/// fields.
#[derive(Debug, Clone, PartialEq, Eq, Hash)]
pub struct DataRecord {
    pub scope_fields: Vec<DataField>,
    pub fields: Vec<DataField>,
}

impl DataRecord {
    pub fn new(scope_fields: Vec<DataField>, fields: Vec<DataField>) -> (r: Self)
        ensures
            r.scope_fields == scope_fields,
            r.fields == fields,
    {
        Self { scope_fields, fields }
    }
}

/// One set of a packet: templates, options templates, or data records
/// decoded against a previously observed template.
#[derive(Debug, Clone, PartialEq, Eq, Hash)]
pub enum FlowSet {
    Template(Vec<TemplateRecord>),
    OptionsTemplate(Vec<OptionsTemplateRecord>),
    Data { id: DataSetId, records: Vec<DataRecord> },
}

/// A NetFlow v9 packet: the export header and its sets. The header's
/// record count is computed from the sets when writing.
#[derive(Debug, Clone, PartialEq, Eq, Hash)]
pub struct NetFlowV9Packet {
    pub sys_up_time: u32,
    pub unix_time: u32,
    pub sequence_number: u32,
    pub source_id: u32,
    pub sets: Vec<FlowSet>,
}

impl NetFlowV9Packet {
    pub fn new(
        sys_up_time: u32,
        unix_time: u32,
        sequence_number: u32,
        source_id: u32,
        sets: Vec<FlowSet>,
    ) -> (r: Self)
        ensures
            r.sys_up_time == sys_up_time,
            r.unix_time == unix_time,
            r.sequence_number == sequence_number,
            r.source_id == source_id,
            r.sets == sets,
    {
        Self { sys_up_time, unix_time, sequence_number, source_id, sets }
    }

    pub fn sets(&self) -> (r: &Vec<FlowSet>)
        ensures
            r == &self.sets,
    {
        &self.sets
    }
}

/// The per-exporter template cache: template identifier to the scope and
/// option fields installed for it. Plain template records install with no
/// scope fields.
pub struct TemplateCache {
    map: HashMap<u16, (Vec<ScopeFieldSpecifier>, Vec<FieldSpecifier>)>,
}

impl TemplateCache {
    /// The installed templates as a map.
    pub closed spec fn view(self) -> Map<u16, (Vec<ScopeFieldSpecifier>, Vec<FieldSpecifier>)> {
        self.map@
    }

    /// The installed templates with their specifier sequences.
    pub open spec fn deep(self) -> Map<u16, (Seq<ScopeFieldSpecifier>, Seq<FieldSpecifier>)> {
        self@.map_values(
            |e: (Vec<ScopeFieldSpecifier>, Vec<FieldSpecifier>)| (e.0@, e.1@),
        )
    }

    /// An empty cache.
    pub fn new() -> (r: Self)
        ensures
            r@ == Map::<u16, (Vec<ScopeFieldSpecifier>, Vec<FieldSpecifier>)>::empty(),
            r.deep() == Map::<u16, (Seq<ScopeFieldSpecifier>, Seq<FieldSpecifier>)>::empty(),
    {
        let r = Self { map: HashMap::new() };
        assert(r.deep() =~= Map::<u16, (Seq<ScopeFieldSpecifier>, Seq<FieldSpecifier>)>::empty());
        r
    }

    /// Insert or silently replace the definition of a template.
    pub fn install(
        &mut self,
        template_id: u16,
        scope_fields: Vec<ScopeFieldSpecifier>,
        fields: Vec<FieldSpecifier>,
    )
        ensures
            final(self)@ == old(self)@.insert(template_id, (scope_fields, fields)),
            final(self).deep() == old(self).deep().insert(template_id, (scope_fields@, fields@)),
    {
        self.map.insert(template_id, (scope_fields, fields));
        assert(final(self).deep() =~= old(self).deep().insert(
            template_id,
            (scope_fields@, fields@),
        ));
    }

    /// The definition installed for a template, if any; no mutation.
    pub fn lookup(&self, template_id: u16) -> (r: Option<
        &(Vec<ScopeFieldSpecifier>, Vec<FieldSpecifier>),
    >)
        ensures
            match r {
                Some(v) => self@.contains_key(template_id) && *v == self@[template_id],
                None => !self@.contains_key(template_id),
            },
    {
        self.map.get(&template_id)
    }

    /// Remove the definition of a template, as a withdrawal asks.
    pub fn withdraw(&mut self, template_id: u16)
        ensures
            final(self)@ == old(self)@.remove(template_id),
            final(self).deep() == old(self).deep().remove(template_id),
    {
        self.map.remove(&template_id);
        assert(final(self).deep() =~= old(self).deep().remove(template_id));
    }
}

/// Installing the same definition twice yields one effective template:
/// the cache after the second install is the cache after the first, and
/// looking the identifier up returns the installed definition.
pub proof fn lemma_template_cache_install_idempotent(
    m: Map<u16, (Vec<ScopeFieldSpecifier>, Vec<FieldSpecifier>)>,
    id: u16,
    v: (Vec<ScopeFieldSpecifier>, Vec<FieldSpecifier>),
)
    ensures
        m.insert(id, v).insert(id, v) == m.insert(id, v),
        m.insert(id, v)[id] == v,
        m.insert(id, v).contains_key(id),
{
    assert(m.insert(id, v).insert(id, v) =~= m.insert(id, v));
}

/// The octets of one template record: identifier, field count, then the
/// field specifiers.
pub open spec fn spec_template_record_bytes(tr: TemplateRecord) -> Seq<u8> {
    spec_be16(tr.id) + spec_be16(tr.field_specifiers@.len() as u16)
        + tr.field_specifiers@.flat_map(|f: FieldSpecifier| f.spec_bytes())
}

/// The octets of one options template record: identifier, scope length
/// in octets, option length in octets, then the specifiers.
pub open spec fn spec_options_template_record_bytes(r: OptionsTemplateRecord) -> Seq<u8> {
    spec_be16(r.id) + spec_be16((4 * r.scope_field_specifiers@.len()) as u16) + spec_be16(
        (4 * r.field_specifiers@.len()) as u16,
    ) + r.scope_field_specifiers@.flat_map(|f: ScopeFieldSpecifier| f.spec_bytes())
        + r.field_specifiers@.flat_map(|f: FieldSpecifier| f.spec_bytes())
}

/// The octets of one data record: the scope field octets, then the
/// option or flow field octets, as the template sizes them.
pub open spec fn spec_data_record_bytes(r: DataRecord) -> Seq<u8> {
    r.scope_fields@.flat_map(|f: DataField| f.value@) + r.fields@.flat_map(
        |f: DataField| f.value@,
    )
}

/// The set identifier a set is written under: 0 for templates, 1 for
/// options templates, the data set id otherwise.
pub open spec fn spec_set_id(s: FlowSet) -> u16 {
    match s {
        FlowSet::Template(_) => 0,
        FlowSet::OptionsTemplate(_) => 1,
        FlowSet::Data { id, .. } => id.0,
    }
}

/// The body octets of a set, without header or padding.
pub open spec fn spec_set_body(s: FlowSet) -> Seq<u8> {
    match s {
        FlowSet::Template(records) => records@.flat_map(
            |r: TemplateRecord| spec_template_record_bytes(r),
        ),
        FlowSet::OptionsTemplate(records) => records@.flat_map(
            |r: OptionsTemplateRecord| spec_options_template_record_bytes(r),
        ),
        FlowSet::Data { records, .. } => records@.flat_map(
            |r: DataRecord| spec_data_record_bytes(r),
        ),
    }
}

/// How many zero octets pad a set body to the four-octet boundary, when
/// padding is asked for.
pub open spec fn spec_pad_len(body_len: int, align: bool) -> int {
    if align {
        (4 - body_len % 4) % 4
    } else {
        0
    }
}

/// The octets of a whole set: identifier, total length, body, padding.
pub open spec fn spec_set_bytes(s: FlowSet, align: bool) -> Seq<u8> {
    spec_be16(spec_set_id(s)) + spec_be16(
        (4 + spec_set_body(s).len() + spec_pad_len(spec_set_body(s).len() as int, align)) as u16,
    ) + spec_set_body(s) + Seq::new(
        spec_pad_len(spec_set_body(s).len() as int, align) as nat,
        |i: int| 0u8,
    )
}

/// The octets of a packet's sets, one after the other.
pub open spec fn spec_sets_bytes(sets: Seq<FlowSet>, align: bool) -> Seq<u8> {
    sets.flat_map(|s: FlowSet| spec_set_bytes(s, align))
}

/// How many records one set holds.
pub open spec fn spec_set_record_count(s: FlowSet) -> int {
    match s {
        FlowSet::Template(records) => records@.len() as int,
        FlowSet::OptionsTemplate(records) => records@.len() as int,
        FlowSet::Data { records, .. } => records@.len() as int,
    }
}

/// How many records a packet's sets hold together; this is what the v9
/// header's count field reports.
pub open spec fn spec_record_count(sets: Seq<FlowSet>) -> int
    decreases sets.len(),
{
    if sets.len() == 0 {
        0
    } else {
        spec_record_count(sets.drop_last()) + spec_set_record_count(sets.last())
    }
}

/// The octets of a whole NetFlow v9 packet: version, record count,
/// system uptime, export seconds, sequence number, source id, sets.
pub open spec fn spec_v9_bytes(pkt: NetFlowV9Packet, align: bool) -> Seq<u8> {
    spec_be16(9) + spec_be16(spec_record_count(pkt.sets@) as u16) + spec_be32(pkt.sys_up_time)
        + spec_be32(pkt.unix_time) + spec_be32(pkt.sequence_number) + spec_be32(pkt.source_id)
        + spec_sets_bytes(pkt.sets@, align)
}

/// Why a set could not be written.
#[derive(Debug, Clone, PartialEq, Eq, Hash)]
pub enum SetWritingError {
    StdIOError(String),
    /// A record's specifiers do not fit the 16-bit count or length field.
    TooManyFields(usize),
    /// The set exceeds its 16-bit length field.
    SetTooLong(usize),
}

/// Why a packet could not be written.
#[derive(Debug, Clone, PartialEq, Eq, Hash)]
pub enum NetFlowV9WritingError {
    StdIOError(String),
    /// The sets hold more records than the 16-bit count field can report.
    TooManyRecords(usize),
    SetError(SetWritingError),
}

/// A template record's field count fits its 16-bit field.
pub open spec fn spec_template_record_writable(r: TemplateRecord) -> bool {
    r.field_specifiers@.len() <= 0xFFFF
}

/// An options template record's specifier octets fit their 16-bit length
/// fields.
pub open spec fn spec_options_template_record_writable(r: OptionsTemplateRecord) -> bool {
    4 * r.scope_field_specifiers@.len() <= 0xFFFF && 4 * r.field_specifiers@.len() <= 0xFFFF
}

/// Every record of the set fits its fields, and the whole set fits its
/// 16-bit length field.
pub open spec fn spec_set_writable(s: FlowSet, align: bool) -> bool {
    &&& match s {
        FlowSet::Template(records) => forall|i: int|
            0 <= i < records@.len() ==> spec_template_record_writable(#[trigger] records@[i]),
        FlowSet::OptionsTemplate(records) => forall|i: int|
            0 <= i < records@.len() ==> spec_options_template_record_writable(
                #[trigger] records@[i],
            ),
        FlowSet::Data { .. } => true,
    }
    &&& 4 + spec_set_body(s).len() + spec_pad_len(spec_set_body(s).len() as int, align) <= 0xFFFF
}

/// Every set fits, and the total record count fits the header's count
/// field.
pub open spec fn spec_packet_writable(pkt: NetFlowV9Packet, align: bool) -> bool {
    &&& forall|i: int|
        0 <= i < pkt.sets@.len() ==> spec_set_writable(#[trigger] pkt.sets@[i], align)
    &&& spec_record_count(pkt.sets@) <= 0xFFFF
}

/// Append the specifiers of a template's field list.
#[verifier::loop_isolation(false)]
fn write_field_specifiers(specs: &Vec<FieldSpecifier>, out: &mut Vec<u8>)
    ensures
        final(out)@ == old(out)@ + specs@.flat_map(|f: FieldSpecifier| f.spec_bytes()),
{
    let ghost f = |x: FieldSpecifier| x.spec_bytes();
    let n = specs.len();
    let mut i: usize = 0;
    while i < n
        invariant
            i <= n,
            out@ == old(out)@ + specs@.take(i as int).flat_map(f),
        decreases n - i,
    {
        proof {
            specs@.lemma_flat_map_take_append(f, i as int);
        }
        write_be16(out, specs[i].ie);
        write_be16(out, specs[i].length);
        assert(out@ =~= old(out)@ + specs@.take(i as int).flat_map(f) + f(specs@[i as int]));
        i = i + 1;
    }
    proof {
        assert(specs@.take(n as int) =~= specs@);
    }
}

/// Append the specifiers of an options template's scope list.
#[verifier::loop_isolation(false)]
fn write_scope_field_specifiers(specs: &Vec<ScopeFieldSpecifier>, out: &mut Vec<u8>)
    ensures
        final(out)@ == old(out)@ + specs@.flat_map(|f: ScopeFieldSpecifier| f.spec_bytes()),
{
    let ghost f = |x: ScopeFieldSpecifier| x.spec_bytes();
    let n = specs.len();
    let mut i: usize = 0;
    while i < n
        invariant
            i <= n,
            out@ == old(out)@ + specs@.take(i as int).flat_map(f),
        decreases n - i,
    {
        proof {
            specs@.lemma_flat_map_take_append(f, i as int);
        }
        write_be16(out, specs[i].ie.code());
        write_be16(out, specs[i].length);
        assert(out@ =~= old(out)@ + specs@.take(i as int).flat_map(f) + f(specs@[i as int]));
        i = i + 1;
    }
    proof {
        assert(specs@.take(n as int) =~= specs@);
    }
}

/// Append the octets of one data record.
#[verifier::loop_isolation(false)]
fn write_data_record(r: &DataRecord, out: &mut Vec<u8>)
    ensures
        final(out)@ == old(out)@ + spec_data_record_bytes(*r),
{
    let ghost f = |x: DataField| x.value@;
    let n = r.scope_fields.len();
    let mut i: usize = 0;
    while i < n
        invariant
            i <= n,
            out@ == old(out)@ + r.scope_fields@.take(i as int).flat_map(f),
        decreases n - i,
    {
        proof {
            r.scope_fields@.lemma_flat_map_take_append(f, i as int);
        }
        out.extend_from_slice(r.scope_fields[i].value.as_slice());
        assert(out@ =~= old(out)@ + r.scope_fields@.take(i as int).flat_map(f) + f(
            r.scope_fields@[i as int],
        ));
        i = i + 1;
    }
    proof {
        assert(r.scope_fields@.take(n as int) =~= r.scope_fields@);
    }
    let ghost head = out@;
    let m = r.fields.len();
    let mut j: usize = 0;
    while j < m
        invariant
            j <= m,
            out@ == head + r.fields@.take(j as int).flat_map(f),
        decreases m - j,
    {
        proof {
            r.fields@.lemma_flat_map_take_append(f, j as int);
        }
        out.extend_from_slice(r.fields[j].value.as_slice());
        assert(out@ =~= head + r.fields@.take(j as int).flat_map(f) + f(r.fields@[j as int]));
        j = j + 1;
    }
    proof {
        assert(r.fields@.take(m as int) =~= r.fields@);
        assert(final(out)@ =~= old(out)@ + spec_data_record_bytes(*r));
    }
}

/// Append the body octets of a set.
#[verifier::loop_isolation(false)]
fn write_set_body(s: &FlowSet, out: &mut Vec<u8>) -> (r: Result<(), SetWritingError>)
    ensures
        match r {
            Ok(()) => {
                &&& final(out)@ == old(out)@ + spec_set_body(*s)
                &&& match *s {
                    FlowSet::Template(records) => forall|i: int|
                        0 <= i < records@.len() ==> spec_template_record_writable(
                            #[trigger] records@[i],
                        ),
                    FlowSet::OptionsTemplate(records) => forall|i: int|
                        0 <= i < records@.len() ==> spec_options_template_record_writable(
                            #[trigger] records@[i],
                        ),
                    FlowSet::Data { .. } => true,
                }
            },
            Err(e) => final(out)@ == old(out)@ && !(e is StdIOError),
        },
{
    match s {
        FlowSet::Template(records) => {
            let ghost f = |r: TemplateRecord| spec_template_record_bytes(r);
            let mut body: Vec<u8> = Vec::new();
            let n = records.len();
            let mut i: usize = 0;
            while i < n
                invariant
                    i <= n,
                    body@ == records@.take(i as int).flat_map(f),
                    forall|k: int|
                        0 <= k < i ==> spec_template_record_writable(#[trigger] records@[k]),
                decreases n - i,
            {
                proof {
                    records@.lemma_flat_map_take_append(f, i as int);
                }
                let rec = &records[i];
                if rec.field_specifiers.len() > 0xFFFF {
                    return Err(SetWritingError::TooManyFields(rec.field_specifiers.len()));
                }
                write_be16(&mut body, rec.id);
                write_be16(&mut body, rec.field_specifiers.len() as u16);
                write_field_specifiers(&rec.field_specifiers, &mut body);
                assert(body@ =~= records@.take(i as int).flat_map(f) + f(records@[i as int]));
                i = i + 1;
            }
            proof {
                assert(records@.take(n as int) =~= records@);
            }
            out.extend_from_slice(body.as_slice());
        },
        FlowSet::OptionsTemplate(records) => {
            let ghost f = |r: OptionsTemplateRecord| spec_options_template_record_bytes(r);
            let mut body: Vec<u8> = Vec::new();
            let n = records.len();
            let mut i: usize = 0;
            while i < n
                invariant
                    i <= n,
                    body@ == records@.take(i as int).flat_map(f),
                    forall|k: int|
                        0 <= k < i ==> spec_options_template_record_writable(
                            #[trigger] records@[k],
                        ),
                decreases n - i,
            {
                proof {
                    records@.lemma_flat_map_take_append(f, i as int);
                }
                let rec = &records[i];
                if rec.scope_field_specifiers.len() > 0x3FFF {
                    return Err(
                        SetWritingError::TooManyFields(rec.scope_field_specifiers.len()),
                    );
                }
                if rec.field_specifiers.len() > 0x3FFF {
                    return Err(SetWritingError::TooManyFields(rec.field_specifiers.len()));
                }
                write_be16(&mut body, rec.id);
                write_be16(&mut body, 4 * rec.scope_field_specifiers.len() as u16);
                write_be16(&mut body, 4 * rec.field_specifiers.len() as u16);
                write_scope_field_specifiers(&rec.scope_field_specifiers, &mut body);
                write_field_specifiers(&rec.field_specifiers, &mut body);
                assert(body@ =~= records@.take(i as int).flat_map(f) + f(records@[i as int]));
                i = i + 1;
            }
            proof {
                assert(records@.take(n as int) =~= records@);
            }
            out.extend_from_slice(body.as_slice());
        },
        FlowSet::Data { records, .. } => {
            let ghost f = |r: DataRecord| spec_data_record_bytes(r);
            let mut body: Vec<u8> = Vec::new();
            let n = records.len();
            let mut i: usize = 0;
            while i < n
                invariant
                    i <= n,
                    body@ == records@.take(i as int).flat_map(f),
                decreases n - i,
            {
                proof {
                    records@.lemma_flat_map_take_append(f, i as int);
                }
                write_data_record(&records[i], &mut body);
                i = i + 1;
            }
            proof {
                assert(records@.take(n as int) =~= records@);
            }
            out.extend_from_slice(body.as_slice());
        },
    }
    assert(final(out)@ =~= old(out)@ + spec_set_body(*s));
    Ok(())
}

/// Append the octets of one whole set: identifier, length, body, and
/// zero padding to the four-octet boundary when `align` asks for it.
pub fn write_set(s: &FlowSet, align: bool, out: &mut Vec<u8>) -> (r: Result<(), SetWritingError>)
    ensures
        match r {
            Ok(()) => spec_set_writable(*s, align) && final(out)@ == old(out)@ + spec_set_bytes(
                *s,
                align,
            ),
            Err(e) => final(out)@ == old(out)@ && !(e is StdIOError),
        },
{
    let mut body: Vec<u8> = Vec::new();
    match write_set_body(s, &mut body) {
        Ok(()) => {},
        Err(e) => {
            return Err(e);
        },
    }
    let pad: usize = if align {
        (4 - body.len() % 4) % 4
    } else {
        0
    };
    if body.len() > 0xFFFF - 4 - pad {
        return Err(SetWritingError::SetTooLong(body.len()));
    }
    let set_id: u16 = match s {
        FlowSet::Template(_) => 0,
        FlowSet::OptionsTemplate(_) => 1,
        FlowSet::Data { id, .. } => id.0,
    };
    write_be16(out, set_id);
    write_be16(out, (4 + body.len() + pad) as u16);
    out.extend_from_slice(body.as_slice());
    let mut k: usize = 0;
    while k < pad
        invariant
            k <= pad,
            out@ == old(out)@ + spec_be16(spec_set_id(*s)) + spec_be16(
                (4 + spec_set_body(*s).len() + spec_pad_len(
                    spec_set_body(*s).len() as int,
                    align,
                )) as u16,
            ) + spec_set_body(*s) + Seq::new(k as nat, |i: int| 0u8),
            pad == spec_pad_len(spec_set_body(*s).len() as int, align),
        decreases pad - k,
    {
        out.push(0);
        assert(out@ =~= old(out)@ + spec_be16(spec_set_id(*s)) + spec_be16(
            (4 + spec_set_body(*s).len() + spec_pad_len(
                spec_set_body(*s).len() as int,
                align,
            )) as u16,
        ) + spec_set_body(*s) + Seq::new((k + 1) as nat, |i: int| 0u8));
        k = k + 1;
    }
    assert(final(out)@ =~= old(out)@ + spec_set_bytes(*s, align));
    Ok(())
}

impl NetFlowV9Packet {
    /// Append the octets of the whole packet: the twenty-octet header,
    /// then each set, padded to the four-octet boundary when `align`
    /// asks for it.
    #[verifier::loop_isolation(false)]
    pub fn write(&self, align: bool, out: &mut Vec<u8>) -> (r: Result<(), NetFlowV9WritingError>)
        ensures
            match r {
                Ok(()) => spec_packet_writable(*self, align) && final(out)@ == old(out)@
                    + spec_v9_bytes(*self, align),
                Err(e) => final(out)@ == old(out)@ && !(e is StdIOError),
            },
    {
        let n = self.sets.len();
        let mut count: u32 = 0;
        let mut i: usize = 0;
        while i < n
            invariant
                i <= n,
                count <= 0xFFFF,
                count == spec_record_count(self.sets@.take(i as int)),
            decreases n - i,
        {
            let c: usize = match &self.sets[i] {
                FlowSet::Template(records) => records.len(),
                FlowSet::OptionsTemplate(records) => records.len(),
                FlowSet::Data { records, .. } => records.len(),
            };
            if c > 0xFFFF || count + (if c > 0xFFFF {
                0xFFFFu32
            } else {
                c as u32
            }) > 0xFFFF {
                return Err(NetFlowV9WritingError::TooManyRecords(c));
            }
            proof {
                assert(self.sets@.take(i + 1).drop_last() =~= self.sets@.take(i as int));
                assert(self.sets@.take(i + 1).last() == self.sets@[i as int]);
            }
            count = count + c as u32;
            i = i + 1;
        }
        proof {
            assert(self.sets@.take(n as int) =~= self.sets@);
        }
        let mut body: Vec<u8> = Vec::new();
        let ghost fs = |s: FlowSet| spec_set_bytes(s, align);
        let mut j: usize = 0;
        while j < n
            invariant
                j <= n,
                body@ == self.sets@.take(j as int).flat_map(fs),
                forall|k: int| 0 <= k < j ==> spec_set_writable(#[trigger] self.sets@[k], align),
            decreases n - j,
        {
            proof {
                self.sets@.lemma_flat_map_take_append(fs, j as int);
            }
            match write_set(&self.sets[j], align, &mut body) {
                Ok(()) => {},
                Err(e) => {
                    return Err(NetFlowV9WritingError::SetError(e));
                },
            }
            j = j + 1;
        }
        proof {
            assert(self.sets@.take(n as int) =~= self.sets@);
        }
        write_be16(out, 9);
        write_be16(out, count as u16);
        write_be32(out, self.sys_up_time);
        write_be32(out, self.unix_time);
        write_be32(out, self.sequence_number);
        write_be32(out, self.source_id);
        out.extend_from_slice(body.as_slice());
        assert(final(out)@ =~= old(out)@ + spec_v9_bytes(*self, align));
        Ok(())
    }
}


/// Why a set failed to parse.
#[derive(Debug, Clone, Copy, PartialEq, Eq, Structural)]
pub enum SetParsingError {
    /// More octets were needed than remain in the set.
    Truncated { expected: usize, remaining: usize },
    /// A length field that no layout can satisfy, such as a template
    /// whose fields add up to nothing.
    InvalidLength(u16),
    /// A non-zero octet in the 0..3 octets of set padding.
    InvalidPaddingValue(u8),
    /// A zero-length field specifier, carrying the element number.
    FieldError(u16),
    /// A template record declared an identifier reserved for sets.
    InvalidTemplateId(u16),
    /// A data set named a template the cache does not hold.
    UnknownTemplate(u16),
    /// A data set body that ends inside a record.
    TemplateMismatch { set_id: u16, remaining: usize },
}

/// Why a packet failed to parse.
#[derive(Debug, Clone, Copy, PartialEq, Eq, Structural)]
pub enum NetFlowV9PacketParsingError {
    /// More octets were needed than remain.
    Truncated { expected: usize, remaining: usize },
    /// The version field did not hold 9.
    InvalidVersion(u16),
    SetError(SetParsingError),
}

/// A packet parse error with the offset at which it was detected.
#[derive(Debug, Clone, Copy, PartialEq, Eq, Structural)]
pub struct LocatedNetFlowV9PacketParsingError {
    pub span: usize,
    pub error: NetFlowV9PacketParsingError,
}

impl LocatedNetFlowV9PacketParsingError {
    pub fn new(span: usize, error: NetFlowV9PacketParsingError) -> (r: Self)
        ensures
            r == (LocatedNetFlowV9PacketParsingError { span, error }),
    {
        Self { span, error }
    }

    pub fn span(&self) -> (r: usize)
        ensures
            r == self.span,
    {
        self.span
    }

    pub fn error(&self) -> (r: &NetFlowV9PacketParsingError)
        ensures
            r == &self.error,
    {
        &self.error
    }
}

/// The cache after installing a sequence of template records, in order.
pub open spec fn spec_install_templates(
    m: Map<u16, (Seq<ScopeFieldSpecifier>, Seq<FieldSpecifier>)>,
    records: Seq<TemplateRecord>,
) -> Map<u16, (Seq<ScopeFieldSpecifier>, Seq<FieldSpecifier>)>
    decreases records.len(),
{
    if records.len() == 0 {
        m
    } else {
        spec_install_templates(m, records.drop_last()).insert(
            records.last().id,
            (Seq::empty(), records.last().field_specifiers@),
        )
    }
}

/// The cache after installing a sequence of options template records.
pub open spec fn spec_install_options_templates(
    m: Map<u16, (Seq<ScopeFieldSpecifier>, Seq<FieldSpecifier>)>,
    records: Seq<OptionsTemplateRecord>,
) -> Map<u16, (Seq<ScopeFieldSpecifier>, Seq<FieldSpecifier>)>
    decreases records.len(),
{
    if records.len() == 0 {
        m
    } else {
        spec_install_options_templates(m, records.drop_last()).insert(
            records.last().id,
            (records.last().scope_field_specifiers@, records.last().field_specifiers@),
        )
    }
}

/// The cache after decoding one set: template sets install, data sets
/// leave it unchanged.
pub open spec fn spec_apply_set(
    m: Map<u16, (Seq<ScopeFieldSpecifier>, Seq<FieldSpecifier>)>,
    s: FlowSet,
) -> Map<u16, (Seq<ScopeFieldSpecifier>, Seq<FieldSpecifier>)> {
    match s {
        FlowSet::Template(records) => spec_install_templates(m, records@),
        FlowSet::OptionsTemplate(records) => spec_install_options_templates(m, records@),
        FlowSet::Data { .. } => m,
    }
}

/// The cache after decoding a packet's sets, in order.
pub open spec fn spec_apply_sets(
    m: Map<u16, (Seq<ScopeFieldSpecifier>, Seq<FieldSpecifier>)>,
    sets: Seq<FlowSet>,
) -> Map<u16, (Seq<ScopeFieldSpecifier>, Seq<FieldSpecifier>)>
    decreases sets.len(),
{
    if sets.len() == 0 {
        m
    } else {
        spec_apply_set(spec_apply_sets(m, sets.drop_last()), sets.last())
    }
}

/// Parse one field specifier; a zero length is a malformed template.
fn parse_field_specifier(buf: &[u8], pos: usize, limit: usize) -> (r: Result<
    (FieldSpecifier, usize),
    LocatedNetFlowV9PacketParsingError,
>)
    requires
        pos <= limit <= buf.len(),
    ensures
        match r {
            Ok((fs, np)) => {
                &&& np == pos + 4 && np <= limit
                &&& fs.length > 0
                &&& buf@.subrange(pos as int, np as int) == fs.spec_bytes()
            },
            Err(e) => {
                &&& e.span <= buf.len()
                &&& !(e.error matches NetFlowV9PacketParsingError::SetError(
                    SetParsingError::InvalidPaddingValue(_),
                ))
                &&& !(e.error matches NetFlowV9PacketParsingError::SetError(
                    SetParsingError::UnknownTemplate(_),
                ))
                &&& (e.error matches NetFlowV9PacketParsingError::SetError(
                    SetParsingError::InvalidTemplateId(t),
                ) ==> t < 256)
            },
        },
{
    if limit - pos < 4 {
        return Err(
            LocatedNetFlowV9PacketParsingError::new(
                pos,
                NetFlowV9PacketParsingError::SetError(
                    SetParsingError::Truncated { expected: 4, remaining: limit - pos },
                ),
            ),
        );
    }
    let ie = crate::bytes::read_be16(buf, pos);
    let length = crate::bytes::read_be16(buf, pos + 2);
    proof {
        assert(buf@.subrange(pos as int, pos + 4) =~= buf@.subrange(pos as int, pos + 2)
            + buf@.subrange(pos + 2, pos + 4));
    }
    if length == 0 {
        return Err(
            LocatedNetFlowV9PacketParsingError::new(
                pos + 2,
                NetFlowV9PacketParsingError::SetError(SetParsingError::FieldError(ie)),
            ),
        );
    }
    Ok((FieldSpecifier { ie, length }, pos + 4))
}

/// Parse one scope field specifier; scope fields may have zero length.
fn parse_scope_field_specifier(buf: &[u8], pos: usize, limit: usize) -> (r: Result<
    (ScopeFieldSpecifier, usize),
    LocatedNetFlowV9PacketParsingError,
>)
    requires
        pos <= limit <= buf.len(),
    ensures
        match r {
            Ok((fs, np)) => {
                &&& np == pos + 4 && np <= limit
                &&& buf@.subrange(pos as int, np as int) == fs.spec_bytes()
            },
            Err(e) => {
                &&& e.span <= buf.len()
                &&& !(e.error matches NetFlowV9PacketParsingError::SetError(
                    SetParsingError::InvalidPaddingValue(_),
                ))
                &&& !(e.error matches NetFlowV9PacketParsingError::SetError(
                    SetParsingError::UnknownTemplate(_),
                ))
                &&& (e.error matches NetFlowV9PacketParsingError::SetError(
                    SetParsingError::InvalidTemplateId(t),
                ) ==> t < 256)
            },
        },
{
    if limit - pos < 4 {
        return Err(
            LocatedNetFlowV9PacketParsingError::new(
                pos,
                NetFlowV9PacketParsingError::SetError(
                    SetParsingError::Truncated { expected: 4, remaining: limit - pos },
                ),
            ),
        );
    }
    let code = crate::bytes::read_be16(buf, pos);
    let length = crate::bytes::read_be16(buf, pos + 2);
    let fs = ScopeFieldSpecifier { ie: ScopeIE::from_code(code), length };
    proof {
        assert(fs.ie.spec_code() == code);
        assert(buf@.subrange(pos as int, pos + 4) =~= buf@.subrange(pos as int, pos + 2)
            + buf@.subrange(pos + 2, pos + 4));
    }
    Ok((fs, pos + 4))
}

/// Parse one template record: identifier, field count, fields. The
/// fields of a template must cover at least one octet of record data.
#[verifier::loop_isolation(false)]
fn parse_template_record(buf: &[u8], pos: usize, limit: usize) -> (r: Result<
    (TemplateRecord, usize),
    LocatedNetFlowV9PacketParsingError,
>)
    requires
        pos <= limit <= buf.len(),
    ensures
        match r {
            Ok((tr, np)) => {
                &&& pos < np <= limit
                &&& tr.id >= 256
                &&& buf@.subrange(pos as int, np as int) == spec_template_record_bytes(tr)
                &&& spec_template_record_writable(tr)
            },
            Err(e) => {
                &&& e.span <= buf.len()
                &&& !(e.error matches NetFlowV9PacketParsingError::SetError(
                    SetParsingError::InvalidPaddingValue(_),
                ))
                &&& !(e.error matches NetFlowV9PacketParsingError::SetError(
                    SetParsingError::UnknownTemplate(_),
                ))
                &&& (e.error matches NetFlowV9PacketParsingError::SetError(
                    SetParsingError::InvalidTemplateId(t),
                ) ==> t < 256)
            },
        },
{
    if limit - pos < 4 {
        return Err(
            LocatedNetFlowV9PacketParsingError::new(
                pos,
                NetFlowV9PacketParsingError::SetError(
                    SetParsingError::Truncated { expected: 4, remaining: limit - pos },
                ),
            ),
        );
    }
    let id = crate::bytes::read_be16(buf, pos);
    if id < 256 {
        return Err(
            LocatedNetFlowV9PacketParsingError::new(
                pos,
                NetFlowV9PacketParsingError::SetError(SetParsingError::InvalidTemplateId(id)),
            ),
        );
    }
    let count = crate::bytes::read_be16(buf, pos + 2);
    if count == 0 {
        return Err(
            LocatedNetFlowV9PacketParsingError::new(
                pos + 2,
                NetFlowV9PacketParsingError::SetError(SetParsingError::InvalidLength(0)),
            ),
        );
    }
    let ghost f = |x: FieldSpecifier| x.spec_bytes();
    let mut field_specifiers: Vec<FieldSpecifier> = Vec::new();
    let mut cur = pos + 4;
    let mut k: u16 = 0;
    while k < count
        invariant
            pos + 4 <= cur <= limit <= buf.len(),
            k <= count,
            field_specifiers@.len() == k,
            buf@.subrange(pos + 4, cur as int) == field_specifiers@.flat_map(f),
        decreases count - k,
    {
        let (fs, np) = match parse_field_specifier(buf, cur, limit) {
            Ok(v) => v,
            Err(e) => {
                return Err(e);
            },
        };
        proof {
            field_specifiers@.lemma_flat_map_push(f, fs);
            assert(buf@.subrange(pos + 4, np as int) =~= buf@.subrange(pos + 4, cur as int)
                + buf@.subrange(cur as int, np as int));
        }
        field_specifiers.push(fs);
        cur = np;
        k = k + 1;
    }
    let tr = TemplateRecord { id, field_specifiers };
    proof {
        assert(buf@.subrange(pos as int, cur as int) =~= buf@.subrange(pos as int, pos + 2)
            + buf@.subrange(pos + 2, pos + 4) + buf@.subrange(pos + 4, cur as int));
        assert(buf@.subrange(pos as int, cur as int) =~= spec_template_record_bytes(tr));
    }
    Ok((tr, cur))
}

/// Parse one options template record: identifier, scope length in
/// octets, option length in octets, then the specifiers. Together they
/// must cover at least one octet of record data.
#[verifier::loop_isolation(false)]
fn parse_options_template_record(buf: &[u8], pos: usize, limit: usize) -> (r: Result<
    (OptionsTemplateRecord, usize),
    LocatedNetFlowV9PacketParsingError,
>)
    requires
        pos <= limit <= buf.len(),
    ensures
        match r {
            Ok((tr, np)) => {
                &&& pos < np <= limit
                &&& tr.id >= 256
                &&& buf@.subrange(pos as int, np as int) == spec_options_template_record_bytes(tr)
                &&& spec_options_template_record_writable(tr)
            },
            Err(e) => {
                &&& e.span <= buf.len()
                &&& !(e.error matches NetFlowV9PacketParsingError::SetError(
                    SetParsingError::InvalidPaddingValue(_),
                ))
                &&& !(e.error matches NetFlowV9PacketParsingError::SetError(
                    SetParsingError::UnknownTemplate(_),
                ))
                &&& (e.error matches NetFlowV9PacketParsingError::SetError(
                    SetParsingError::InvalidTemplateId(t),
                ) ==> t < 256)
            },
        },
{
    if limit - pos < 6 {
        return Err(
            LocatedNetFlowV9PacketParsingError::new(
                pos,
                NetFlowV9PacketParsingError::SetError(
                    SetParsingError::Truncated { expected: 6, remaining: limit - pos },
                ),
            ),
        );
    }
    let id = crate::bytes::read_be16(buf, pos);
    if id < 256 {
        return Err(
            LocatedNetFlowV9PacketParsingError::new(
                pos,
                NetFlowV9PacketParsingError::SetError(SetParsingError::InvalidTemplateId(id)),
            ),
        );
    }
    let scope_len = crate::bytes::read_be16(buf, pos + 2);
    let options_len = crate::bytes::read_be16(buf, pos + 4);
    if scope_len % 4 != 0 {
        return Err(
            LocatedNetFlowV9PacketParsingError::new(
                pos + 2,
                NetFlowV9PacketParsingError::SetError(SetParsingError::InvalidLength(scope_len)),
            ),
        );
    }
    if options_len % 4 != 0 {
        return Err(
            LocatedNetFlowV9PacketParsingError::new(
                pos + 4,
                NetFlowV9PacketParsingError::SetError(
                    SetParsingError::InvalidLength(options_len),
                ),
            ),
        );
    }
    let ghost fsc = |x: ScopeFieldSpecifier| x.spec_bytes();
    let ghost ff = |x: FieldSpecifier| x.spec_bytes();
    let mut scope_field_specifiers: Vec<ScopeFieldSpecifier> = Vec::new();
    let mut cur = pos + 6;
    let mut seen: u16 = 0;
    let mut data_width: u64 = 0;
    while seen < scope_len / 4
        invariant
            pos + 6 <= cur <= limit <= buf.len(),
            seen <= scope_len / 4,
            data_width <= 0xFFFF * seen,
            scope_field_specifiers@.len() == seen,
            buf@.subrange(pos + 6, cur as int) == scope_field_specifiers@.flat_map(fsc),
        decreases scope_len / 4 - seen,
    {
        let (fs, np) = match parse_scope_field_specifier(buf, cur, limit) {
            Ok(v) => v,
            Err(e) => {
                return Err(e);
            },
        };
        proof {
            scope_field_specifiers@.lemma_flat_map_push(fsc, fs);
            assert(buf@.subrange(pos + 6, np as int) =~= buf@.subrange(pos + 6, cur as int)
                + buf@.subrange(cur as int, np as int));
        }
        data_width = data_width + fs.length as u64;
        scope_field_specifiers.push(fs);
        cur = np;
        seen = seen + 1;
    }
    let ghost scope_end = cur as int;
    let mut field_specifiers: Vec<FieldSpecifier> = Vec::new();
    let mut seen_f: u16 = 0;
    while seen_f < options_len / 4
        invariant
            scope_end <= cur as int,
            pos + 6 <= cur <= limit <= buf.len(),
            seen_f <= options_len / 4,
            data_width <= 0xFFFF * (scope_len / 4) + 0xFFFF * seen_f,
            field_specifiers@.len() == seen_f,
            buf@.subrange(scope_end, cur as int) == field_specifiers@.flat_map(ff),
        decreases options_len / 4 - seen_f,
    {
        let (fs, np) = match parse_field_specifier(buf, cur, limit) {
            Ok(v) => v,
            Err(e) => {
                return Err(e);
            },
        };
        proof {
            field_specifiers@.lemma_flat_map_push(ff, fs);
            assert(buf@.subrange(scope_end, np as int) =~= buf@.subrange(scope_end, cur as int)
                + buf@.subrange(cur as int, np as int));
        }
        data_width = data_width + fs.length as u64;
        field_specifiers.push(fs);
        cur = np;
        seen_f = seen_f + 1;
    }
    if data_width == 0 {
        return Err(
            LocatedNetFlowV9PacketParsingError::new(
                pos,
                NetFlowV9PacketParsingError::SetError(SetParsingError::InvalidLength(0)),
            ),
        );
    }
    let tr = OptionsTemplateRecord { id, scope_field_specifiers, field_specifiers };
    proof {
        assert(buf@.subrange(pos as int, cur as int) =~= buf@.subrange(pos as int, pos + 2)
            + buf@.subrange(pos + 2, pos + 4) + buf@.subrange(pos + 4, pos + 6) + buf@.subrange(
            pos + 6,
            scope_end,
        ) + buf@.subrange(scope_end, cur as int));
        assert(4 * tr.scope_field_specifiers@.len() == scope_len);
        assert(4 * tr.field_specifiers@.len() == options_len);
        assert(buf@.subrange(pos as int, cur as int) =~= spec_options_template_record_bytes(tr));
    }
    Ok((tr, cur))
}

/// Check that the 0..3 octets left at the end of a set are zero padding;
/// a non-zero octet is reported at its own offset.
fn check_set_padding(buf: &[u8], pos: usize, end: usize) -> (r: Result<
    (),
    LocatedNetFlowV9PacketParsingError,
>)
    requires
        pos <= end <= buf.len(),
    ensures
        match r {
            Ok(()) => forall|i: int| pos <= i < end ==> buf@[i] == 0,
            Err(e) => {
                &&& pos <= e.span < end
                &&& e.error matches NetFlowV9PacketParsingError::SetError(
                    SetParsingError::InvalidPaddingValue(b),
                ) && b == buf@[e.span as int] && b != 0
                &&& forall|i: int| pos <= i < e.span ==> buf@[i] == 0
            },
        },
{
    let mut cur = pos;
    while cur < end
        invariant
            pos <= cur <= end <= buf.len(),
            forall|i: int| pos <= i < cur ==> buf@[i] == 0,
        decreases end - cur,
    {
        if buf[cur] != 0 {
            return Err(
                LocatedNetFlowV9PacketParsingError::new(
                    cur,
                    NetFlowV9PacketParsingError::SetError(
                        SetParsingError::InvalidPaddingValue(buf[cur]),
                    ),
                ),
            );
        }
        cur = cur + 1;
    }
    Ok(())
}

/// One set's encoding stands at `[lo, hi)`: its identifier and length
/// octets, its body, and at most three zero octets of padding.
pub open spec fn spec_set_at(buf: Seq<u8>, lo: int, hi: int, s: FlowSet) -> bool {
    &&& lo + 4 <= hi <= buf.len()
    &&& buf.subrange(lo, lo + 2) == spec_be16(spec_set_id(s))
    &&& buf.subrange(lo + 2, lo + 4) == spec_be16((hi - lo) as u16)
    &&& spec_set_body(s).len() + 4 <= hi - lo
    &&& buf.subrange(lo + 4, lo + 4 + spec_set_body(s).len() as int) == spec_set_body(s)
    &&& hi - lo - 4 - spec_set_body(s).len() <= 3
    &&& forall|i: int| lo + 4 + spec_set_body(s).len() <= i < hi ==> buf[i] == 0
}

/// The sets' encodings tile `[lo, hi)` exactly, one after the other.
pub open spec fn spec_sets_tile(buf: Seq<u8>, lo: int, hi: int, sets: Seq<FlowSet>) -> bool
    decreases sets.len(),
{
    if sets.len() == 0 {
        lo == hi
    } else {
        exists|mid: int|
            #[trigger] spec_set_at(buf, lo, mid, sets.first()) && spec_sets_tile(
                buf,
                mid,
                hi,
                sets.drop_first(),
            )
    }
}

/// Appending one more set's span to a tiling extends the tiling.
proof fn lemma_sets_tile_push(buf: Seq<u8>, lo: int, mid: int, hi: int, sets: Seq<FlowSet>, s: FlowSet)
    requires
        spec_sets_tile(buf, lo, mid, sets),
        spec_set_at(buf, mid, hi, s),
    ensures
        spec_sets_tile(buf, lo, hi, sets.push(s)),
    decreases sets.len(),
{
    if sets.len() == 0 {
        assert(sets.push(s).first() == s);
        assert(sets.push(s).drop_first() =~= Seq::<FlowSet>::empty());
        assert(spec_set_at(buf, lo, hi, sets.push(s).first()));
        assert(spec_sets_tile(buf, hi, hi, sets.push(s).drop_first()));
    } else {
        let m1 = choose|m1: int|
            #[trigger] spec_set_at(buf, lo, m1, sets.first()) && spec_sets_tile(
                buf,
                m1,
                mid,
                sets.drop_first(),
            );
        lemma_sets_tile_push(buf, m1, mid, hi, sets.drop_first(), s);
        assert(sets.push(s).first() == sets.first());
        assert(sets.push(s).drop_first() =~= sets.drop_first().push(s));
        assert(spec_set_at(buf, lo, m1, sets.push(s).first()) && spec_sets_tile(
            buf,
            m1,
            hi,
            sets.push(s).drop_first(),
        ));
    }
}

/// Parse one whole set against the cache: template and options template
/// sets install their records; a data set is decoded against the
/// template the cache holds for its identifier. The set's trailing
/// padding must be at most three zero octets.
#[verifier::loop_isolation(false)]
#[verifier::rlimit(100)]
pub fn parse_set(buf: &[u8], pos: usize, cache: &mut TemplateCache) -> (r: Result<
    (FlowSet, usize),
    LocatedNetFlowV9PacketParsingError,
>)
    requires
        pos <= buf.len(),
    ensures
        match r {
            Ok((s, np)) => {
                &&& pos + 4 <= np <= buf.len()
                &&& final(cache).deep() == spec_apply_set(old(cache).deep(), s)
                &&& buf@.subrange(pos as int, pos + 2) == spec_be16(spec_set_id(s))
                &&& buf@.subrange(pos + 2, pos + 4) == spec_be16((np - pos) as u16)
                &&& spec_set_body(s).len() + 4 <= np - pos
                &&& buf@.subrange(pos + 4, pos + 4 + spec_set_body(s).len() as int)
                    == spec_set_body(s)
                &&& np - pos - 4 - spec_set_body(s).len() <= 3
                &&& forall|i: int| pos + 4 + spec_set_body(s).len() <= i < np ==> buf@[i] == 0
            },
            Err(e) => {
                &&& e.span <= buf.len()
                &&& (e.error matches NetFlowV9PacketParsingError::SetError(
                    SetParsingError::InvalidPaddingValue(b),
                ) ==> e.span < buf.len() && b == buf@[e.span as int] && b != 0)
                &&& (e.error matches NetFlowV9PacketParsingError::SetError(
                    SetParsingError::UnknownTemplate(t),
                ) ==> pos + 4 <= buf.len() && t == spec_be16_val(buf@[pos as int], buf@[pos + 1])
                    && t >= 256 && !old(cache).deep().contains_key(t))
                &&& (e.error matches NetFlowV9PacketParsingError::SetError(
                    SetParsingError::InvalidTemplateId(t),
                ) ==> t < 256)
            },
        },
{
    if buf.len() - pos < 4 {
        return Err(
            LocatedNetFlowV9PacketParsingError::new(
                pos,
                NetFlowV9PacketParsingError::Truncated {
                    expected: 4,
                    remaining: buf.len() - pos,
                },
            ),
        );
    }
    let set_id = crate::bytes::read_be16(buf, pos);
    let set_len = crate::bytes::read_be16(buf, pos + 2);
    if set_len < 4 {
        return Err(
            LocatedNetFlowV9PacketParsingError::new(
                pos + 2,
                NetFlowV9PacketParsingError::SetError(SetParsingError::InvalidLength(set_len)),
            ),
        );
    }
    if buf.len() - pos < set_len as usize {
        return Err(
            LocatedNetFlowV9PacketParsingError::new(
                pos,
                NetFlowV9PacketParsingError::Truncated {
                    expected: set_len as usize,
                    remaining: buf.len() - pos,
                },
            ),
        );
    }
    let end = pos + set_len as usize;
    if set_id == 0 {
        let ghost fr = |r: TemplateRecord| spec_template_record_bytes(r);
        let mut records: Vec<TemplateRecord> = Vec::new();
        let mut cur = pos + 4;
        while end - cur > 3
            invariant
                pos + 4 <= cur <= end <= buf.len(),
                cache.deep() == spec_install_templates(old(cache).deep(), records@),
                buf@.subrange(pos + 4, cur as int) == records@.flat_map(fr),
            decreases end - cur,
        {
            let (tr, np) = match parse_template_record(buf, cur, end) {
                Ok(v) => v,
                Err(e) => {
                    return Err(e);
                },
            };
            let fields_copy = tr.field_specifiers.clone();
            assert(fields_copy@ =~= tr.field_specifiers@);
            cache.install(tr.id, Vec::new(), fields_copy);
            let ghost prev = records@;
            proof {
                prev.lemma_flat_map_push(fr, tr);
                assert(buf@.subrange(pos + 4, np as int) =~= buf@.subrange(pos + 4, cur as int)
                    + buf@.subrange(cur as int, np as int));
            }
            records.push(tr);
            proof {
                assert(records@.drop_last() =~= prev);
                assert(cache.deep() =~= spec_install_templates(old(cache).deep(), records@));
            }
            cur = np;
        }
        match check_set_padding(buf, cur, end) {
            Ok(()) => {},
            Err(e) => {
                return Err(e);
            },
        }
        let s = FlowSet::Template(records);
        proof {
            assert(spec_set_body(s) == buf@.subrange(pos + 4, cur as int));
            assert(buf@.subrange(pos + 4, pos + 4 + spec_set_body(s).len() as int) =~= buf@
                .subrange(pos + 4, cur as int));
        }
        Ok((s, end))
    } else if set_id == 1 {
        let ghost fr = |r: OptionsTemplateRecord| spec_options_template_record_bytes(r);
        let mut records: Vec<OptionsTemplateRecord> = Vec::new();
        let mut cur = pos + 4;
        while end - cur > 3
            invariant
                pos + 4 <= cur <= end <= buf.len(),
                cache.deep() == spec_install_options_templates(old(cache).deep(), records@),
                buf@.subrange(pos + 4, cur as int) == records@.flat_map(fr),
            decreases end - cur,
        {
            let (tr, np) = match parse_options_template_record(buf, cur, end) {
                Ok(v) => v,
                Err(e) => {
                    return Err(e);
                },
            };
            let scope_copy = tr.scope_field_specifiers.clone();
            let fields_copy = tr.field_specifiers.clone();
            assert(scope_copy@ =~= tr.scope_field_specifiers@);
            assert(fields_copy@ =~= tr.field_specifiers@);
            cache.install(tr.id, scope_copy, fields_copy);
            let ghost prev = records@;
            proof {
                prev.lemma_flat_map_push(fr, tr);
                assert(buf@.subrange(pos + 4, np as int) =~= buf@.subrange(pos + 4, cur as int)
                    + buf@.subrange(cur as int, np as int));
            }
            records.push(tr);
            proof {
                assert(records@.drop_last() =~= prev);
                assert(cache.deep() =~= spec_install_options_templates(
                    old(cache).deep(),
                    records@,
                ));
            }
            cur = np;
        }
        match check_set_padding(buf, cur, end) {
            Ok(()) => {},
            Err(e) => {
                return Err(e);
            },
        }
        let s = FlowSet::OptionsTemplate(records);
        proof {
            assert(spec_set_body(s) == buf@.subrange(pos + 4, cur as int));
            assert(buf@.subrange(pos + 4, pos + 4 + spec_set_body(s).len() as int) =~= buf@
                .subrange(pos + 4, cur as int));
        }
        Ok((s, end))
    } else if set_id >= 256 {
        let (scope_widths, field_widths): (Vec<u16>, Vec<u16>) = match cache.lookup(set_id) {
            Some(entry) => {
                let mut sw: Vec<u16> = Vec::new();
                let mut fw: Vec<u16> = Vec::new();
                let mut i: usize = 0;
                let ns = entry.0.len();
                while i < ns
                    invariant
                        i <= ns,
                        ns == entry.0.len(),
                        sw@.len() == i,
                    decreases ns - i,
                {
                    sw.push(entry.0[i].length);
                    i = i + 1;
                }
                let mut j: usize = 0;
                let nf = entry.1.len();
                while j < nf
                    invariant
                        j <= nf,
                        nf == entry.1.len(),
                        fw@.len() == j,
                    decreases nf - j,
                {
                    fw.push(entry.1[j].length);
                    j = j + 1;
                }
                (sw, fw)
            },
            None => {
                return Err(
                    LocatedNetFlowV9PacketParsingError::new(
                        pos,
                        NetFlowV9PacketParsingError::SetError(
                            SetParsingError::UnknownTemplate(set_id),
                        ),
                    ),
                );
            },
        };
        let (scope_ies, field_ies): (Vec<u16>, Vec<u16>) = match cache.lookup(set_id) {
            Some(entry) => {
                let mut si: Vec<u16> = Vec::new();
                let mut fi: Vec<u16> = Vec::new();
                let mut i: usize = 0;
                let ns = entry.0.len();
                while i < ns
                    invariant
                        i <= ns,
                        ns == entry.0.len(),
                    decreases ns - i,
                {
                    si.push(entry.0[i].ie.code());
                    i = i + 1;
                }
                let mut j: usize = 0;
                let nf = entry.1.len();
                while j < nf
                    invariant
                        j <= nf,
                        nf == entry.1.len(),
                    decreases nf - j,
                {
                    fi.push(entry.1[j].ie);
                    j = j + 1;
                }
                (si, fi)
            },
            None => {
                return Err(
                    LocatedNetFlowV9PacketParsingError::new(
                        pos,
                        NetFlowV9PacketParsingError::SetError(
                            SetParsingError::UnknownTemplate(set_id),
                        ),
                    ),
                );
            },
        };
        // The sum stops growing once it can no longer fit any set body, so
        // it stays exact whenever a record could actually be decoded.
        let mut record_len: u64 = 0;
        let mut i: usize = 0;
        while i < scope_widths.len()
            invariant
                i <= scope_widths@.len(),
                record_len <= 0x1FFFE,
            decreases scope_widths@.len() - i,
        {
            if record_len <= 0xFFFF {
                record_len = record_len + scope_widths[i] as u64;
            }
            i = i + 1;
        }
        let mut j: usize = 0;
        while j < field_widths.len()
            invariant
                j <= field_widths@.len(),
                record_len <= 0x1FFFE,
            decreases field_widths@.len() - j,
        {
            if record_len <= 0xFFFF {
                record_len = record_len + field_widths[j] as u64;
            }
            j = j + 1;
        }
        if record_len == 0 {
            return Err(
                LocatedNetFlowV9PacketParsingError::new(
                    pos,
                    NetFlowV9PacketParsingError::SetError(SetParsingError::InvalidLength(0)),
                ),
            );
        }
        let ghost fr = |r: DataRecord| spec_data_record_bytes(r);
        let ghost fv = |x: DataField| x.value@;
        let mut records: Vec<DataRecord> = Vec::new();
        let mut cur = pos + 4;
        if record_len > (end - cur) as u64 {
            if end - cur > 3 {
                return Err(
                    LocatedNetFlowV9PacketParsingError::new(
                        cur,
                        NetFlowV9PacketParsingError::SetError(
                            SetParsingError::TemplateMismatch { set_id, remaining: end - cur },
                        ),
                    ),
                );
            }
            match check_set_padding(buf, cur, end) {
                Ok(()) => {},
                Err(e) => {
                    return Err(e);
                },
            }
            let id = DataSetId(set_id);
            let s = FlowSet::Data { id, records };
            proof {
                assert(spec_set_body(s) =~= Seq::<u8>::empty());
                assert(buf@.subrange(pos + 4, pos + 4 + spec_set_body(s).len() as int)
                    =~= spec_set_body(s));
            }
            return Ok((s, end));
        }
        let rec_width = record_len as usize;
        let rem = (end - cur) % rec_width;
        if rem > 3 {
            return Err(
                LocatedNetFlowV9PacketParsingError::new(
                    cur,
                    NetFlowV9PacketParsingError::SetError(
                        SetParsingError::TemplateMismatch { set_id, remaining: rem },
                    ),
                ),
            );
        }
        let n_records = (end - cur) / rec_width;
        let mut rec_idx: usize = 0;
        while rec_idx < n_records
            invariant
                rec_idx <= n_records,
                pos + 4 <= cur <= end <= buf.len(),
                buf@.subrange(pos + 4, cur as int) == records@.flat_map(fr),
            decreases n_records - rec_idx,
        {
            let ghost rec_start = cur as int;
            let mut scope_fields: Vec<DataField> = Vec::new();
            let mut si: usize = 0;
            while si < scope_widths.len()
                invariant
                    si <= scope_widths@.len(),
                    rec_start <= cur as int,
                    pos + 4 <= cur <= end <= buf.len(),
                    buf@.subrange(rec_start, cur as int) == scope_fields@.flat_map(fv),
                decreases scope_widths@.len() - si,
            {
                let w = scope_widths[si] as usize;
                if end - cur < w {
                    return Err(
                        LocatedNetFlowV9PacketParsingError::new(
                            cur,
                            NetFlowV9PacketParsingError::SetError(
                                SetParsingError::Truncated {
                                    expected: w,
                                    remaining: end - cur,
                                },
                            ),
                        ),
                    );
                }
                let ie = if si < scope_ies.len() {
                    scope_ies[si]
                } else {
                    0
                };
                let value = vstd::slice::slice_to_vec(&buf[cur..cur + w]);
                let df = DataField { ie, value };
                proof {
                    scope_fields@.lemma_flat_map_push(fv, df);
                    assert(buf@.subrange(rec_start, cur + w) =~= buf@.subrange(
                        rec_start,
                        cur as int,
                    ) + buf@.subrange(cur as int, cur + w));
                }
                scope_fields.push(df);
                cur = cur + w;
                si = si + 1;
            }
            let ghost scope_done = cur as int;
            let mut fields: Vec<DataField> = Vec::new();
            let mut fj: usize = 0;
            while fj < field_widths.len()
                invariant
                    fj <= field_widths@.len(),
                    scope_done <= cur as int,
                    pos + 4 <= cur <= end <= buf.len(),
                    buf@.subrange(scope_done, cur as int) == fields@.flat_map(fv),
                decreases field_widths@.len() - fj,
            {
                let w = field_widths[fj] as usize;
                if end - cur < w {
                    return Err(
                        LocatedNetFlowV9PacketParsingError::new(
                            cur,
                            NetFlowV9PacketParsingError::SetError(
                                SetParsingError::Truncated {
                                    expected: w,
                                    remaining: end - cur,
                                },
                            ),
                        ),
                    );
                }
                let ie = if fj < field_ies.len() {
                    field_ies[fj]
                } else {
                    0
                };
                let value = vstd::slice::slice_to_vec(&buf[cur..cur + w]);
                let df = DataField { ie, value };
                proof {
                    fields@.lemma_flat_map_push(fv, df);
                    assert(buf@.subrange(scope_done, cur + w) =~= buf@.subrange(
                        scope_done,
                        cur as int,
                    ) + buf@.subrange(cur as int, cur + w));
                }
                fields.push(df);
                cur = cur + w;
                fj = fj + 1;
            }
            let rec = DataRecord { scope_fields, fields };
            proof {
                records@.lemma_flat_map_push(fr, rec);
                assert(fr(rec) =~= buf@.subrange(rec_start, cur as int));
                assert(buf@.subrange(pos + 4, cur as int) =~= buf@.subrange(pos + 4, rec_start)
                    + buf@.subrange(rec_start, cur as int));
            }
            records.push(rec);
            rec_idx = rec_idx + 1;
        }
        if end - cur > 3 {
            return Err(
                LocatedNetFlowV9PacketParsingError::new(
                    cur,
                    NetFlowV9PacketParsingError::SetError(
                        SetParsingError::TemplateMismatch { set_id, remaining: end - cur },
                    ),
                ),
            );
        }
        match check_set_padding(buf, cur, end) {
            Ok(()) => {},
            Err(e) => {
                return Err(e);
            },
        }
        let id = DataSetId(set_id);
        let s = FlowSet::Data { id, records };
        proof {
            assert(spec_set_body(s) == buf@.subrange(pos + 4, cur as int));
            assert(buf@.subrange(pos + 4, pos + 4 + spec_set_body(s).len() as int) =~= buf@
                .subrange(pos + 4, cur as int));
        }
        Ok((s, end))
    } else {
        Err(
            LocatedNetFlowV9PacketParsingError::new(
                pos,
                NetFlowV9PacketParsingError::SetError(SetParsingError::InvalidLength(set_id)),
            ),
        )
    }
}

impl NetFlowV9Packet {
    /// Parse a whole NetFlow v9 packet, installing the templates it
    /// carries into the cache so its own and later data sets can be
    /// decoded. The whole buffer must be consumed.
    #[verifier::loop_isolation(false)]
    pub fn from_wire(buf: &[u8], cache: &mut TemplateCache) -> (r: Result<
        NetFlowV9Packet,
        LocatedNetFlowV9PacketParsingError,
    >)
        ensures
            match r {
                Ok(pkt) => {
                    &&& final(cache).deep() == spec_apply_sets(old(cache).deep(), pkt.sets@)
                    &&& buf@.len() >= 20
                    &&& buf@.subrange(0, 2) == spec_be16(9)
                    &&& buf@.subrange(4, 8) == spec_be32(pkt.sys_up_time)
                    &&& buf@.subrange(8, 12) == spec_be32(pkt.unix_time)
                    &&& buf@.subrange(12, 16) == spec_be32(pkt.sequence_number)
                    &&& buf@.subrange(16, 20) == spec_be32(pkt.source_id)
                    &&& spec_sets_tile(buf@, 20, buf@.len() as int, pkt.sets@)
                },
                Err(e) => {
                    &&& e.span <= buf.len()
                    &&& (buf@.len() < 20 ==> e == (LocatedNetFlowV9PacketParsingError {
                        span: 0,
                        error: NetFlowV9PacketParsingError::Truncated {
                            expected: 20,
                            remaining: buf@.len() as usize,
                        },
                    }))
                    &&& (buf@.len() >= 20 && spec_be16_val(buf@[0], buf@[1]) != 9 ==> e == (
                    LocatedNetFlowV9PacketParsingError {
                        span: 0,
                        error: NetFlowV9PacketParsingError::InvalidVersion(
                            spec_be16_val(buf@[0], buf@[1]),
                        ),
                    }))
                    &&& (e.error matches NetFlowV9PacketParsingError::SetError(
                        SetParsingError::InvalidPaddingValue(b),
                    ) ==> e.span < buf.len() && b == buf@[e.span as int] && b != 0)
                },
            },
    {
        if buf.len() < 20 {
            return Err(
                LocatedNetFlowV9PacketParsingError::new(
                    0,
                    NetFlowV9PacketParsingError::Truncated { expected: 20, remaining: buf.len() },
                ),
            );
        }
        let version = crate::bytes::read_be16(buf, 0);
        if version != 9 {
            return Err(
                LocatedNetFlowV9PacketParsingError::new(
                    0,
                    NetFlowV9PacketParsingError::InvalidVersion(version),
                ),
            );
        }
        let _count = crate::bytes::read_be16(buf, 2);
        let sys_up_time = crate::bytes::read_be32(buf, 4);
        let unix_time = crate::bytes::read_be32(buf, 8);
        let sequence_number = crate::bytes::read_be32(buf, 12);
        let source_id = crate::bytes::read_be32(buf, 16);
        let mut sets: Vec<FlowSet> = Vec::new();
        let mut pos: usize = 20;
        while pos < buf.len()
            invariant
                20 <= pos <= buf.len(),
                cache.deep() == spec_apply_sets(old(cache).deep(), sets@),
                spec_sets_tile(buf@, 20, pos as int, sets@),
            decreases buf.len() - pos,
        {
            let (s, np) = match parse_set(buf, pos, cache) {
                Ok(v) => v,
                Err(e) => {
                    return Err(e);
                },
            };
            let ghost prev = sets@;
            proof {
                assert(spec_set_at(buf@, pos as int, np as int, s));
                lemma_sets_tile_push(buf@, 20, pos as int, np as int, prev, s);
            }
            sets.push(s);
            proof {
                assert(sets@.drop_last() =~= prev);
                assert(sets@ =~= prev.push(s));
                assert(cache.deep() =~= spec_apply_sets(old(cache).deep(), sets@));
            }
            pos = np;
        }
        Ok(NetFlowV9Packet { sys_up_time, unix_time, sequence_number, source_id, sets })
    }
}


/// Layer 2 Segment ID encapsulation types, as carried in the top octet
/// of the layer-2 segment identifier element.
#[derive(Debug, Clone, Copy, PartialEq, Eq, Hash, Structural)]
pub enum Layer2SegmentId {
    VxLAN,
    NVGRE,
    Unassigned(u8),
}

impl Layer2SegmentId {
    /// The one-octet encapsulation code.
    pub open spec fn spec_code(self) -> u8 {
        match self {
            Layer2SegmentId::VxLAN => 0x01,
            Layer2SegmentId::NVGRE => 0x02,
            Layer2SegmentId::Unassigned(v) => v,
        }
    }

    pub fn code(self) -> (r: u8)
        ensures
            r == self.spec_code(),
    {
        match self {
            Layer2SegmentId::VxLAN => 0x01,
            Layer2SegmentId::NVGRE => 0x02,
            Layer2SegmentId::Unassigned(v) => v,
        }
    }

    /// The mask selecting the identifier bits of the segment id value:
    /// both VXLAN's VNI and NVGRE's TNI are 24-bit identifiers.
    pub open spec fn spec_mask(self) -> u64 {
        match self {
            Layer2SegmentId::VxLAN => 0x0000_00FF_FFFF,
            Layer2SegmentId::NVGRE => 0x0000_00FF_FFFF,
            Layer2SegmentId::Unassigned(_) => 0x00FF_FFFF_FFFF,
        }
    }

    pub fn get_mask(&self) -> (r: u64)
        ensures
            r == self.spec_mask(),
    {
        match self {
            Layer2SegmentId::VxLAN => 0x0000_00FF_FFFF,
            Layer2SegmentId::NVGRE => 0x0000_00FF_FFFF,
            Layer2SegmentId::Unassigned(_) => 0x00FF_FFFF_FFFF,
        }
    }
}

} // verus!
