use netgauze::flow::{
    parse_set, DataField, DataRecord, DataSetId, FieldSpecifier, FlowSet, Layer2SegmentId,
    NetFlowV9Packet, NetFlowV9PacketParsingError, OptionsTemplateRecord, ScopeFieldSpecifier,
    ScopeIE, SetParsingError, TemplateCache, TemplateRecord,
};

#[test]
fn test_netflow9_template_record() {
    let good_wire = [
        0x00, 0x09, 0x00, 0x01, 0x00, 0x06, 0x14, 0x8b, 0x59, 0x77, 0x3e, 0x3d, 0x00, 0x00, 0x00,
        0x00, 0x00, 0x00, 0x00, 0x00, 0x00, 0x00, 0x00, 0x3c, 0x04, 0x00, 0x00, 0x0d, 0x00, 0x08,
        0x00, 0x04, 0x00, 0x0c, 0x00, 0x04, 0x00, 0x15, 0x00, 0x04, 0x00, 0x16, 0x00, 0x04, 0x00,
        0x01, 0x00, 0x04, 0x00, 0x02, 0x00, 0x04, 0x00, 0x0a, 0x00, 0x04, 0x00, 0x0e, 0x00, 0x04,
        0x00, 0x07, 0x00, 0x02, 0x00, 0x0b, 0x00, 0x02, 0x00, 0x04, 0x00, 0x01, 0x00, 0x06, 0x00,
        0x01, 0x00, 0x3c, 0x00, 0x01,
    ];

    let good = NetFlowV9Packet::new(
        398475,
        1500986941,
        0,
        0,
        vec![FlowSet::Template(vec![TemplateRecord::new(
            1024,
            vec![
                FieldSpecifier::new(8, 4).unwrap(),
                FieldSpecifier::new(12, 4).unwrap(),
                FieldSpecifier::new(21, 4).unwrap(),
                FieldSpecifier::new(22, 4).unwrap(),
                FieldSpecifier::new(1, 4).unwrap(),
                FieldSpecifier::new(2, 4).unwrap(),
                FieldSpecifier::new(10, 4).unwrap(),
                FieldSpecifier::new(14, 4).unwrap(),
                FieldSpecifier::new(7, 2).unwrap(),
                FieldSpecifier::new(11, 2).unwrap(),
                FieldSpecifier::new(4, 1).unwrap(),
                FieldSpecifier::new(6, 1).unwrap(),
                FieldSpecifier::new(60, 1).unwrap(),
            ],
        )])],
    );

    let mut templates_map = TemplateCache::new();
    let parsed = NetFlowV9Packet::from_wire(&good_wire, &mut templates_map).unwrap();
    assert_eq!(parsed, good);
    let entry = templates_map.lookup(1024).unwrap();
    assert_eq!(entry.0.len(), 0);
    assert_eq!(entry.1.len(), 13);

    let mut out = Vec::new();
    good.write(true, &mut out).unwrap();
    assert_eq!(out, good_wire.to_vec());
}

#[test]
fn test_netflow9_data_record_raw_fields() {
    let good_wire = [
        0x00, 0x09, 0x00, 0x04, 0x00, 0x06, 0xfe, 0xc9, 0x59, 0x77, 0x3e, 0x79, 0x00, 0x00, 0x00,
        0x01, 0x00, 0x00, 0x00, 0x00, 0x04, 0x00, 0x00, 0xa0, 0xc0, 0xa8, 0x01, 0x64, 0xd8, 0x3a,
        0xd3, 0x63, 0x00, 0x01, 0xa2, 0xa5, 0x00, 0x01, 0xa1, 0xec, 0x00, 0x00, 0x00, 0x42, 0x00,
        0x00, 0x00, 0x01, 0x00, 0x00, 0x00, 0x00, 0x00, 0x00, 0x00, 0x00, 0xcc, 0x85, 0x01, 0xbb,
        0x11, 0x00, 0x04, 0xd8, 0x3a, 0xd3, 0x63, 0xc0, 0xa8, 0x01, 0x64, 0x00, 0x01, 0xa2, 0xa5,
        0x00, 0x01, 0xa1, 0xec, 0x00, 0x00, 0x05, 0x62, 0x00, 0x00, 0x00, 0x01, 0x00, 0x00, 0x00,
        0x00, 0x00, 0x00, 0x00, 0x00, 0x01, 0xbb, 0xcc, 0x85, 0x11, 0x00, 0x04, 0xc0, 0xa8, 0x01,
        0x64, 0xd8, 0x3a, 0xd3, 0x6e, 0x00, 0x01, 0xcb, 0x55, 0x00, 0x01, 0xcb, 0x55, 0x00, 0x00,
        0x00, 0x42, 0x00, 0x00, 0x00, 0x01, 0x00, 0x00, 0x00, 0x00, 0x00, 0x00, 0x00, 0x00, 0xf6,
        0x87, 0x01, 0xbb, 0x11, 0x00, 0x04, 0xc0, 0xa8, 0x01, 0x64, 0xd8, 0x3a, 0xd3, 0x6e, 0x00,
        0x02, 0x38, 0x75, 0x00, 0x02, 0x38, 0x75, 0x00, 0x00, 0x00, 0x33, 0x00, 0x00, 0x00, 0x01,
        0x00, 0x00, 0x00, 0x00, 0x00, 0x00, 0x00, 0x00, 0xf7, 0x29, 0x01, 0xbb, 0x11, 0x00, 0x04,
    ];

    let fields = vec![
        FieldSpecifier::new(8, 4).unwrap(),
        FieldSpecifier::new(12, 4).unwrap(),
        FieldSpecifier::new(21, 4).unwrap(),
        FieldSpecifier::new(22, 4).unwrap(),
        FieldSpecifier::new(1, 4).unwrap(),
        FieldSpecifier::new(2, 4).unwrap(),
        FieldSpecifier::new(10, 4).unwrap(),
        FieldSpecifier::new(14, 4).unwrap(),
        FieldSpecifier::new(7, 2).unwrap(),
        FieldSpecifier::new(11, 2).unwrap(),
        FieldSpecifier::new(4, 1).unwrap(),
        FieldSpecifier::new(6, 1).unwrap(),
        FieldSpecifier::new(60, 1).unwrap(),
    ];
    let mut templates_map = TemplateCache::new();
    templates_map.install(1024, vec![], fields);

    let parsed = NetFlowV9Packet::from_wire(&good_wire, &mut templates_map).unwrap();
    assert_eq!(parsed.sys_up_time, 458441);
    assert_eq!(parsed.sequence_number, 1);
    assert_eq!(parsed.sets().len(), 1);
    match &parsed.sets()[0] {
        FlowSet::Data { id, records } => {
            assert_eq!(*id, DataSetId::new(1024).unwrap());
            assert_eq!(records.len(), 4);
            let first = &records[0];
            assert_eq!(first.scope_fields.len(), 0);
            assert_eq!(
                first.fields[0],
                DataField { ie: 8, value: vec![192, 168, 1, 100] }
            );
            assert_eq!(
                first.fields[1],
                DataField { ie: 12, value: vec![216, 58, 211, 99] }
            );
            assert_eq!(
                first.fields[8],
                DataField { ie: 7, value: vec![0xcc, 0x85] }
            );
            assert_eq!(
                first.fields[9],
                DataField { ie: 11, value: vec![0x01, 0xbb] }
            );
            assert_eq!(first.fields[10], DataField { ie: 4, value: vec![0x11] });
            assert_eq!(first.fields[12], DataField { ie: 60, value: vec![0x04] });
            let second = &records[1];
            assert_eq!(
                second.fields[4],
                DataField { ie: 1, value: vec![0x00, 0x00, 0x05, 0x62] }
            );
        }
        other => panic!("expected a data set, got {other:?}"),
    }

    // Re-encoding reproduces the original octets.
    let mut out = Vec::new();
    parsed.write(true, &mut out).unwrap();
    assert_eq!(out, good_wire.to_vec());
}

#[test]
fn test_mix_option_template_set() {
    let good_wire = [
        0x00, 0x01, 0x00, 0x1a, 0x01, 0x15, 0x00, 0x04, 0x00, 0x0c, 0x00, 0x01, 0x00, 0x04, 0x00,
        0x0a, 0x00, 0x02, 0x00, 0x52, 0x00, 0x10, 0x00, 0x53, 0x00, 0x20,
    ];
    let good = FlowSet::OptionsTemplate(vec![OptionsTemplateRecord::new(
        277,
        vec![ScopeFieldSpecifier::new(ScopeIE::System, 4)],
        vec![
            FieldSpecifier::new(10, 2).unwrap(),
            FieldSpecifier::new(82, 16).unwrap(),
            FieldSpecifier::new(83, 32).unwrap(),
        ],
    )]);

    let mut templates_map = TemplateCache::new();
    let (parsed, end) = parse_set(&good_wire, 0, &mut templates_map).unwrap();
    assert_eq!(end, good_wire.len());
    assert_eq!(parsed, good);

    let mut out = Vec::new();
    netgauze::flow::write_set(&good, false, &mut out).unwrap();
    assert_eq!(out, good_wire.to_vec());
}

#[test]
fn test_mix_option_template_set2() {
    let good_wire = [
        0x00, 0x01, 0x00, 0x18, 0x01, 0x4e, 0x00, 0x04, 0x00, 0x08, 0x00, 0x01, 0x00, 0x04, 0x00,
        0xea, 0x00, 0x04, 0x00, 0xec, 0x00, 0x20, 0x00, 0x00,
    ];
    let good = FlowSet::OptionsTemplate(vec![OptionsTemplateRecord::new(
        334,
        vec![ScopeFieldSpecifier::new(ScopeIE::System, 4)],
        vec![
            FieldSpecifier::new(234, 4).unwrap(),
            FieldSpecifier::new(236, 32).unwrap(),
        ],
    )]);

    let mut templates_map = TemplateCache::new();
    let (parsed, end) = parse_set(&good_wire, 0, &mut templates_map).unwrap();
    assert_eq!(end, good_wire.len());
    assert_eq!(parsed, good);
}

#[test]
fn test_padding() {
    let good_no_padding_wire = [
        0x00, 0x09, // Version
        0x00, 0x02, // Count
        0x0f, 0x5e, 0x5c, 0x6b, // Sys up time
        0x63, 0xd5, 0x45, 0x85, // Timestamp
        0x00, 0x09, 0x43, 0x2a, // seq
        0x00, 0x00, 0x00, 0x06, // Source Id
        0x00, 0x01, // Options Template
        0x00, 0x1e, // Length
        0x01, 0x02, // Options template ID
        0x00, 0x04, // Scope Length
        0x00, 0x10, // Options Length
        0x00, 0x01, 0x00, 0x04, 0x00, 0x30, 0x00, 0x04, 0x00, 0x54, 0x00, 0x28, 0x00, 0x31, 0x00,
        0x01, 0x00, 0x32, 0x00, 0x02, 0x01, 0x02, // Flow Set ID
        0x00, 0x37, // Flow Set Length
        0xd5, 0x03, 0xdf, 0x23, // Scope System
        0x00, 0x00, 0x00, 0x02, // Sampler ID
        0x4e, 0x45, 0x54, 0x46, // Sampler Name
        0x4c, 0x4f, 0x57, 0x2d, // Sampler Name
        0x53, 0x41, 0x4d, 0x50, // Sampler Name
        0x4c, 0x45, 0x52, 0x2d, // Sampler Name
        0x4d, 0x41, 0x50, 0x00, // Sampler Name
        0x00, 0x00, 0x00, 0x00, // Sampler Name
        0x00, 0x00, 0x00, 0x00, // Sampler Name
        0x00, 0x00, 0x00, 0x00, // Sampler Name
        0x00, 0x00, 0x00, 0x00, // Sampler Name
        0x00, 0x00, 0x00, 0x00, // Sampler Name
        0x02, // Random
        0x01, 0x00, // Sampler Random Interval
    ];

    let good_with_padding_wire = [
        0x00, 0x09, // Version
        0x00, 0x02, // Count
        0x0f, 0x5e, 0x5c, 0x6b, // Sys up time
        0x63, 0xd5, 0x45, 0x85, // Timestamp
        0x00, 0x09, 0x43, 0x2a, // seq
        0x00, 0x00, 0x00, 0x06, // Source Id
        0x00, 0x01, // Options Template
        0x00, 0x20, // Length
        0x01, 0x02, // Options template ID
        0x00, 0x04, // Scope Length
        0x00, 0x10, // Options Length
        0x00, 0x01, 0x00, 0x04, // Scope
        0x00, 0x30, 0x00, 0x04, // Field
        0x00, 0x54, 0x00, 0x28, // Field
        0x00, 0x31, 0x00, 0x01, // Field
        0x00, 0x32, 0x00, 0x02, 0x00, 0x00, // Padding
        0x01, 0x02, // Flow Set ID
        0x00, 0x3a, // Flow Set Length
        0xd5, 0x03, 0xdf, 0x23, // Scope System
        0x00, 0x00, 0x00, 0x02, // Sampler ID
        0x4e, 0x45, 0x54, 0x46, // Sampler Name
        0x4c, 0x4f, 0x57, 0x2d, // Sampler Name
        0x53, 0x41, 0x4d, 0x50, // Sampler Name
        0x4c, 0x45, 0x52, 0x2d, // Sampler Name
        0x4d, 0x41, 0x50, 0x00, // Sampler Name
        0x00, 0x00, 0x00, 0x00, // Sampler Name
        0x00, 0x00, 0x00, 0x00, // Sampler Name
        0x00, 0x00, 0x00, 0x00, // Sampler Name
        0x00, 0x00, 0x00, 0x00, // Sampler Name
        0x00, 0x00, 0x00, 0x00, // Sampler Name
        0x02, // Random
        0x01, 0x00, // Sampler Random Interval
        0x00, 0x00, 0x00, // Padding
    ];

    let bad_padding_options_wire = [
        0x00, 0x09, 0x00, 0x02, 0x0f, 0x5e, 0x5c, 0x6b, 0x63, 0xd5, 0x45, 0x85, 0x00, 0x09, 0x43,
        0x2a, 0x00, 0x00, 0x00, 0x06, 0x00, 0x01, 0x00, 0x20, 0x01, 0x02, 0x00, 0x04, 0x00, 0x10,
        0x00, 0x01, 0x00, 0x04, 0x00, 0x30, 0x00, 0x04, 0x00, 0x54, 0x00, 0x28, 0x00, 0x31, 0x00,
        0x01, 0x00, 0x32, 0x00, 0x02, 0x00, 0x11, 0x01, 0x02, 0x00, 0x3a, 0xd5, 0x03, 0xdf, 0x23,
        0x00, 0x00, 0x00, 0x02, 0x4e, 0x45, 0x54, 0x46, 0x4c, 0x4f, 0x57, 0x2d, 0x53, 0x41, 0x4d,
        0x50, 0x4c, 0x45, 0x52, 0x2d, 0x4d, 0x41, 0x50, 0x00, 0x00, 0x00, 0x00, 0x00, 0x00, 0x00,
        0x00, 0x00, 0x00, 0x00, 0x00, 0x00, 0x00, 0x00, 0x00, 0x00, 0x00, 0x00, 0x00, 0x00, 0x02,
        0x01, 0x00, 0x00, 0x00, 0x00,
    ];

    let bad_padding_data_wire = [
        0x00, 0x09, 0x00, 0x02, 0x0f, 0x5e, 0x5c, 0x6b, 0x63, 0xd5, 0x45, 0x85, 0x00, 0x09, 0x43,
        0x2a, 0x00, 0x00, 0x00, 0x06, 0x00, 0x01, 0x00, 0x20, 0x01, 0x02, 0x00, 0x04, 0x00, 0x10,
        0x00, 0x01, 0x00, 0x04, 0x00, 0x30, 0x00, 0x04, 0x00, 0x54, 0x00, 0x28, 0x00, 0x31, 0x00,
        0x01, 0x00, 0x32, 0x00, 0x02, 0x00, 0x00, 0x01, 0x02, 0x00, 0x3a, 0xd5, 0x03, 0xdf, 0x23,
        0x00, 0x00, 0x00, 0x02, 0x4e, 0x45, 0x54, 0x46, 0x4c, 0x4f, 0x57, 0x2d, 0x53, 0x41, 0x4d,
        0x50, 0x4c, 0x45, 0x52, 0x2d, 0x4d, 0x41, 0x50, 0x00, 0x00, 0x00, 0x00, 0x00, 0x00, 0x00,
        0x00, 0x00, 0x00, 0x00, 0x00, 0x00, 0x00, 0x00, 0x00, 0x00, 0x00, 0x00, 0x00, 0x00, 0x02,
        0x01, 0x00, 0x01, 0x00, 0x00,
    ];

    let mut templates_no_padding_map = TemplateCache::new();
    let mut templates_with_padding_map = TemplateCache::new();
    let mut template_bad_map = TemplateCache::new();

    let good_no_padding =
        NetFlowV9Packet::from_wire(&good_no_padding_wire, &mut templates_no_padding_map).unwrap();
    let good_with_padding =
        NetFlowV9Packet::from_wire(&good_with_padding_wire, &mut templates_with_padding_map)
            .unwrap();

    // Packets should be equal regardless of the padding.
    assert_eq!(good_no_padding, good_with_padding);

    let err = NetFlowV9Packet::from_wire(&bad_padding_options_wire, &mut template_bad_map)
        .unwrap_err();
    assert_eq!(err.span(), 51);
    assert_eq!(
        *err.error(),
        NetFlowV9PacketParsingError::SetError(SetParsingError::InvalidPaddingValue(17))
    );

    let err =
        NetFlowV9Packet::from_wire(&bad_padding_data_wire, &mut template_bad_map).unwrap_err();
    assert_eq!(err.span(), 107);
    assert_eq!(
        *err.error(),
        NetFlowV9PacketParsingError::SetError(SetParsingError::InvalidPaddingValue(1))
    );

    let mut out = Vec::new();
    good_no_padding.write(false, &mut out).unwrap();
    assert_eq!(out, good_no_padding_wire.to_vec());

    // The captured padded wire carries three octets of padding where one
    // reaches the boundary; re-encoding normalises the padding, so the
    // round trip is checked through a fresh decode.
    let mut out = Vec::new();
    good_with_padding.write(true, &mut out).unwrap();
    let mut cache = TemplateCache::new();
    let redecoded = NetFlowV9Packet::from_wire(&out, &mut cache).unwrap();
    assert_eq!(redecoded, good_with_padding);
}

#[test]
fn test_zero_length_fields() {
    let good_template_wire = [
        0, 9, 75, 9, 0, 0, 96, 0, 33, 0, 0, 0, 47, 0, 9, 1, 0, 0, 0, 0, 0, 1, 0, 15, 91, 0, 0, 4,
        0, 0, 91, 0, 0, 0, 0, 91, 0, 0, 4, 0, 0, 0, 0, 32, 0, 0,
    ];
    let mut templates_map = TemplateCache::new();
    // The packet is invalid; what matters is that the zero-length field
    // does not slip through into a degenerate template.
    let ret = NetFlowV9Packet::from_wire(&good_template_wire, &mut templates_map);
    assert!(ret.is_err());
}

#[test]
fn test_records_len_larger_than_count() {
    let good_template_wire = [
        0, 9, 0, 64, 16, 1, 0, 0, 42, 0, 0, 64, 16, 0, 53, 255, 255, 1, 1, 0, 0, 1, 0, 150, 158, 0,
        0, 0, 0, 0, 2, 0, 0, 0, 0, 0, 158, 0, 0, 0, 0, 0, 2, 0, 0, 0, 0, 0, 171, 0, 0, 8, 0, 0, 0,
        0, 0, 8, 0, 122, 0, 148, 251, 0, 0, 0, 0, 0, 158, 0, 0, 0, 0, 0, 2, 0, 0, 0, 0, 0, 171, 0,
        0, 8, 0, 0, 0, 0, 0, 8, 64, 0, 0, 1, 251, 0, 0, 0, 0, 0, 158, 0, 0, 0, 0, 0, 2, 0, 0, 0, 0,
        0, 171, 0, 0, 8, 0, 0, 0, 176, 251, 0, 0, 0, 0, 0, 158, 0, 0, 0, 0, 0, 2, 0, 0, 0, 0, 0,
        171, 0, 0, 24, 0, 0, 1, 0, 0, 0, 0, 0, 0, 4, 251, 0, 0, 0, 0, 9, 9, 255, 255, 0, 0, 0, 6,
        0, 0, 0, 0, 0, 171, 0, 1, 8, 0, 0, 0, 0, 171, 0, 0, 123, 255, 0, 0, 123, 123, 123, 255, 0,
        0, 0, 0, 0, 0, 0, 171, 0, 0, 24, 0, 0, 1, 0, 0, 0, 0, 0, 0, 0, 123, 123, 123, 123, 123,
        255, 0, 41, 212, 251, 0, 0, 0, 0, 0, 0, 50, 0, 6, 0, 123, 123, 123, 123, 123, 255, 0, 0, 0,
        0, 0, 0, 0, 50, 0, 6, 0, 123, 123, 123, 123, 123, 255, 0, 0, 0, 41, 212, 251, 0, 0, 0, 0,
        0, 0, 50, 0, 6, 0, 123, 123, 123, 123, 123, 255, 0, 41, 212, 251, 0, 0, 0, 0, 0, 0, 50, 0,
        6, 0, 123, 123, 123, 123, 123, 255, 0, 0, 123, 123, 123, 255, 0, 0, 0, 0, 0, 0, 0, 123,
        123, 123, 255, 0, 41, 212, 251, 0, 0, 0, 0, 0, 0, 50, 0, 6, 0, 123, 123, 123, 123, 123,
        255, 0, 0, 0, 0, 0, 0, 0, 0, 0, 2, 0, 0, 41, 212, 0, 123, 123, 123, 123, 123, 255, 0, 41,
        212, 251, 0, 0, 0, 0, 0, 0, 50, 0, 6, 0, 123, 123, 123, 123, 123, 255, 0, 0, 123, 0, 0, 0,
        0, 0, 50, 0, 6, 0, 123, 123, 123, 123, 123, 255, 0, 0, 0, 0, 0, 0, 0, 0, 0, 2, 0, 0, 41,
        212, 0, 123, 123, 123, 123, 123, 255, 0, 41, 212, 251, 0, 0, 0, 0, 0, 0, 50, 0, 6, 0, 123,
        123, 123, 123, 123, 255, 0, 0,
    ];
    let mut templates_map = TemplateCache::new();
    // The packet is invalid; what matters is that no record-count
    // arithmetic underflows or divides by zero.
    let ret = NetFlowV9Packet::from_wire(&good_template_wire, &mut templates_map);
    assert!(ret.is_err());
}

#[test]
fn test_template_cache_install_idempotent() {
    let mut cache = TemplateCache::new();
    let fields = vec![FieldSpecifier::new(8, 4).unwrap()];
    cache.install(700, vec![], fields.clone());
    cache.install(700, vec![], fields.clone());
    let entry = cache.lookup(700).unwrap();
    assert_eq!(entry.0, vec![]);
    assert_eq!(entry.1, fields);
    assert!(cache.lookup(701).is_none());
}

#[test]
fn test_template_cache_withdraw() {
    let mut cache = TemplateCache::new();
    cache.install(700, vec![], vec![FieldSpecifier::new(8, 4).unwrap()]);
    assert!(cache.lookup(700).is_some());
    cache.withdraw(700);
    assert!(cache.lookup(700).is_none());
}

#[test]
fn test_unknown_template_data_set() {
    // A data set naming a template nobody installed must fail.
    let wire = [
        0x00, 0x09, 0x00, 0x01, 0x00, 0x00, 0x00, 0x01, 0x00, 0x00, 0x00, 0x02, 0x00, 0x00, 0x00,
        0x00, 0x00, 0x00, 0x00, 0x00, 0x04, 0x00, 0x00, 0x08, 0xAA, 0xBB, 0xCC, 0xDD,
    ];
    let mut cache = TemplateCache::new();
    let err = NetFlowV9Packet::from_wire(&wire, &mut cache).unwrap_err();
    assert_eq!(err.span(), 20);
    assert_eq!(
        *err.error(),
        NetFlowV9PacketParsingError::SetError(SetParsingError::UnknownTemplate(1024))
    );
}

#[test]
fn test_data_set_body_not_multiple_of_record() {
    // One installed template of 4 octets per record, but a 10-octet data
    // body: 10 is not a multiple of 4 and the 2 leftover octets exceed no
    // padding rule only if zero; a remainder above 3 fails outright.
    let mut cache = TemplateCache::new();
    cache.install(700, vec![], vec![FieldSpecifier::new(8, 7).unwrap()]);
    let wire = [
        0x00, 0x09, 0x00, 0x01, 0x00, 0x00, 0x00, 0x01, 0x00, 0x00, 0x00, 0x02, 0x00, 0x00, 0x00,
        0x00, 0x00, 0x00, 0x00, 0x00, 0x02, 0xBC, 0x00, 0x10, 0x01, 0x02, 0x03, 0x04, 0x05, 0x06,
        0x07, 0x08, 0x09, 0x0A, 0x0B, 0x0C,
    ];
    let err = NetFlowV9Packet::from_wire(&wire, &mut cache).unwrap_err();
    assert_eq!(
        *err.error(),
        NetFlowV9PacketParsingError::SetError(SetParsingError::TemplateMismatch {
            set_id: 700,
            remaining: 5
        })
    );
}

#[test]
fn test_ipfix_style_trailing_padding_zeroes_ok() {
    // A data set whose declared length leaves two zero octets after the
    // last record decodes to the same records as one without padding; a
    // non-zero octet there fails at its own offset.
    let mut cache = TemplateCache::new();
    cache.install(700, vec![], vec![FieldSpecifier::new(8, 3).unwrap()]);
    let padded = [
        0x00, 0x09, 0x00, 0x01, 0x00, 0x00, 0x00, 0x01, 0x00, 0x00, 0x00, 0x02, 0x00, 0x00, 0x00,
        0x00, 0x00, 0x00, 0x00, 0x00, 0x02, 0xBC, 0x00, 0x0C, 0x01, 0x02, 0x03, 0x04, 0x05, 0x06,
        0x00, 0x00,
    ];
    let pkt = NetFlowV9Packet::from_wire(&padded, &mut cache).unwrap();
    match &pkt.sets()[0] {
        FlowSet::Data { records, .. } => {
            assert_eq!(
                records,
                &vec![
                    DataRecord::new(vec![], vec![DataField { ie: 8, value: vec![1, 2, 3] }]),
                    DataRecord::new(vec![], vec![DataField { ie: 8, value: vec![4, 5, 6] }]),
                ]
            );
        }
        other => panic!("expected a data set, got {other:?}"),
    }

    let mut bad = padded;
    bad[30] = 0x07;
    let err = NetFlowV9Packet::from_wire(&bad, &mut cache).unwrap_err();
    assert_eq!(err.span(), 30);
    assert_eq!(
        *err.error(),
        NetFlowV9PacketParsingError::SetError(SetParsingError::InvalidPaddingValue(7))
    );
}

#[test]
fn test_layer2_segment_id_mask() {
    assert_eq!(Layer2SegmentId::VxLAN.get_mask(), 0x0000_00FF_FFFF);
    assert_eq!(Layer2SegmentId::NVGRE.get_mask(), 0x0000_00FF_FFFF);
    assert_eq!(Layer2SegmentId::Unassigned(9).get_mask(), 0x00FF_FFFF_FFFF);
    assert_eq!(Layer2SegmentId::VxLAN.code(), 1);
    assert_eq!(Layer2SegmentId::NVGRE.code(), 2);
    assert_eq!(Layer2SegmentId::Unassigned(9).code(), 9);
}

#[test]
fn test_invalid_version_rejected() {
    let wire = [
        0x00, 0x0A, 0x00, 0x00, 0x00, 0x00, 0x00, 0x00, 0x00, 0x00, 0x00, 0x00, 0x00, 0x00, 0x00,
        0x00, 0x00, 0x00, 0x00, 0x00,
    ];
    let mut cache = TemplateCache::new();
    let err = NetFlowV9Packet::from_wire(&wire, &mut cache).unwrap_err();
    assert_eq!(*err.error(), NetFlowV9PacketParsingError::InvalidVersion(10));
}

#[test]
fn test_truncated_header_rejected() {
    let wire = [0x00, 0x09, 0x00, 0x00];
    let mut cache = TemplateCache::new();
    let err = NetFlowV9Packet::from_wire(&wire, &mut cache).unwrap_err();
    assert_eq!(
        *err.error(),
        NetFlowV9PacketParsingError::Truncated {
            expected: 20,
            remaining: 4
        }
    );
}

#[test]
fn test_template_id_below_256_rejected() {
    // A template record may not use an identifier reserved for sets.
    let wire = [
        0x00, 0x09, 0x00, 0x01, 0x00, 0x00, 0x00, 0x01, 0x00, 0x00, 0x00, 0x02, 0x00, 0x00, 0x00,
        0x00, 0x00, 0x00, 0x00, 0x00, 0x00, 0x00, 0x00, 0x0C, 0x00, 0x10, 0x00, 0x01, 0x00, 0x08,
        0x00, 0x04,
    ];
    let mut cache = TemplateCache::new();
    let err = NetFlowV9Packet::from_wire(&wire, &mut cache).unwrap_err();
    assert_eq!(
        *err.error(),
        NetFlowV9PacketParsingError::SetError(SetParsingError::InvalidTemplateId(16))
    );
}

#[test]
fn test_reserved_set_id_rejected() {
    // Set identifiers 2..255 are reserved in NetFlow v9.
    let wire = [
        0x00, 0x09, 0x00, 0x01, 0x00, 0x00, 0x00, 0x01, 0x00, 0x00, 0x00, 0x02, 0x00, 0x00, 0x00,
        0x00, 0x00, 0x00, 0x00, 0x00, 0x00, 0x07, 0x00, 0x08, 0x00, 0x00, 0x00, 0x00,
    ];
    let mut cache = TemplateCache::new();
    let err = NetFlowV9Packet::from_wire(&wire, &mut cache).unwrap_err();
    assert_eq!(
        *err.error(),
        NetFlowV9PacketParsingError::SetError(SetParsingError::InvalidLength(7))
    );
}
