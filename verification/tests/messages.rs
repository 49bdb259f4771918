//! Messages built by hand: structure, templates, the cache and data sets.

use ipfix::dataset::parse_data_set;
use ipfix::header::{next_set, parse_structure, split_sets, SetKind, SetSlice};
use ipfix::template::{
    copy_specifiers, encode_specifiers, parse_options_template_set, parse_specifiers,
    parse_template_set,
};
use ipfix::{
    get_default_parsers, DataRecordKey, DataRecordValue, EnterpriseFormatter, FieldParser,
    FieldSpecifier, IpfixConsumer, IpfixHeader, IpfixSet, OptionsTemplate, OptionsTemplateHeader,
    ParseError, SetHeader, Template, TemplateHeader,
};

fn spec(ident: u16, field_length: u16) -> FieldSpecifier {
    FieldSpecifier { ident, field_length, enterprise_number: None }
}

fn pen_spec(ident: u16, field_length: u16, pen: u32) -> FieldSpecifier {
    FieldSpecifier { ident, field_length, enterprise_number: Some(pen) }
}

fn specifier_bytes(fields: &[FieldSpecifier]) -> Vec<u8> {
    let mut out = Vec::new();
    for field in fields {
        let word = match field.enterprise_number {
            Some(_) => field.ident | 0x8000,
            None => field.ident,
        };
        out.extend_from_slice(&word.to_be_bytes());
        out.extend_from_slice(&field.field_length.to_be_bytes());
        if let Some(pen) = field.enterprise_number {
            out.extend_from_slice(&pen.to_be_bytes());
        }
    }
    out
}

fn template_record(id: u16, fields: &[FieldSpecifier]) -> Vec<u8> {
    let mut out = Vec::new();
    out.extend_from_slice(&id.to_be_bytes());
    out.extend_from_slice(&(fields.len() as u16).to_be_bytes());
    out.extend(specifier_bytes(fields));
    out
}

fn options_template_record(id: u16, scope: u16, fields: &[FieldSpecifier]) -> Vec<u8> {
    let mut out = Vec::new();
    out.extend_from_slice(&id.to_be_bytes());
    out.extend_from_slice(&(fields.len() as u16).to_be_bytes());
    out.extend_from_slice(&scope.to_be_bytes());
    out.extend(specifier_bytes(fields));
    out
}

fn set(id: u16, body: &[u8]) -> Vec<u8> {
    let mut out = Vec::new();
    out.extend_from_slice(&id.to_be_bytes());
    out.extend_from_slice(&((body.len() + 4) as u16).to_be_bytes());
    out.extend_from_slice(body);
    out
}

fn message(sets: &[Vec<u8>]) -> Vec<u8> {
    let length: usize = 16 + sets.iter().map(|s| s.len()).sum::<usize>();
    let mut out = Vec::new();
    out.extend_from_slice(&10u16.to_be_bytes());
    out.extend_from_slice(&(length as u16).to_be_bytes());
    out.extend_from_slice(&0x5834_94cau32.to_be_bytes());
    out.extend_from_slice(&7u32.to_be_bytes());
    out.extend_from_slice(&200u32.to_be_bytes());
    for s in sets {
        out.extend_from_slice(s);
    }
    out
}

fn iana_registry() -> EnterpriseFormatter {
    let mut registry = EnterpriseFormatter::new();
    registry.insert(0, get_default_parsers());
    registry
}

/// Protocol (1 byte), source port (2 bytes), source address (4 bytes).
fn flow_fields() -> Vec<FieldSpecifier> {
    vec![spec(4, 1), spec(7, 2), spec(8, 4)]
}

fn flow_record(protocol: u8, port: u16, address: [u8; 4]) -> Vec<u8> {
    let mut out = vec![protocol];
    out.extend_from_slice(&port.to_be_bytes());
    out.extend_from_slice(&address);
    out
}

#[test]
fn header_is_read_field_by_field() {
    let data = message(&[]);
    let (rest, header) = IpfixHeader::parse(&data).unwrap();
    assert!(rest.is_empty());
    assert_eq!(
        header,
        IpfixHeader {
            version: 10,
            length: 16,
            export_time: 0x5834_94ca,
            sequence_number: 7,
            observation_domain_id: 200,
        }
    );
    let mut longer = data.clone();
    longer.extend_from_slice(&[1, 2, 3]);
    let (rest, again) = IpfixHeader::parse(&longer).unwrap();
    assert_eq!(rest, &[1, 2, 3]);
    assert_eq!(again, header);
}

#[test]
fn header_shorter_than_sixteen_bytes_is_truncated() {
    let data = message(&[]);
    for len in 0..16 {
        assert_eq!(IpfixHeader::parse(&data[..len]), Err(ParseError::Truncated));
    }
}

#[test]
fn header_of_another_version_is_rejected() {
    let mut data = message(&[]);
    data[1] = 9;
    assert_eq!(IpfixHeader::parse(&data), Err(ParseError::UnsupportedVersion(9)));
    data[0] = 1;
    data[1] = 10;
    assert_eq!(IpfixHeader::parse(&data), Err(ParseError::UnsupportedVersion(266)));
}

#[test]
fn set_header_is_read_without_regard_to_its_length() {
    let (rest, header) = SetHeader::parse(&[0x01, 0x00, 0x00, 0x02, 9]).unwrap();
    assert_eq!(header, SetHeader { set_id: 256, length: 2 });
    assert_eq!(rest, &[9]);
    assert_eq!(SetHeader::parse(&[0x01, 0x00, 0x00]), Err(ParseError::Truncated));
}

#[test]
fn next_set_splits_header_body_and_rest() {
    let mut input = set(300, &[1, 2, 3]);
    input.extend_from_slice(&[0xaa, 0xbb]);
    let (rest, first) = next_set(&input).unwrap();
    assert_eq!(first.header, SetHeader { set_id: 300, length: 7 });
    assert_eq!(first.body, &[1, 2, 3]);
    assert_eq!(rest, &[0xaa, 0xbb]);
}

#[test]
fn next_set_of_an_empty_body() {
    let input = set(300, &[]);
    let (rest, only) = next_set(&input).unwrap();
    assert_eq!(only.header, SetHeader { set_id: 300, length: 4 });
    assert!(only.body.is_empty());
    assert!(rest.is_empty());
}

#[test]
fn next_set_rejects_bad_lengths() {
    assert_eq!(next_set(&[]), Err(ParseError::Truncated));
    assert_eq!(next_set(&[0x01, 0x2c, 0x00]), Err(ParseError::Truncated));
    assert_eq!(next_set(&[0x01, 0x2c, 0x00, 0x03]), Err(ParseError::InvalidSetLength(3)));
    assert_eq!(next_set(&[0x01, 0x2c, 0x00, 0x00, 1, 2]), Err(ParseError::InvalidSetLength(0)));
    assert_eq!(next_set(&[0x01, 0x2c, 0x00, 0x08, 1, 2, 3]), Err(ParseError::Truncated));
}

#[test]
fn specifier_without_enterprise_bit() {
    let (rest, field) = FieldSpecifier::parse(&[0x00, 0x08, 0x00, 0x04, 0xee]).unwrap();
    assert_eq!(field, spec(8, 4));
    assert_eq!(rest, &[0xee]);
    assert!(!field.is_pen());
    assert!(!field.is_variable());
}

#[test]
fn specifier_with_enterprise_bit() {
    let bytes = [0x80, 0xcd, 0xff, 0xff, 0x00, 0x00, 0x8b, 0x30, 0xee];
    let (rest, field) = FieldSpecifier::parse(&bytes).unwrap();
    assert_eq!(field, pen_spec(205, 0xFFFF, 35632));
    assert_eq!(rest, &[0xee]);
    assert!(field.is_pen());
    assert!(field.is_variable());
}

#[test]
fn enterprise_bit_is_stripped_from_every_id() {
    for k in [0u16, 1, 205, 0x7fff] {
        let word = 32768 | k;
        let mut bytes = word.to_be_bytes().to_vec();
        bytes.extend_from_slice(&[0x00, 0x02, 0xde, 0xad, 0xbe, 0xef]);
        let (rest, field) = FieldSpecifier::parse(&bytes).unwrap();
        assert!(rest.is_empty());
        assert_eq!(field.ident, k);
        assert_eq!(field.field_length, 2);
        assert_eq!(field.enterprise_number, Some(0xdead_beef));
    }
}

#[test]
fn specifier_that_ends_early_is_truncated() {
    assert_eq!(FieldSpecifier::parse(&[0x00, 0x08, 0x00]), Err(ParseError::Truncated));
    assert_eq!(
        FieldSpecifier::parse(&[0x80, 0x08, 0x00, 0x04, 0, 0, 0]),
        Err(ParseError::Truncated)
    );
}

#[test]
fn specifier_is_written_as_it_is_read() {
    let mut out = vec![0x55];
    spec(8, 4).encode(&mut out);
    assert_eq!(out, vec![0x55, 0x00, 0x08, 0x00, 0x04]);
    let mut out = Vec::new();
    pen_spec(205, 0xFFFF, 35632).encode(&mut out);
    assert_eq!(out, vec![0x80, 0xcd, 0xff, 0xff, 0x00, 0x00, 0x8b, 0x30]);
}

#[test]
fn specifiers_survive_decoding_encoding_and_decoding() {
    let fields = vec![
        spec(1, 8),
        pen_spec(80, 2, 35632),
        spec(82, 0xFFFF),
        pen_spec(0x7fff, 0xFFFF, u32::MAX),
        spec(0, 0),
    ];
    let wire = specifier_bytes(&fields);
    let (rest, decoded) = parse_specifiers(&wire, 5).unwrap();
    assert!(rest.is_empty());
    assert_eq!(decoded, fields);
    let mut encoded = Vec::new();
    encode_specifiers(&decoded, &mut encoded);
    assert_eq!(encoded, wire);
    let (rest, again) = parse_specifiers(&encoded, 5).unwrap();
    assert!(rest.is_empty());
    assert_eq!(again, decoded);
}

#[test]
fn specifiers_stop_at_the_count() {
    let wire = specifier_bytes(&[spec(1, 8), spec(2, 8), spec(4, 1)]);
    let (rest, decoded) = parse_specifiers(&wire, 2).unwrap();
    assert_eq!(decoded, vec![spec(1, 8), spec(2, 8)]);
    assert_eq!(rest, &wire[8..]);
    let (rest, decoded) = parse_specifiers(&wire, 0).unwrap();
    assert!(decoded.is_empty());
    assert_eq!(rest, &wire[..]);
    assert_eq!(parse_specifiers(&wire, 4), Err(ParseError::Truncated));
}

#[test]
fn template_record_has_as_many_specifiers_as_it_counts() {
    let mut wire = template_record(999, &flow_fields());
    wire.push(0x77);
    let (rest, template) = Template::parse(&wire).unwrap();
    assert_eq!(rest, &[0x77]);
    assert_eq!(template.header, TemplateHeader { template_id: 999, field_count: 3 });
    assert_eq!(template.field_specifiers, flow_fields());
    assert_eq!(Template::parse(&wire[..3]), Err(ParseError::Truncated));
    assert_eq!(Template::parse(&wire[..15]), Err(ParseError::Truncated));
}

#[test]
fn options_template_record_keeps_its_scope_count() {
    let wire = options_template_record(700, 1, &flow_fields());
    let (rest, template) = OptionsTemplate::parse(&wire).unwrap();
    assert!(rest.is_empty());
    assert_eq!(
        template.header,
        OptionsTemplateHeader { id: 700, field_count: 3, scope_field_count: 1 }
    );
    assert_eq!(template.field_specifiers, flow_fields());
    assert_eq!(OptionsTemplate::parse(&wire[..5]), Err(ParseError::Truncated));
    assert_eq!(OptionsTemplate::parse(&wire[..17]), Err(ParseError::Truncated));
}

#[test]
fn template_set_keeps_complete_records_and_drops_the_tail() {
    let mut body = template_record(256, &flow_fields());
    body.extend(template_record(257, &[spec(1, 8)]));
    // a third record that announces two specifiers and holds one
    body.extend_from_slice(&[0x01, 0x02, 0x00, 0x02, 0x00, 0x01, 0x00, 0x08]);
    let header = SetHeader { set_id: 2, length: (body.len() + 4) as u16 };
    let (rest, parsed) = parse_template_set(&body, header);
    assert_eq!(rest, &[0x01, 0x02, 0x00, 0x02, 0x00, 0x01, 0x00, 0x08]);
    assert_eq!(parsed.header, SetHeader { set_id: 2, length: (body.len() + 4) as u16 });
    assert_eq!(parsed.records.len(), 2);
    assert_eq!(parsed.records[0].header.template_id, 256);
    assert_eq!(parsed.records[0].field_specifiers, flow_fields());
    assert_eq!(parsed.records[1].header.template_id, 257);
    assert_eq!(parsed.records[1].field_specifiers, vec![spec(1, 8)]);
}

#[test]
fn template_set_with_padding() {
    let mut body = template_record(256, &[spec(1, 8)]);
    body.extend_from_slice(&[0, 0]);
    let (rest, parsed) = parse_template_set(&body, SetHeader { set_id: 2, length: 14 });
    assert_eq!(rest, &[0, 0]);
    assert_eq!(parsed.records.len(), 1);
    let (rest, parsed) = parse_template_set(&[], SetHeader { set_id: 2, length: 4 });
    assert!(rest.is_empty());
    assert!(parsed.records.is_empty());
}

#[test]
fn options_template_set_keeps_complete_records() {
    let mut body = options_template_record(700, 1, &flow_fields());
    body.extend(options_template_record(701, 2, &[spec(1, 8), spec(2, 8)]));
    body.extend_from_slice(&[0, 0, 0]);
    let header = SetHeader { set_id: 3, length: (body.len() + 4) as u16 };
    let (rest, parsed) = parse_options_template_set(&body, header);
    assert_eq!(rest, &[0, 0, 0]);
    assert_eq!(parsed.records.len(), 2);
    assert_eq!(parsed.records[0].header.id, 700);
    assert_eq!(parsed.records[1].header.id, 701);
    assert_eq!(parsed.records[1].header.scope_field_count, 2);
    assert_eq!(parsed.records[1].field_specifiers, vec![spec(1, 8), spec(2, 8)]);
}

#[test]
fn data_set_holds_one_record_for_each_record_size() {
    let registry = iana_registry();
    let mut body = flow_record(6, 443, [10, 0, 0, 1]);
    body.extend(flow_record(17, 53, [10, 0, 0, 2]));
    body.extend(flow_record(1, 0, [10, 0, 0, 3]));
    let header = SetHeader { set_id: 256, length: 25 };
    let (rest, data_set) = parse_data_set(&body, header, &flow_fields(), &registry);
    assert!(rest.is_empty());
    assert_eq!(data_set.header, SetHeader { set_id: 256, length: 25 });
    assert_eq!(data_set.records.len(), 3);
    for record in &data_set.records {
        assert_eq!(record.len(), 3);
    }
    assert_eq!(
        data_set.records[1].values,
        vec![
            (DataRecordKey::Str("protocolIdentifier"), DataRecordValue::U8(17)),
            (DataRecordKey::Str("sourceTransportPort"), DataRecordValue::U16(53)),
            (DataRecordKey::Str("sourceIPv4Address"), DataRecordValue::IPv4([10, 0, 0, 2])),
        ]
    );
}

#[test]
fn data_set_drops_trailing_bytes_short_of_a_record() {
    let registry = iana_registry();
    let mut body = flow_record(6, 443, [10, 0, 0, 1]);
    body.extend(flow_record(17, 53, [10, 0, 0, 2]));
    let whole = body.clone();
    body.extend_from_slice(&[1, 2, 3, 4, 5, 6]);
    let header = SetHeader { set_id: 256, length: 24 };
    let (rest, data_set) = parse_data_set(&body, header, &flow_fields(), &registry);
    assert_eq!(rest, &[1, 2, 3, 4, 5, 6]);
    assert_eq!(data_set.records.len(), 20 / 7);
    let (rest, exact) =
        parse_data_set(&whole, SetHeader { set_id: 256, length: 18 }, &flow_fields(), &registry);
    assert!(rest.is_empty());
    assert_eq!(exact.records, data_set.records);
}

#[test]
fn data_set_shorter_than_one_record_has_no_records() {
    let registry = iana_registry();
    let header = SetHeader { set_id: 256, length: 10 };
    let (rest, data_set) = parse_data_set(&[1, 2, 3, 4, 5, 6], header, &flow_fields(), &registry);
    assert_eq!(rest, &[1, 2, 3, 4, 5, 6]);
    assert!(data_set.records.is_empty());
    let (rest, data_set) = parse_data_set(&[], header, &flow_fields(), &registry);
    assert!(rest.is_empty());
    assert!(data_set.records.is_empty());
}

#[test]
fn data_set_of_a_template_without_fields_has_no_records() {
    let registry = iana_registry();
    let header = SetHeader { set_id: 256, length: 7 };
    let (rest, data_set) = parse_data_set(&[1, 2, 3], header, &Vec::new(), &registry);
    assert_eq!(rest, &[1, 2, 3]);
    assert!(data_set.records.is_empty());
    let (rest, data_set) = parse_data_set(&[1, 2, 3], header, &vec![spec(4, 0)], &registry);
    assert_eq!(rest, &[1, 2, 3]);
    assert!(data_set.records.is_empty());
}

#[test]
fn data_set_with_variable_fields() {
    let registry = iana_registry();
    let fields = vec![spec(4, 1), spec(3, 0xFFFF), spec(7, 2)];
    let body = [6, 2, 0xaa, 0xbb, 0x01, 0xbb, 17, 0, 0x00, 0x35, 9];
    let header = SetHeader { set_id: 256, length: 15 };
    let (rest, data_set) = parse_data_set(&body, header, &fields, &registry);
    assert_eq!(rest, &[9]);
    assert_eq!(data_set.records.len(), 2);
    assert_eq!(
        data_set.records[0].values,
        vec![
            (DataRecordKey::Str("protocolIdentifier"), DataRecordValue::U8(6)),
            (DataRecordKey::Unrecognized(3), DataRecordValue::Bytes(&[0xaa, 0xbb])),
            (DataRecordKey::Str("sourceTransportPort"), DataRecordValue::U16(443)),
        ]
    );
    assert_eq!(
        data_set.records[1].values,
        vec![
            (DataRecordKey::Str("protocolIdentifier"), DataRecordValue::U8(17)),
            (DataRecordKey::Unrecognized(3), DataRecordValue::Bytes(&[])),
            (DataRecordKey::Str("sourceTransportPort"), DataRecordValue::U16(53)),
        ]
    );
}

#[test]
fn record_keeps_both_entries_of_a_field_that_occurs_twice() {
    let registry = iana_registry();
    let fields = vec![spec(4, 1), spec(4, 1)];
    let header = SetHeader { set_id: 256, length: 6 };
    let (_, data_set) = parse_data_set(&[6, 17], header, &fields, &registry);
    assert_eq!(data_set.records.len(), 1);
    assert_eq!(data_set.records[0].len(), 2);
    assert_eq!(
        data_set.records[0].get(&DataRecordKey::Str("protocolIdentifier")),
        Some(&DataRecordValue::U8(17))
    );
}

#[test]
fn new_consumer_has_no_templates() {
    let consumer = IpfixConsumer::new();
    assert!(consumer.templates.is_empty());
    assert!(consumer.options_templates.is_empty());
    assert!(consumer.lookup(256).is_none());
}

#[test]
fn message_without_sets_gives_no_data_sets() {
    let mut consumer = IpfixConsumer::new();
    let data = message(&[]);
    let (rest, data_sets) = consumer.parse_message(&data).unwrap();
    assert!(rest.is_empty());
    assert!(data_sets.is_empty());
    assert!(consumer.templates.is_empty());
}

#[test]
fn message_with_a_rejected_header_leaves_the_cache() {
    let mut consumer = IpfixConsumer::new();
    let mut data = message(&[set(2, &template_record(256, &flow_fields()))]);
    data[1] = 9;
    assert_eq!(consumer.parse_message(&data).err(), Some(ParseError::UnsupportedVersion(9)));
    assert!(consumer.templates.is_empty());
    assert_eq!(consumer.parse_message(&data[..15]).err(), Some(ParseError::Truncated));
    assert_eq!(consumer.parse_message(&[]).err(), Some(ParseError::Truncated));
    assert!(consumer.templates.is_empty());
}

#[test]
fn message_longer_than_declared_is_rejected() {
    let mut consumer = IpfixConsumer::new();
    let mut data = message(&[set(2, &template_record(256, &flow_fields()))]);
    data.push(0);
    assert_eq!(consumer.parse_message(&data).err(), Some(ParseError::TrailingBytes));
    assert!(consumer.templates.is_empty());
    data.extend(set(2, &template_record(257, &flow_fields())));
    assert_eq!(consumer.parse_message(&data).err(), Some(ParseError::TrailingBytes));
    assert!(consumer.templates.is_empty());
}

#[test]
fn message_shorter_than_declared_is_rejected() {
    let mut consumer = IpfixConsumer::new();
    let data = message(&[set(2, &template_record(256, &flow_fields()))]);
    assert_eq!(
        consumer.parse_message(&data[..data.len() - 1]).err(),
        Some(ParseError::Truncated)
    );
    assert!(consumer.templates.is_empty());
}

#[test]
fn accepted_message_has_its_declared_length() {
    let mut consumer = IpfixConsumer::new();
    let data = message(&[
        set(2, &template_record(256, &flow_fields())),
        set(256, &flow_record(6, 443, [10, 0, 0, 1])),
        set(4000, &[1, 2, 3]),
    ]);
    let (_, header) = IpfixHeader::parse(&data).unwrap();
    assert_eq!(header.length as usize, data.len());
    let (rest, data_sets) = consumer.parse_message(&data).unwrap();
    assert!(rest.is_empty());
    assert_eq!(data_sets.len(), 1);
}

#[test]
fn set_with_a_length_under_four_is_rejected() {
    let mut consumer = IpfixConsumer::new();
    let mut data = message(&[
        set(2, &template_record(256, &flow_fields())),
        set(2, &template_record(257, &flow_fields())),
    ]);
    let second = 16 + 4 + 16;
    data[second + 2] = 0;
    data[second + 3] = 3;
    assert_eq!(consumer.parse_message(&data).err(), Some(ParseError::InvalidSetLength(3)));
    // the set before the bad one has had its effect
    assert_eq!(consumer.templates.len(), 1);
    assert!(consumer.templates.contains_key(&256));
}

#[test]
fn set_longer_than_the_message_is_rejected() {
    let mut consumer = IpfixConsumer::new();
    let mut data = message(&[
        set(2, &template_record(256, &flow_fields())),
        set(2, &template_record(257, &flow_fields())),
    ]);
    let second = 16 + 4 + 16;
    data[second + 3] += 1;
    assert_eq!(consumer.parse_message(&data).err(), Some(ParseError::Truncated));
    assert_eq!(consumer.templates.len(), 1);
    assert!(consumer.templates.contains_key(&256));
}

#[test]
fn bytes_too_few_for_a_set_header_are_rejected() {
    let mut consumer = IpfixConsumer::new();
    let mut data = message(&[set(2, &template_record(256, &flow_fields()))]);
    data.extend_from_slice(&[0, 0]);
    let length = data.len() as u16;
    data[2..4].copy_from_slice(&length.to_be_bytes());
    assert_eq!(consumer.parse_message(&data).err(), Some(ParseError::Truncated));
    assert_eq!(consumer.templates.len(), 1);
}

#[test]
fn data_set_with_an_unknown_set_id_is_skipped() {
    let mut consumer = IpfixConsumer::new();
    let data = message(&[set(12345, &[1, 2, 3, 4, 5, 6, 7, 8])]);
    let (rest, data_sets) = consumer.parse_message(&data).unwrap();
    assert!(rest.is_empty());
    assert!(data_sets.is_empty());
    assert!(consumer.templates.is_empty());
    assert!(consumer.options_templates.is_empty());
}

#[test]
fn message_of_templates_only_installs_each_template() {
    let mut consumer = IpfixConsumer::new();
    let mut first = template_record(256, &flow_fields());
    first.extend(template_record(257, &[spec(1, 8)]));
    let data = message(&[
        set(2, &first),
        set(3, &options_template_record(700, 1, &[spec(149, 4), spec(41, 8)])),
        set(2, &template_record(258, &[spec(2, 8), spec(4, 1)])),
    ]);
    let (rest, data_sets) = consumer.parse_message(&data).unwrap();
    assert!(rest.is_empty());
    assert!(data_sets.is_empty());
    assert_eq!(consumer.templates.len(), 3);
    assert_eq!(consumer.templates[&256].field_specifiers, flow_fields());
    assert_eq!(consumer.templates[&257].field_specifiers, vec![spec(1, 8)]);
    assert_eq!(consumer.templates[&258].field_specifiers, vec![spec(2, 8), spec(4, 1)]);
    assert_eq!(consumer.options_templates.len(), 1);
    assert_eq!(consumer.options_templates[&700].header.scope_field_count, 1);
    assert_eq!(consumer.options_templates[&700].field_specifiers, vec![spec(149, 4), spec(41, 8)]);
}

#[test]
fn template_serves_data_sets_later_in_the_same_message() {
    let mut consumer = IpfixConsumer::new();
    let data = message(&[
        set(256, &flow_record(1, 1, [1, 1, 1, 1])),
        set(2, &template_record(256, &flow_fields())),
        set(256, &flow_record(6, 443, [10, 0, 0, 1])),
    ]);
    let (_, data_sets) = consumer.parse_message(&data).unwrap();
    assert_eq!(data_sets.len(), 1);
    assert_eq!(data_sets[0].header, SetHeader { set_id: 256, length: 11 });
    assert_eq!(data_sets[0].records.len(), 1);
    assert_eq!(
        data_sets[0].records[0].get(&DataRecordKey::Str("sourceTransportPort")),
        Some(&DataRecordValue::U16(443))
    );
}

#[test]
fn redefined_template_replaces_the_earlier_one() {
    let mut consumer = IpfixConsumer::new();
    let eleven: Vec<FieldSpecifier> = (1..=11).map(|id| spec(id, 1)).collect();
    consumer.parse_message(&message(&[set(2, &template_record(999, &eleven))])).unwrap();
    assert_eq!(consumer.templates[&999].field_specifiers.len(), 11);
    let five = vec![spec(4, 1), spec(7, 2), spec(11, 2), spec(8, 4), spec(12, 4)];
    consumer.parse_message(&message(&[set(2, &template_record(999, &five))])).unwrap();
    assert_eq!(consumer.templates.len(), 1);
    assert_eq!(consumer.templates[&999].field_specifiers, five);

    let body = [17, 0xc0, 0x00, 0x00, 0x35, 192, 168, 0, 1, 8, 8, 8, 8];
    let data = message(&[set(999, &body)]);
    let (_, data_sets) = consumer.parse_message(&data).unwrap();
    assert_eq!(data_sets.len(), 1);
    assert_eq!(data_sets[0].records.len(), 1);
    assert_eq!(
        data_sets[0].records[0].values,
        vec![
            (DataRecordKey::Str("protocolIdentifier"), DataRecordValue::U8(17)),
            (DataRecordKey::Str("sourceTransportPort"), DataRecordValue::U16(49152)),
            (DataRecordKey::Str("destinationTransportPort"), DataRecordValue::U16(53)),
            (DataRecordKey::Str("sourceIPv4Address"), DataRecordValue::IPv4([192, 168, 0, 1])),
            (DataRecordKey::Str("destinationIPv4Address"), DataRecordValue::IPv4([8, 8, 8, 8])),
        ]
    );
}

#[test]
fn template_redefined_within_one_set_keeps_the_later_record() {
    let mut consumer = IpfixConsumer::new();
    let mut body = template_record(300, &[spec(1, 8)]);
    body.extend(template_record(300, &[spec(2, 4)]));
    consumer.parse_message(&message(&[set(2, &body)])).unwrap();
    assert_eq!(consumer.templates.len(), 1);
    assert_eq!(consumer.templates[&300].field_specifiers, vec![spec(2, 4)]);
}

#[test]
fn options_template_serves_data_sets() {
    let mut consumer = IpfixConsumer::new();
    let data = message(&[
        set(3, &options_template_record(700, 1, &[spec(149, 4), spec(41, 8)])),
        set(700, &[0, 0, 0, 200, 0, 0, 0, 0, 0, 0, 1, 0]),
    ]);
    let (_, data_sets) = consumer.parse_message(&data).unwrap();
    assert_eq!(data_sets.len(), 1);
    assert_eq!(
        data_sets[0].records[0].values,
        vec![
            (DataRecordKey::Str("sourceId"), DataRecordValue::U32(200)),
            (DataRecordKey::Str("exportedMessageTotalCount"), DataRecordValue::U64(256)),
        ]
    );
}

#[test]
fn template_comes_before_an_options_template_with_its_id() {
    let mut consumer = IpfixConsumer::new();
    consumer.add_template(Template {
        header: TemplateHeader { template_id: 700, field_count: 1 },
        field_specifiers: vec![spec(4, 1)],
    });
    consumer.add_options_template(OptionsTemplate {
        header: OptionsTemplateHeader { id: 700, field_count: 1, scope_field_count: 1 },
        field_specifiers: vec![spec(7, 2)],
    });
    assert_eq!(consumer.lookup(700), Some(&vec![spec(4, 1)]));
    let data = message(&[set(700, &[6, 17])]);
    let (_, data_sets) = consumer.parse_message(&data).unwrap();
    assert_eq!(data_sets[0].records.len(), 2);
}

#[test]
fn lookup_finds_templates_and_options_templates() {
    let mut consumer = IpfixConsumer::new();
    consumer.add_templates(vec![
        Template {
            header: TemplateHeader { template_id: 256, field_count: 1 },
            field_specifiers: vec![spec(4, 1)],
        },
        Template {
            header: TemplateHeader { template_id: 256, field_count: 1 },
            field_specifiers: vec![spec(5, 1)],
        },
    ]);
    consumer.add_options_templates(vec![OptionsTemplate {
        header: OptionsTemplateHeader { id: 257, field_count: 1, scope_field_count: 1 },
        field_specifiers: vec![spec(7, 2)],
    }]);
    assert_eq!(consumer.lookup(256), Some(&vec![spec(5, 1)]));
    assert_eq!(consumer.lookup(257), Some(&vec![spec(7, 2)]));
    assert_eq!(consumer.lookup(258), None);
    assert_eq!(consumer.get_template(256).unwrap().field_specifiers, vec![spec(5, 1)]);
    assert!(consumer.get_template(257).is_none());
    assert_eq!(consumer.get_options_template(257).unwrap().header.scope_field_count, 1);
    assert!(consumer.get_options_template(256).is_none());
}

#[test]
fn parse_set_tells_the_kinds_of_set_apart() {
    let mut consumer = IpfixConsumer::new();
    let body = template_record(256, &flow_fields());
    match consumer.parse_set(SetSlice { header: SetHeader { set_id: 2, length: 20 }, body: &body }) {
        Some(IpfixSet::TemplateSet(parsed)) => assert_eq!(parsed.records.len(), 1),
        _ => panic!("a template set"),
    }
    // decoding a set installs nothing
    assert!(consumer.templates.is_empty());
    let body = options_template_record(700, 1, &flow_fields());
    match consumer.parse_set(SetSlice { header: SetHeader { set_id: 3, length: 22 }, body: &body }) {
        Some(IpfixSet::OptionsTemplateSet(parsed)) => assert_eq!(parsed.records.len(), 1),
        _ => panic!("an options template set"),
    }
    assert!(consumer.parse_set(SetSlice { header: SetHeader { set_id: 256, length: 11 }, body: &[0; 7] }).is_none());
    consumer.add_template(Template {
        header: TemplateHeader { template_id: 256, field_count: 3 },
        field_specifiers: flow_fields(),
    });
    match consumer.parse_set(SetSlice { header: SetHeader { set_id: 256, length: 11 }, body: &[0; 7] }) {
        Some(IpfixSet::DataSet(parsed)) => assert_eq!(parsed.records.len(), 1),
        _ => panic!("a data set"),
    }
}

#[test]
fn custom_field_is_named_and_read() {
    let mut consumer = IpfixConsumer::new();
    consumer.add_custom_field(35632, 205, "DNS_QUERY", FieldParser::BeString);
    consumer.add_custom_field(35632, 206, "DNS_QUERY_ID", FieldParser::BeInt);
    let fields = vec![pen_spec(205, 0xFFFF, 35632), pen_spec(206, 2, 35632), pen_spec(207, 1, 35632)];
    let data = message(&[
        set(2, &template_record(260, &fields)),
        set(260, &[3, b'a', b'.', b'b', 0x12, 0x34, 9]),
    ]);
    let (_, data_sets) = consumer.parse_message(&data).unwrap();
    assert_eq!(
        data_sets[0].records[0].values,
        vec![
            (DataRecordKey::Str("DNS_QUERY"), DataRecordValue::String("a.b".to_string())),
            (DataRecordKey::Str("DNS_QUERY_ID"), DataRecordValue::U16(0x1234)),
            (DataRecordKey::Unrecognized(207), DataRecordValue::Bytes(&[9])),
        ]
    );
}

#[test]
fn custom_field_overrides_a_default() {
    let mut consumer = IpfixConsumer::new();
    consumer.add_custom_field(0, 82, "interfaceName", FieldParser::BeString);
    consumer.add_custom_field(0, 4, "proto", FieldParser::BeInt);
    let data = message(&[
        set(2, &template_record(256, &[spec(82, 0xFFFF), spec(4, 1), spec(7, 2)])),
        set(256, &[4, b'e', b't', b'h', b'0', 6, 0, 80]),
    ]);
    let (_, data_sets) = consumer.parse_message(&data).unwrap();
    assert_eq!(
        data_sets[0].records[0].values,
        vec![
            (DataRecordKey::Str("interfaceName"), DataRecordValue::String("eth0".to_string())),
            (DataRecordKey::Str("proto"), DataRecordValue::U8(6)),
            (DataRecordKey::Str("sourceTransportPort"), DataRecordValue::U16(80)),
        ]
    );
}

#[test]
fn field_of_an_unregistered_enterprise_does_not_stop_its_siblings() {
    let mut consumer = IpfixConsumer::new();
    let fields = vec![spec(4, 1), pen_spec(80, 2, 35632), pen_spec(81, 2, 35632), spec(7, 2)];
    let data = message(&[
        set(2, &template_record(257, &fields)),
        set(257, &[6, 0, 1, 0, 2, 0x01, 0xbb]),
    ]);
    let (_, data_sets) = consumer.parse_message(&data).unwrap();
    assert_eq!(
        data_sets[0].records[0].values,
        vec![
            (DataRecordKey::Str("protocolIdentifier"), DataRecordValue::U8(6)),
            (
                DataRecordKey::Error(
                    "unsupported pen 35632 when trying to parse field 80".to_string()
                ),
                DataRecordValue::Empty
            ),
            (
                DataRecordKey::Error(
                    "unsupported pen 35632 when trying to parse field 81".to_string()
                ),
                DataRecordValue::Empty
            ),
            (DataRecordKey::Str("sourceTransportPort"), DataRecordValue::U16(443)),
        ]
    );
}

#[test]
fn independent_consumers_decode_alike() {
    let templates = message(&[
        set(2, &template_record(256, &flow_fields())),
        set(3, &options_template_record(700, 1, &[spec(149, 4)])),
    ]);
    let mut body = flow_record(6, 443, [10, 0, 0, 1]);
    body.extend(flow_record(17, 53, [10, 0, 0, 2]));
    body.push(0);
    let data = message(&[set(256, &body), set(700, &[0, 0, 0, 9]), set(9999, &[1])]);
    let mut first = IpfixConsumer::new();
    let mut second = IpfixConsumer::new();
    first.parse_message(&templates).unwrap();
    second.parse_message(&templates).unwrap();
    assert_eq!(first.templates, second.templates);
    assert_eq!(first.options_templates, second.options_templates);
    let (rest_a, a) = first.parse_message(&data).unwrap();
    let (rest_b, b) = second.parse_message(&data).unwrap();
    assert_eq!(rest_a, rest_b);
    assert_eq!(a.len(), 2);
    assert_eq!(a.len(), b.len());
    for (x, y) in a.iter().zip(b.iter()) {
        assert_eq!(x.header, y.header);
        assert_eq!(x.records, y.records);
    }
    let bad = &data[..data.len() - 1];
    assert_eq!(first.parse_message(bad).err(), second.parse_message(bad).err());
}

#[test]
fn every_record_has_one_entry_for_each_specifier() {
    let mut consumer = IpfixConsumer::new();
    let wide: Vec<FieldSpecifier> = (1..=27).map(|id| spec(id, 1)).collect();
    let mut body = Vec::new();
    for i in 0..5u8 {
        body.extend(std::iter::repeat(i).take(27));
    }
    let data = message(&[set(2, &template_record(500, &wide)), set(500, &body)]);
    let (_, data_sets) = consumer.parse_message(&data).unwrap();
    assert_eq!(data_sets[0].records.len(), 5);
    for record in &data_sets[0].records {
        assert_eq!(record.len(), consumer.templates[&500].field_specifiers.len());
    }
}

#[test]
fn set_kind_follows_the_set_id() {
    assert_eq!(SetHeader { set_id: 2, length: 4 }.kind(), SetKind::Template);
    assert_eq!(SetHeader { set_id: 3, length: 4 }.kind(), SetKind::OptionsTemplate);
    for id in [0u16, 1, 4, 255, 256, 999, 65535] {
        assert_eq!(SetHeader { set_id: id, length: 4 }.kind(), SetKind::Data);
    }
}

#[test]
fn sets_are_split_in_order() {
    let mut input = set(2, &[1, 2, 3, 4]);
    input.extend(set(300, &[]));
    input.extend(set(3, &[9]));
    let (sets, fault) = split_sets(&input);
    assert_eq!(fault, None);
    assert_eq!(
        sets,
        vec![
            SetSlice { header: SetHeader { set_id: 2, length: 8 }, body: &[1, 2, 3, 4] },
            SetSlice { header: SetHeader { set_id: 300, length: 4 }, body: &[] },
            SetSlice { header: SetHeader { set_id: 3, length: 5 }, body: &[9] },
        ]
    );
    let (sets, fault) = split_sets(&[]);
    assert!(sets.is_empty());
    assert_eq!(fault, None);
}

#[test]
fn sets_before_a_fault_are_handed_back_with_it() {
    let mut input = set(2, &[1, 2, 3, 4]);
    input.extend_from_slice(&[0x01, 0x00, 0x00, 0x02]);
    let (sets, fault) = split_sets(&input);
    assert_eq!(sets.len(), 1);
    assert_eq!(fault, Some(ParseError::InvalidSetLength(2)));
    let mut input = set(2, &[1, 2, 3, 4]);
    input.extend_from_slice(&[0x01, 0x00, 0x00, 0x09, 0]);
    let (sets, fault) = split_sets(&input);
    assert_eq!(sets.len(), 1);
    assert_eq!(fault, Some(ParseError::Truncated));
    let (sets, fault) = split_sets(&[0x01]);
    assert!(sets.is_empty());
    assert_eq!(fault, Some(ParseError::Truncated));
}

#[test]
fn structure_of_a_message_is_its_header_and_its_sets() {
    let data = message(&[set(2, &template_record(256, &flow_fields())), set(256, &[1, 2])]);
    let (header, sets) = parse_structure(&data).unwrap();
    assert_eq!(header.version, 10);
    assert_eq!(header.length as usize, data.len());
    assert_eq!(header.export_time, 0x5834_94ca);
    assert_eq!(header.sequence_number, 7);
    assert_eq!(header.observation_domain_id, 200);
    assert_eq!(sets.len(), 2);
    assert_eq!(sets[0].header, SetHeader { set_id: 2, length: 20 });
    assert_eq!(sets[0].body, &template_record(256, &flow_fields())[..]);
    assert_eq!(sets[1], SetSlice { header: SetHeader { set_id: 256, length: 6 }, body: &[1, 2] });
    let total: usize = 16 + sets.iter().map(|s| s.header.length as usize).sum::<usize>();
    assert_eq!(total, data.len());
}

#[test]
fn structure_of_a_faulty_message_is_rejected() {
    let data = message(&[set(2, &template_record(256, &flow_fields())), set(256, &[1, 2])]);
    assert_eq!(parse_structure(&data[..10]), Err(ParseError::Truncated));
    assert_eq!(parse_structure(&data[..data.len() - 1]), Err(ParseError::Truncated));
    let mut longer = data.clone();
    longer.push(0);
    assert_eq!(parse_structure(&longer), Err(ParseError::TrailingBytes));
    let mut old = data.clone();
    old[1] = 5;
    assert_eq!(parse_structure(&old), Err(ParseError::UnsupportedVersion(5)));
    let mut short_set = data.clone();
    short_set[16 + 3] = 1;
    assert_eq!(parse_structure(&short_set), Err(ParseError::InvalidSetLength(1)));
    let mut long_set = data.clone();
    long_set[16 + 20 + 3] = 7;
    assert_eq!(parse_structure(&long_set), Err(ParseError::Truncated));
}

#[test]
fn copies_hold_what_their_sources_hold() {
    assert_eq!(copy_specifiers(&flow_fields()), flow_fields());
    assert!(copy_specifiers(&Vec::new()).is_empty());
    let template = Template {
        header: TemplateHeader { template_id: 256, field_count: 3 },
        field_specifiers: flow_fields(),
    };
    assert_eq!(template.duplicate(), template);
    let options = OptionsTemplate {
        header: OptionsTemplateHeader { id: 700, field_count: 3, scope_field_count: 2 },
        field_specifiers: flow_fields(),
    };
    assert_eq!(options.duplicate(), options);
}

#[test]
fn installing_a_decoded_set_fills_the_cache() {
    let mut consumer = IpfixConsumer::new();
    let mut body = template_record(256, &flow_fields());
    body.extend(template_record(257, &[spec(1, 8)]));
    let decoded = consumer.parse_set(SetSlice { header: SetHeader { set_id: 2, length: 32 }, body: &body }).unwrap();
    consumer.install_set(&decoded);
    assert_eq!(consumer.templates.len(), 2);
    assert_eq!(consumer.lookup(257), Some(&vec![spec(1, 8)]));
    let body = options_template_record(700, 1, &[spec(149, 4)]);
    let decoded = consumer.parse_set(SetSlice { header: SetHeader { set_id: 3, length: 14 }, body: &body }).unwrap();
    consumer.install_set(&decoded);
    assert_eq!(consumer.options_templates.len(), 1);
    let decoded = consumer.parse_set(SetSlice { header: SetHeader { set_id: 256, length: 11 }, body: &[0; 7] }).unwrap();
    consumer.install_set(&decoded);
    assert_eq!(consumer.templates.len(), 2);
    assert_eq!(consumer.options_templates.len(), 1);
}

#[test]
fn message_decoded_in_full_holds_every_decoded_set() {
    let mut consumer = IpfixConsumer::new();
    let mut records = flow_record(6, 443, [10, 0, 0, 1]);
    records.extend(flow_record(17, 53, [10, 0, 0, 2]));
    let data = message(&[
        set(4000, &[1, 2, 3]),
        set(2, &template_record(256, &flow_fields())),
        set(256, &records),
        set(3, &options_template_record(700, 1, &[spec(149, 4)])),
        set(700, &[0, 0, 0, 9]),
    ]);
    let decoded = consumer.decode_message(&data).unwrap();
    assert_eq!(decoded.header.length as usize, data.len());
    assert_eq!(decoded.header.sequence_number, 7);
    assert_eq!(decoded.sets.len(), 4);
    match &decoded.sets[0] {
        IpfixSet::TemplateSet(templates) => {
            assert_eq!(templates.header, SetHeader { set_id: 2, length: 20 });
            assert_eq!(templates.records.len(), 1);
            assert_eq!(templates.records[0].field_specifiers, flow_fields());
        }
        _ => panic!("a template set"),
    }
    match &decoded.sets[1] {
        IpfixSet::DataSet(data_set) => {
            assert_eq!(data_set.header, SetHeader { set_id: 256, length: 18 });
            assert_eq!(data_set.records.len(), 2);
        }
        _ => panic!("a data set"),
    }
    match &decoded.sets[2] {
        IpfixSet::OptionsTemplateSet(templates) => assert_eq!(templates.records[0].header.id, 700),
        _ => panic!("an options template set"),
    }
    match &decoded.sets[3] {
        IpfixSet::DataSet(data_set) => assert_eq!(
            data_set.records[0].values,
            vec![(DataRecordKey::Str("sourceId"), DataRecordValue::U32(9))]
        ),
        _ => panic!("a data set"),
    }
    assert_eq!(consumer.templates.len(), 1);
    assert_eq!(consumer.options_templates.len(), 1);
}

#[test]
fn both_decodings_give_the_same_data_sets() {
    let mut records = flow_record(6, 443, [10, 0, 0, 1]);
    records.extend(flow_record(17, 53, [10, 0, 0, 2]));
    let data = message(&[
        set(2, &template_record(256, &flow_fields())),
        set(256, &records),
        set(257, &[1]),
        set(256, &records[..7]),
    ]);
    let mut first = IpfixConsumer::new();
    let mut second = IpfixConsumer::new();
    let (_, data_sets) = first.parse_message(&data).unwrap();
    let decoded = second.decode_message(&data).unwrap();
    let mut among: Vec<&ipfix::DataSet> = Vec::new();
    for decoded_set in &decoded.sets {
        if let IpfixSet::DataSet(data_set) = decoded_set {
            among.push(data_set);
        }
    }
    assert_eq!(data_sets.len(), 2);
    assert_eq!(among.len(), 2);
    for (x, y) in data_sets.iter().zip(among) {
        assert_eq!(x.header, y.header);
        assert_eq!(x.records, y.records);
    }
    assert_eq!(first.templates, second.templates);
}

#[test]
fn message_decoded_in_full_is_rejected_as_its_data_sets_are() {
    let mut data = message(&[
        set(2, &template_record(256, &flow_fields())),
        set(2, &template_record(257, &flow_fields())),
    ]);
    data[16 + 20 + 3] = 2;
    let mut first = IpfixConsumer::new();
    let mut second = IpfixConsumer::new();
    assert_eq!(first.parse_message(&data).err(), Some(ParseError::InvalidSetLength(2)));
    assert_eq!(second.decode_message(&data).err(), Some(ParseError::InvalidSetLength(2)));
    assert_eq!(first.templates.len(), 1);
    assert_eq!(first.templates, second.templates);
    data[1] = 11;
    assert_eq!(second.decode_message(&data).err(), Some(ParseError::UnsupportedVersion(11)));
    assert_eq!(second.templates.len(), 1);
}
