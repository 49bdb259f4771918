//! Decoding the body of a data set against the field specifiers of a template.

use vstd::prelude::*;
use vstd::slice::slice_subrange;
use vstd::string::StringExecFns;
use crate::conversions::{be_buf_to_u16, spec_be_u16};
use crate::error::ParseError;
use crate::formatter::{registry_view, EnterpriseFormatter, RegistryView, IANA_ENTERPRISE};
use crate::header::SetHeader;
use crate::record::{
    records_view,
    DataRecord,
    DataRecordKey,
    DataRecordValue,
    DataSet,
    EntryView,
    KeyView,
    RecordView,
    ValueView,
};
use crate::template::{FieldSpecifier, VARIABLE_LENGTH};
use crate::text::{push_decimal, spec_decimal};

verus! {

/// The length byte that announces a length of two more bytes.
pub const LONG_LENGTH_MARK: u8 = 255;

/// What taking one field of the declared length `field_length` off the front of
/// `s` gives: the bytes of the value and the number of bytes taken in all, or
/// nothing where `s` ends too early.
///
/// A field of variable length opens with one length byte; the value 255 there
/// stands for a length in the two bytes after it.
pub open spec fn spec_take_field(s: Seq<u8>, field_length: u16) -> Option<(Seq<u8>, nat)> {
    if field_length != VARIABLE_LENGTH {
        if s.len() >= field_length {
            Some((s.take(field_length as int), field_length as nat))
        } else {
            None
        }
    } else if s.len() < 1 {
        None
    } else if s[0] != LONG_LENGTH_MARK {
        if s.len() >= 1 + s[0] {
            Some((s.subrange(1, 1 + s[0]), (1 + s[0]) as nat))
        } else {
            None
        }
    } else if s.len() < 3 {
        None
    } else if s.len() >= 3 + spec_be_u16(s.skip(1)) {
        Some((s.subrange(3, 3 + spec_be_u16(s.skip(1))), (3 + spec_be_u16(s.skip(1))) as nat))
    } else {
        None
    }
}

/// What taking the fields of one record off the front of `s` gives: the bytes of
/// each value, in the order of the specifiers, and the number of bytes taken in
/// all; or nothing where `s` ends before the record does.
pub open spec fn spec_take_fields(s: Seq<u8>, specifiers: Seq<FieldSpecifier>) -> Option<
    (Seq<Seq<u8>>, nat),
>
    decreases specifiers.len(),
{
    if specifiers.len() == 0 {
        Some((Seq::empty(), 0))
    } else {
        match spec_take_fields(s, specifiers.drop_last()) {
            None => None,
            Some((values, used)) => match spec_take_field(
                s.skip(used as int),
                specifiers.last().field_length,
            ) {
                None => None,
                Some((value, n)) => Some((values.push(value), used + n)),
            },
        }
    }
}

/// The enterprise under which a field is looked up: the one its specifier names,
/// or IANA's where it names none.
pub open spec fn spec_enterprise(field: FieldSpecifier) -> u32 {
    match field.enterprise_number {
        Some(pen) => pen,
        None => IANA_ENTERPRISE,
    }
}

/// The message of the key under which a field of an enterprise that the registry
/// does not hold is reported.
pub open spec fn spec_unsupported_pen_message(pen: u32, ident: u16) -> Seq<char> {
    "unsupported pen "@ + spec_decimal(pen as nat) + " when trying to parse field "@
        + spec_decimal(ident as nat)
}

/// The entry that a field with the bytes `bytes` makes in a record.
///
/// A field of an enterprise that the registry does not hold is reported under an
/// error key, with no value. A field that its enterprise does not hold keeps its
/// id as key and its bytes as value. Any other field gets its registered name and
/// the value that its registered parser reads.
pub open spec fn spec_enrich_field(
    registry: RegistryView,
    field: FieldSpecifier,
    bytes: Seq<u8>,
) -> EntryView {
    let pen = spec_enterprise(field);
    if !registry.contains_key(pen) {
        (KeyView::Error(spec_unsupported_pen_message(pen, field.ident)), ValueView::Empty)
    } else if !registry[pen].contains_key(field.ident) {
        (KeyView::Unrecognized(field.ident), ValueView::Bytes(bytes))
    } else {
        (
            KeyView::Str(registry[pen][field.ident].0),
            registry[pen][field.ident].1.spec_parse(bytes),
        )
    }
}

/// The entries that the values of one record make, one for each specifier that
/// has a value.
pub open spec fn spec_enrich_fields(
    registry: RegistryView,
    specifiers: Seq<FieldSpecifier>,
    values: Seq<Seq<u8>>,
) -> RecordView {
    Seq::new(
        if specifiers.len() <= values.len() {
            specifiers.len()
        } else {
            values.len()
        },
        |i: int| spec_enrich_field(registry, specifiers[i], values[i]),
    )
}

/// What decoding one record from the front of `s` gives: the record and the
/// number of bytes it took, or nothing where `s` ends before the record does.
pub open spec fn spec_decode_record(
    registry: RegistryView,
    specifiers: Seq<FieldSpecifier>,
    s: Seq<u8>,
) -> Option<(RecordView, nat)> {
    match spec_take_fields(s, specifiers) {
        None => None,
        Some((values, used)) => Some((spec_enrich_fields(registry, specifiers, values), used)),
    }
}

/// The records that lie back to back at the front of `s`, and the number of bytes
/// they take. The list ends where `s` does not hold another record in full; what
/// is left there is padding. It also ends at a record that takes no bytes at all,
/// as every record of a template without fields would.
pub open spec fn spec_decode_records(
    registry: RegistryView,
    specifiers: Seq<FieldSpecifier>,
    s: Seq<u8>,
) -> (Seq<RecordView>, nat)
    decreases s.len(),
    via spec_decode_records_decreases
{
    match spec_decode_record(registry, specifiers, s) {
        None => (Seq::empty(), 0),
        Some((record, n)) => if n == 0 {
            (Seq::empty(), 0)
        } else {
            let (records, used) = spec_decode_records(registry, specifiers, s.skip(n as int));
            (seq![record] + records, n + used)
        },
    }
}

#[via_fn]
proof fn spec_decode_records_decreases(
    registry: RegistryView,
    specifiers: Seq<FieldSpecifier>,
    s: Seq<u8>,
) {
    lemma_take_fields_bounds(s, specifiers);
}

/// The values of the raw fields of `v`, each as its bytes.
pub open spec fn values_view<'a>(v: Seq<&'a [u8]>) -> Seq<Seq<u8>> {
    v.map_values(|bytes: &'a [u8]| bytes@)
}

/// A field that is taken lies inside `s`.
pub proof fn lemma_take_field_bounds(s: Seq<u8>, field_length: u16)
    ensures
        spec_take_field(s, field_length) matches Some((value, n)) ==> n <= s.len() && value.len()
            <= n,
{
}

/// The fields that are taken lie inside `s`, and there is one value for each
/// specifier.
pub proof fn lemma_take_fields_bounds(s: Seq<u8>, specifiers: Seq<FieldSpecifier>)
    ensures
        spec_take_fields(s, specifiers) matches Some((values, used)) ==> used <= s.len()
            && values.len() == specifiers.len(),
    decreases specifiers.len(),
{
    if specifiers.len() > 0 {
        lemma_take_fields_bounds(s, specifiers.drop_last());
    }
}

/// Where `s` is too short for the first `k` fields of a record it is too short
/// for the record.
pub proof fn lemma_take_fields_short(s: Seq<u8>, specifiers: Seq<FieldSpecifier>, k: int)
    requires
        0 <= k <= specifiers.len(),
        spec_take_fields(s, specifiers.take(k)) is None,
    ensures
        spec_take_fields(s, specifiers) is None,
    decreases specifiers.len(),
{
    if k < specifiers.len() {
        assert(specifiers.drop_last().take(k) =~= specifiers.take(k));
        lemma_take_fields_short(s, specifiers.drop_last(), k);
    } else {
        assert(specifiers.take(k) =~= specifiers);
    }
}

/// Takes one field of the declared length `field_size` off the front of `input`:
/// hands back the bytes that follow the field, and the bytes of its value.
pub fn take_field<'a>(input: &'a [u8], field_size: u16) -> (r: Result<
    (&'a [u8], &'a [u8]),
    ParseError,
>)
    ensures
        match r {
            Ok((rest, value)) => spec_take_field(input@, field_size) matches Some((bytes, n))
                && value@ == bytes && rest@ == input@.skip(n as int),
            Err(e) => spec_take_field(input@, field_size) is None && e == ParseError::Truncated,
        },
{
    let mut start: usize = 0;
    let mut size: usize = field_size as usize;
    if field_size == VARIABLE_LENGTH {
        if input.len() < 1 {
            return Err(ParseError::Truncated);
        }
        if input[0] != LONG_LENGTH_MARK {
            start = 1;
            size = input[0] as usize;
        } else {
            if input.len() < 3 {
                return Err(ParseError::Truncated);
            }
            start = 3;
            size = be_buf_to_u16(slice_subrange(input, 1, 3)) as usize;
            assert(spec_be_u16(input@.subrange(1, 3)) == spec_be_u16(input@.skip(1)));
        }
    }
    if input.len() - start < size {
        return Err(ParseError::Truncated);
    }
    let value = slice_subrange(input, start, start + size);
    let rest = slice_subrange(input, start + size, input.len());
    assert(field_size != VARIABLE_LENGTH ==> value@ =~= input@.take(field_size as int));
    Ok((rest, value))
}

/// Takes the fields of one record off the front of `input`: hands back the bytes
/// that follow the record, and the bytes of each value in the order of the
/// specifiers.
pub fn take_fields<'a>(input: &'a [u8], specifiers: &Vec<FieldSpecifier>) -> (r: Result<
    (&'a [u8], Vec<&'a [u8]>),
    ParseError,
>)
    ensures
        match r {
            Ok((rest, values)) => spec_take_fields(input@, specifiers@) matches Some((bytes, n))
                && values_view(values@) == bytes && rest@ == input@.skip(n as int)
                && values@.len() == specifiers@.len(),
            Err(e) => spec_take_fields(input@, specifiers@) is None && e
                == ParseError::Truncated,
        },
{
    let mut values: Vec<&'a [u8]> = Vec::new();
    let mut rest: &'a [u8] = input;
    let ghost mut used: nat = 0;
    let mut i: usize = 0;
    assert(input@.skip(0) =~= input@);
    assert(specifiers@.take(0) =~= Seq::empty());
    assert(values_view(values@) =~= Seq::empty());
    while i < specifiers.len()
        invariant
            i <= specifiers@.len(),
            used <= input@.len(),
            rest@ == input@.skip(used as int),
            values@.len() == i,
            spec_take_fields(input@, specifiers@.take(i as int)) == Some(
                (values_view(values@), used),
            ),
        decreases specifiers@.len() - i,
    {
        assert(specifiers@.take(i + 1).drop_last() =~= specifiers@.take(i as int));
        match take_field(rest, specifiers[i].field_length) {
            Ok((after, value)) => {
                proof {
                    let n = spec_take_field(rest@, specifiers@[i as int].field_length).unwrap().1;
                    lemma_take_field_bounds(rest@, specifiers@[i as int].field_length);
                    assert(after@ =~= input@.skip((used + n) as int));
                    assert(values_view(values@.push(value)) =~= values_view(values@).push(
                        value@,
                    ));
                    used = used + n;
                }
                values.push(value);
                rest = after;
            },
            Err(e) => {
                proof {
                    lemma_take_fields_short(input@, specifiers@, i + 1);
                }
                return Err(e);
            },
        }
        i = i + 1;
    }
    assert(specifiers@.take(i as int) =~= specifiers@);
    Ok((rest, values))
}

/// Builds the message of the key under which a field of an enterprise that the
/// registry does not hold is reported.
pub fn unsupported_pen_message(pen: u32, ident: u16) -> (r: String)
    ensures
        r@ == spec_unsupported_pen_message(pen, ident),
{
    let mut message = String::from_str("unsupported pen ");
    push_decimal(&mut message, pen as u64);
    message.append(" when trying to parse field ");
    push_decimal(&mut message, ident as u64);
    message
}

/// Makes the record entry of one field: looks the field up in the registry and
/// reads its bytes with the parser registered for it.
pub fn enrich_field<'a>(
    field: &FieldSpecifier,
    bytes: &'a [u8],
    formatters: &EnterpriseFormatter,
) -> (r: (DataRecordKey<'a>, DataRecordValue<'a>))
    ensures
        (r.0@, r.1@) == spec_enrich_field(registry_view(*formatters), *field, bytes@),
{
    broadcast use vstd::std_specs::hash::group_hash_axioms;

    let pen: u32 = match field.enterprise_number {
        Some(pen) => pen,
        None => IANA_ENTERPRISE,
    };
    match formatters.get(&pen) {
        Some(fields) => match fields.get(&field.ident) {
            Some(entry) => {
                let name: &'static str = entry.0;
                (DataRecordKey::Str(name), entry.1.parse(bytes))
            },
            None => (DataRecordKey::Unrecognized(field.ident), DataRecordValue::Bytes(bytes)),
        },
        None => (
            DataRecordKey::Error(unsupported_pen_message(pen, field.ident)),
            DataRecordValue::Empty,
        ),
    }
}

/// Makes the entries of one record from the bytes of its values: one entry for
/// each specifier that has a value, in the order of the specifiers.
pub fn enrich_fields<'a>(
    values: &Vec<&'a [u8]>,
    specifiers: &Vec<FieldSpecifier>,
    formatters: &EnterpriseFormatter,
) -> (r: DataRecord<'a>)
    ensures
        r@ == spec_enrich_fields(
            registry_view(*formatters),
            specifiers@,
            values_view(values@),
        ),
{
    let count: usize = if specifiers.len() <= values.len() {
        specifiers.len()
    } else {
        values.len()
    };
    let mut entries: Vec<(DataRecordKey<'a>, DataRecordValue<'a>)> = Vec::new();
    let mut i: usize = 0;
    while i < count
        invariant
            i <= count,
            count <= specifiers@.len(),
            count <= values@.len(),
            entries@.len() == i,
            forall|k: int|
                0 <= k < i ==> (#[trigger] entries@[k].0@, entries@[k].1@) == spec_enrich_field(
                    registry_view(*formatters),
                    specifiers@[k],
                    values@[k]@,
                ),
        decreases count - i,
    {
        let entry = enrich_field(&specifiers[i], values[i], formatters);
        entries.push(entry);
        i = i + 1;
    }
    let record = DataRecord { values: entries };
    assert(record@ =~= spec_enrich_fields(
        registry_view(*formatters),
        specifiers@,
        values_view(values@),
    ));
    record
}


/// Decodes the body of a data set against the field specifiers of its template:
/// one record after another, until the body does not hold another record in
/// full. Hands back the bytes that are left, which are padding, and the data set.
///
/// A record that would take no bytes ends the list as well, so a template
/// without fields, or with fields of length zero only, gives no records.
pub fn parse_data_set<'a>(
    data: &'a [u8],
    set_header: SetHeader,
    field_specifiers: &Vec<FieldSpecifier>,
    formatters: &EnterpriseFormatter,
) -> (r: (&'a [u8], DataSet<'a>))
    ensures
        r.1.header == set_header,
        records_view(r.1.records@) == spec_decode_records(
            registry_view(*formatters),
            field_specifiers@,
            data@,
        ).0,
        r.0@ == data@.skip(
            spec_decode_records(registry_view(*formatters), field_specifiers@, data@).1 as int,
        ),
        forall|i: int|
            0 <= i < r.1.records@.len() ==> (#[trigger] r.1.records@[i])@.len()
                == field_specifiers@.len(),
{
    let ghost registry = registry_view(*formatters);
    let ghost specifiers = field_specifiers@;
    let mut records: Vec<DataRecord<'a>> = Vec::new();
    let mut rest: &'a [u8] = data;
    let ghost mut used: nat = 0;
    assert(data@.skip(0) =~= data@);
    assert(records_view(records@) =~= Seq::empty());
    loop
        invariant
            registry == registry_view(*formatters),
            specifiers == field_specifiers@,
            used <= data@.len(),
            rest@ == data@.skip(used as int),
            spec_decode_records(registry, specifiers, data@) == (
                records_view(records@) + spec_decode_records(registry, specifiers, rest@).0,
                used + spec_decode_records(registry, specifiers, rest@).1,
            ),
            forall|i: int|
                0 <= i < records@.len() ==> (#[trigger] records@[i])@.len() == specifiers.len(),
        ensures
            spec_decode_records(registry, specifiers, rest@) == (Seq::<RecordView>::empty(), 0nat),
        decreases rest@.len(),
    {
        proof {
            lemma_take_fields_bounds(rest@, specifiers);
        }
        match take_fields(rest, field_specifiers) {
            Ok((after, values)) => {
                if after.len() == rest.len() {
                    break ;
                }
                let record = enrich_fields(&values, field_specifiers, formatters);
                proof {
                    let n = spec_take_fields(rest@, specifiers).unwrap().1;
                    let tail = spec_decode_records(registry, specifiers, after@);
                    assert(records_view(records@.push(record)) =~= records_view(records@).push(
                        record@,
                    ));
                    assert(records_view(records@).push(record@) + tail.0 =~= records_view(
                        records@,
                    ) + (seq![record@] + tail.0));
                    assert(after@ =~= data@.skip((used + n) as int));
                    used = used + n;
                }
                records.push(record);
                rest = after;
            },
            Err(_) => {
                break ;
            },
        }
    }
    assert(records_view(records@) + Seq::<RecordView>::empty() =~= records_view(records@));
    (rest, DataSet { header: set_header, records })
}

/// Every record that is decoded has one entry for each field specifier, and the
/// records lie inside `s`.
pub proof fn lemma_records_have_one_entry_per_specifier(
    registry: RegistryView,
    specifiers: Seq<FieldSpecifier>,
    s: Seq<u8>,
)
    ensures
        spec_decode_records(registry, specifiers, s).1 <= s.len(),
        forall|j: int|
            0 <= j < spec_decode_records(registry, specifiers, s).0.len() ==> (
            #[trigger] spec_decode_records(registry, specifiers, s).0[j]).len()
                == specifiers.len(),
    decreases s.len(),
{
    lemma_take_fields_bounds(s, specifiers);
    match spec_decode_record(registry, specifiers, s) {
        None => {},
        Some((record, n)) => {
            if n > 0 {
                lemma_records_have_one_entry_per_specifier(registry, specifiers, s.skip(n as int));
            }
        },
    }
}

/// A field that the registry knows, by the enterprise and the id of its
/// specifier, gets the registered name as its key, and a typed value: never the
/// raw bytes.
pub proof fn lemma_known_field_is_named_and_typed(
    registry: RegistryView,
    field: FieldSpecifier,
    bytes: Seq<u8>,
)
    requires
        registry.contains_key(spec_enterprise(field)),
        registry[spec_enterprise(field)].contains_key(field.ident),
    ensures
        spec_enrich_field(registry, field, bytes).0 == KeyView::Str(
            registry[spec_enterprise(field)][field.ident].0,
        ),
        !spec_enrich_field(registry, field, bytes).1.is_raw(),
{
}

/// In every record that is decoded, the entry of each field that the registry
/// knows has the registered name as its key, and a typed value.
pub proof fn lemma_known_fields_are_named_and_typed(
    registry: RegistryView,
    specifiers: Seq<FieldSpecifier>,
    s: Seq<u8>,
)
    ensures
        forall|j: int, i: int|
            #![trigger spec_decode_records(registry, specifiers, s).0[j][i]]
            0 <= j < spec_decode_records(registry, specifiers, s).0.len() && 0 <= i
                < specifiers.len() && registry.contains_key(spec_enterprise(specifiers[i]))
                && registry[spec_enterprise(specifiers[i])].contains_key(specifiers[i].ident)
                ==> {
                let entry = spec_decode_records(registry, specifiers, s).0[j][i];
                &&& entry.0 == KeyView::Str(
                    registry[spec_enterprise(specifiers[i])][specifiers[i].ident].0,
                )
                &&& !entry.1.is_raw()
            },
    decreases s.len(),
{
    lemma_take_fields_bounds(s, specifiers);
    match spec_decode_record(registry, specifiers, s) {
        None => {},
        Some((record, n)) => {
            if n > 0 {
                lemma_known_fields_are_named_and_typed(registry, specifiers, s.skip(n as int));
            }
        },
    }
}

/// A field of variable length whose length byte is zero has an empty value, and
/// takes the length byte and nothing more.
pub proof fn lemma_variable_length_zero(s: Seq<u8>)
    requires
        s.len() >= 1,
        s[0] == 0,
    ensures
        spec_take_field(s, VARIABLE_LENGTH) == Some((Seq::<u8>::empty(), 1nat)),
{
    assert(s.subrange(1, 1) =~= Seq::<u8>::empty());
}


/// No field of the list has a variable length.
pub open spec fn spec_all_fixed(specifiers: Seq<FieldSpecifier>) -> bool {
    forall|i: int|
        0 <= i < specifiers.len() ==> (#[trigger] specifiers[i]).field_length != VARIABLE_LENGTH
}

/// The sum of the lengths of the fields that have a fixed length. No record
/// takes fewer bytes; where every field has a fixed length every record takes
/// exactly as many.
pub open spec fn spec_record_size(specifiers: Seq<FieldSpecifier>) -> nat
    decreases specifiers.len(),
{
    if specifiers.len() == 0 {
        0
    } else if specifiers.last().field_length == VARIABLE_LENGTH {
        spec_record_size(specifiers.drop_last())
    } else {
        spec_record_size(specifiers.drop_last()) + specifiers.last().field_length as nat
    }
}

/// A record takes the sum of the lengths of its fixed fields at least.
pub proof fn lemma_record_size_is_least(s: Seq<u8>, specifiers: Seq<FieldSpecifier>)
    ensures
        spec_take_fields(s, specifiers) matches Some((values, used)) ==> used >= spec_record_size(
            specifiers,
        ),
    decreases specifiers.len(),
{
    if specifiers.len() > 0 {
        lemma_record_size_is_least(s, specifiers.drop_last());
    }
}

/// What is taken for a field depends on the bytes that are taken and on no byte
/// after them.
pub proof fn lemma_take_field_prefix(s: Seq<u8>, t: Seq<u8>, field_length: u16)
    requires
        spec_take_field(s, field_length) is Some,
        spec_take_field(s, field_length).unwrap().1 <= t.len(),
        t.take(spec_take_field(s, field_length).unwrap().1 as int) == s.take(
            spec_take_field(s, field_length).unwrap().1 as int,
        ),
    ensures
        spec_take_field(t, field_length) == spec_take_field(s, field_length),
{
    let (value, n) = spec_take_field(s, field_length).unwrap();
    assert forall|i: int| 0 <= i < n implies t[i] == s[i] by {
        assert(t.take(n as int)[i] == s.take(n as int)[i]);
    }
    if field_length != VARIABLE_LENGTH {
        assert(t.take(field_length as int) =~= s.take(field_length as int));
    } else if s[0] != LONG_LENGTH_MARK {
        assert(t.subrange(1, 1 + t[0]) =~= s.subrange(1, 1 + s[0]));
    } else {
        assert(t.skip(1)[0] == s.skip(1)[0]);
        assert(t.skip(1)[1] == s.skip(1)[1]);
        let len = spec_be_u16(s.skip(1));
        assert(t.subrange(3, 3 + len) =~= s.subrange(3, 3 + len));
    }
}

/// What is taken for the fields of a record depends on the bytes that are taken
/// and on no byte after them.
pub proof fn lemma_take_fields_prefix(s: Seq<u8>, t: Seq<u8>, specifiers: Seq<FieldSpecifier>)
    requires
        spec_take_fields(s, specifiers) is Some,
        spec_take_fields(s, specifiers).unwrap().1 <= t.len(),
        t.take(spec_take_fields(s, specifiers).unwrap().1 as int) == s.take(
            spec_take_fields(s, specifiers).unwrap().1 as int,
        ),
    ensures
        spec_take_fields(t, specifiers) == spec_take_fields(s, specifiers),
    decreases specifiers.len(),
{
    if specifiers.len() > 0 {
        let (values, used) = spec_take_fields(s, specifiers).unwrap();
        let (front, before) = spec_take_fields(s, specifiers.drop_last()).unwrap();
        let length = specifiers.last().field_length;
        let (value, n) = spec_take_field(s.skip(before as int), length).unwrap();
        lemma_take_fields_bounds(s, specifiers);
        lemma_take_fields_bounds(s, specifiers.drop_last());
        assert(t.take(before as int) =~= t.take(used as int).take(before as int));
        assert(s.take(before as int) =~= s.take(used as int).take(before as int));
        lemma_take_fields_prefix(s, t, specifiers.drop_last());
        assert(t.skip(before as int).take(n as int) =~= t.take(used as int).skip(before as int));
        assert(s.skip(before as int).take(n as int) =~= s.take(used as int).skip(before as int));
        lemma_take_field_prefix(s.skip(before as int), t.skip(before as int), length);
    }
}

/// The bytes of a data set body that follow its last record are discarded: the
/// records are those of the body without these bytes.
pub proof fn lemma_trailing_bytes_are_discarded(
    registry: RegistryView,
    specifiers: Seq<FieldSpecifier>,
    s: Seq<u8>,
)
    ensures
        spec_decode_records(registry, specifiers, s).1 <= s.len(),
        spec_decode_records(
            registry,
            specifiers,
            s.take(spec_decode_records(registry, specifiers, s).1 as int),
        ) == spec_decode_records(registry, specifiers, s),
    decreases s.len(),
{
    let (records, total) = spec_decode_records(registry, specifiers, s);
    lemma_records_have_one_entry_per_specifier(registry, specifiers, s);
    lemma_take_fields_bounds(s, specifiers);
    let kept = s.take(total as int);
    lemma_take_fields_bounds(kept, specifiers);
    match spec_take_fields(s, specifiers) {
        Some((values, n)) => {
            if n > 0 {
                let tail = s.skip(n as int);
                let (later, used) = spec_decode_records(registry, specifiers, tail);
                lemma_trailing_bytes_are_discarded(registry, specifiers, tail);
                assert(kept.take(n as int) =~= s.take(n as int));
                lemma_take_fields_prefix(s, kept, specifiers);
                assert(kept.skip(n as int) =~= tail.take(used as int));
            }
        },
        None => {},
    }
}

/// Where every field has a fixed length, a record takes the sum of the field
/// lengths, and there is one exactly where that many bytes are left.
pub proof fn lemma_fixed_record_size(s: Seq<u8>, specifiers: Seq<FieldSpecifier>)
    requires
        spec_all_fixed(specifiers),
    ensures
        spec_take_fields(s, specifiers) is Some <==> s.len() >= spec_record_size(specifiers),
        spec_take_fields(s, specifiers) matches Some((values, used)) ==> used == spec_record_size(
            specifiers,
        ),
    decreases specifiers.len(),
{
    if specifiers.len() > 0 {
        assert(spec_all_fixed(specifiers.drop_last()));
        lemma_fixed_record_size(s, specifiers.drop_last());
    }
}

/// Where every field has a fixed length and a record takes at least one byte, a
/// body holds as many records as its length holds whole record sizes. The bytes
/// that are left over, fewer than one record, are discarded.
pub proof fn lemma_fixed_size_record_count(
    registry: RegistryView,
    specifiers: Seq<FieldSpecifier>,
    s: Seq<u8>,
)
    requires
        spec_all_fixed(specifiers),
        spec_record_size(specifiers) > 0,
    ensures
        spec_decode_records(registry, specifiers, s).0.len() == s.len() / spec_record_size(
            specifiers,
        ),
        spec_decode_records(registry, specifiers, s).1 == s.len() - s.len() % spec_record_size(
            specifiers,
        ),
    decreases s.len(),
{
    let size = spec_record_size(specifiers) as int;
    let len = s.len() as int;
    lemma_fixed_record_size(s, specifiers);
    if len >= size {
        lemma_fixed_size_record_count(registry, specifiers, s.skip(size));
        assert((len - size) / size + 1 == len / size && (len - size) % size == len % size)
            by (nonlinear_arith)
            requires
                size > 0,
                len >= size,
        ;
    } else {
        assert(len / size == 0 && len % size == len) by (nonlinear_arith)
            requires
                size > 0,
                0 <= len < size,
        ;
    }
}

} // verus!
