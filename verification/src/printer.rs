//! Decoded records as JSON text.

use vstd::prelude::*;
use vstd::string::StringExecFns;
use crate::record::{
    DataRecord,
    DataRecordKey,
    DataRecordValue,
    DataSet,
    DataSetView,
    KeyView,
    RecordView,
    ValueView,
};
use crate::text::{push_char, push_decimal, spec_decimal};

verus! {

/// The character that writes the hexadecimal digit `d`, in lower case.
pub open spec fn spec_hex_digit(d: nat) -> char
    recommends
        d < 16,
{
    if d < 10 {
        ((0x30 + d) as u8) as char
    } else {
        ((0x57 + d) as u8) as char
    }
}

/// The two hexadecimal digits of a byte.
pub open spec fn spec_hex_byte(b: u8) -> Seq<char> {
    seq![spec_hex_digit((b / 16) as nat), spec_hex_digit((b % 16) as nat)]
}

/// How one character stands inside a JSON string: a quotation mark and a
/// backslash behind a backslash, a control character as `\u00` and its two
/// hexadecimal digits, any other character as it is.
pub open spec fn spec_escape_char(c: char) -> Seq<char> {
    if c == '"' {
        seq!['\\', '"']
    } else if c == '\\' {
        seq!['\\', '\\']
    } else if (c as u32) < 0x20 {
        seq!['\\', 'u', '0', '0'] + spec_hex_byte(c as u8)
    } else {
        seq![c]
    }
}

/// How a text stands inside a JSON string: each character escaped.
pub open spec fn spec_escape(text: Seq<char>) -> Seq<char>
    decreases text.len(),
{
    if text.len() == 0 {
        Seq::empty()
    } else {
        spec_escape(text.drop_last()) + spec_escape_char(text.last())
    }
}

/// A text as a JSON string.
pub open spec fn spec_json_string(text: Seq<char>) -> Seq<char> {
    seq!['"'] + spec_escape(text) + seq!['"']
}

/// The decimal numerals of the bytes, with `separator` between them.
pub open spec fn spec_decimal_list(bytes: Seq<u8>, separator: char) -> Seq<char>
    decreases bytes.len(),
{
    if bytes.len() == 0 {
        Seq::empty()
    } else if bytes.len() == 1 {
        spec_decimal(bytes[0] as nat)
    } else {
        spec_decimal_list(bytes.drop_last(), separator) + seq![separator] + spec_decimal(
            bytes.last() as nat,
        )
    }
}

/// The decimal numerals of the bytes of an IPv4 address, with dots between them,
/// as a JSON string.
pub open spec fn spec_json_ipv4(address: Seq<u8>) -> Seq<char> {
    seq!['"'] + spec_decimal_list(address, '.') + seq!['"']
}

/// The four hexadecimal digits of the `i`-th pair of bytes of an IPv6 address.
pub open spec fn spec_hex_group(address: Seq<u8>, i: int) -> Seq<char>
    recommends
        0 <= i,
        2 * i + 1 < address.len(),
{
    spec_hex_byte(address[2 * i]) + spec_hex_byte(address[2 * i + 1])
}

/// The first `count` groups of four hexadecimal digits of an IPv6 address, with
/// colons between them.
pub open spec fn spec_hex_groups(address: Seq<u8>, count: nat) -> Seq<char>
    decreases count,
{
    if count == 0 {
        Seq::empty()
    } else if count == 1 {
        spec_hex_group(address, 0)
    } else {
        spec_hex_groups(address, (count - 1) as nat) + seq![':'] + spec_hex_group(
            address,
            count - 1,
        )
    }
}

/// The eight groups of four hexadecimal digits of an IPv6 address, with colons
/// between them and no group left out, as a JSON string.
pub open spec fn spec_json_ipv6(address: Seq<u8>) -> Seq<char> {
    seq!['"'] + spec_hex_groups(address, 8) + seq!['"']
}

/// An MPLS label stack entry as a JSON object.
pub open spec fn spec_json_mpls(label: u32, exp: u8, bottom: u8) -> Seq<char> {
    "{\"label\":"@ + spec_decimal(label as nat) + ",\"exp\":"@ + spec_decimal(exp as nat)
        + ",\"bottom\":"@ + (if bottom == 1 {
        "true"@
    } else {
        "false"@
    }) + seq!['}']
}

/// A typed value as JSON text: an integer as its decimal numeral, an address and
/// a text as a string, an MPLS entry as an object, raw bytes as an array of
/// numbers, and the empty value as `null`.
pub open spec fn spec_json_value(value: ValueView) -> Seq<char> {
    match value {
        ValueView::IPv4(address) => spec_json_ipv4(address),
        ValueView::IPv6(address) => spec_json_ipv6(address),
        ValueView::U8(v) => spec_decimal(v as nat),
        ValueView::U16(v) => spec_decimal(v as nat),
        ValueView::U32(v) => spec_decimal(v as nat),
        ValueView::U64(v) => spec_decimal(v as nat),
        ValueView::String(text) => spec_json_string(text),
        ValueView::Bytes(bytes) => seq!['['] + spec_decimal_list(bytes, ',') + seq![']'],
        ValueView::MPLS(label, exp, bottom) => spec_json_mpls(label, exp, bottom),
        ValueView::Empty => "null"@,
    }
}

/// The members that the entries of a record make in a JSON object, with commas
/// between them. An entry makes a member where its key is a name: the name and
/// the value, with a colon between them. The other entries make none.
pub open spec fn spec_json_members(record: RecordView) -> Seq<char>
    decreases record.len(),
{
    if record.len() == 0 {
        Seq::empty()
    } else {
        let front = spec_json_members(record.drop_last());
        match record.last().0 {
            KeyView::Str(name) => (if front.len() == 0 {
                front
            } else {
                front + seq![',']
            }) + spec_json_string(name) + seq![':'] + spec_json_value(record.last().1),
            _ => front,
        }
    }
}

/// A record as a JSON object.
pub open spec fn spec_json_record(record: RecordView) -> Seq<char> {
    seq!['{'] + spec_json_members(record) + seq!['}']
}

/// The records of a data set as JSON objects, one text for each record.
pub open spec fn spec_print_json(data_set: DataSetView) -> Seq<Seq<char>> {
    data_set.records.map_values(|record: RecordView| spec_json_record(record))
}

/// The texts of `v`, each as its characters.
pub open spec fn texts_view(v: Seq<String>) -> Seq<Seq<char>> {
    v.map_values(|text: String| text@)
}

/// Appends the two hexadecimal digits of `b` to `out`.
pub fn push_hex_byte(out: &mut String, b: u8)
    ensures
        final(out)@ == old(out)@ + spec_hex_byte(b),
{
    let hi: u8 = b / 16;
    let lo: u8 = b % 16;
    push_char(
        out,
        if hi < 10 {
            (0x30u8 + hi) as char
        } else {
            (0x57u8 + hi) as char
        },
    );
    push_char(
        out,
        if lo < 10 {
            (0x30u8 + lo) as char
        } else {
            (0x57u8 + lo) as char
        },
    );
    assert(out@ =~= old(out)@ + spec_hex_byte(b));
}

/// Appends `text` to `out` as it stands inside a JSON string.
pub fn push_escaped(out: &mut String, text: &str)
    ensures
        final(out)@ == old(out)@ + spec_escape(text@),
{
    assert(out@ =~= old(out)@ + spec_escape(text@.take(0)));
    for c in it: text.chars()
        invariant
            it.seq() == text@,
            out@ == old(out)@ + spec_escape(text@.take(it.index() as int)),
    {
        let ghost before = out@;
        let ghost k = it.index() as int;
        if c == '"' {
            push_char(out, '\\');
            push_char(out, '"');
        } else if c == '\\' {
            push_char(out, '\\');
            push_char(out, '\\');
        } else if (c as u32) < 0x20 {
            out.append("\\u00");
            proof {
                reveal_strlit("\\u00");
                assert("\\u00"@ =~= seq!['\\', 'u', '0', '0']);
            }
            push_hex_byte(out, c as u8);
        } else {
            push_char(out, c);
        }
        proof {
            assert(text@.take(k + 1).drop_last() =~= text@.take(k));
            assert(text@.take(k + 1).last() == c);
            assert(out@ =~= before + spec_escape_char(c));
            assert(out@ =~= old(out)@ + spec_escape(text@.take(k + 1)));
        }
    }
    assert(text@.take(text@.len() as int) =~= text@);
}

/// Appends `text` to `out` as a JSON string.
pub fn push_json_string(out: &mut String, text: &str)
    ensures
        final(out)@ == old(out)@ + spec_json_string(text@),
{
    push_char(out, '"');
    push_escaped(out, text);
    push_char(out, '"');
    assert(out@ =~= old(out)@ + spec_json_string(text@));
}

/// Appends the decimal numerals of `bytes`, with `separator` between them, to
/// `out`.
pub fn push_decimal_list(out: &mut String, bytes: &[u8], separator: char)
    ensures
        final(out)@ == old(out)@ + spec_decimal_list(bytes@, separator),
{
    let mut i: usize = 0;
    assert(out@ =~= old(out)@ + spec_decimal_list(bytes@.take(0), separator));
    while i < bytes.len()
        invariant
            i <= bytes@.len(),
            out@ == old(out)@ + spec_decimal_list(bytes@.take(i as int), separator),
        decreases bytes@.len() - i,
    {
        if i > 0 {
            push_char(out, separator);
        }
        push_decimal(out, bytes[i] as u64);
        proof {
            assert(bytes@.take(i + 1).drop_last() =~= bytes@.take(i as int));
            assert(bytes@.take(i + 1).last() == bytes@[i as int]);
            if i == 0 {
                assert(spec_decimal_list(bytes@.take(0), separator) =~= Seq::<char>::empty());
            }
            assert(out@ =~= old(out)@ + spec_decimal_list(bytes@.take(i + 1), separator));
        }
        i = i + 1;
    }
    assert(bytes@.take(bytes@.len() as int) =~= bytes@);
}

/// Appends an IPv4 address to `out` as a JSON string.
pub fn push_json_ipv4(out: &mut String, address: &[u8; 4])
    ensures
        final(out)@ == old(out)@ + spec_json_ipv4(address@),
{
    push_char(out, '"');
    push_decimal_list(out, address.as_slice(), '.');
    push_char(out, '"');
    assert(out@ =~= old(out)@ + spec_json_ipv4(address@));
}

/// Appends an IPv6 address to `out` as a JSON string.
pub fn push_json_ipv6(out: &mut String, address: &[u8; 16])
    ensures
        final(out)@ == old(out)@ + spec_json_ipv6(address@),
{
    push_char(out, '"');
    let mut i: usize = 0;
    assert(out@ =~= old(out)@ + seq!['"'] + spec_hex_groups(address@, 0));
    while i < 8
        invariant
            i <= 8,
            out@ == old(out)@ + seq!['"'] + spec_hex_groups(address@, i as nat),
        decreases 8 - i,
    {
        if i > 0 {
            push_char(out, ':');
        }
        push_hex_byte(out, address[2 * i]);
        push_hex_byte(out, address[2 * i + 1]);
        proof {
            if i == 0 {
                assert(spec_hex_groups(address@, 0) =~= Seq::<char>::empty());
            }
            assert(out@ =~= old(out)@ + seq!['"'] + spec_hex_groups(address@, (i + 1) as nat));
        }
        i = i + 1;
    }
    push_char(out, '"');
    assert(out@ =~= old(out)@ + spec_json_ipv6(address@));
}

/// Appends an MPLS label stack entry to `out` as a JSON object.
pub fn push_json_mpls(out: &mut String, label: u32, exp: u8, bottom: u8)
    ensures
        final(out)@ == old(out)@ + spec_json_mpls(label, exp, bottom),
{
    out.append("{\"label\":");
    push_decimal(out, label as u64);
    out.append(",\"exp\":");
    push_decimal(out, exp as u64);
    out.append(",\"bottom\":");
    if bottom == 1 {
        out.append("true");
    } else {
        out.append("false");
    }
    push_char(out, '}');
    assert(out@ =~= old(out)@ + spec_json_mpls(label, exp, bottom));
}

/// Appends `value` to `out` as JSON text.
pub fn push_json_value(out: &mut String, value: &DataRecordValue)
    ensures
        final(out)@ == old(out)@ + spec_json_value(value@),
{
    match value {
        DataRecordValue::IPv4(address) => {
            push_json_ipv4(out, address);
        },
        DataRecordValue::IPv6(address) => {
            push_json_ipv6(out, address);
        },
        DataRecordValue::U8(v) => {
            push_decimal(out, *v as u64);
        },
        DataRecordValue::U16(v) => {
            push_decimal(out, *v as u64);
        },
        DataRecordValue::U32(v) => {
            push_decimal(out, *v as u64);
        },
        DataRecordValue::U64(v) => {
            push_decimal(out, *v);
        },
        DataRecordValue::String(text) => {
            push_json_string(out, text.as_str());
        },
        DataRecordValue::Bytes(bytes) => {
            push_char(out, '[');
            push_decimal_list(out, bytes, ',');
            push_char(out, ']');
            assert(out@ =~= old(out)@ + spec_json_value(value@));
        },
        DataRecordValue::MPLS(label, exp, bottom) => {
            push_json_mpls(out, *label, *exp, *bottom);
        },
        DataRecordValue::Empty => {
            out.append("null");
        },
    }
}

/// Renders decoded records as JSON text.
pub struct IpfixPrinter {}

impl IpfixPrinter {
    pub fn new() -> (r: IpfixPrinter) {
        IpfixPrinter {  }
    }

    /// Renders one record as a JSON object. The entries whose key is a name make
    /// the members, in the order of the record; the other entries make none.
    pub fn print_record(&self, record: &DataRecord) -> (r: String)
        ensures
            r@ == spec_json_record(record@),
    {
        let mut out = String::from_str("{");
        proof {
            reveal_strlit("{");
            assert(out@ =~= seq!['{'] + spec_json_members(record@.take(0)));
        }
        let mut first: bool = true;
        let mut i: usize = 0;
        while i < record.values.len()
            invariant
                i <= record.values@.len(),
                out@ == seq!['{'] + spec_json_members(record@.take(i as int)),
                first == (spec_json_members(record@.take(i as int)).len() == 0),
            decreases record.values@.len() - i,
        {
            let ghost before = out@;
            proof {
                assert(record@.take(i + 1).drop_last() =~= record@.take(i as int));
                assert(record@.take(i + 1).last() == record@[i as int]);
            }
            match &record.values[i].0 {
                DataRecordKey::Str(name) => {
                    if !first {
                        push_char(&mut out, ',');
                    }
                    push_json_string(&mut out, name);
                    push_char(&mut out, ':');
                    push_json_value(&mut out, &record.values[i].1);
                    first = false;
                    assert(out@ =~= seq!['{'] + spec_json_members(record@.take(i + 1)));
                },
                _ => {},
            }
            i = i + 1;
        }
        assert(record@.take(record@.len() as int) =~= record@);
        push_char(&mut out, '}');
        assert(out@ =~= spec_json_record(record@));
        out
    }

    /// Renders the records of a data set as JSON objects, one text for each
    /// record, in the order of the data set.
    pub fn print_json(&self, dataset: DataSet) -> (r: Vec<String>)
        ensures
            texts_view(r@) == spec_print_json(dataset@),
    {
        let mut strings: Vec<String> = Vec::new();
        let mut i: usize = 0;
        while i < dataset.records.len()
            invariant
                i <= dataset.records@.len(),
                strings@.len() == i,
                forall|k: int|
                    0 <= k < i ==> (#[trigger] strings@[k])@ == spec_json_record(
                        dataset.records@[k]@,
                    ),
            decreases dataset.records@.len() - i,
        {
            let text = self.print_record(&dataset.records[i]);
            strings.push(text);
            i = i + 1;
        }
        assert(texts_view(strings@) =~= spec_print_json(dataset@));
        strings
    }
}

} // verus!
