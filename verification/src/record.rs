//! Decoded data: record keys, typed values, records and data sets.

use vstd::prelude::*;
use crate::header::SetHeader;
use crate::text::str_eq;

verus! {

/// What names one entry of a data record.
#[derive(PartialEq, Eq, Hash, Debug)]
pub enum DataRecordKey<'a> {
    /// The name under which the field is registered.
    Str(&'a str),
    /// The id of a field that its enterprise's registry does not hold.
    Unrecognized(u16),
    /// Why the field could not be looked up at all.
    Error(String),
}

/// The value of one entry of a data record.
#[derive(PartialEq, Debug)]
pub enum DataRecordValue<'a> {
    /// An IPv4 address, its four bytes in network order.
    IPv4([u8; 4]),
    /// An IPv6 address, its sixteen bytes in network order.
    IPv6([u8; 16]),
    U8(u8),
    U16(u16),
    U32(u32),
    U64(u64),
    String(String),
    /// The bytes of the field as they lie in the message.
    Bytes(&'a [u8]),
    /// An MPLS label stack entry: label, experimental bits, bottom-of-stack bit.
    MPLS(u32, u8, u8),
    Empty,
}

/// A record key as a mathematical value.
pub enum KeyView {
    Str(Seq<char>),
    Unrecognized(u16),
    Error(Seq<char>),
}

/// A typed value as a mathematical value.
pub enum ValueView {
    IPv4(Seq<u8>),
    IPv6(Seq<u8>),
    U8(u8),
    U16(u16),
    U32(u32),
    U64(u64),
    String(Seq<char>),
    Bytes(Seq<u8>),
    MPLS(u32, u8, u8),
    Empty,
}

/// One entry of a record as a mathematical value.
pub type EntryView = (KeyView, ValueView);

/// A record as a mathematical value: its entries in the order of the template's
/// field specifiers.
pub type RecordView = Seq<EntryView>;

impl<'a> View for DataRecordKey<'a> {
    type V = KeyView;

    open spec fn view(&self) -> KeyView {
        match *self {
            DataRecordKey::Str(name) => KeyView::Str(name@),
            DataRecordKey::Unrecognized(id) => KeyView::Unrecognized(id),
            DataRecordKey::Error(message) => KeyView::Error(message@),
        }
    }
}

impl<'a> View for DataRecordValue<'a> {
    type V = ValueView;

    open spec fn view(&self) -> ValueView {
        match *self {
            DataRecordValue::IPv4(address) => ValueView::IPv4(address@),
            DataRecordValue::IPv6(address) => ValueView::IPv6(address@),
            DataRecordValue::U8(v) => ValueView::U8(v),
            DataRecordValue::U16(v) => ValueView::U16(v),
            DataRecordValue::U32(v) => ValueView::U32(v),
            DataRecordValue::U64(v) => ValueView::U64(v),
            DataRecordValue::String(text) => ValueView::String(text@),
            DataRecordValue::Bytes(bytes) => ValueView::Bytes(bytes@),
            DataRecordValue::MPLS(label, exp, bottom) => ValueView::MPLS(label, exp, bottom),
            DataRecordValue::Empty => ValueView::Empty,
        }
    }
}

impl ValueView {
    /// The value is the field's bytes as they came, not a typed reading of them.
    pub open spec fn is_raw(self) -> bool {
        self is Bytes
    }
}

/// One record of a data set: one entry for each field specifier of the template,
/// in the template's order.
///
/// Two fields of one record may bear the same key. Both entries are kept;
/// [`DataRecord::get`] finds the later one.
#[derive(PartialEq, Debug)]
pub struct DataRecord<'a> {
    pub values: Vec<(DataRecordKey<'a>, DataRecordValue<'a>)>,
}

/// The entries of `v` as mathematical values, in order.
pub open spec fn entries_view<'a>(
    v: Seq<(DataRecordKey<'a>, DataRecordValue<'a>)>,
) -> RecordView {
    v.map_values(|e: (DataRecordKey<'a>, DataRecordValue<'a>)| (e.0@, e.1@))
}

impl<'a> View for DataRecord<'a> {
    type V = RecordView;

    open spec fn view(&self) -> RecordView {
        entries_view(self.values@)
    }
}

/// The records of `v` as mathematical values, in order.
pub open spec fn records_view<'a>(v: Seq<DataRecord<'a>>) -> Seq<RecordView> {
    v.map_values(|r: DataRecord<'a>| r@)
}

/// The records decoded from one data set, under the header of that set.
#[derive(Debug)]
pub struct DataSet<'a> {
    pub header: SetHeader,
    pub records: Vec<DataRecord<'a>>,
}

/// A data set as a mathematical value.
pub struct DataSetView {
    pub header: SetHeader,
    pub records: Seq<RecordView>,
}

impl<'a> View for DataSet<'a> {
    type V = DataSetView;

    open spec fn view(&self) -> DataSetView {
        DataSetView { header: self.header, records: records_view(self.records@) }
    }
}

/// The data sets of `v` as mathematical values, in order.
pub open spec fn data_sets_view<'a>(v: Seq<DataSet<'a>>) -> Seq<DataSetView> {
    v.map_values(|d: DataSet<'a>| d@)
}

/// The value of the last entry of `record` whose key is `key`, if there is one.
pub open spec fn spec_get(record: RecordView, key: KeyView) -> Option<ValueView>
    decreases record.len(),
{
    if record.len() == 0 {
        None
    } else if record.last().0 == key {
        Some(record.last().1)
    } else {
        spec_get(record.drop_last(), key)
    }
}

/// A key that a record holds is found, with the value of the last entry that
/// bears it.
pub proof fn lemma_get_finds_last_entry(record: RecordView, i: int)
    requires
        0 <= i < record.len(),
        forall|j: int| i < j < record.len() ==> (#[trigger] record[j]).0 != record[i].0,
    ensures
        spec_get(record, record[i].0) == Some(record[i].1),
    decreases record.len(),
{
    if i < record.len() - 1 {
        assert(record.last() == record[record.len() - 1]);
        assert(record.drop_last()[i] == record[i]);
        assert forall|j: int| i < j < record.drop_last().len() implies (
        #[trigger] record.drop_last()[j]).0 != record.drop_last()[i].0 by {
            assert(record.drop_last()[j] == record[j]);
        }
        lemma_get_finds_last_entry(record.drop_last(), i);
    }
}

/// A key that no entry of a record bears is not found.
pub proof fn lemma_get_misses_absent_key(record: RecordView, key: KeyView)
    requires
        forall|j: int| 0 <= j < record.len() ==> (#[trigger] record[j]).0 != key,
    ensures
        spec_get(record, key) is None,
    decreases record.len(),
{
    if record.len() > 0 {
        assert(record.last() == record[record.len() - 1]);
        assert forall|j: int| 0 <= j < record.drop_last().len() implies (
        #[trigger] record.drop_last()[j]).0 != key by {
            assert(record.drop_last()[j] == record[j]);
        }
        lemma_get_misses_absent_key(record.drop_last(), key);
    }
}

impl<'a> DataRecordKey<'a> {
    /// Whether the two keys are the same: the same kind, with the same name, id or
    /// message.
    pub fn same_as(&self, other: &DataRecordKey) -> (r: bool)
        ensures
            r == (self@ == other@),
    {
        match (self, other) {
            (DataRecordKey::Str(a), DataRecordKey::Str(b)) => str_eq(a, b),
            (DataRecordKey::Unrecognized(a), DataRecordKey::Unrecognized(b)) => *a == *b,
            (DataRecordKey::Error(a), DataRecordKey::Error(b)) => str_eq(a.as_str(), b.as_str()),
            _ => false,
        }
    }
}

impl<'a> DataRecord<'a> {
    /// The number of entries.
    pub fn len(&self) -> (n: usize)
        ensures
            n == self@.len(),
    {
        self.values.len()
    }

    /// The value under `key`. Where several entries bear that key, the one that
    /// comes last in the record.
    pub fn get(&self, key: &DataRecordKey) -> (r: Option<&DataRecordValue<'a>>)
        ensures
            match r {
                Some(value) => spec_get(self@, key@) == Some(value@),
                None => spec_get(self@, key@) is None,
            },
    {
        let mut i: usize = self.values.len();
        assert(self@.take(i as int) =~= self@);
        while i > 0
            invariant
                i <= self.values@.len(),
                spec_get(self@, key@) == spec_get(self@.take(i as int), key@),
            decreases i,
        {
            i = i - 1;
            assert(self@.take(i + 1).last() == self@[i as int]);
            assert(self@.take(i + 1).drop_last() =~= self@.take(i as int));
            if self.values[i].0.same_as(key) {
                return Some(&self.values[i].1);
            }
        }
        None
    }
}

} // verus!
