//! Typed readings of a field's bytes, and the registry that picks one for each
//! field of each enterprise.

use vstd::prelude::*;
use vstd::utf8::{decode_utf8, valid_utf8};
use std::collections::HashMap;
use crate::conversions::{
    be_buf_to_u16,
    be_buf_to_u32,
    be_buf_to_u64,
    spec_be_u16,
    spec_be_u32,
    spec_be_u64,
};
use crate::record::{DataRecordValue, ValueView};

verus! {

/// How the bytes of a field are read into a typed value.
#[derive(Clone, Copy, Debug, PartialEq, Eq, Hash, Structural)]
pub enum FieldParser {
    /// An unsigned integer of one, two, four or eight bytes: see [`be_int`].
    BeInt,
    /// An IPv4 address: see [`ipv4_addr`].
    Ipv4Addr,
    /// An IPv6 address: see [`ipv6_addr`].
    Ipv6Addr,
    /// An MPLS label stack entry: see [`mpls_stack`].
    MplsStack,
    /// Text in UTF-8: see [`be_string`].
    BeString,
}

/// The enterprise number of the IANA registry. A field specifier that names no
/// enterprise stands for a field of this one.
pub const IANA_ENTERPRISE: u32 = 0;

/// The fields of one enterprise: for each field id its name and how its values
/// are read.
pub type FieldFormatter = HashMap<u16, (&'static str, FieldParser)>;

/// The registry: for each enterprise number the fields of that enterprise.
/// Enterprise 0 is IANA's.
pub type EnterpriseFormatter = HashMap<u32, FieldFormatter>;

/// The fields of one enterprise as a mathematical value.
pub type FormatterView = Map<u16, (Seq<char>, FieldParser)>;

/// The registry as a mathematical value.
pub type RegistryView = Map<u32, FormatterView>;

/// The fields of one enterprise, each name taken as its characters.
pub open spec fn formatter_view(m: FieldFormatter) -> FormatterView {
    m@.map_values(|e: (&'static str, FieldParser)| (e.0@, e.1))
}

/// The registry, each name taken as its characters.
pub open spec fn registry_view(m: EnterpriseFormatter) -> RegistryView {
    m@.map_values(|fields: FieldFormatter| formatter_view(fields))
}

/// The text that the standard library's `String::from_utf8_lossy` makes of
/// `bytes`: the characters that the bytes encode in UTF-8, with U+FFFD in place
/// of each part that is no valid encoding.
pub uninterp spec fn spec_utf8_lossy(bytes: Seq<u8>) -> Seq<char>;

/// What [`be_int`] reads from `s`.
pub open spec fn spec_be_int(s: Seq<u8>) -> ValueView {
    if s.len() == 1 {
        ValueView::U8(s[0])
    } else if s.len() == 2 {
        ValueView::U16(spec_be_u16(s))
    } else if s.len() == 4 {
        ValueView::U32(spec_be_u32(s))
    } else if s.len() == 8 {
        ValueView::U64(spec_be_u64(s))
    } else {
        ValueView::U64(0)
    }
}

/// What [`ipv4_addr`] reads from `s`.
pub open spec fn spec_ipv4_addr(s: Seq<u8>) -> ValueView {
    if s.len() >= 4 {
        ValueView::IPv4(s.take(4))
    } else {
        ValueView::Empty
    }
}

/// What [`ipv6_addr`] reads from `s`.
pub open spec fn spec_ipv6_addr(s: Seq<u8>) -> ValueView {
    if s.len() >= 16 {
        ValueView::IPv6(s.take(16))
    } else {
        ValueView::Empty
    }
}

/// The first three bytes of `s` as one number of 24 bits.
pub open spec fn spec_be_u24(s: Seq<u8>) -> int
    recommends
        s.len() >= 3,
{
    (s[0] as int * 0x100 + s[1] as int) * 0x100 + s[2] as int
}

/// What [`mpls_stack`] reads from `s`.
pub open spec fn spec_mpls_stack(s: Seq<u8>) -> ValueView {
    if s.len() >= 3 {
        let entry = spec_be_u24(s);
        ValueView::MPLS((entry / 16) as u32, (entry / 2 % 8) as u8, (entry % 2) as u8)
    } else {
        ValueView::Empty
    }
}

/// What [`be_string`] reads from `s`.
pub open spec fn spec_be_string(s: Seq<u8>) -> ValueView {
    ValueView::String(spec_utf8_lossy(s))
}

impl FieldParser {
    /// What the parser reads from `s`.
    pub open spec fn spec_parse(self, s: Seq<u8>) -> ValueView {
        match self {
            FieldParser::BeInt => spec_be_int(s),
            FieldParser::Ipv4Addr => spec_ipv4_addr(s),
            FieldParser::Ipv6Addr => spec_ipv6_addr(s),
            FieldParser::MplsStack => spec_mpls_stack(s),
            FieldParser::BeString => spec_be_string(s),
        }
    }

    /// Reads the bytes of a field into a typed value.
    pub fn parse<'a>(&self, s: &'a [u8]) -> (r: DataRecordValue<'a>)
        ensures
            r@ == self.spec_parse(s@),
            !r@.is_raw(),
    {
        match self {
            FieldParser::BeInt => be_int(s),
            FieldParser::Ipv4Addr => ipv4_addr(s),
            FieldParser::Ipv6Addr => ipv6_addr(s),
            FieldParser::MplsStack => mpls_stack(s),
            FieldParser::BeString => be_string(s),
        }
    }
}

/// Reads a big-endian unsigned integer of one, two, four or eight bytes, into the
/// variant of that width. A field of any other length reads as a 64-bit zero.
pub fn be_int<'a>(s: &'a [u8]) -> (r: DataRecordValue<'a>)
    ensures
        r@ == spec_be_int(s@),
{
    if s.len() == 1 {
        DataRecordValue::U8(s[0])
    } else if s.len() == 2 {
        DataRecordValue::U16(be_buf_to_u16(s))
    } else if s.len() == 4 {
        DataRecordValue::U32(be_buf_to_u32(s))
    } else if s.len() == 8 {
        DataRecordValue::U64(be_buf_to_u64(s))
    } else {
        DataRecordValue::U64(0)
    }
}

/// Reads an IPv4 address from the first four bytes of the field. A shorter field
/// reads as [`DataRecordValue::Empty`].
pub fn ipv4_addr<'a>(s: &'a [u8]) -> (r: DataRecordValue<'a>)
    ensures
        r@ == spec_ipv4_addr(s@),
{
    if s.len() >= 4 {
        let address: [u8; 4] = [s[0], s[1], s[2], s[3]];
        assert(address@ =~= s@.take(4));
        DataRecordValue::IPv4(address)
    } else {
        DataRecordValue::Empty
    }
}

/// Reads an IPv6 address from the first sixteen bytes of the field. A shorter
/// field reads as [`DataRecordValue::Empty`].
pub fn ipv6_addr<'a>(s: &'a [u8]) -> (r: DataRecordValue<'a>)
    ensures
        r@ == spec_ipv6_addr(s@),
{
    if s.len() >= 16 {
        let address: [u8; 16] = [
            s[0],
            s[1],
            s[2],
            s[3],
            s[4],
            s[5],
            s[6],
            s[7],
            s[8],
            s[9],
            s[10],
            s[11],
            s[12],
            s[13],
            s[14],
            s[15],
        ];
        assert(address@ =~= s@.take(16));
        DataRecordValue::IPv6(address)
    } else {
        DataRecordValue::Empty
    }
}

/// Reads an MPLS label stack entry from the first three bytes of the field: the
/// label in the upper twenty bits, then three experimental bits, then the
/// bottom-of-stack bit. A shorter field reads as [`DataRecordValue::Empty`].
pub fn mpls_stack<'a>(s: &'a [u8]) -> (r: DataRecordValue<'a>)
    ensures
        r@ == spec_mpls_stack(s@),
{
    if s.len() >= 3 {
        let b0: u32 = s[0] as u32;
        let b1: u32 = s[1] as u32;
        let b2: u32 = s[2] as u32;
        let entry: u32 = (b0 * 0x100 + b1) * 0x100 + b2;
        DataRecordValue::MPLS(entry / 16, (entry / 2 % 8) as u8, (entry % 2) as u8)
    } else {
        DataRecordValue::Empty
    }
}

/// Turns bytes into text, with U+FFFD in place of what is no valid UTF-8.
///
/// This is `String::from_utf8_lossy` of the standard library. The contract gives
/// its result a name, since the result depends on the bytes alone, and says what
/// the documentation says of bytes that are valid UTF-8: the text is then the
/// one that the bytes encode.
#[verifier::external_body]
pub(crate) fn utf8_lossy(bytes: &[u8]) -> (text: String)
    ensures
        text@ == spec_utf8_lossy(bytes@),
        valid_utf8(bytes@) ==> text@ == decode_utf8(bytes@),
{
    String::from_utf8_lossy(bytes).into_owned()
}

/// Reads the field as text in UTF-8; what is no valid UTF-8 becomes U+FFFD.
pub fn be_string<'a>(s: &'a [u8]) -> (r: DataRecordValue<'a>)
    ensures
        r@ == spec_be_string(s@),
        valid_utf8(s@) ==> r@ == ValueView::String(decode_utf8(s@)),
{
    DataRecordValue::String(utf8_lossy(s))
}

} // verus!
