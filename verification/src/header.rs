//! The message header, the set header, and the walk over the sets of a message.

use vstd::prelude::*;
use vstd::slice::slice_subrange;
use crate::conversions::{be_buf_to_u16, be_buf_to_u32, spec_be_u16, spec_be_u32};
use crate::error::ParseError;

verus! {

/// The only protocol version that is decoded.
pub const IPFIX_VERSION: u16 = 10;

/// Bytes in a message header.
pub const MESSAGE_HEADER_LEN: usize = 16;

/// Bytes in a set header.
pub const SET_HEADER_LEN: usize = 4;

/// Set id of a template set.
pub const TEMPLATE_SET_ID: u16 = 2;

/// Set id of an options template set.
pub const OPTIONS_TEMPLATE_SET_ID: u16 = 3;

/// The fixed header that opens every message.
#[derive(Clone, Copy, Debug, PartialEq, Eq, Structural)]
pub struct IpfixHeader {
    pub version: u16,
    /// Bytes in the whole message, this header included.
    pub length: u16,
    /// Seconds since the epoch at which the message left the exporter.
    pub export_time: u32,
    pub sequence_number: u32,
    pub observation_domain_id: u32,
}

/// The header that opens every set.
#[derive(Clone, Copy, Debug, PartialEq, Eq, Structural)]
pub struct SetHeader {
    /// 2 for a template set, 3 for an options template set, else the id of the
    /// template that the records of a data set follow.
    pub set_id: u16,
    /// Bytes in the whole set, this header included.
    pub length: u16,
}

/// What a set holds, as its set id tells.
#[derive(Clone, Copy, Debug, PartialEq, Eq, Structural)]
pub enum SetKind {
    /// Template records: set id 2.
    Template,
    /// Options template records: set id 3.
    OptionsTemplate,
    /// Data records that follow the template whose id is the set id.
    Data,
}

/// One set as it lies in a message, as a mathematical value: its header and the
/// bytes that follow it.
pub struct RawSet {
    pub header: SetHeader,
    pub body: Seq<u8>,
}

/// One set as it lies in a message: its header and its body, which is a part of
/// the message buffer.
#[derive(Clone, Copy, Debug, PartialEq, Eq)]
pub struct SetSlice<'a> {
    pub header: SetHeader,
    pub body: &'a [u8],
}

impl<'a> View for SetSlice<'a> {
    type V = RawSet;

    open spec fn view(&self) -> RawSet {
        RawSet { header: self.header, body: self.body@ }
    }
}

/// The sets of `v` as mathematical values, in order.
pub open spec fn set_slices_view<'a>(v: Seq<SetSlice<'a>>) -> Seq<RawSet> {
    v.map_values(|set: SetSlice<'a>| set@)
}

/// The header that the first sixteen bytes of `s` spell.
pub open spec fn spec_header_fields(s: Seq<u8>) -> IpfixHeader
    recommends
        s.len() >= MESSAGE_HEADER_LEN,
{
    IpfixHeader {
        version: spec_be_u16(s),
        length: spec_be_u16(s.skip(2)),
        export_time: spec_be_u32(s.skip(4)),
        sequence_number: spec_be_u32(s.skip(8)),
        observation_domain_id: spec_be_u32(s.skip(12)),
    }
}

/// What reading a message header from `s` gives: the header, or the reason for
/// which it is rejected.
pub open spec fn spec_parse_header(s: Seq<u8>) -> Result<IpfixHeader, ParseError> {
    if s.len() < MESSAGE_HEADER_LEN {
        Err(ParseError::Truncated)
    } else if spec_be_u16(s) != IPFIX_VERSION {
        Err(ParseError::UnsupportedVersion(spec_be_u16(s)))
    } else {
        Ok(spec_header_fields(s))
    }
}

/// The set header that the first four bytes of `s` spell.
pub open spec fn spec_set_header_fields(s: Seq<u8>) -> SetHeader
    recommends
        s.len() >= SET_HEADER_LEN,
{
    SetHeader { set_id: spec_be_u16(s), length: spec_be_u16(s.skip(2)) }
}

/// What reading one set from the front of `s` gives: the set, or the reason for
/// which the walk stops there.
pub open spec fn spec_next_set(s: Seq<u8>) -> Result<RawSet, ParseError> {
    if s.len() < SET_HEADER_LEN {
        Err(ParseError::Truncated)
    } else {
        let header = spec_set_header_fields(s);
        if header.length < SET_HEADER_LEN {
            Err(ParseError::InvalidSetLength(header.length))
        } else if header.length > s.len() {
            Err(ParseError::Truncated)
        } else {
            Ok(RawSet { header, body: s.subrange(SET_HEADER_LEN as int, header.length as int) })
        }
    }
}

/// The sets that lie back to back in `s`, up to the end of `s` or to the first
/// fault, and that fault if there is one.
pub open spec fn spec_split_sets(s: Seq<u8>) -> (Seq<RawSet>, Option<ParseError>)
    decreases s.len(),
{
    if s.len() == 0 {
        (Seq::empty(), None)
    } else {
        match spec_next_set(s) {
            Err(e) => (Seq::empty(), Some(e)),
            Ok(set) => {
                let (sets, fault) = spec_split_sets(s.skip(set.header.length as int));
                (seq![set] + sets, fault)
            },
        }
    }
}

/// The bytes that a sequence of sets takes up on the wire.
pub open spec fn spec_sets_length(sets: Seq<RawSet>) -> nat
    decreases sets.len(),
{
    if sets.len() == 0 {
        0
    } else {
        spec_sets_length(sets.drop_last()) + sets.last().header.length as nat
    }
}

impl IpfixHeader {
    /// Reads a message header from the front of `input` and hands back the bytes
    /// that follow it.
    pub fn parse(input: &[u8]) -> (r: Result<(&[u8], IpfixHeader), ParseError>)
        ensures
            match r {
                Ok((rest, header)) => spec_parse_header(input@) == Ok::<IpfixHeader, ParseError>(
                    header,
                ) && rest@ == input@.skip(MESSAGE_HEADER_LEN as int),
                Err(e) => spec_parse_header(input@) == Err::<IpfixHeader, ParseError>(e),
            },
    {
        if input.len() < MESSAGE_HEADER_LEN {
            return Err(ParseError::Truncated);
        }
        let version = be_buf_to_u16(input);
        if version != IPFIX_VERSION {
            return Err(ParseError::UnsupportedVersion(version));
        }
        let length = be_buf_to_u16(slice_subrange(input, 2, 4));
        let export_time = be_buf_to_u32(slice_subrange(input, 4, 8));
        let sequence_number = be_buf_to_u32(slice_subrange(input, 8, 12));
        let observation_domain_id = be_buf_to_u32(slice_subrange(input, 12, 16));
        let rest = slice_subrange(input, MESSAGE_HEADER_LEN, input.len());
        Ok(
            (
                rest,
                IpfixHeader { version, length, export_time, sequence_number, observation_domain_id },
            ),
        )
    }
}

impl SetHeader {
    /// What the set holds, as its set id tells.
    pub open spec fn spec_kind(self) -> SetKind {
        if self.set_id == TEMPLATE_SET_ID {
            SetKind::Template
        } else if self.set_id == OPTIONS_TEMPLATE_SET_ID {
            SetKind::OptionsTemplate
        } else {
            SetKind::Data
        }
    }

    /// What the set holds, as its set id tells.
    pub fn kind(&self) -> (r: SetKind)
        ensures
            r == self.spec_kind(),
    {
        if self.set_id == TEMPLATE_SET_ID {
            SetKind::Template
        } else if self.set_id == OPTIONS_TEMPLATE_SET_ID {
            SetKind::OptionsTemplate
        } else {
            SetKind::Data
        }
    }

    /// Reads a set header from the front of `input` and hands back the bytes that
    /// follow it. The declared length is not examined here.
    pub fn parse(input: &[u8]) -> (r: Result<(&[u8], SetHeader), ParseError>)
        ensures
            match r {
                Ok((rest, header)) => input@.len() >= SET_HEADER_LEN && header
                    == spec_set_header_fields(input@) && rest@ == input@.skip(
                    SET_HEADER_LEN as int,
                ),
                Err(e) => input@.len() < SET_HEADER_LEN && e == ParseError::Truncated,
            },
    {
        if input.len() < SET_HEADER_LEN {
            return Err(ParseError::Truncated);
        }
        let set_id = be_buf_to_u16(input);
        let length = be_buf_to_u16(slice_subrange(input, 2, 4));
        Ok((slice_subrange(input, SET_HEADER_LEN, input.len()), SetHeader { set_id, length }))
    }
}

/// Takes one set off the front of `input`: hands back the bytes that follow the
/// set, and the set.
pub fn next_set<'a>(input: &'a [u8]) -> (r: Result<(&'a [u8], SetSlice<'a>), ParseError>)
    ensures
        match r {
            Ok((rest, set)) => spec_next_set(input@) == Ok::<RawSet, ParseError>(set@) && rest@
                == input@.skip(set.header.length as int),
            Err(e) => spec_next_set(input@) == Err::<RawSet, ParseError>(e),
        },
{
    let (after, header) = match SetHeader::parse(input) {
        Ok(parsed) => parsed,
        Err(e) => { return Err(e); },
    };
    if (header.length as usize) < SET_HEADER_LEN {
        return Err(ParseError::InvalidSetLength(header.length));
    }
    if header.length as usize > input.len() {
        return Err(ParseError::Truncated);
    }
    let body_len: usize = header.length as usize - SET_HEADER_LEN;
    let body = slice_subrange(after, 0, body_len);
    let rest = slice_subrange(after, body_len, after.len());
    assert(body@ =~= input@.subrange(SET_HEADER_LEN as int, header.length as int));
    assert(rest@ =~= input@.skip(header.length as int));
    Ok((rest, SetSlice { header, body }))
}

/// Walks over the sets that lie back to back in `input`: hands back the sets up
/// to the end of `input` or to the first fault, and that fault if there is one.
/// The bodies are not looked into.
pub fn split_sets<'a>(input: &'a [u8]) -> (r: (Vec<SetSlice<'a>>, Option<ParseError>))
    ensures
        set_slices_view(r.0@) == spec_split_sets(input@).0,
        r.1 == spec_split_sets(input@).1,
{
    let mut sets: Vec<SetSlice<'a>> = Vec::new();
    let mut rest: &'a [u8] = input;
    assert(set_slices_view(sets@) + spec_split_sets(rest@).0 =~= spec_split_sets(rest@).0);
    while rest.len() > 0
        invariant
            spec_split_sets(input@) == (
                set_slices_view(sets@) + spec_split_sets(rest@).0,
                spec_split_sets(rest@).1,
            ),
        decreases rest@.len(),
    {
        match next_set(rest) {
            Err(e) => {
                assert(set_slices_view(sets@) + Seq::<RawSet>::empty() =~= set_slices_view(
                    sets@,
                ));
                return (sets, Some(e));
            },
            Ok((after, set)) => {
                proof {
                    let tail = spec_split_sets(after@).0;
                    assert(set_slices_view(sets@.push(set)) =~= set_slices_view(sets@).push(
                        set@,
                    ));
                    assert(set_slices_view(sets@).push(set@) + tail =~= set_slices_view(sets@)
                        + (seq![set@] + tail));
                }
                sets.push(set);
                rest = after;
            },
        }
    }
    assert(set_slices_view(sets@) + Seq::<RawSet>::empty() =~= set_slices_view(sets@));
    (sets, None)
}

/// What opening the message `data` gives: its header, or the fault for which the
/// message is rejected before any set is looked at. The header must be sound and
/// declare the length that `data` has.
pub open spec fn spec_open_message(data: Seq<u8>) -> Result<IpfixHeader, ParseError> {
    match spec_parse_header(data) {
        Err(e) => Err(e),
        Ok(header) => if header.length > data.len() {
            Err(ParseError::Truncated)
        } else if header.length < data.len() {
            Err(ParseError::TrailingBytes)
        } else {
            Ok(header)
        },
    }
}

/// What reading the structure of the message `data` gives: the header and the
/// sets, or the fault for which the message is rejected. The message must open,
/// and the sets must take up all that follows the header, each with a length of
/// four at least.
pub open spec fn spec_parse_structure(data: Seq<u8>) -> Result<
    (IpfixHeader, Seq<RawSet>),
    ParseError,
> {
    match spec_open_message(data) {
        Err(e) => Err(e),
        Ok(header) => match spec_split_sets(data.skip(MESSAGE_HEADER_LEN as int)).1 {
            Some(e) => Err(e),
            None => Ok((header, spec_split_sets(data.skip(MESSAGE_HEADER_LEN as int)).0)),
        },
    }
}

/// Opens a message: reads its header, holds the length that the header declares
/// against the length of `data`, and hands back the bytes that follow the header.
pub fn open_message<'a>(data: &'a [u8]) -> (r: Result<(&'a [u8], IpfixHeader), ParseError>)
    ensures
        match r {
            Ok((body, header)) => spec_open_message(data@) == Ok::<IpfixHeader, ParseError>(
                header,
            ) && body@ == data@.skip(MESSAGE_HEADER_LEN as int),
            Err(e) => spec_open_message(data@) == Err::<IpfixHeader, ParseError>(e),
        },
{
    let (body, header) = match IpfixHeader::parse(data) {
        Ok(parsed) => parsed,
        Err(e) => { return Err(e); },
    };
    if header.length as usize > data.len() {
        Err(ParseError::Truncated)
    } else if (header.length as usize) < data.len() {
        Err(ParseError::TrailingBytes)
    } else {
        Ok((body, header))
    }
}

/// Reads the structure of a message: its header and its sets in order, each with
/// its header and its body. The bodies are not looked into.
pub fn parse_structure<'a>(data: &'a [u8]) -> (r: Result<
    (IpfixHeader, Vec<SetSlice<'a>>),
    ParseError,
>)
    ensures
        match r {
            Ok((header, sets)) => spec_parse_structure(data@) == Ok::<
                (IpfixHeader, Seq<RawSet>),
                ParseError,
            >((header, set_slices_view(sets@))),
            Err(e) => spec_parse_structure(data@) == Err::<
                (IpfixHeader, Seq<RawSet>),
                ParseError,
            >(e),
        },
{
    let (body, header) = match open_message(data) {
        Ok(opened) => opened,
        Err(e) => { return Err(e); },
    };
    let (sets, fault) = split_sets(body);
    match fault {
        Some(e) => Err(e),
        None => Ok((header, sets)),
    }
}

} // verus!
