//! Field specifiers, templates and options templates, and the sets that carry them.

use vstd::prelude::*;
use vstd::slice::slice_subrange;
use crate::conversions::{
    be_buf_to_u16,
    be_buf_to_u32,
    spec_be_u16,
    spec_be_u32,
    spec_u16_to_be,
    spec_u32_to_be,
};
use crate::error::ParseError;
use crate::header::SetHeader;

verus! {

/// The field length that marks a field whose length travels with each value.
pub const VARIABLE_LENGTH: u16 = 0xFFFF;

/// The bit of a specifier's first word that announces an enterprise number.
pub const ENTERPRISE_BIT: u16 = 0x8000;

/// One field of a template: which information element it is and how many bytes
/// each of its values takes.
#[derive(Clone, Copy, Debug, PartialEq, Eq, Structural)]
pub struct FieldSpecifier {
    /// The information element id, without the enterprise bit.
    pub ident: u16,
    /// Bytes in each value, or [`VARIABLE_LENGTH`].
    pub field_length: u16,
    /// The enterprise that defines the element; absent for the IANA registry.
    pub enterprise_number: Option<u32>,
}

#[derive(Clone, Copy, Debug, PartialEq, Eq, Structural)]
pub struct TemplateHeader {
    pub template_id: u16,
    pub field_count: u16,
}

#[derive(Clone, Debug, PartialEq, Eq)]
pub struct Template {
    pub header: TemplateHeader,
    pub field_specifiers: Vec<FieldSpecifier>,
}

#[derive(Clone, Copy, Debug, PartialEq, Eq, Structural)]
pub struct OptionsTemplateHeader {
    pub id: u16,
    pub field_count: u16,
    /// How many of the leading fields are scope fields. It is recorded and not
    /// otherwise used: data records are decoded against the whole list.
    pub scope_field_count: u16,
}

#[derive(Clone, Debug, PartialEq, Eq)]
pub struct OptionsTemplate {
    pub header: OptionsTemplateHeader,
    pub field_specifiers: Vec<FieldSpecifier>,
}

#[derive(Debug)]
pub struct TemplateSet {
    pub header: SetHeader,
    pub records: Vec<Template>,
}

#[derive(Debug)]
pub struct OptionsTemplateSet {
    pub header: SetHeader,
    pub records: Vec<OptionsTemplate>,
}

/// A template as a mathematical value.
pub struct TemplateView {
    pub header: TemplateHeader,
    pub field_specifiers: Seq<FieldSpecifier>,
}

/// An options template as a mathematical value.
pub struct OptionsTemplateView {
    pub header: OptionsTemplateHeader,
    pub field_specifiers: Seq<FieldSpecifier>,
}

impl View for Template {
    type V = TemplateView;

    open spec fn view(&self) -> TemplateView {
        TemplateView { header: self.header, field_specifiers: self.field_specifiers@ }
    }
}

impl View for OptionsTemplate {
    type V = OptionsTemplateView;

    open spec fn view(&self) -> OptionsTemplateView {
        OptionsTemplateView { header: self.header, field_specifiers: self.field_specifiers@ }
    }
}

/// The templates of `v` as mathematical values, in order.
pub open spec fn templates_view(v: Seq<Template>) -> Seq<TemplateView> {
    v.map_values(|t: Template| t@)
}

/// The options templates of `v` as mathematical values, in order.
pub open spec fn options_templates_view(v: Seq<OptionsTemplate>) -> Seq<OptionsTemplateView> {
    v.map_values(|t: OptionsTemplate| t@)
}

impl FieldSpecifier {
    /// The id fits in fifteen bits, as every id read off the wire does.
    pub open spec fn wf(self) -> bool {
        self.ident < ENTERPRISE_BIT
    }

    /// Bytes that the specifier takes on the wire.
    pub open spec fn spec_encoded_len(self) -> nat {
        if self.enterprise_number is Some {
            8
        } else {
            4
        }
    }

    /// The bytes that spell the specifier on the wire.
    pub open spec fn spec_encode(self) -> Seq<u8> {
        match self.enterprise_number {
            Some(pen) => spec_u16_to_be((self.ident + ENTERPRISE_BIT) as u16) + spec_u16_to_be(
                self.field_length,
            ) + spec_u32_to_be(pen),
            None => spec_u16_to_be(self.ident) + spec_u16_to_be(self.field_length),
        }
    }

    /// Whether each value of the field carries its own length.
    pub fn is_variable(&self) -> (r: bool)
        ensures
            r == (self.field_length == VARIABLE_LENGTH),
    {
        self.field_length == VARIABLE_LENGTH
    }

    /// Whether the specifier names an enterprise.
    pub fn is_pen(&self) -> (r: bool)
        ensures
            r == (self.enterprise_number is Some),
    {
        self.enterprise_number.is_some()
    }

    /// Reads one field specifier from the front of `input` and hands back the bytes
    /// that follow it.
    pub fn parse(input: &[u8]) -> (r: Result<(&[u8], FieldSpecifier), ParseError>)
        ensures
            match r {
                Ok((rest, field)) => spec_parse_specifier(input@) == Some(
                    (field, field.spec_encoded_len()),
                ) && rest@ == input@.skip(field.spec_encoded_len() as int) && field.wf(),
                Err(e) => spec_parse_specifier(input@) is None && e == ParseError::Truncated,
            },
    {
        if input.len() < 4 {
            return Err(ParseError::Truncated);
        }
        let word = be_buf_to_u16(input);
        let field_length = be_buf_to_u16(slice_subrange(input, 2, 4));
        if word >= ENTERPRISE_BIT {
            if input.len() < 8 {
                return Err(ParseError::Truncated);
            }
            let pen = be_buf_to_u32(slice_subrange(input, 4, 8));
            let field = FieldSpecifier {
                ident: word - ENTERPRISE_BIT,
                field_length,
                enterprise_number: Some(pen),
            };
            Ok((slice_subrange(input, 8, input.len()), field))
        } else {
            let field = FieldSpecifier { ident: word, field_length, enterprise_number: None };
            Ok((slice_subrange(input, 4, input.len()), field))
        }
    }

    /// Appends the bytes that spell the specifier on the wire to `out`.
    pub fn encode(&self, out: &mut Vec<u8>)
        requires
            self.wf(),
        ensures
            final(out)@ == old(out)@ + self.spec_encode(),
    {
        let word: u16 = match self.enterprise_number {
            Some(_) => self.ident + ENTERPRISE_BIT,
            None => self.ident,
        };
        out.push((word / 0x100) as u8);
        out.push((word % 0x100) as u8);
        out.push((self.field_length / 0x100) as u8);
        out.push((self.field_length % 0x100) as u8);
        if let Some(pen) = self.enterprise_number {
            out.push((pen / 0x100_0000) as u8);
            out.push((pen / 0x1_0000 % 0x100) as u8);
            out.push((pen / 0x100 % 0x100) as u8);
            out.push((pen % 0x100) as u8);
        }
        assert(out@ =~= old(out)@ + self.spec_encode());
    }
}

/// What reading one field specifier from the front of `s` gives: the specifier and
/// the number of bytes it took, or nothing where `s` ends too early.
///
/// A first word with its top bit set announces an enterprise number after the
/// length; the other fifteen bits are the id.
pub open spec fn spec_parse_specifier(s: Seq<u8>) -> Option<(FieldSpecifier, nat)> {
    if s.len() < 4 {
        None
    } else if spec_be_u16(s) < ENTERPRISE_BIT {
        Some(
            (
                FieldSpecifier {
                    ident: spec_be_u16(s),
                    field_length: spec_be_u16(s.skip(2)),
                    enterprise_number: None,
                },
                4,
            ),
        )
    } else if s.len() < 8 {
        None
    } else {
        Some(
            (
                FieldSpecifier {
                    ident: (spec_be_u16(s) - ENTERPRISE_BIT) as u16,
                    field_length: spec_be_u16(s.skip(2)),
                    enterprise_number: Some(spec_be_u32(s.skip(4))),
                },
                8,
            ),
        )
    }
}

/// What reading `count` field specifiers back to back from the front of `s` gives:
/// the specifiers and the number of bytes they took, or nothing where `s` ends
/// before the last of them is complete.
pub open spec fn spec_parse_specifiers(s: Seq<u8>, count: nat) -> Option<(Seq<FieldSpecifier>, nat)>
    decreases count,
{
    if count == 0 {
        Some((Seq::empty(), 0))
    } else {
        match spec_parse_specifiers(s, (count - 1) as nat) {
            None => None,
            Some((fields, used)) => match spec_parse_specifier(s.skip(used as int)) {
                None => None,
                Some((field, n)) => Some((fields.push(field), used + n)),
            },
        }
    }
}

/// The bytes that spell a list of field specifiers on the wire.
pub open spec fn spec_encode_specifiers(fields: Seq<FieldSpecifier>) -> Seq<u8>
    decreases fields.len(),
{
    if fields.len() == 0 {
        Seq::empty()
    } else {
        spec_encode_specifiers(fields.drop_last()) + fields.last().spec_encode()
    }
}

/// Every specifier of the list has an id of fifteen bits.
pub open spec fn specifiers_wf(fields: Seq<FieldSpecifier>) -> bool {
    forall|i: int| 0 <= i < fields.len() ==> (#[trigger] fields[i]).wf()
}


/// What reading one template record from the front of `s` gives: the template and
/// the number of bytes it took, or nothing where `s` ends before the record does.
pub open spec fn spec_parse_template(s: Seq<u8>) -> Option<(TemplateView, nat)> {
    if s.len() < 4 {
        None
    } else {
        let header = TemplateHeader {
            template_id: spec_be_u16(s),
            field_count: spec_be_u16(s.skip(2)),
        };
        match spec_parse_specifiers(s.skip(4), header.field_count as nat) {
            None => None,
            Some((fields, used)) => Some(
                (TemplateView { header, field_specifiers: fields }, 4 + used),
            ),
        }
    }
}

/// What reading one options template record from the front of `s` gives: the
/// options template and the number of bytes it took, or nothing where `s` ends
/// before the record does.
pub open spec fn spec_parse_options_template(s: Seq<u8>) -> Option<(OptionsTemplateView, nat)> {
    if s.len() < 6 {
        None
    } else {
        let header = OptionsTemplateHeader {
            id: spec_be_u16(s),
            field_count: spec_be_u16(s.skip(2)),
            scope_field_count: spec_be_u16(s.skip(4)),
        };
        match spec_parse_specifiers(s.skip(6), header.field_count as nat) {
            None => None,
            Some((fields, used)) => Some(
                (OptionsTemplateView { header, field_specifiers: fields }, 6 + used),
            ),
        }
    }
}

/// The template records that lie back to back at the front of `s`, and the number
/// of bytes they take. The first record that `s` does not hold in full ends the
/// list; it and what follows it are padding.
pub open spec fn spec_parse_templates(s: Seq<u8>) -> (Seq<TemplateView>, nat)
    decreases s.len(),
    via spec_parse_templates_decreases
{
    match spec_parse_template(s) {
        None => (Seq::empty(), 0),
        Some((template, n)) => {
            let (templates, used) = spec_parse_templates(s.skip(n as int));
            (seq![template] + templates, n + used)
        },
    }
}

#[via_fn]
proof fn spec_parse_templates_decreases(s: Seq<u8>) {
    lemma_parse_template_bounds(s);
}

/// The options template records that lie back to back at the front of `s`, and the
/// number of bytes they take. The first record that `s` does not hold in full ends
/// the list; it and what follows it are padding.
pub open spec fn spec_parse_options_templates(s: Seq<u8>) -> (Seq<OptionsTemplateView>, nat)
    decreases s.len(),
    via spec_parse_options_templates_decreases
{
    match spec_parse_options_template(s) {
        None => (Seq::empty(), 0),
        Some((template, n)) => {
            let (templates, used) = spec_parse_options_templates(s.skip(n as int));
            (seq![template] + templates, n + used)
        },
    }
}

#[via_fn]
proof fn spec_parse_options_templates_decreases(s: Seq<u8>) {
    lemma_parse_options_template_bounds(s);
}

/// Specifiers that are read take between four and eight bytes each, all of them
/// inside `s`, there are as many as were asked for, and each has an id of fifteen
/// bits.
pub proof fn lemma_parse_specifiers_bounds(s: Seq<u8>, count: nat)
    ensures
        spec_parse_specifiers(s, count) matches Some((fields, used)) ==> {
            &&& fields.len() == count
            &&& 4 * count <= used <= 8 * count
            &&& used <= s.len()
            &&& specifiers_wf(fields)
        },
    decreases count,
{
    if count > 0 {
        lemma_parse_specifiers_bounds(s, (count - 1) as nat);
    }
}

/// A template record that is read takes at least its four header bytes and lies
/// inside `s`; it has as many specifiers as its header counts.
pub proof fn lemma_parse_template_bounds(s: Seq<u8>)
    ensures
        spec_parse_template(s) matches Some((template, n)) ==> {
            &&& 4 <= n <= s.len()
            &&& template.field_specifiers.len() == template.header.field_count
            &&& specifiers_wf(template.field_specifiers)
        },
{
    if s.len() >= 4 {
        lemma_parse_specifiers_bounds(s.skip(4), spec_be_u16(s.skip(2)) as nat);
    }
}

/// An options template record that is read takes at least its six header bytes and
/// lies inside `s`; it has as many specifiers as its header counts.
pub proof fn lemma_parse_options_template_bounds(s: Seq<u8>)
    ensures
        spec_parse_options_template(s) matches Some((template, n)) ==> {
            &&& 6 <= n <= s.len()
            &&& template.field_specifiers.len() == template.header.field_count
            &&& specifiers_wf(template.field_specifiers)
        },
{
    if s.len() >= 6 {
        lemma_parse_specifiers_bounds(s.skip(6), spec_be_u16(s.skip(2)) as nat);
    }
}

/// Where `s` is too short for `k` specifiers it is too short for more.
pub proof fn lemma_parse_specifiers_short(s: Seq<u8>, k: nat, count: nat)
    requires
        k <= count,
        spec_parse_specifiers(s, k) is None,
    ensures
        spec_parse_specifiers(s, count) is None,
    decreases count,
{
    if k < count {
        lemma_parse_specifiers_short(s, k, (count - 1) as nat);
    }
}

/// Reads `count` field specifiers back to back from the front of `input` and hands
/// back the bytes that follow them.
pub fn parse_specifiers(input: &[u8], count: u16) -> (r: Result<
    (&[u8], Vec<FieldSpecifier>),
    ParseError,
>)
    ensures
        match r {
            Ok((rest, fields)) => spec_parse_specifiers(input@, count as nat) matches Some(
                (spec_fields, used),
            ) && fields@ == spec_fields && rest@ == input@.skip(used as int),
            Err(e) => spec_parse_specifiers(input@, count as nat) is None && e
                == ParseError::Truncated,
        },
{
    let mut fields: Vec<FieldSpecifier> = Vec::new();
    let mut rest: &[u8] = input;
    let ghost mut used: nat = 0;
    let mut i: u16 = 0;
    assert(input@.skip(0) =~= input@);
    while i < count
        invariant
            i <= count,
            used <= input@.len(),
            rest@ == input@.skip(used as int),
            spec_parse_specifiers(input@, i as nat) == Some((fields@, used)),
        decreases count - i,
    {
        match FieldSpecifier::parse(rest) {
            Ok((after, field)) => {
                proof {
                    used = used + field.spec_encoded_len();
                    assert(after@ =~= input@.skip(used as int));
                }
                fields.push(field);
                rest = after;
            },
            Err(e) => {
                proof {
                    lemma_parse_specifiers_short(input@, (i + 1) as nat, count as nat);
                }
                return Err(e);
            },
        }
        i = i + 1;
    }
    Ok((rest, fields))
}

/// A list with the same field specifiers.
pub fn copy_specifiers(fields: &Vec<FieldSpecifier>) -> (r: Vec<FieldSpecifier>)
    ensures
        r@ == fields@,
{
    let mut copy: Vec<FieldSpecifier> = Vec::new();
    let mut i: usize = 0;
    while i < fields.len()
        invariant
            i <= fields@.len(),
            copy@ == fields@.take(i as int),
        decreases fields@.len() - i,
    {
        copy.push(fields[i]);
        assert(copy@ =~= fields@.take(i + 1));
        i = i + 1;
    }
    assert(fields@.take(i as int) =~= fields@);
    copy
}

impl Template {
    /// A template with the same header and the same field specifiers.
    pub fn duplicate(&self) -> (r: Template)
        ensures
            r@ == self@,
    {
        Template { header: self.header, field_specifiers: copy_specifiers(&self.field_specifiers) }
    }

    /// Reads one template record from the front of `input` and hands back the bytes
    /// that follow it.
    pub fn parse(input: &[u8]) -> (r: Result<(&[u8], Template), ParseError>)
        ensures
            match r {
                Ok((rest, template)) => spec_parse_template(input@) matches Some((view, n))
                    && template@ == view && rest@ == input@.skip(n as int),
                Err(e) => spec_parse_template(input@) is None && e == ParseError::Truncated,
            },
    {
        if input.len() < 4 {
            return Err(ParseError::Truncated);
        }
        let template_id = be_buf_to_u16(input);
        let field_count = be_buf_to_u16(slice_subrange(input, 2, 4));
        let body = slice_subrange(input, 4, input.len());
        match parse_specifiers(body, field_count) {
            Ok((rest, field_specifiers)) => {
                proof {
                    lemma_parse_specifiers_bounds(input@.skip(4), field_count as nat);
                    let used = spec_parse_specifiers(input@.skip(4), field_count as nat).unwrap().1;
                    assert(rest@ =~= input@.skip((4 + used) as int));
                }
                Ok(
                    (
                        rest,
                        Template {
                            header: TemplateHeader { template_id, field_count },
                            field_specifiers,
                        },
                    ),
                )
            },
            Err(e) => Err(e),
        }
    }
}

impl OptionsTemplate {
    /// An options template with the same header and the same field specifiers.
    pub fn duplicate(&self) -> (r: OptionsTemplate)
        ensures
            r@ == self@,
    {
        OptionsTemplate {
            header: self.header,
            field_specifiers: copy_specifiers(&self.field_specifiers),
        }
    }

    /// Reads one options template record from the front of `input` and hands back
    /// the bytes that follow it.
    pub fn parse(input: &[u8]) -> (r: Result<(&[u8], OptionsTemplate), ParseError>)
        ensures
            match r {
                Ok((rest, template)) => spec_parse_options_template(input@) matches Some(
                    (view, n),
                ) && template@ == view && rest@ == input@.skip(n as int),
                Err(e) => spec_parse_options_template(input@) is None && e
                    == ParseError::Truncated,
            },
    {
        if input.len() < 6 {
            return Err(ParseError::Truncated);
        }
        let id = be_buf_to_u16(input);
        let field_count = be_buf_to_u16(slice_subrange(input, 2, 4));
        let scope_field_count = be_buf_to_u16(slice_subrange(input, 4, 6));
        let body = slice_subrange(input, 6, input.len());
        match parse_specifiers(body, field_count) {
            Ok((rest, field_specifiers)) => {
                proof {
                    lemma_parse_specifiers_bounds(input@.skip(6), field_count as nat);
                    let used = spec_parse_specifiers(input@.skip(6), field_count as nat).unwrap().1;
                    assert(rest@ =~= input@.skip((6 + used) as int));
                }
                Ok(
                    (
                        rest,
                        OptionsTemplate {
                            header: OptionsTemplateHeader { id, field_count, scope_field_count },
                            field_specifiers,
                        },
                    ),
                )
            },
            Err(e) => Err(e),
        }
    }
}

/// Reads the template records of a template set body. What follows the last
/// complete record is padding: it is handed back and otherwise ignored.
pub fn parse_template_set(input: &[u8], set_header: SetHeader) -> (r: (&[u8], TemplateSet))
    ensures
        r.1.header == set_header,
        templates_view(r.1.records@) == spec_parse_templates(input@).0,
        r.0@ == input@.skip(spec_parse_templates(input@).1 as int),
        spec_parse_template(r.0@) is None,
{
    let mut records: Vec<Template> = Vec::new();
    let mut rest: &[u8] = input;
    let ghost mut used: nat = 0;
    assert(input@.skip(0) =~= input@);
    assert(templates_view(records@) =~= Seq::empty());
    loop
        invariant
            used <= input@.len(),
            rest@ == input@.skip(used as int),
            spec_parse_templates(input@) == (
                templates_view(records@) + spec_parse_templates(rest@).0,
                used + spec_parse_templates(rest@).1,
            ),
        ensures
            spec_parse_template(rest@) is None,
        decreases rest@.len(),
    {
        match Template::parse(rest) {
            Ok((after, template)) => {
                proof {
                    lemma_parse_template_bounds(rest@);
                    let n = spec_parse_template(rest@).unwrap().1;
                    let tail = spec_parse_templates(after@);
                    assert(templates_view(records@.push(template)) =~= templates_view(
                        records@,
                    ).push(template@));
                    assert(templates_view(records@).push(template@) + tail.0 =~= templates_view(
                        records@,
                    ) + (seq![template@] + tail.0));
                    assert(after@ =~= input@.skip((used + n) as int));
                    used = used + n;
                }
                records.push(template);
                rest = after;
            },
            Err(_) => {
                break ;
            },
        }
    }
    assert(templates_view(records@) + Seq::<TemplateView>::empty() =~= templates_view(records@));
    (rest, TemplateSet { header: set_header, records })
}

/// Reads the options template records of an options template set body. What
/// follows the last complete record is padding: it is handed back and otherwise
/// ignored.
pub fn parse_options_template_set(input: &[u8], set_header: SetHeader) -> (r: (
    &[u8],
    OptionsTemplateSet,
))
    ensures
        r.1.header == set_header,
        options_templates_view(r.1.records@) == spec_parse_options_templates(input@).0,
        r.0@ == input@.skip(spec_parse_options_templates(input@).1 as int),
        spec_parse_options_template(r.0@) is None,
{
    let mut records: Vec<OptionsTemplate> = Vec::new();
    let mut rest: &[u8] = input;
    let ghost mut used: nat = 0;
    assert(input@.skip(0) =~= input@);
    assert(options_templates_view(records@) =~= Seq::empty());
    loop
        invariant
            used <= input@.len(),
            rest@ == input@.skip(used as int),
            spec_parse_options_templates(input@) == (
                options_templates_view(records@) + spec_parse_options_templates(rest@).0,
                used + spec_parse_options_templates(rest@).1,
            ),
        ensures
            spec_parse_options_template(rest@) is None,
        decreases rest@.len(),
    {
        match OptionsTemplate::parse(rest) {
            Ok((after, template)) => {
                proof {
                    lemma_parse_options_template_bounds(rest@);
                    let n = spec_parse_options_template(rest@).unwrap().1;
                    let tail = spec_parse_options_templates(after@);
                    assert(options_templates_view(records@.push(template))
                        =~= options_templates_view(records@).push(template@));
                    assert(options_templates_view(records@).push(template@) + tail.0
                        =~= options_templates_view(records@) + (seq![template@] + tail.0));
                    assert(after@ =~= input@.skip((used + n) as int));
                    used = used + n;
                }
                records.push(template);
                rest = after;
            },
            Err(_) => {
                break ;
            },
        }
    }
    assert(options_templates_view(records@) + Seq::<OptionsTemplateView>::empty()
        =~= options_templates_view(records@));
    (rest, OptionsTemplateSet { header: set_header, records })
}


/// Appends the bytes that spell a list of field specifiers on the wire to `out`.
pub fn encode_specifiers(fields: &Vec<FieldSpecifier>, out: &mut Vec<u8>)
    requires
        specifiers_wf(fields@),
    ensures
        final(out)@ == old(out)@ + spec_encode_specifiers(fields@),
{
    let mut i: usize = 0;
    assert(fields@.take(0) =~= Seq::empty());
    assert(out@ =~= old(out)@ + Seq::<u8>::empty());
    while i < fields.len()
        invariant
            i <= fields.len(),
            specifiers_wf(fields@),
            out@ == old(out)@ + spec_encode_specifiers(fields@.take(i as int)),
        decreases fields.len() - i,
    {
        let ghost before = out@;
        fields[i].encode(out);
        proof {
            assert(fields@.take(i + 1).drop_last() =~= fields@.take(i as int));
            assert(out@ =~= old(out)@ + spec_encode_specifiers(fields@.take(i + 1)));
        }
        i = i + 1;
    }
    assert(fields@.take(fields.len() as int) =~= fields@);
}

/// A specifier that is written to the wire and read back is the same specifier,
/// whatever bytes follow it.
pub proof fn lemma_specifier_round_trip(field: FieldSpecifier, tail: Seq<u8>)
    requires
        field.wf(),
    ensures
        field.spec_encode().len() == field.spec_encoded_len(),
        spec_parse_specifier(field.spec_encode() + tail) == Some(
            (field, field.spec_encoded_len()),
        ),
{
    let bytes = field.spec_encode() + tail;
    match field.enterprise_number {
        Some(pen) => {
            let word = (field.ident + ENTERPRISE_BIT) as u16;
            assert(bytes[0] == (word / 0x100) as u8);
            assert(bytes[1] == (word % 0x100) as u8);
            assert(bytes.skip(2)[0] == (field.field_length / 0x100) as u8);
            assert(bytes.skip(2)[1] == (field.field_length % 0x100) as u8);
            assert(bytes.skip(4)[0] == (pen / 0x100_0000) as u8);
            assert(bytes.skip(4)[1] == (pen / 0x1_0000 % 0x100) as u8);
            assert(bytes.skip(4)[2] == (pen / 0x100 % 0x100) as u8);
            assert(bytes.skip(4)[3] == (pen % 0x100) as u8);
        },
        None => {
            assert(bytes[0] == (field.ident / 0x100) as u8);
            assert(bytes[1] == (field.ident % 0x100) as u8);
            assert(bytes.skip(2)[0] == (field.field_length / 0x100) as u8);
            assert(bytes.skip(2)[1] == (field.field_length % 0x100) as u8);
        },
    }
}

/// A specifier that is read from the wire and written back gives the bytes it was
/// read from.
pub proof fn lemma_specifier_encodes_to_source(s: Seq<u8>)
    requires
        spec_parse_specifier(s) is Some,
    ensures
        spec_parse_specifier(s).unwrap().0.spec_encode() == s.take(
            spec_parse_specifier(s).unwrap().1 as int,
        ),
{
    let (field, n) = spec_parse_specifier(s).unwrap();
    assert(s.skip(2)[0] == s[2] && s.skip(2)[1] == s[3]);
    if n == 8 {
        assert(s.skip(4)[0] == s[4] && s.skip(4)[1] == s[5] && s.skip(4)[2] == s[6] && s.skip(
            4,
        )[3] == s[7]);
    }
    assert(field.spec_encode() =~= s.take(n as int));
}

/// A list of specifiers that is written to the wire and read back is the same
/// list, whatever bytes follow it.
pub proof fn lemma_specifiers_round_trip(fields: Seq<FieldSpecifier>, tail: Seq<u8>)
    requires
        specifiers_wf(fields),
    ensures
        spec_parse_specifiers(spec_encode_specifiers(fields) + tail, fields.len()) == Some(
            (fields, spec_encode_specifiers(fields).len()),
        ),
    decreases fields.len(),
{
    if fields.len() > 0 {
        let front = fields.drop_last();
        let last = fields.last();
        let bytes = spec_encode_specifiers(fields) + tail;
        assert(bytes =~= spec_encode_specifiers(front) + (last.spec_encode() + tail));
        lemma_specifiers_round_trip(front, last.spec_encode() + tail);
        lemma_specifier_round_trip(last, tail);
        assert(bytes.skip(spec_encode_specifiers(front).len() as int) =~= last.spec_encode()
            + tail);
        assert(front.push(last) =~= fields);
    }
}

/// Specifiers that are read from the wire and written back give the bytes they
/// were read from.
pub proof fn lemma_specifiers_encode_to_source(s: Seq<u8>, count: nat)
    requires
        spec_parse_specifiers(s, count) is Some,
    ensures
        spec_encode_specifiers(spec_parse_specifiers(s, count).unwrap().0) == s.take(
            spec_parse_specifiers(s, count).unwrap().1 as int,
        ),
    decreases count,
{
    let (fields, used) = spec_parse_specifiers(s, count).unwrap();
    lemma_parse_specifiers_bounds(s, count);
    if count == 0 {
        assert(spec_encode_specifiers(fields) =~= s.take(0));
    } else {
        let (front, before) = spec_parse_specifiers(s, (count - 1) as nat).unwrap();
        lemma_parse_specifiers_bounds(s, (count - 1) as nat);
        lemma_specifiers_encode_to_source(s, (count - 1) as nat);
        lemma_specifier_encodes_to_source(s.skip(before as int));
        assert(fields.drop_last() =~= front);
        assert(s.take(before as int) + s.skip(before as int).take(used - before) =~= s.take(
            used as int,
        ));
    }
}

/// Decoding a list of specifiers, encoding what was decoded and decoding that
/// again gives the list of the first decoding.
pub proof fn lemma_specifiers_decode_encode_decode(s: Seq<u8>, count: nat)
    requires
        spec_parse_specifiers(s, count) is Some,
    ensures
        spec_parse_specifiers(
            spec_encode_specifiers(spec_parse_specifiers(s, count).unwrap().0),
            count,
        ) == spec_parse_specifiers(s, count),
{
    let (fields, used) = spec_parse_specifiers(s, count).unwrap();
    lemma_parse_specifiers_bounds(s, count);
    lemma_specifiers_encode_to_source(s, count);
    lemma_specifiers_round_trip(fields, Seq::empty());
    assert(spec_encode_specifiers(fields) + Seq::<u8>::empty() =~= spec_encode_specifiers(
        fields,
    ));
}

/// A specifier whose first word is `0x8000 | k` has the id `k` and names the
/// enterprise that the four bytes after the field length spell.
pub proof fn lemma_enterprise_bit(s: Seq<u8>, k: u16)
    requires
        s.len() >= 8,
        k < ENTERPRISE_BIT,
        spec_be_u16(s) == ENTERPRISE_BIT | k,
    ensures
        spec_parse_specifier(s) == Some(
            (
                FieldSpecifier {
                    ident: k,
                    field_length: spec_be_u16(s.skip(2)),
                    enterprise_number: Some(spec_be_u32(s.skip(4))),
                },
                8nat,
            ),
        ),
{
    assert(k < 0x8000 ==> 0x8000u16 | k == 0x8000u16 + k) by (bit_vector);
}

} // verus!
