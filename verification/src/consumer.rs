//! The decoder: the template cache, the registry, and the decoding of messages.

use vstd::prelude::*;
use vstd::slice::slice_subrange;
use std::collections::HashMap;
use crate::dataset::{parse_data_set, spec_decode_records};
use crate::error::ParseError;
use crate::formatter::{
    registry_view,
    EnterpriseFormatter,
    FieldFormatter,
    FieldParser,
    FormatterView,
    RegistryView,
    IANA_ENTERPRISE,
};
use crate::header::{
    open_message,
    set_slices_view,
    spec_open_message,
    spec_parse_structure,
    spec_split_sets,
    split_sets,
    IpfixHeader,
    RawSet,
    SetHeader,
    SetKind,
    SetSlice,
    MESSAGE_HEADER_LEN,
    OPTIONS_TEMPLATE_SET_ID,
    TEMPLATE_SET_ID,
};
use crate::iana::{get_default_parsers, spec_default_parsers};
use crate::record::{data_sets_view, DataSet, DataSetView};
use crate::template::{
    options_templates_view,
    parse_options_template_set,
    parse_template_set,
    spec_parse_options_templates,
    spec_parse_templates,
    templates_view,
    FieldSpecifier,
    OptionsTemplate,
    OptionsTemplateSet,
    OptionsTemplateView,
    Template,
    TemplateSet,
    TemplateView,
};

verus! {

/// A decoder for the messages of one exporter. It keeps the templates that the
/// messages define, and the registry of field names and parsers.
///
/// Templates stay until a template with the same id takes their place; none is
/// ever removed. A template record without field specifiers, which an exporter
/// sends to withdraw a template, is kept like any other: data sets that name it
/// decode to no records.
pub struct IpfixConsumer {
    pub templates: HashMap<u16, Template>,
    pub options_templates: HashMap<u16, OptionsTemplate>,
    pen_formatter: EnterpriseFormatter,
}

/// One decoded set of a message.
#[derive(Debug)]
pub enum IpfixSet<'a> {
    TemplateSet(TemplateSet),
    OptionsTemplateSet(OptionsTemplateSet),
    DataSet(DataSet<'a>),
}

/// A decoded message: its header and its sets in the order of the message.
#[derive(Debug)]
pub struct IpfixMessage<'a> {
    pub header: IpfixHeader,
    pub sets: Vec<IpfixSet<'a>>,
}

/// A decoder as a mathematical value.
pub struct ConsumerView {
    pub templates: Map<u16, TemplateView>,
    pub options_templates: Map<u16, OptionsTemplateView>,
    pub formatters: RegistryView,
}

/// One decoded set as a mathematical value.
pub enum SetView {
    TemplateSet { header: SetHeader, records: Seq<TemplateView> },
    OptionsTemplateSet { header: SetHeader, records: Seq<OptionsTemplateView> },
    DataSet(DataSetView),
}

/// A decoded message as a mathematical value.
pub struct MessageView {
    pub header: IpfixHeader,
    pub sets: Seq<SetView>,
}

impl<'a> View for IpfixSet<'a> {
    type V = SetView;

    open spec fn view(&self) -> SetView {
        match *self {
            IpfixSet::TemplateSet(set) => SetView::TemplateSet {
                header: set.header,
                records: templates_view(set.records@),
            },
            IpfixSet::OptionsTemplateSet(set) => SetView::OptionsTemplateSet {
                header: set.header,
                records: options_templates_view(set.records@),
            },
            IpfixSet::DataSet(set) => SetView::DataSet(set@),
        }
    }
}

/// The sets of `v` as mathematical values, in order.
pub open spec fn sets_view<'a>(v: Seq<IpfixSet<'a>>) -> Seq<SetView> {
    v.map_values(|set: IpfixSet<'a>| set@)
}

impl<'a> View for IpfixMessage<'a> {
    type V = MessageView;

    open spec fn view(&self) -> MessageView {
        MessageView { header: self.header, sets: sets_view(self.sets@) }
    }
}

/// The cache of templates, each template as a mathematical value.
pub open spec fn template_cache_view(cache: Map<u16, Template>) -> Map<u16, TemplateView> {
    cache.map_values(|t: Template| t@)
}

/// The cache of options templates, each one as a mathematical value.
pub open spec fn options_template_cache_view(cache: Map<u16, OptionsTemplate>) -> Map<
    u16,
    OptionsTemplateView,
> {
    cache.map_values(|t: OptionsTemplate| t@)
}

impl View for IpfixConsumer {
    type V = ConsumerView;

    closed spec fn view(&self) -> ConsumerView {
        ConsumerView {
            templates: template_cache_view(self.templates@),
            options_templates: options_template_cache_view(self.options_templates@),
            formatters: registry_view(self.pen_formatter),
        }
    }
}

/// A decoder that has seen no message: no template, and the IANA fields under
/// enterprise 0.
pub open spec fn spec_new() -> ConsumerView {
    ConsumerView {
        templates: Map::empty(),
        options_templates: Map::empty(),
        formatters: Map::empty().insert(IANA_ENTERPRISE, spec_default_parsers()),
    }
}

/// The registry after the field `field_id` of the enterprise `enterprise_number`
/// got the name `name` and the parser `parser`. The other fields of that
/// enterprise, and the other enterprises, are as before.
pub open spec fn spec_register(
    registry: RegistryView,
    enterprise_number: u32,
    field_id: u16,
    name: Seq<char>,
    parser: FieldParser,
) -> RegistryView {
    let fields: FormatterView = if registry.contains_key(enterprise_number) {
        registry[enterprise_number]
    } else {
        Map::empty()
    };
    registry.insert(enterprise_number, fields.insert(field_id, (name, parser)))
}

/// The cache after the templates of `templates` were put in, one after another.
/// A template takes the place of one that had its id.
pub open spec fn spec_install_templates(
    cache: Map<u16, TemplateView>,
    templates: Seq<TemplateView>,
) -> Map<u16, TemplateView>
    decreases templates.len(),
{
    if templates.len() == 0 {
        cache
    } else {
        spec_install_templates(cache, templates.drop_last()).insert(
            templates.last().header.template_id,
            templates.last(),
        )
    }
}

/// The cache after the options templates of `templates` were put in, one after
/// another. An options template takes the place of one that had its id.
pub open spec fn spec_install_options_templates(
    cache: Map<u16, OptionsTemplateView>,
    templates: Seq<OptionsTemplateView>,
) -> Map<u16, OptionsTemplateView>
    decreases templates.len(),
{
    if templates.len() == 0 {
        cache
    } else {
        spec_install_options_templates(cache, templates.drop_last()).insert(
            templates.last().header.id,
            templates.last(),
        )
    }
}

/// The field specifiers against which a data set with the set id `id` is
/// decoded: those of the template with that id, else those of the options
/// template with that id, else none.
pub open spec fn spec_lookup(state: ConsumerView, id: u16) -> Option<Seq<FieldSpecifier>> {
    if state.templates.contains_key(id) {
        Some(state.templates[id].field_specifiers)
    } else if state.options_templates.contains_key(id) {
        Some(state.options_templates[id].field_specifiers)
    } else {
        None
    }
}

/// What decoding one set gives: the records of a template set or of an options
/// template set, or the records of a data set, decoded against the specifiers
/// that its set id finds. A data set whose id finds none gives nothing.
pub open spec fn spec_decode_set(state: ConsumerView, set: RawSet) -> Option<SetView> {
    if set.header.set_id == TEMPLATE_SET_ID {
        Some(
            SetView::TemplateSet {
                header: set.header,
                records: spec_parse_templates(set.body).0,
            },
        )
    } else if set.header.set_id == OPTIONS_TEMPLATE_SET_ID {
        Some(
            SetView::OptionsTemplateSet {
                header: set.header,
                records: spec_parse_options_templates(set.body).0,
            },
        )
    } else {
        match spec_lookup(state, set.header.set_id) {
            Some(specifiers) => Some(
                SetView::DataSet(
                    DataSetView {
                        header: set.header,
                        records: spec_decode_records(state.formatters, specifiers, set.body).0,
                    },
                ),
            ),
            None => None,
        }
    }
}

/// What a decoded set does to a decoder: a template set puts its templates into
/// the cache, an options template set its options templates, a data set nothing.
pub open spec fn spec_install_set(state: ConsumerView, set: SetView) -> ConsumerView {
    match set {
        SetView::TemplateSet { header, records } => ConsumerView {
            templates: spec_install_templates(state.templates, records),
            ..state
        },
        SetView::OptionsTemplateSet { header, records } => ConsumerView {
            options_templates: spec_install_options_templates(state.options_templates, records),
            ..state
        },
        SetView::DataSet(_) => state,
    }
}

/// What one set does to a decoder, and the data set that it gives, if any.
pub open spec fn spec_apply_set(state: ConsumerView, set: RawSet) -> (
    ConsumerView,
    Option<DataSetView>,
) {
    match spec_decode_set(state, set) {
        None => (state, None),
        Some(decoded) => (
            spec_install_set(state, decoded),
            match decoded {
                SetView::DataSet(data_set) => Some(data_set),
                _ => None,
            },
        ),
    }
}

/// What a sequence of sets does to a decoder, one set after another, and the
/// data sets that they give, in their order.
pub open spec fn spec_apply_sets(state: ConsumerView, sets: Seq<RawSet>) -> (
    ConsumerView,
    Seq<DataSetView>,
)
    decreases sets.len(),
{
    if sets.len() == 0 {
        (state, Seq::empty())
    } else {
        let (before, data_sets) = spec_apply_sets(state, sets.drop_last());
        let (after, data_set) = spec_apply_set(before, sets.last());
        (
            after,
            match data_set {
                Some(d) => data_sets.push(d),
                None => data_sets,
            },
        )
    }
}

/// What decoding the message `data` does to a decoder, and what it gives: the
/// data sets of the message, or the fault for which the message is rejected.
///
/// A message whose header is rejected, or whose header declares another length
/// than `data` has, leaves the decoder as it was. A fault in a set ends the
/// decoding; the sets before it have had their effect.
pub open spec fn spec_parse_message(state: ConsumerView, data: Seq<u8>) -> (
    ConsumerView,
    Result<Seq<DataSetView>, ParseError>,
) {
    match spec_open_message(data) {
        Err(e) => (state, Err(e)),
        Ok(header) => {
            let (sets, fault) = spec_split_sets(data.skip(MESSAGE_HEADER_LEN as int));
            let (after, data_sets) = spec_apply_sets(state, sets);
            (
                after,
                match fault {
                    Some(e) => Err(e),
                    None => Ok(data_sets),
                },
            )
        },
    }
}

/// What a sequence of sets decodes to, one set after another, each against the
/// decoder as the sets before it have left it.
pub open spec fn spec_decode_sets(state: ConsumerView, sets: Seq<RawSet>) -> Seq<SetView>
    decreases sets.len(),
{
    if sets.len() == 0 {
        Seq::empty()
    } else {
        let front = spec_decode_sets(state, sets.drop_last());
        match spec_decode_set(spec_apply_sets(state, sets.drop_last()).0, sets.last()) {
            Some(decoded) => front.push(decoded),
            None => front,
        }
    }
}

/// What decoding the message `data` gives in full: the header and every set that
/// was decoded, or the fault for which the message is rejected. What it does to
/// the decoder is what [`spec_parse_message`] says.
pub open spec fn spec_decode_message(state: ConsumerView, data: Seq<u8>) -> Result<
    MessageView,
    ParseError,
> {
    match spec_parse_structure(data) {
        Err(e) => Err(e),
        Ok((header, sets)) => Ok(MessageView { header, sets: spec_decode_sets(state, sets) }),
    }
}

impl IpfixConsumer {
    /// A decoder that has seen no message. Its registry holds the IANA fields
    /// under enterprise 0.
    pub fn new() -> (r: IpfixConsumer)
        ensures
            r@ == spec_new(),
    {
        broadcast use vstd::std_specs::hash::group_hash_axioms;

        let mut enterprise_formatters: EnterpriseFormatter = HashMap::new();
        enterprise_formatters.insert(IANA_ENTERPRISE, get_default_parsers());
        let consumer = IpfixConsumer {
            templates: HashMap::new(),
            options_templates: HashMap::new(),
            pen_formatter: enterprise_formatters,
        };
        assert(consumer@.templates =~= Map::empty());
        assert(consumer@.options_templates =~= Map::empty());
        assert(consumer@.formatters =~= spec_new().formatters);
        consumer
    }

    /// Registers the field `field_id` of the enterprise `enterprise_number` under
    /// the name `name`, with `parser` to read its values. A field that was
    /// registered before is overwritten.
    pub fn add_custom_field(
        &mut self,
        enterprise_number: u32,
        field_id: u16,
        name: &'static str,
        parser: FieldParser,
    )
        ensures
            final(self)@.templates == old(self)@.templates,
            final(self)@.options_templates == old(self)@.options_templates,
            final(self)@.formatters == spec_register(
                old(self)@.formatters,
                enterprise_number,
                field_id,
                name@,
                parser,
            ),
    {
        broadcast use vstd::std_specs::hash::group_hash_axioms;

        let mut fields: FieldFormatter = match self.pen_formatter.remove(&enterprise_number) {
            Some(fields) => fields,
            None => HashMap::new(),
        };
        fields.insert(field_id, (name, parser));
        self.pen_formatter.insert(enterprise_number, fields);
        assert(self@.formatters =~~= spec_register(
            old(self)@.formatters,
            enterprise_number,
            field_id,
            name@,
            parser,
        ));
    }

    /// Puts a template into the cache, in place of any template that had its id.
    pub fn add_template(&mut self, template: Template)
        ensures
            final(self)@.templates == old(self)@.templates.insert(
                template.header.template_id,
                template@,
            ),
            final(self)@.options_templates == old(self)@.options_templates,
            final(self)@.formatters == old(self)@.formatters,
    {
        broadcast use vstd::std_specs::hash::group_hash_axioms;

        let id = template.header.template_id;
        self.templates.insert(id, template);
        assert(self@.templates =~= old(self)@.templates.insert(id, template@));
    }

    /// Puts an options template into the cache, in place of any options template
    /// that had its id.
    pub fn add_options_template(&mut self, template: OptionsTemplate)
        ensures
            final(self)@.templates == old(self)@.templates,
            final(self)@.options_templates == old(self)@.options_templates.insert(
                template.header.id,
                template@,
            ),
            final(self)@.formatters == old(self)@.formatters,
    {
        broadcast use vstd::std_specs::hash::group_hash_axioms;

        let id = template.header.id;
        self.options_templates.insert(id, template);
        assert(self@.options_templates =~= old(self)@.options_templates.insert(id, template@));
    }

    /// Puts the templates into the cache, one after another.
    pub fn add_templates(&mut self, templates: Vec<Template>)
        ensures
            final(self)@.templates == spec_install_templates(
                old(self)@.templates,
                templates_view(templates@),
            ),
            final(self)@.options_templates == old(self)@.options_templates,
            final(self)@.formatters == old(self)@.formatters,
    {
        let ghost all = templates@;
        assert(templates_view(all.take(0)) =~= Seq::empty());
        for template in it: templates
            invariant
                it.seq() == all,
                self@.templates == spec_install_templates(
                    old(self)@.templates,
                    templates_view(all.take(it.index() as int)),
                ),
                self@.options_templates == old(self)@.options_templates,
                self@.formatters == old(self)@.formatters,
        {
            proof {
                let k = it.index() as int;
                assert(templates_view(all.take(k + 1)).drop_last() =~= templates_view(
                    all.take(k),
                ));
                assert(templates_view(all.take(k + 1)).last() == template@);
            }
            self.add_template(template);
        }
        assert(all.take(all.len() as int) =~= all);
    }

    /// Puts the options templates into the cache, one after another.
    pub fn add_options_templates(&mut self, templates: Vec<OptionsTemplate>)
        ensures
            final(self)@.templates == old(self)@.templates,
            final(self)@.options_templates == spec_install_options_templates(
                old(self)@.options_templates,
                options_templates_view(templates@),
            ),
            final(self)@.formatters == old(self)@.formatters,
    {
        let ghost all = templates@;
        assert(options_templates_view(all.take(0)) =~= Seq::empty());
        for template in it: templates
            invariant
                it.seq() == all,
                self@.templates == old(self)@.templates,
                self@.options_templates == spec_install_options_templates(
                    old(self)@.options_templates,
                    options_templates_view(all.take(it.index() as int)),
                ),
                self@.formatters == old(self)@.formatters,
        {
            proof {
                let k = it.index() as int;
                assert(options_templates_view(all.take(k + 1)).drop_last()
                    =~= options_templates_view(all.take(k)));
                assert(options_templates_view(all.take(k + 1)).last() == template@);
            }
            self.add_options_template(template);
        }
        assert(all.take(all.len() as int) =~= all);
    }

    /// The template with the id `id`, if the cache holds one.
    pub fn get_template(&self, id: u16) -> (r: Option<&Template>)
        ensures
            match r {
                Some(template) => self@.templates.contains_key(id) && self@.templates[id]
                    == template@,
                None => !self@.templates.contains_key(id),
            },
    {
        broadcast use vstd::std_specs::hash::group_hash_axioms;

        self.templates.get(&id)
    }

    /// The options template with the id `id`, if the cache holds one.
    pub fn get_options_template(&self, id: u16) -> (r: Option<&OptionsTemplate>)
        ensures
            match r {
                Some(template) => self@.options_templates.contains_key(id)
                    && self@.options_templates[id] == template@,
                None => !self@.options_templates.contains_key(id),
            },
    {
        broadcast use vstd::std_specs::hash::group_hash_axioms;

        self.options_templates.get(&id)
    }

    /// The field specifiers against which a data set with the set id `id` is
    /// decoded: those of the template with that id, else those of the options
    /// template with that id.
    pub fn lookup(&self, id: u16) -> (r: Option<&Vec<FieldSpecifier>>)
        ensures
            match r {
                Some(specifiers) => spec_lookup(self@, id) == Some(specifiers@),
                None => spec_lookup(self@, id) is None,
            },
    {
        broadcast use vstd::std_specs::hash::group_hash_axioms;

        match self.templates.get(&id) {
            Some(template) => Some(&template.field_specifiers),
            None => match self.options_templates.get(&id) {
                Some(template) => Some(&template.field_specifiers),
                None => None,
            },
        }
    }

    /// Decodes one set: the records of a template set or of an options template
    /// set, or the records of a data set whose set id finds a template in the
    /// cache. A data set whose id finds none gives nothing. The decoder is left as
    /// it is.
    pub fn parse_set<'a>(&self, set: SetSlice<'a>) -> (r: Option<IpfixSet<'a>>)
        ensures
            match r {
                Some(decoded) => spec_decode_set(self@, set@) == Some(decoded@),
                None => spec_decode_set(self@, set@) is None,
            },
    {
        match set.header.kind() {
            SetKind::Template => Some(
                IpfixSet::TemplateSet(parse_template_set(set.body, set.header).1),
            ),
            SetKind::OptionsTemplate => Some(
                IpfixSet::OptionsTemplateSet(parse_options_template_set(set.body, set.header).1),
            ),
            SetKind::Data => match self.lookup(set.header.set_id) {
                Some(specifiers) => Some(
                    IpfixSet::DataSet(
                        parse_data_set(set.body, set.header, specifiers, &self.pen_formatter).1,
                    ),
                ),
                None => None,
            },
        }
    }

    /// Lets a decoded set take effect, and leaves the set with the caller: the
    /// templates of a template set and the options templates of an options
    /// template set go into the cache.
    pub fn install_set(&mut self, set: &IpfixSet)
        ensures
            final(self)@ == spec_install_set(old(self)@, set@),
    {
        match set {
            IpfixSet::TemplateSet(templates) => {
                let mut i: usize = 0;
                assert(templates_view(templates.records@.take(0)) =~= Seq::empty());
                while i < templates.records.len()
                    invariant
                        i <= templates.records@.len(),
                        self@.templates == spec_install_templates(
                            old(self)@.templates,
                            templates_view(templates.records@.take(i as int)),
                        ),
                        self@.options_templates == old(self)@.options_templates,
                        self@.formatters == old(self)@.formatters,
                    decreases templates.records@.len() - i,
                {
                    proof {
                        let all = templates.records@;
                        assert(templates_view(all.take(i + 1)).drop_last() =~= templates_view(
                            all.take(i as int),
                        ));
                        assert(templates_view(all.take(i + 1)).last() == all[i as int]@);
                    }
                    self.add_template(templates.records[i].duplicate());
                    i = i + 1;
                }
                assert(templates.records@.take(i as int) =~= templates.records@);
            },
            IpfixSet::OptionsTemplateSet(templates) => {
                let mut i: usize = 0;
                assert(options_templates_view(templates.records@.take(0)) =~= Seq::empty());
                while i < templates.records.len()
                    invariant
                        i <= templates.records@.len(),
                        self@.templates == old(self)@.templates,
                        self@.options_templates == spec_install_options_templates(
                            old(self)@.options_templates,
                            options_templates_view(templates.records@.take(i as int)),
                        ),
                        self@.formatters == old(self)@.formatters,
                    decreases templates.records@.len() - i,
                {
                    proof {
                        let all = templates.records@;
                        assert(options_templates_view(all.take(i + 1)).drop_last()
                            =~= options_templates_view(all.take(i as int)));
                        assert(options_templates_view(all.take(i + 1)).last() == all[i as int]@);
                    }
                    self.add_options_template(templates.records[i].duplicate());
                    i = i + 1;
                }
                assert(templates.records@.take(i as int) =~= templates.records@);
            },
            IpfixSet::DataSet(_) => {},
        }
    }

    /// Decodes one set and lets it take effect: templates and options templates
    /// go into the cache, a data set is appended to `data_sets`.
    pub fn process_set<'a>(&mut self, set: SetSlice<'a>, data_sets: &mut Vec<DataSet<'a>>)
        ensures
            final(self)@ == spec_apply_set(old(self)@, set@).0,
            data_sets_view(final(data_sets)@) == match spec_apply_set(old(self)@, set@).1 {
                Some(data_set) => data_sets_view(old(data_sets)@).push(data_set),
                None => data_sets_view(old(data_sets)@),
            },
    {
        match self.parse_set(set) {
            Some(IpfixSet::TemplateSet(templates)) => {
                self.add_templates(templates.records);
            },
            Some(IpfixSet::OptionsTemplateSet(templates)) => {
                self.add_options_templates(templates.records);
            },
            Some(IpfixSet::DataSet(data_set)) => {
                assert(data_sets_view(data_sets@.push(data_set)) =~= data_sets_view(
                    data_sets@,
                ).push(data_set@));
                data_sets.push(data_set);
            },
            None => {},
        }
    }

    /// Decodes one message: installs the templates that it defines and decodes
    /// its data sets against the templates that are in the cache when each set is
    /// reached, those of earlier sets of the same message among them. Hands back
    /// the bytes that are left, of which there are none, and the data sets.
    ///
    /// The message is rejected where its header is, where the length that its
    /// header declares is not that of `data`, and where a set declares a length
    /// under four or over what is left of the message. The sets before such a set
    /// have had their effect.
    pub fn parse_message<'a>(&mut self, data: &'a [u8]) -> (r: Result<
        (&'a [u8], Vec<DataSet<'a>>),
        ParseError,
    >)
        ensures
            final(self)@ == spec_parse_message(old(self)@, data@).0,
            match r {
                Ok((rest, data_sets)) => spec_parse_message(old(self)@, data@).1 == Ok::<
                    Seq<DataSetView>,
                    ParseError,
                >(data_sets_view(data_sets@)) && rest@.len() == 0,
                Err(e) => spec_parse_message(old(self)@, data@).1 == Err::<
                    Seq<DataSetView>,
                    ParseError,
                >(e),
            },
    {
        let (body, _) = match open_message(data) {
            Ok(opened) => opened,
            Err(e) => { return Err(e); },
        };
        let (sets, fault) = split_sets(body);
        let mut data_sets: Vec<DataSet<'a>> = Vec::new();
        let mut i: usize = 0;
        assert(data_sets_view(data_sets@) =~= Seq::empty());
        while i < sets.len()
            invariant
                i <= sets@.len(),
                (self@, data_sets_view(data_sets@)) == spec_apply_sets(
                    old(self)@,
                    set_slices_view(sets@).take(i as int),
                ),
            decreases sets@.len() - i,
        {
            proof {
                let all = set_slices_view(sets@);
                assert(all.take(i + 1).drop_last() =~= all.take(i as int));
                assert(all.take(i + 1).last() == sets@[i as int]@);
            }
            self.process_set(sets[i], &mut data_sets);
            i = i + 1;
        }
        assert(set_slices_view(sets@).take(i as int) =~= set_slices_view(sets@));
        match fault {
            Some(e) => Err(e),
            None => Ok((slice_subrange(body, body.len(), body.len()), data_sets)),
        }
    }

    /// Decodes one message in full: hands back its header and every set that was
    /// decoded, in the order of the message, with the records of the template
    /// sets and of the options template sets among them. The decoder is left as
    /// [`IpfixConsumer::parse_message`] leaves it, also where the message is
    /// rejected.
    pub fn decode_message<'a>(&mut self, data: &'a [u8]) -> (r: Result<
        IpfixMessage<'a>,
        ParseError,
    >)
        ensures
            final(self)@ == spec_parse_message(old(self)@, data@).0,
            match r {
                Ok(message) => spec_decode_message(old(self)@, data@) == Ok::<
                    MessageView,
                    ParseError,
                >(message@),
                Err(e) => spec_decode_message(old(self)@, data@) == Err::<
                    MessageView,
                    ParseError,
                >(e),
            },
    {
        let (body, header) = match open_message(data) {
            Ok(opened) => opened,
            Err(e) => { return Err(e); },
        };
        let (sets, fault) = split_sets(body);
        let mut decoded: Vec<IpfixSet<'a>> = Vec::new();
        let mut i: usize = 0;
        assert(sets_view(decoded@) =~= Seq::empty());
        while i < sets.len()
            invariant
                i <= sets@.len(),
                self@ == spec_apply_sets(old(self)@, set_slices_view(sets@).take(i as int)).0,
                sets_view(decoded@) == spec_decode_sets(
                    old(self)@,
                    set_slices_view(sets@).take(i as int),
                ),
            decreases sets@.len() - i,
        {
            proof {
                let all = set_slices_view(sets@);
                assert(all.take(i + 1).drop_last() =~= all.take(i as int));
                assert(all.take(i + 1).last() == sets@[i as int]@);
            }
            match self.parse_set(sets[i]) {
                Some(set) => {
                    self.install_set(&set);
                    assert(sets_view(decoded@.push(set)) =~= sets_view(decoded@).push(set@));
                    decoded.push(set);
                },
                None => {},
            }
            i = i + 1;
        }
        assert(set_slices_view(sets@).take(i as int) =~= set_slices_view(sets@));
        match fault {
            Some(e) => Err(e),
            None => Ok(IpfixMessage { header, sets: decoded }),
        }
    }
}

} // verus!
