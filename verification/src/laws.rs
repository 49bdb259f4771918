//! What holds of the decoding of messages, whatever the message.

use vstd::prelude::*;
use crate::consumer::{
    spec_register,
    spec_apply_set,
    spec_apply_sets,
    spec_decode_message,
    spec_decode_sets,
    spec_install_options_templates,
    spec_install_templates,
    spec_lookup,
    spec_parse_message,
    ConsumerView,
    SetView,
};
use crate::dataset::{
    lemma_records_have_one_entry_per_specifier,
    spec_decode_records,
    spec_enrich_field,
    spec_enterprise,
};
use crate::formatter::{FieldParser, RegistryView};
use crate::error::ParseError;
use crate::header::{
    spec_next_set,
    spec_parse_header,
    spec_parse_structure,
    spec_sets_length,
    spec_split_sets,
    RawSet,
    MESSAGE_HEADER_LEN,
    OPTIONS_TEMPLATE_SET_ID,
    TEMPLATE_SET_ID,
};
use crate::record::{DataSetView, KeyView};
use crate::template::{
    FieldSpecifier,
    spec_parse_options_templates,
    spec_parse_templates,
    OptionsTemplateView,
    TemplateView,
};

verus! {

/// A data set is decoded against the field specifiers that its set id finds in
/// the cache, and each of its records has one entry for each of them.
pub proof fn lemma_data_set_records_follow_template(state: ConsumerView, set: RawSet)
    requires
        spec_apply_set(state, set).1 is Some,
    ensures
        spec_lookup(state, set.header.set_id) is Some,
        spec_apply_set(state, set).1.unwrap().header == set.header,
        forall|j: int|
            0 <= j < spec_apply_set(state, set).1.unwrap().records.len() ==> (
            #[trigger] spec_apply_set(state, set).1.unwrap().records[j]).len() == spec_lookup(
                state,
                set.header.set_id,
            ).unwrap().len(),
{
    let specifiers = spec_lookup(state, set.header.set_id).unwrap();
    lemma_records_have_one_entry_per_specifier(state.formatters, specifiers, set.body);
}

/// Once a template is installed, in place of another with its id or not, a data
/// set with that id is decoded against the specifiers of that template.
pub proof fn lemma_installed_template_is_used(
    state: ConsumerView,
    template: TemplateView,
    set: RawSet,
)
    requires
        set.header.set_id == template.header.template_id,
        set.header.set_id != TEMPLATE_SET_ID,
        set.header.set_id != OPTIONS_TEMPLATE_SET_ID,
    ensures
        spec_apply_set(
            ConsumerView {
                templates: state.templates.insert(template.header.template_id, template),
                ..state
            },
            set,
        ).1 == Some(
            DataSetView {
                header: set.header,
                records: spec_decode_records(
                    state.formatters,
                    template.field_specifiers,
                    set.body,
                ).0,
            },
        ),
{
}

/// Once an options template is installed, in place of another with its id or
/// not, a data set with that id is decoded against the specifiers of that options
/// template, unless a template has the same id: a template comes first.
pub proof fn lemma_installed_options_template_is_used(
    state: ConsumerView,
    template: OptionsTemplateView,
    set: RawSet,
)
    requires
        set.header.set_id == template.header.id,
        set.header.set_id != TEMPLATE_SET_ID,
        set.header.set_id != OPTIONS_TEMPLATE_SET_ID,
        !state.templates.contains_key(template.header.id),
    ensures
        spec_apply_set(
            ConsumerView {
                options_templates: state.options_templates.insert(template.header.id, template),
                ..state
            },
            set,
        ).1 == Some(
            DataSetView {
                header: set.header,
                records: spec_decode_records(
                    state.formatters,
                    template.field_specifiers,
                    set.body,
                ).0,
            },
        ),
{
}

/// Two decoders that hold the same templates, the same options templates and the
/// same registry decode a message alike: they give the same data sets, or reject
/// the message for the same fault, and they hold the same templates afterwards.
pub proof fn lemma_independent_decoders_agree(a: ConsumerView, b: ConsumerView, data: Seq<u8>)
    requires
        a.templates =~= b.templates,
        a.options_templates =~= b.options_templates,
        a.formatters =~~= b.formatters,
    ensures
        spec_parse_message(a, data) == spec_parse_message(b, data),
{
}

/// The sets that are found in `s` lie back to back from its start; where no
/// fault stops the walk they take up all of `s`.
pub proof fn lemma_split_sets_length(s: Seq<u8>)
    ensures
        spec_sets_length(spec_split_sets(s).0) <= s.len(),
        spec_split_sets(s).1 is None ==> spec_sets_length(spec_split_sets(s).0) == s.len(),
    decreases s.len(),
{
    if s.len() > 0 {
        match spec_next_set(s) {
            Err(_) => {},
            Ok(set) => {
                let tail = s.skip(set.header.length as int);
                lemma_split_sets_length(tail);
                lemma_sets_length_prepend(set, spec_split_sets(tail).0);
            },
        }
    }
}

/// A set in front of a sequence of sets adds its length to theirs.
pub proof fn lemma_sets_length_prepend(set: RawSet, sets: Seq<RawSet>)
    ensures
        spec_sets_length(seq![set] + sets) == set.header.length + spec_sets_length(sets),
    decreases sets.len(),
{
    let joined = seq![set] + sets;
    if sets.len() == 0 {
        assert(joined.drop_last() =~= Seq::<RawSet>::empty());
        assert(joined.last() == set);
        assert(spec_sets_length(joined.drop_last()) == 0);
    } else {
        assert(joined.drop_last() =~= seq![set] + sets.drop_last());
        assert(joined.last() == sets.last());
        lemma_sets_length_prepend(set, sets.drop_last());
    }
}

/// A message is accepted exactly where its structure is sound, whatever the
/// decoder holds.
pub proof fn lemma_accepted_where_structure_is_sound(state: ConsumerView, data: Seq<u8>)
    ensures
        spec_parse_message(state, data).1 is Ok <==> spec_parse_structure(data) is Ok,
        spec_decode_message(state, data) is Ok <==> spec_parse_structure(data) is Ok,
        spec_parse_structure(data) matches Err(e) ==> spec_parse_message(state, data).1 == Err::<
            Seq<DataSetView>,
            ParseError,
        >(e),
{
}

/// A message that is accepted has the length that its header declares, and its
/// header and its sets take up every byte of it.
pub proof fn lemma_accepted_message_is_consumed(state: ConsumerView, data: Seq<u8>)
    requires
        spec_parse_message(state, data).1 is Ok,
    ensures
        spec_parse_structure(data) is Ok,
        spec_parse_structure(data).unwrap().0.length == data.len(),
        MESSAGE_HEADER_LEN + spec_sets_length(spec_parse_structure(data).unwrap().1)
            == data.len(),
{
    lemma_split_sets_length(data.skip(MESSAGE_HEADER_LEN as int));
}

/// A buffer that holds more bytes than the message header declares is rejected,
/// and leaves the decoder as it was.
pub proof fn lemma_surplus_is_rejected(state: ConsumerView, data: Seq<u8>)
    requires
        spec_parse_header(data) is Ok,
        spec_parse_header(data).unwrap().length < data.len(),
    ensures
        spec_parse_message(state, data) == (
            state,
            Err::<Seq<DataSetView>, ParseError>(ParseError::TrailingBytes),
        ),
{
}

/// Every set of the sequence is a template set or an options template set.
pub open spec fn spec_only_templates(sets: Seq<RawSet>) -> bool {
    forall|i: int|
        0 <= i < sets.len() ==> (#[trigger] sets[i]).header.set_id == TEMPLATE_SET_ID
            || sets[i].header.set_id == OPTIONS_TEMPLATE_SET_ID
}

/// The templates that the template sets of the sequence define, in the order of
/// the message.
pub open spec fn spec_templates_of(sets: Seq<RawSet>) -> Seq<TemplateView>
    decreases sets.len(),
{
    if sets.len() == 0 {
        Seq::empty()
    } else if sets.last().header.set_id == TEMPLATE_SET_ID {
        spec_templates_of(sets.drop_last()) + spec_parse_templates(sets.last().body).0
    } else {
        spec_templates_of(sets.drop_last())
    }
}

/// The options templates that the options template sets of the sequence define,
/// in the order of the message.
pub open spec fn spec_options_templates_of(sets: Seq<RawSet>) -> Seq<OptionsTemplateView>
    decreases sets.len(),
{
    if sets.len() == 0 {
        Seq::empty()
    } else if sets.last().header.set_id == OPTIONS_TEMPLATE_SET_ID {
        spec_options_templates_of(sets.drop_last()) + spec_parse_options_templates(
            sets.last().body,
        ).0
    } else {
        spec_options_templates_of(sets.drop_last())
    }
}

/// Installing one list of templates and then another is installing the two lists
/// joined.
pub proof fn lemma_install_templates_append(
    cache: Map<u16, TemplateView>,
    first: Seq<TemplateView>,
    second: Seq<TemplateView>,
)
    ensures
        spec_install_templates(spec_install_templates(cache, first), second)
            == spec_install_templates(cache, first + second),
    decreases second.len(),
{
    if second.len() == 0 {
        assert(first + second =~= first);
    } else {
        assert((first + second).drop_last() =~= first + second.drop_last());
        lemma_install_templates_append(cache, first, second.drop_last());
    }
}

/// Installing one list of options templates and then another is installing the
/// two lists joined.
pub proof fn lemma_install_options_templates_append(
    cache: Map<u16, OptionsTemplateView>,
    first: Seq<OptionsTemplateView>,
    second: Seq<OptionsTemplateView>,
)
    ensures
        spec_install_options_templates(spec_install_options_templates(cache, first), second)
            == spec_install_options_templates(cache, first + second),
    decreases second.len(),
{
    if second.len() == 0 {
        assert(first + second =~= first);
    } else {
        assert((first + second).drop_last() =~= first + second.drop_last());
        lemma_install_options_templates_append(cache, first, second.drop_last());
    }
}

/// Sets that are all template sets or options template sets give no data set.
/// They leave the registry as it was, and the caches as installing each of their
/// templates once, in the order of the message, leaves them.
pub proof fn lemma_template_sets_only_install(state: ConsumerView, sets: Seq<RawSet>)
    requires
        spec_only_templates(sets),
    ensures
        spec_apply_sets(state, sets).1 == Seq::<DataSetView>::empty(),
        spec_apply_sets(state, sets).0.formatters == state.formatters,
        spec_apply_sets(state, sets).0.templates == spec_install_templates(
            state.templates,
            spec_templates_of(sets),
        ),
        spec_apply_sets(state, sets).0.options_templates == spec_install_options_templates(
            state.options_templates,
            spec_options_templates_of(sets),
        ),
    decreases sets.len(),
{
    if sets.len() > 0 {
        let front = sets.drop_last();
        assert(spec_only_templates(front));
        lemma_template_sets_only_install(state, front);
        lemma_install_templates_append(
            state.templates,
            spec_templates_of(front),
            spec_parse_templates(sets.last().body).0,
        );
        lemma_install_options_templates_append(
            state.options_templates,
            spec_options_templates_of(front),
            spec_parse_options_templates(sets.last().body).0,
        );
    }
}

/// A message that is accepted and holds template sets and options template sets
/// only gives no data set, and leaves the caches as installing each of its
/// templates once, in the order of the message, leaves them.
pub proof fn lemma_template_message_only_installs(state: ConsumerView, data: Seq<u8>)
    requires
        spec_parse_message(state, data).1 is Ok,
        spec_only_templates(spec_split_sets(data.skip(MESSAGE_HEADER_LEN as int)).0),
    ensures
        spec_parse_message(state, data).1 == Ok::<Seq<DataSetView>, ParseError>(Seq::empty()),
        spec_parse_message(state, data).0.formatters == state.formatters,
        spec_parse_message(state, data).0.templates == spec_install_templates(
            state.templates,
            spec_templates_of(spec_split_sets(data.skip(MESSAGE_HEADER_LEN as int)).0),
        ),
        spec_parse_message(state, data).0.options_templates == spec_install_options_templates(
            state.options_templates,
            spec_options_templates_of(spec_split_sets(data.skip(MESSAGE_HEADER_LEN as int)).0),
        ),
{
    lemma_template_sets_only_install(
        state,
        spec_split_sets(data.skip(MESSAGE_HEADER_LEN as int)).0,
    );
}


/// The data sets among decoded sets, in their order.
pub open spec fn spec_data_sets_of(sets: Seq<SetView>) -> Seq<DataSetView>
    decreases sets.len(),
{
    if sets.len() == 0 {
        Seq::empty()
    } else {
        match sets.last() {
            SetView::DataSet(data_set) => spec_data_sets_of(sets.drop_last()).push(data_set),
            _ => spec_data_sets_of(sets.drop_last()),
        }
    }
}

/// The data sets among the sets that a sequence of sets decodes to are the data
/// sets that the sequence gives.
pub proof fn lemma_decoded_data_sets(state: ConsumerView, sets: Seq<RawSet>)
    ensures
        spec_data_sets_of(spec_decode_sets(state, sets)) == spec_apply_sets(state, sets).1,
    decreases sets.len(),
{
    if sets.len() > 0 {
        lemma_decoded_data_sets(state, sets.drop_last());
        let front = spec_decode_sets(state, sets.drop_last());
        let decoded = spec_decode_sets(state, sets);
        if decoded.len() > front.len() {
            assert(decoded.drop_last() =~= front);
        }
    }
}

/// Decoding a message in full and decoding it for its data sets agree: they
/// reject the same messages for the same fault, and the data sets of the one are
/// the data sets among the sets of the other.
pub proof fn lemma_both_decodings_agree(state: ConsumerView, data: Seq<u8>)
    ensures
        match spec_decode_message(state, data) {
            Ok(message) => spec_parse_message(state, data).1 == Ok::<
                Seq<DataSetView>,
                ParseError,
            >(spec_data_sets_of(message.sets)),
            Err(e) => spec_parse_message(state, data).1 == Err::<Seq<DataSetView>, ParseError>(
                e,
            ),
        },
{
    if spec_parse_structure(data) is Ok {
        lemma_decoded_data_sets(state, spec_parse_structure(data).unwrap().1);
    }
}


/// Once a field is registered, anew or over an earlier registration, its values
/// are read with the parser and named with the name of that registration.
pub proof fn lemma_registered_field_is_used(
    registry: RegistryView,
    field: FieldSpecifier,
    name: Seq<char>,
    parser: FieldParser,
    bytes: Seq<u8>,
)
    ensures
        spec_enrich_field(
            spec_register(registry, spec_enterprise(field), field.ident, name, parser),
            field,
            bytes,
        ) == (KeyView::Str(name), parser.spec_parse(bytes)),
{
}

/// A registration leaves every other field as it was: a field with another id,
/// of an enterprise that the registry held, gets the entry that it got before.
pub proof fn lemma_registration_keeps_other_fields(
    registry: RegistryView,
    enterprise_number: u32,
    field_id: u16,
    name: Seq<char>,
    parser: FieldParser,
    other: FieldSpecifier,
    bytes: Seq<u8>,
)
    requires
        registry.contains_key(enterprise_number),
        spec_enterprise(other) != enterprise_number || other.ident != field_id,
    ensures
        spec_enrich_field(
            spec_register(registry, enterprise_number, field_id, name, parser),
            other,
            bytes,
        ) == spec_enrich_field(registry, other, bytes),
{
}

} // verus!
