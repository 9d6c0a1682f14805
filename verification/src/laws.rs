//! What holds of unification, of the markers, of the container and of the
//! rendered text, for every model.

use crate::builder::{ApiObjectBuilder, BuilderView, MarkerMode, SlotView};
use crate::emit::builder_text;
use crate::layout::{any_required_field, any_required_param, container_needed};
use crate::object::{ApiObject, ParamView};
use crate::record::object_text;
use crate::naming::Cased;
use crate::typestate::{
    any_slot, exists_marker, generic_count, generics_with, marker_with, markers_with,
    missing_marker, required_count,
};
use crate::unify::{
    distinct_names, lemma_accepted_names, lemma_merged_names, lemma_slot_index,
    lemma_slot_index_is, merged, param_slot, slot_index, unified,
};
use vstd::prelude::*;

verus! {

/// The text of an object is determined by what the object holds: two
/// objects that hold the same have the same text, and so do two renderings
/// of one object.
pub proof fn lemma_object_text_determined(a: ApiObject, b: ApiObject, first: String, second: String)
    requires
        a@ == b@,
        first@ == object_text(a@),
        second@ == object_text(b@),
    ensures
        first@ == second@,
{
}

/// The text of a builder is determined by what the builder holds: two
/// builders that hold the same have the same text, and so do two renderings
/// of one builder.
pub proof fn lemma_builder_text_determined(
    a: ApiObjectBuilder<'_>,
    b: ApiObjectBuilder<'_>,
    first: String,
    second: String,
)
    requires
        a@ == b@,
        first@ == builder_text(a@),
        second@ == builder_text(b@),
    ensures
        first@ == second@,
{
}

/// Where no two entries share a name, the entry of a name is found at its
/// index.
pub proof fn lemma_slot_index_of_entry(slots: Seq<SlotView>, i: int)
    requires
        distinct_names(slots),
        0 <= i < slots.len(),
    ensures
        slot_index(slots, slots[i].name) == i,
{
    assert forall|j: int| 0 <= j < i implies (#[trigger] slots[j]).name != slots[i].name by {
        assert(slots[j].name != slots[i].name);
    }
    lemma_slot_index_is(slots, slots[i].name, i);
}

/// Among parameters the last one written under a name stands: the entry of
/// that name is the entry of that parameter.
pub proof fn lemma_last_parameter_stands(ps: Seq<ParamView>, k: int)
    requires
        0 <= k < ps.len(),
        forall|j: int| k < j < ps.len() ==> (#[trigger] ps[j]).name != ps[k].name,
    ensures
        0 <= slot_index(merged(ps), ps[k].name) < merged(ps).len(),
        merged(ps)[slot_index(merged(ps), ps[k].name)] == param_slot(ps[k]),
    decreases ps.len(),
{
    let init = ps.drop_last();
    let last = ps.last();
    let name = ps[k].name;
    let before = merged(init);
    let after = merged(ps);
    lemma_merged_names(init);
    lemma_merged_names(ps);
    lemma_slot_index(before, last.name);
    let at = slot_index(before, last.name);
    if k == ps.len() - 1 {
        assert(after[at] == param_slot(last));
        lemma_slot_index_of_entry(after, at);
    } else {
        assert(init[k] == ps[k]);
        assert forall|j: int| k < j < init.len() implies (#[trigger] init[j]).name
            != init[k].name by {
            assert(ps[j].name != ps[k].name);
        }
        lemma_last_parameter_stands(init, k);
        let i = slot_index(before, name);
        assert(ps[ps.len() - 1].name != name);
        assert(after[i] == before[i]);
        lemma_slot_index_of_entry(after, i);
    }
}

/// A parameter of the operation stands for every parameter of the path
/// that has its name, whatever their types: where it is the last parameter
/// of the operation with its name, the unified list holds its entry under
/// that name, with its type, description, location and requiredness, and
/// holds no other entry of that name.
pub proof fn lemma_local_parameter_stands(b: BuilderView, k: int)
    requires
        0 <= k < b.local_params.len(),
        forall|j: int|
            k < j < b.local_params.len() ==> (#[trigger] b.local_params[j]).name
                != b.local_params[k].name,
    ensures
        distinct_names(unified(b)),
        0 <= slot_index(unified(b), b.local_params[k].name) < unified(b).len(),
        unified(b)[slot_index(unified(b), b.local_params[k].name)] == (SlotView {
            overridden: unified(b)[slot_index(unified(b), b.local_params[k].name)].overridden,
            ..param_slot(b.local_params[k])
        }),
{
    let ps = b.global_params + b.local_params;
    let at = b.global_params.len() + k;
    assert(ps[at] == b.local_params[k]);
    assert forall|j: int| at < j < ps.len() implies (#[trigger] ps[j]).name != ps[at].name by {
        assert(ps[j] == b.local_params[j - b.global_params.len()]);
    }
    lemma_last_parameter_stands(ps, at);
    lemma_merged_names(ps);
    lemma_accepted_names(merged(ps), b.fields, b.body_required);
    let i = slot_index(merged(ps), ps[at].name);
    assert(unified(b)[i].name == ps[at].name);
    lemma_slot_index_of_entry(unified(b), i);
}

/// The marker of a property in each mode: "exists" where all are changed,
/// "missing" where all are replaced; where one is changed, "exists" for
/// that one and the plain generic name for every other.
pub proof fn lemma_marker_modes(
    prefix: Seq<char>,
    name: Seq<char>,
    camel: Seq<char>,
    set: Seq<char>,
)
    ensures
        marker_with(prefix, name, camel, MarkerMode::ChangeAll) == exists_marker(prefix, camel),
        marker_with(prefix, name, camel, MarkerMode::ReplaceAll) == missing_marker(prefix, camel),
        marker_with(prefix, name, camel, MarkerMode::Generic) == camel,
        marker_with(prefix, name, camel, MarkerMode::ChangeOne(name)) == exists_marker(
            prefix,
            camel,
        ),
        name != set ==> marker_with(prefix, name, camel, MarkerMode::ChangeOne(set))
            == marker_with(prefix, name, camel, MarkerMode::Generic),
{
}

/// Changing one marker leaves the others as they are: where no required
/// entry has the name that is set, the markers are those of the generic
/// mode.
pub proof fn lemma_change_one_elsewhere(
    slots: Seq<SlotView>,
    names: Seq<Cased>,
    prefix: Seq<char>,
    set: Seq<char>,
)
    requires
        forall|i: int|
            0 <= i < slots.len() && (#[trigger] slots[i]).prop.required() ==> slots[i].name != set,
    ensures
        markers_with(slots, names, prefix, MarkerMode::ChangeOne(set)) == markers_with(
            slots,
            names,
            prefix,
            MarkerMode::Generic,
        ),
    decreases slots.len(),
{
    if slots.len() > 0 {
        let init = slots.drop_last();
        assert forall|i: int| 0 <= i < init.len() && (#[trigger] init[i]).prop.required() implies init[i].name != set by {
            assert(init[i] == slots[i]);
        }
        lemma_change_one_elsewhere(init, names.drop_last(), prefix, set);
        assert(slots.last() == slots[slots.len() - 1]);
    }
}

/// The slot of the dynamically typed placeholder is the last one, and no
/// mode changes it or the number of generic parameters.
pub proof fn lemma_any_slot_is_last(
    b: BuilderView,
    names: Seq<Cased>,
    any_value: Option<Seq<char>>,
    mode: MarkerMode,
)
    requires
        b.needs_any,
    ensures
        generics_with(unified(b), names, b.helper_module_prefix, true, any_value, mode)
            == markers_with(unified(b), names, b.helper_module_prefix, mode) + (if required_count(
            unified(b),
        ) > 0 {
            ", "@
        } else {
            "<"@
        }) + any_slot(any_value) + ">"@,
        generic_count(b) == required_count(unified(b)) + 1,
{
}

/// When a container is needed. Without any required parameter or field
/// there is none. With a required parameter there is one. Without any
/// parameter there is none, whatever the body requires. With a required
/// body that has a required field there is one as soon as there is a
/// parameter.
pub proof fn lemma_container_necessity(b: BuilderView)
    ensures
        !any_required_param(b.local_params) && !any_required_param(b.global_params)
            && !any_required_field(b.fields) ==> !container_needed(b),
        any_required_param(b.local_params) || any_required_param(b.global_params)
            ==> container_needed(b),
        b.local_params.len() == 0 && b.global_params.len() == 0 ==> !container_needed(b),
        b.body_required && any_required_field(b.fields) && (b.local_params.len() > 0
            || b.global_params.len() > 0) ==> container_needed(b),
{
}

} // verus!
