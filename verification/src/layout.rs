//! Layout: whether a builder struct has any field at all, and whether its
//! data must live in a container of its own.
//!
//! A setter changes only the markers of a builder, never its data. The
//! generated code does so by reinterpreting the builder, which is sound only
//! where the layout of the builder does not depend on its markers. Where
//! the data of parameters must stand beside markers, the data moves into a
//! container without markers, and the builder holds that container alone.

use crate::builder::{ApiObjectBuilder, BuilderView, SlotView, StructField};
use crate::object::{FieldView, ObjectField, ParamView, Parameter};
use crate::unify::unified;
use vstd::prelude::*;

verus! {

/// Whether some parameter of the list is required.
pub open spec fn any_required_param(ps: Seq<ParamView>) -> bool {
    exists|i: int| 0 <= i < ps.len() && (#[trigger] ps[i]).required
}

/// Whether some field of the list is required.
pub open spec fn any_required_field(fs: Seq<FieldView>) -> bool {
    exists|i: int| 0 <= i < fs.len() && (#[trigger] fs[i]).is_required
}

/// Whether a builder needs a container: some parameter is required, or the
/// body is required with a required field while there is a parameter.
pub open spec fn container_needed(b: BuilderView) -> bool {
    ||| any_required_param(b.local_params)
    ||| any_required_param(b.global_params)
    ||| (b.body_required && any_required_field(b.fields) && b.local_params.len()
        + b.global_params.len() > 0)
}

/// Whether an entry gives the builder struct a field: it is a parameter, or
/// it is required.
pub open spec fn gives_field(slot: SlotView) -> bool {
    slot.prop.parameter() || slot.prop.required()
}

/// Whether some entry of the list gives the builder struct a field.
pub open spec fn any_gives_field(slots: Seq<SlotView>) -> bool {
    exists|i: int| 0 <= i < slots.len() && gives_field(#[trigger] slots[i])
}

/// Whether the struct of a builder has at least one field.
pub open spec fn has_field(b: BuilderView) -> bool {
    any_gives_field(unified(b))
}

fn some_param_required(ps: &[Parameter]) -> (yes: bool)
    ensures
        yes == any_required_param(ps.deep_view()),
{
    let mut i: usize = 0;
    while i < ps.len()
        invariant
            i <= ps.len(),
            forall|j: int| 0 <= j < i ==> !(#[trigger] ps.deep_view()[j]).required,
        decreases ps.len() - i,
    {
        if ps[i].required {
            assert(ps.deep_view()[i as int].required);
            return true;
        }
        i += 1;
    }
    false
}

fn some_field_required(fs: &[ObjectField]) -> (yes: bool)
    ensures
        yes == any_required_field(fs.deep_view()),
{
    let mut i: usize = 0;
    while i < fs.len()
        invariant
            i <= fs.len(),
            forall|j: int| 0 <= j < i ==> !(#[trigger] fs.deep_view()[j]).is_required,
        decreases fs.len() - i,
    {
        if fs[i].is_required {
            assert(fs.deep_view()[i as int].is_required);
            return true;
        }
        i += 1;
    }
    false
}

/// Whether some entry of `slots` gives the builder struct a field.
pub fn some_slot_gives_field(slots: &Vec<StructField<'_>>) -> (yes: bool)
    ensures
        yes == any_gives_field(slots.deep_view()),
{
    let mut i: usize = 0;
    while i < slots.len()
        invariant
            i <= slots.len(),
            forall|j: int| 0 <= j < i ==> !gives_field(#[trigger] slots.deep_view()[j]),
        decreases slots.len() - i,
    {
        if slots[i].prop.is_parameter() || slots[i].prop.is_required() {
            assert(gives_field(slots.deep_view()[i as int]));
            return true;
        }
        i += 1;
    }
    false
}

impl<'a> ApiObjectBuilder<'a> {
    /// Returns whether the struct of this builder has at least one field.
    pub fn has_atleast_one_field(&self) -> (yes: bool)
        ensures
            yes == has_field(self@),
    {
        let slots = self.struct_fields_iter();
        some_slot_gives_field(&slots)
    }

    /// Returns whether the struct of this builder needs a container of its
    /// own for its data.
    pub fn needs_container(&self) -> (yes: bool)
        ensures
            yes == container_needed(self@),
    {
        some_param_required(self.local_params) || some_param_required(self.global_params) || (
        self.body_required && some_field_required(self.fields) && (self.local_params.len() > 0
            || self.global_params.len() > 0))
    }
}

} // verus!
