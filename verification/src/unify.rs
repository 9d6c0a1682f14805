//! Unification: the fields of an object and the parameters of a path and of
//! an operation, merged into one ordered list in which no name occurs twice.
//!
//! Parameters come first, those of the path before those of the operation.
//! Among parameters the last one written under a name stands, in the place
//! where that name first occurred. The fields follow in their own order. A
//! field whose name is taken is left out; where its type is that of the
//! entry that holds the name, that entry is marked as overridden.

use crate::builder::{ApiObjectBuilder, BuilderView, Property, SlotView, StructField};
use crate::naming::{is_file_marker, FILE_MARKER};
use crate::object::{FieldView, ObjectField, ParamView, Parameter};
use crate::text::{optional_as_str, str_eq};
use vstd::prelude::*;

verus! {

/// The entry that stands for a parameter.
pub open spec fn param_slot(p: ParamView) -> SlotView {
    SlotView {
        name: p.name,
        ty: p.ty_path,
        prop: if p.required {
            Property::RequiredParam
        } else {
            Property::OptionalParam
        },
        desc: p.description,
        overridden: false,
        strict_child_fields: Seq::empty(),
        delimiting: p.delimiting,
        param_loc: Some(p.presence),
        needs_any: false,
        needs_file: p.ty_path == FILE_MARKER@,
    }
}

/// The entry that stands for a field of the object. A field is required
/// only where the body is required and the field itself is.
pub open spec fn field_slot(f: FieldView, body_required: bool) -> SlotView {
    SlotView {
        name: f.name,
        ty: f.ty_path,
        prop: if body_required && f.is_required {
            Property::RequiredField
        } else {
            Property::OptionalField
        },
        desc: f.description,
        overridden: false,
        strict_child_fields: f.child_req_fields,
        delimiting: Seq::empty(),
        param_loc: None,
        needs_any: f.needs_any,
        needs_file: f.ty_path == FILE_MARKER@,
    }
}

/// The least index of an entry named `name`, or `slots.len()` where no
/// entry has that name.
pub open spec fn slot_index(slots: Seq<SlotView>, name: Seq<char>) -> int
    decreases slots.len(),
{
    if slots.len() == 0 {
        0
    } else if slots[0].name == name {
        0
    } else {
        1 + slot_index(slots.drop_first(), name)
    }
}

/// Whether some entry is named `name`.
pub open spec fn has_name(slots: Seq<SlotView>, name: Seq<char>) -> bool {
    exists|i: int| 0 <= i < slots.len() && #[trigger] slots[i].name == name
}

/// Whether no two entries share a name.
pub open spec fn distinct_names(slots: Seq<SlotView>) -> bool {
    forall|i: int, j: int|
        0 <= i < j < slots.len() ==> #[trigger] slots[i].name != #[trigger] slots[j].name
}

/// Writes an entry under its name: into the place of the entry that has
/// the name, or behind all entries where none has it.
pub open spec fn write_param_slot(acc: Seq<SlotView>, slot: SlotView) -> Seq<SlotView> {
    let k = slot_index(acc, slot.name);
    if 0 <= k < acc.len() {
        acc.update(k, slot)
    } else {
        acc.push(slot)
    }
}

/// Writes a parameter under its name.
pub open spec fn write_param(acc: Seq<SlotView>, p: ParamView) -> Seq<SlotView> {
    write_param_slot(acc, param_slot(p))
}

/// The entries for a list of parameters, each written in turn.
pub open spec fn merged(ps: Seq<ParamView>) -> Seq<SlotView>
    decreases ps.len(),
{
    if ps.len() == 0 {
        Seq::empty()
    } else {
        write_param(merged(ps.drop_last()), ps.last())
    }
}

/// Accepts an entry behind the others unless its name is taken. Where the
/// name is taken by an entry of the same type, that entry is marked as
/// overridden.
pub open spec fn accept(acc: Seq<SlotView>, slot: SlotView) -> Seq<SlotView> {
    let k = slot_index(acc, slot.name);
    if 0 <= k < acc.len() {
        if acc[k].ty == slot.ty {
            acc.update(k, SlotView { overridden: true, ..acc[k] })
        } else {
            acc
        }
    } else {
        acc.push(slot)
    }
}

/// The entries after each field of the object has been accepted in turn.
pub open spec fn accepted(acc: Seq<SlotView>, fs: Seq<FieldView>, body_required: bool) -> Seq<
    SlotView,
>
    decreases fs.len(),
{
    if fs.len() == 0 {
        acc
    } else {
        accept(accepted(acc, fs.drop_last(), body_required), field_slot(fs.last(), body_required))
    }
}

/// The unified list of fields and parameters of a builder.
pub open spec fn unified(b: BuilderView) -> Seq<SlotView> {
    accepted(merged(b.global_params + b.local_params), b.fields, b.body_required)
}

/// Whether some parameter of the list is named `name`.
pub open spec fn param_named(ps: Seq<ParamView>, name: Seq<char>) -> bool {
    exists|i: int| 0 <= i < ps.len() && #[trigger] ps[i].name == name
}

/// Whether some field of the list is named `name`.
pub open spec fn field_named(fs: Seq<FieldView>, name: Seq<char>) -> bool {
    exists|i: int| 0 <= i < fs.len() && #[trigger] fs[i].name == name
}

/// `slot_index` is within bounds, no entry before it has the name, and the
/// entry at it has the name when it is an index.
pub proof fn lemma_slot_index(slots: Seq<SlotView>, name: Seq<char>)
    ensures
        0 <= slot_index(slots, name) <= slots.len(),
        forall|j: int| 0 <= j < slot_index(slots, name) ==> (#[trigger] slots[j]).name != name,
        slot_index(slots, name) < slots.len() ==> slots[slot_index(slots, name)].name == name,
        slot_index(slots, name) < slots.len() <==> has_name(slots, name),
    decreases slots.len(),
{
    if slots.len() > 0 && slots[0].name != name {
        let t = slots.drop_first();
        lemma_slot_index(t, name);
        assert forall|j: int| 0 <= j < slot_index(slots, name) implies (#[trigger] slots[j]).name
            != name by {
            if j > 0 {
                assert(slots[j] == t[j - 1]);
            }
        }
        if slot_index(slots, name) < slots.len() {
            assert(slots[slot_index(slots, name)] == t[slot_index(t, name)]);
        }
    }
    let k = slot_index(slots, name);
    if has_name(slots, name) {
        let i = choose|i: int| 0 <= i < slots.len() && #[trigger] slots[i].name == name;
        if k > i {
            assert(slots[i].name != name);
        }
    }
}

/// An index of which all of this holds is `slot_index`.
pub proof fn lemma_slot_index_is(slots: Seq<SlotView>, name: Seq<char>, k: int)
    requires
        0 <= k <= slots.len(),
        forall|j: int| 0 <= j < k ==> (#[trigger] slots[j]).name != name,
        k < slots.len() ==> slots[k].name == name,
    ensures
        slot_index(slots, name) == k,
{
    lemma_slot_index(slots, name);
    let f = slot_index(slots, name);
    if f < k {
        assert(slots[f].name != name);
    } else if k < f {
        assert(slots[k].name != name);
    }
}

/// Writing a parameter keeps the names distinct and adds its name to them.
pub proof fn lemma_write_param(acc: Seq<SlotView>, p: ParamView)
    requires
        distinct_names(acc),
    ensures
        distinct_names(write_param(acc, p)),
        forall|name: Seq<char>|
            #[trigger] has_name(write_param(acc, p), name) <==> (has_name(acc, name) || name
                == p.name),
        acc.len() <= write_param(acc, p).len() <= acc.len() + 1,
{
    lemma_slot_index(acc, p.name);
    let k = slot_index(acc, p.name);
    let out = write_param(acc, p);
    assert forall|name: Seq<char>| #[trigger]
        has_name(out, name) <==> (has_name(acc, name) || name == p.name) by {
        if has_name(out, name) {
            let i = choose|i: int| 0 <= i < out.len() && #[trigger] out[i].name == name;
            if name != p.name {
                assert(acc[i].name == name);
            }
        }
        if has_name(acc, name) {
            let i = choose|i: int| 0 <= i < acc.len() && #[trigger] acc[i].name == name;
            assert(out[i].name == name);
        }
        if name == p.name {
            assert(out[k].name == name);
        }
    }
    assert forall|i: int, j: int| 0 <= i < j < out.len() implies #[trigger] out[i].name
        != #[trigger] out[j].name by {
        if k < acc.len() {
            assert(out[i].name == acc[i].name);
            assert(out[j].name == acc[j].name);
        } else if j == acc.len() {
            assert(acc[i].name != p.name);
        }
    }
}

/// The merged parameters have distinct names: exactly the names of the
/// parameters.
pub proof fn lemma_merged_names(ps: Seq<ParamView>)
    ensures
        distinct_names(merged(ps)),
        forall|name: Seq<char>| #[trigger] has_name(merged(ps), name) <==> param_named(ps, name),
        merged(ps).len() <= ps.len(),
    decreases ps.len(),
{
    if ps.len() > 0 {
        let init = ps.drop_last();
        lemma_merged_names(init);
        lemma_write_param(merged(init), ps.last());
        assert forall|name: Seq<char>| #[trigger]
            has_name(merged(ps), name) <==> param_named(ps, name) by {
            if param_named(ps, name) {
                let i = choose|i: int| 0 <= i < ps.len() && #[trigger] ps[i].name == name;
                if i < init.len() {
                    assert(init[i].name == name);
                    assert(param_named(init, name));
                }
            }
            if param_named(init, name) {
                let i = choose|i: int| 0 <= i < init.len() && #[trigger] init[i].name == name;
                assert(ps[i].name == name);
            }
            if name == ps.last().name {
                assert(ps[ps.len() - 1].name == name);
            }
        }
    }
}

/// Accepting an entry keeps the names distinct and adds its name to them.
/// The entries that were there keep their place and all but the mark
/// `overridden`.
pub proof fn lemma_accept(acc: Seq<SlotView>, slot: SlotView)
    requires
        distinct_names(acc),
    ensures
        distinct_names(accept(acc, slot)),
        forall|name: Seq<char>|
            #[trigger] has_name(accept(acc, slot), name) <==> (has_name(acc, name) || name
                == slot.name),
        acc.len() <= accept(acc, slot).len() <= acc.len() + 1,
        forall|i: int|
            0 <= i < acc.len() ==> (#[trigger] accept(acc, slot)[i]) == (SlotView {
                overridden: accept(acc, slot)[i].overridden,
                ..acc[i]
            }),
{
    lemma_slot_index(acc, slot.name);
    let k = slot_index(acc, slot.name);
    let out = accept(acc, slot);
    assert forall|name: Seq<char>| #[trigger]
        has_name(out, name) <==> (has_name(acc, name) || name == slot.name) by {
        if has_name(out, name) {
            let i = choose|i: int| 0 <= i < out.len() && #[trigger] out[i].name == name;
            if name != slot.name {
                assert(acc[i].name == name);
            }
        }
        if has_name(acc, name) {
            let i = choose|i: int| 0 <= i < acc.len() && #[trigger] acc[i].name == name;
            assert(out[i].name == name);
        }
        if name == slot.name {
            assert(out[k].name == name);
        }
    }
    assert forall|i: int, j: int| 0 <= i < j < out.len() implies #[trigger] out[i].name
        != #[trigger] out[j].name by {
        if k < acc.len() {
            assert(out[i].name == acc[i].name);
            assert(out[j].name == acc[j].name);
        } else if j == acc.len() {
            assert(acc[i].name != slot.name);
        }
    }
}

/// Accepting fields keeps the names distinct and adds the names of the
/// fields. The entries that were there keep their place and all but the
/// mark `overridden`.
pub proof fn lemma_accepted_names(acc: Seq<SlotView>, fs: Seq<FieldView>, body_required: bool)
    requires
        distinct_names(acc),
    ensures
        distinct_names(accepted(acc, fs, body_required)),
        forall|name: Seq<char>|
            #[trigger] has_name(accepted(acc, fs, body_required), name) <==> (has_name(acc, name)
                || field_named(fs, name)),
        acc.len() <= accepted(acc, fs, body_required).len() <= acc.len() + fs.len(),
        forall|i: int|
            0 <= i < acc.len() ==> (#[trigger] accepted(acc, fs, body_required)[i]) == (SlotView {
                overridden: accepted(acc, fs, body_required)[i].overridden,
                ..acc[i]
            }),
    decreases fs.len(),
{
    if fs.len() > 0 {
        let init = fs.drop_last();
        let mid = accepted(acc, init, body_required);
        let slot = field_slot(fs.last(), body_required);
        lemma_accepted_names(acc, init, body_required);
        lemma_accept(mid, slot);
        let out = accepted(acc, fs, body_required);
        assert forall|name: Seq<char>| #[trigger]
            has_name(out, name) <==> (has_name(acc, name) || field_named(fs, name)) by {
            if field_named(fs, name) {
                let i = choose|i: int| 0 <= i < fs.len() && #[trigger] fs[i].name == name;
                if i < init.len() {
                    assert(init[i].name == name);
                    assert(field_named(init, name));
                }
            }
            if field_named(init, name) {
                let i = choose|i: int| 0 <= i < init.len() && #[trigger] init[i].name == name;
                assert(fs[i].name == name);
            }
            if name == slot.name {
                assert(fs[fs.len() - 1].name == name);
            }
        }
        assert forall|i: int| 0 <= i < acc.len() implies (#[trigger] out[i]) == (SlotView {
            overridden: out[i].overridden,
            ..acc[i]
        }) by {
            assert(mid[i] == (SlotView { overridden: mid[i].overridden, ..acc[i] }));
            assert(out[i] == (SlotView { overridden: out[i].overridden, ..mid[i] }));
        }
    }
}

/// The unified list has no name twice, and its names are those of the
/// parameters and of the fields.
pub proof fn lemma_unified_names(b: BuilderView)
    ensures
        distinct_names(unified(b)),
        forall|name: Seq<char>|
            #[trigger] has_name(unified(b), name) <==> (param_named(b.global_params, name)
                || param_named(b.local_params, name) || field_named(b.fields, name)),
{
    let ps = b.global_params + b.local_params;
    lemma_merged_names(ps);
    lemma_accepted_names(merged(ps), b.fields, b.body_required);
    assert forall|name: Seq<char>|
        param_named(ps, name) <==> (param_named(b.global_params, name) || param_named(
            b.local_params,
            name,
        )) by {
        if param_named(ps, name) {
            let i = choose|i: int| 0 <= i < ps.len() && #[trigger] ps[i].name == name;
            if i < b.global_params.len() {
                assert(b.global_params[i].name == name);
            } else {
                assert(b.local_params[i - b.global_params.len()].name == name);
            }
        }
        if param_named(b.global_params, name) {
            let i = choose|i: int|
                0 <= i < b.global_params.len() && #[trigger] b.global_params[i].name == name;
            assert(ps[i].name == name);
        }
        if param_named(b.local_params, name) {
            let i = choose|i: int|
                0 <= i < b.local_params.len() && #[trigger] b.local_params[i].name == name;
            assert(ps[b.global_params.len() + i].name == name);
        }
    }
}

fn param_field<'a>(p: &'a Parameter, no_children: &'a [String]) -> (slot: StructField<'a>)
    requires
        no_children@.len() == 0,
    ensures
        slot.deep_view() == param_slot(p.deep_view()),
{
    let slot = StructField {
        name: p.name.as_str(),
        ty: p.ty_path.as_str(),
        prop: if p.required {
            Property::RequiredParam
        } else {
            Property::OptionalParam
        },
        desc: optional_as_str(&p.description),
        strict_child_fields: no_children,
        param_loc: Some(p.presence),
        overridden: false,
        needs_any: false,
        needs_file: is_file_marker(p.ty_path.as_str()),
        delimiting: p.delimiting.as_slice(),
    };
    assert(slot.deep_view().strict_child_fields =~= Seq::<Seq<char>>::empty());
    slot
}

fn object_field<'a>(
    f: &'a ObjectField,
    body_required: bool,
    no_delimiting: &'a [crate::models::CollectionFormat],
) -> (slot: StructField<'a>)
    requires
        no_delimiting@.len() == 0,
    ensures
        slot.deep_view() == field_slot(f.deep_view(), body_required),
{
    let slot = StructField {
        name: f.name.as_str(),
        ty: f.ty_path.as_str(),
        prop: if body_required && f.is_required {
            Property::RequiredField
        } else {
            Property::OptionalField
        },
        desc: optional_as_str(&f.description),
        strict_child_fields: f.child_req_fields.as_slice(),
        param_loc: None,
        overridden: false,
        needs_any: f.needs_any,
        needs_file: is_file_marker(f.ty_path.as_str()),
        delimiting: no_delimiting,
    };
    assert(slot.deep_view().strict_child_fields =~= f.deep_view().child_req_fields);
    assert(slot.deep_view().delimiting =~= Seq::<crate::models::CollectionFormat>::empty());
    slot
}

fn find_slot(slots: &Vec<StructField<'_>>, name: &str) -> (k: usize)
    ensures
        k == slot_index(slots.deep_view(), name@),
        k <= slots.len(),
{
    let mut i: usize = 0;
    while i < slots.len() && !str_eq(slots[i].name, name)
        invariant
            i <= slots.len(),
            forall|j: int| 0 <= j < i ==> (#[trigger] slots.deep_view()[j]).name != name@,
        decreases slots.len() - i,
    {
        i += 1;
    }
    proof {
        lemma_slot_index_is(slots.deep_view(), name@, i as int);
    }
    i
}

fn put_param<'a>(slots: &mut Vec<StructField<'a>>, slot: StructField<'a>)
    ensures
        final(slots).deep_view() == write_param_slot(old(slots).deep_view(), slot.deep_view()),
{
    let k = find_slot(slots, slot.name);
    let ghost before = slots.deep_view();
    if k < slots.len() {
        slots.set(k, slot);
        assert(slots.deep_view() =~= before.update(k as int, slot.deep_view()));
    } else {
        slots.push(slot);
        assert(slots.deep_view() =~= before.push(slot.deep_view()));
    }
}

fn put_field<'a>(slots: &mut Vec<StructField<'a>>, slot: StructField<'a>)
    ensures
        final(slots).deep_view() == accept(old(slots).deep_view(), slot.deep_view()),
{
    let k = find_slot(slots, slot.name);
    let ghost before = slots.deep_view();
    if k < slots.len() {
        if str_eq(slots[k].ty, slot.ty) {
            let mut held = slots[k];
            held.overridden = true;
            slots.set(k, held);
            assert(slots.deep_view() =~= before.update(
                k as int,
                SlotView { overridden: true, ..before[k as int] },
            ));
        }
    } else {
        slots.push(slot);
        assert(slots.deep_view() =~= before.push(slot.deep_view()));
    }
}

impl<'a> ApiObjectBuilder<'a> {
    /// Returns all fields and parameters of the builder struct, unified.
    ///
    /// No name occurs twice in the list. The names in it are those of the
    /// parameters of the path, of the parameters of the operation and of the
    /// fields of the object.
    pub fn struct_fields_iter(&self) -> (slots: Vec<StructField<'a>>)
        ensures
            slots.deep_view() == unified(self@),
            distinct_names(slots.deep_view()),
            forall|name: Seq<char>|
                #[trigger] has_name(slots.deep_view(), name) <==> (param_named(
                    self@.global_params,
                    name,
                ) || param_named(self@.local_params, name) || field_named(self@.fields, name)),
    {
        let globals: &'a [Parameter] = self.global_params;
        let locals: &'a [Parameter] = self.local_params;
        let fields: &'a [ObjectField] = self.fields;
        let no_children: &'a [String] = &[];
        let no_delimiting: &'a [crate::models::CollectionFormat] = &[];
        let ghost gs = self@.global_params;
        let ghost ls = self@.local_params;
        let ghost fs = self@.fields;
        let mut slots: Vec<StructField<'a>> = Vec::new();
        assert(slots.deep_view() =~= merged(gs.take(0)));
        let mut i: usize = 0;
        while i < globals.len()
            invariant
                i <= globals.len(),
                gs == globals.deep_view(),
                no_children@.len() == 0,
                slots.deep_view() == merged(gs.take(i as int)),
            decreases globals.len() - i,
        {
            assert(gs.take(i + 1).drop_last() =~= gs.take(i as int));
            put_param(&mut slots, param_field(&globals[i], no_children));
            i += 1;
        }
        assert(gs.take(i as int) =~= gs + ls.take(0));
        let mut j: usize = 0;
        while j < locals.len()
            invariant
                j <= locals.len(),
                ls == locals.deep_view(),
                no_children@.len() == 0,
                slots.deep_view() == merged(gs + ls.take(j as int)),
            decreases locals.len() - j,
        {
            assert((gs + ls.take(j + 1)).drop_last() =~= gs + ls.take(j as int));
            put_param(&mut slots, param_field(&locals[j], no_children));
            j += 1;
        }
        assert(ls.take(j as int) =~= ls);
        let ghost params = slots.deep_view();
        assert(params =~= accepted(params, fs.take(0), self.body_required));
        let mut k: usize = 0;
        while k < fields.len()
            invariant
                k <= fields.len(),
                fs == fields.deep_view(),
                no_delimiting@.len() == 0,
                slots.deep_view() == accepted(params, fs.take(k as int), self.body_required),
            decreases fields.len() - k,
        {
            assert(fs.take(k + 1).drop_last() =~= fs.take(k as int));
            put_field(&mut slots, object_field(&fields[k], self.body_required, no_delimiting));
            k += 1;
        }
        assert(fs.take(k as int) =~= fs);
        proof {
            lemma_unified_names(self@);
        }
        slots
    }
}

} // verus!
