//! The text of a builder: its name, its constructor, and the declaration of
//! its struct and of its container.

use crate::builder::{
    ApiObjectBuilder, BuilderView, MarkerMode, Property, SlotView, StructField, TypeParameters,
};
use crate::layout::{container_needed, has_field, some_slot_gives_field};
use crate::models::{method_name, method_verb, CollectionFormat, HttpMethod};
use crate::naming::{is_file_marker, snake_case, to_snek_case, Cased, CasedName, FILE_MARKER};
use crate::object::ApiObject;
use crate::record::any_generic_if;
use crate::text::{decimal, optional_as_str, push_decimal};
use crate::typestate::{cased_all, cased_names, generics_with, write_generics_with};
use crate::unify::unified;
use crate::wrap::{wrappable, wrapped_ty};
use vstd::prelude::*;
use vstd::string::*;

verus! {

/// The name of a method in the name of a builder, if there is a method.
pub open spec fn method_part(method: Option<HttpMethod>) -> Seq<char> {
    match method {
        Some(m) => method_name(m),
        None => Seq::empty(),
    }
}

/// The index of a builder in its name: nothing for the first builder.
pub open spec fn index_part(idx: nat) -> Seq<char> {
    if idx > 0 {
        decimal(idx)
    } else {
        Seq::empty()
    }
}

/// The name of the struct of a builder.
pub open spec fn builder_name(b: BuilderView) -> Seq<char> {
    b.object + method_part(b.method) + "Builder"@ + index_part(b.idx)
}

/// The name of the container of a builder.
pub open spec fn container_name(b: BuilderView) -> Seq<char> {
    builder_name(b) + "Container"@
}

/// A name with the index of a builder behind it, where the object has
/// several builders and this is not the first of them.
pub open spec fn numbered(name: Seq<char>, multiple: bool, idx: nat) -> Seq<char> {
    if multiple && idx > 0 {
        name + "_"@ + decimal(idx)
    } else {
        name
    }
}

/// The name of the function that creates a builder: the operation
/// identifier in snake case; without one the method in snake case,
/// numbered; nothing without identifier and method.
pub open spec fn constructor_name(b: BuilderView) -> Option<Seq<char>> {
    match b.op_id {
        Some(id) => Some(snake_case(id)),
        None => match b.method {
            Some(m) => Some(
                numbered(snake_case(method_name(m)), b.multiple_builders_exist, b.idx),
            ),
            None => None,
        },
    }
}

/// The field that holds the body, where the body is required.
pub open spec fn body_field(b: BuilderView) -> Seq<char> {
    if b.body_required {
        "\n    body: self::"@ + b.object + any_generic_if(b.needs_any) + ","@
    } else {
        Seq::empty()
    }
}

/// The type that holds a parameter: the path of a local file for a file,
/// else the wrapped type of the parameter.
pub open spec fn held_ty(prefix: Seq<char>, ty: Seq<char>, delims: Seq<CollectionFormat>) -> Seq<
    char,
> {
    if ty == FILE_MARKER@ {
        "std::path::PathBuf"@
    } else {
        wrapped_ty(prefix, ty, delims)
    }
}

/// The field that holds a parameter named `name`; nothing for a property
/// that is no parameter.
pub open spec fn parameter_field(
    prefix: Seq<char>,
    prop: Property,
    name: Seq<char>,
    ty: Seq<char>,
    delims: Seq<CollectionFormat>,
) -> Seq<char> {
    if prop.parameter() {
        "\n    param_"@ + name + ": Option<"@ + held_ty(prefix, ty, delims) + ">,"@
    } else {
        Seq::empty()
    }
}

/// Whether the field of a parameter can be written: the property is no
/// parameter, it is a file, or its type can be wrapped.
pub open spec fn parameter_writable(
    prefix: Seq<char>,
    prop: Property,
    ty: Seq<char>,
    delims: Seq<CollectionFormat>,
) -> bool {
    prop.parameter() && ty != FILE_MARKER@ ==> wrappable(prefix, ty, delims)
}

/// The field that holds the parameter of an entry whose name in snake case
/// is `snake`.
pub open spec fn slot_parameter(prefix: Seq<char>, slot: SlotView, snake: Seq<char>) -> Seq<char> {
    parameter_field(prefix, slot.prop, snake, slot.ty, slot.delimiting)
}

/// The phantom field that carries the marker of a required entry; nothing
/// for an entry that is not required.
pub open spec fn marker_field(slot: SlotView, name: Cased) -> Seq<char> {
    if slot.prop.required() {
        "\n    "@ + (if slot.prop.parameter() {
            "_param"@
        } else {
            Seq::empty()
        }) + "_"@ + name.snake + ": "@ + "core::marker::PhantomData<"@ + name.camel + ">,"@
    } else {
        Seq::empty()
    }
}

/// The fields of the struct of a builder, entry by entry: the field of the
/// parameter, unless a container holds it, and the phantom field. `names`
/// holds the name of each entry in its cases.
pub open spec fn outer_fields(
    slots: Seq<SlotView>,
    names: Seq<Cased>,
    prefix: Seq<char>,
    contained: bool,
) -> Seq<char>
    decreases slots.len(),
{
    if slots.len() == 0 {
        Seq::empty()
    } else {
        outer_fields(slots.drop_last(), names.drop_last(), prefix, contained) + (if contained {
            Seq::empty()
        } else {
            slot_parameter(prefix, slots.last(), names.last().snake)
        }) + marker_field(slots.last(), names.last())
    }
}

/// The fields of the parameters in a container, entry by entry.
pub open spec fn inner_fields(slots: Seq<SlotView>, names: Seq<Cased>, prefix: Seq<char>) -> Seq<
    char,
>
    decreases slots.len(),
{
    if slots.len() == 0 {
        Seq::empty()
    } else {
        inner_fields(slots.drop_last(), names.drop_last(), prefix) + slot_parameter(
            prefix,
            slots.last(),
            names.last().snake,
        )
    }
}

/// Whether the field of the parameter of each entry can be written.
pub open spec fn slots_writable(slots: Seq<SlotView>, prefix: Seq<char>) -> bool {
    forall|i: int|
        0 <= i < slots.len() ==> parameter_writable(
            prefix,
            (#[trigger] slots[i]).prop,
            slots[i].ty,
            slots[i].delimiting,
        )
}

/// Whether a builder can be rendered: each of its parameters that holds a
/// sequence has a format for each level of nesting.
pub open spec fn renderable(b: BuilderView) -> bool {
    slots_writable(unified(b), b.helper_module_prefix)
}

/// The first line of the documentation of a builder whose constructor has
/// the given name.
pub open spec fn headline(b: BuilderView, constructor: Option<Seq<char>>) -> Seq<char> {
    match (constructor, b.method) {
        (Some(name), Some(m)) => "/// Builder "@ + "created by [`"@ + b.object + "::"@ + name
            + "`](./struct."@ + b.object + ".html#method."@ + name + ") method for a `"@
            + method_verb(m) + "` operation associated with `"@ + b.object + "`.\n"@,
        _ => "/// Builder "@ + "for [`"@ + b.object + "`](./struct."@ + b.object
            + ".html) object.\n"@,
    }
}

/// The declaration of the container of a builder, up to its closing brace.
pub open spec fn container_text(b: BuilderView, names: Seq<Cased>) -> Seq<char> {
    "#[derive(Debug, Default, Clone)]\nstruct "@ + container_name(b) + any_generic_if(b.needs_any)
        + " {"@ + body_field(b) + inner_fields(unified(b), names, b.helper_module_prefix)
}

/// What the struct of a builder holds first: its container, or else its
/// body.
pub open spec fn first_field(b: BuilderView) -> Seq<char> {
    if container_needed(b) {
        "\n    inner: "@ + container_name(b) + any_generic_if(b.needs_any) + ","@
    } else {
        body_field(b)
    }
}

/// The declaration of the struct of a builder up to its first field.
pub open spec fn struct_head(b: BuilderView, names: Seq<Cased>, constructor: Option<Seq<char>>) -> Seq<
    char,
> {
    headline(b, constructor) + (if container_needed(b) {
        "#[repr(transparent)]\n"@
    } else {
        Seq::empty()
    }) + "#[derive(Debug, Clone)]\npub struct "@ + builder_name(b) + generics_with(
        unified(b),
        names,
        b.helper_module_prefix,
        b.needs_any,
        None,
        MarkerMode::Generic,
    ) + (if has_field(b) || b.body_required || container_needed(b) {
        " {"@
    } else {
        Seq::empty()
    }) + first_field(b)
}

/// The text of a builder: its documentation, the declaration of its struct
/// and, where it needs one, of its container. `names` holds the name of
/// each entry of the unified list in its cases, `constructor` the name of
/// the function that creates the builder.
pub open spec fn builder_text_with(
    b: BuilderView,
    names: Seq<Cased>,
    constructor: Option<Seq<char>>,
) -> Seq<char> {
    struct_head(b, names, constructor) + outer_fields(
        unified(b),
        names,
        b.helper_module_prefix,
        container_needed(b),
    ) + (if has_field(b) || b.body_required {
        "\n}\n"@
    } else {
        ";\n"@
    }) + (if container_needed(b) {
        "\n"@ + container_text(b, names) + "\n}\n"@
    } else {
        Seq::empty()
    })
}

/// The text of a builder.
pub open spec fn builder_text(b: BuilderView) -> Seq<char> {
    builder_text_with(b, cased_all(unified(b)), constructor_name(b))
}

/// Puts the index of a builder behind a name, where the object has several
/// builders and this is not the first of them.
pub fn numbered_name(name: String, multiple: bool, idx: usize) -> (out: String)
    ensures
        out@ == numbered(name@, multiple, idx as nat),
{
    let mut out = name;
    if multiple && idx > 0 {
        out.append("_");
        push_decimal(&mut out, idx);
    }
    out
}

fn write_marker_field(slot: &StructField<'_>, name: &CasedName, f: &mut String)
    ensures
        final(f)@ == old(f)@ + marker_field(slot.deep_view(), name.deep_view()),
{
    let ghost f0 = f@;
    if slot.prop.is_required() {
        f.append("\n    ");
        if slot.prop.is_parameter() {
            f.append("_param");
        }
        f.append("_");
        f.append(name.snake.as_str());
        f.append(": ");
        f.append("core::marker::PhantomData<");
        f.append(name.camel.as_str());
        f.append(">,");
    }
    assert(f@ =~= f0 + marker_field(slot.deep_view(), name.deep_view()));
}

impl<'a> ApiObjectBuilder<'a> {
    /// Name of the constructor function which creates this builder.
    pub fn constructor_fn_name(&self) -> (name: Option<String>)
        ensures
            name.deep_view() == constructor_name(self@),
    {
        match (self.op_id, self.method) {
            (Some(id), _) => Some(to_snek_case(id)),
            (None, Some(meth)) => Some(
                numbered_name(to_snek_case(meth.name()), self.multiple_builders_exist, self.idx),
            ),
            (None, None) => None,
        }
    }

    /// Writes the name of the struct of this builder into `f`.
    pub fn write_name(&self, f: &mut String)
        ensures
            final(f)@ == old(f)@ + builder_name(self@),
    {
        let ghost f0 = f@;
        f.append(self.object);
        if let Some(method) = self.method {
            f.append(method.name());
        }
        f.append("Builder");
        if self.idx > 0 {
            push_decimal(f, self.idx);
        }
        assert(f@ =~= f0 + builder_name(self@));
    }

    /// Writes the name of the container of this builder into `f`.
    pub fn write_container_name(&self, f: &mut String)
        ensures
            final(f)@ == old(f)@ + container_name(self@),
    {
        let ghost f0 = f@;
        self.write_name(f);
        f.append("Container");
        assert(f@ =~= f0 + container_name(self@));
    }

    /// Writes the placeholder where this builder needs it.
    fn write_any_generic_if_needed(&self, f: &mut String)
        ensures
            final(f)@ == old(f)@ + any_generic_if(self.needs_any),
    {
        let ghost f0 = f@;
        if self.needs_any {
            ApiObject::write_any_generic(f);
        }
        assert(f@ =~= f0 + any_generic_if(self.needs_any));
    }

    /// Writes the field of the body into `f`, where the body is required.
    pub fn write_body_field_if_required(&self, f: &mut String)
        ensures
            final(f)@ == old(f)@ + body_field(self@),
    {
        let ghost f0 = f@;
        if self.body_required {
            f.append("\n    body: self::");
            f.append(self.object);
            self.write_any_generic_if_needed(f);
            f.append(",");
        }
        assert(f@ =~= f0 + body_field(self@));
    }

    /// Writes the field of a parameter into `f`; nothing for a property that
    /// is no parameter.
    pub fn write_parameter_if_required(
        &self,
        prop: Property,
        name: &str,
        ty: &str,
        delims: &[CollectionFormat],
        f: &mut String,
    )
        requires
            parameter_writable(self@.helper_module_prefix, prop, ty@, delims@),
        ensures
            final(f)@ == old(f)@ + parameter_field(
                self@.helper_module_prefix,
                prop,
                name@,
                ty@,
                delims@,
            ),
    {
        let ghost f0 = f@;
        if !prop.is_parameter() {
            assert(f@ =~= f0 + Seq::<char>::empty());
            return ;
        }
        f.append("\n    param_");
        f.append(name);
        f.append(": Option<");
        if is_file_marker(ty) {
            f.append("std::path::PathBuf");
        } else {
            Self::write_wrapped_ty(self.helper_module_prefix, ty, delims, f);
        }
        f.append(">,");
        assert(f@ =~= f0 + parameter_field(self@.helper_module_prefix, prop, name@, ty@, delims@));
    }

    fn write_headline(&self, constructor: Option<&str>, f: &mut String)
        ensures
            final(f)@ == old(f)@ + headline(self@, constructor.deep_view()),
    {
        let ghost f0 = f@;
        f.append("/// Builder ");
        match (constructor, self.method) {
            (Some(name), Some(m)) => {
                f.append("created by [`");
                f.append(self.object);
                f.append("::");
                f.append(name);
                f.append("`](./struct.");
                f.append(self.object);
                f.append(".html#method.");
                f.append(name);
                f.append(") method for a `");
                f.append(m.verb());
                f.append("` operation associated with `");
                f.append(self.object);
                f.append("`.\n");
                assert(f@ =~= f0 + headline(self@, constructor.deep_view()));
            },
            _ => {
                f.append("for [`");
                f.append(self.object);
                f.append("`](./struct.");
                f.append(self.object);
                f.append(".html) object.\n");
                assert(f@ =~= f0 + headline(self@, constructor.deep_view()));
            },
        }
    }

    /// Returns whether this builder can be rendered: whether each of its
    /// parameters that holds a sequence has a format for each level of
    /// nesting.
    pub fn can_render(&self) -> (yes: bool)
        ensures
            yes == renderable(self@),
    {
        let slots = self.struct_fields_iter();
        let mut i: usize = 0;
        while i < slots.len()
            invariant
                i <= slots.len(),
                slots.deep_view() == unified(self@),
                forall|j: int|
                    0 <= j < i ==> parameter_writable(
                        self@.helper_module_prefix,
                        (#[trigger] slots.deep_view()[j]).prop,
                        slots.deep_view()[j].ty,
                        slots.deep_view()[j].delimiting,
                    ),
            decreases slots.len() - i,
        {
            let slot = &slots[i];
            if slot.prop.is_parameter() && !is_file_marker(slot.ty) && !Self::can_wrap_ty(
                self.helper_module_prefix,
                slot.ty,
                slot.delimiting,
            ) {
                assert(!parameter_writable(
                    self@.helper_module_prefix,
                    slots.deep_view()[i as int].prop,
                    slots.deep_view()[i as int].ty,
                    slots.deep_view()[i as int].delimiting,
                ));
                return false;
            }
            i += 1;
        }
        true
    }

    fn struct_head_text(
        &self,
        slots: &Vec<StructField<'a>>,
        names: &Vec<CasedName>,
        constructor: Option<&str>,
    ) -> (f: String)
        requires
            slots.deep_view() == unified(self@),
            names.len() == slots.len(),
        ensures
            f@ == struct_head(self@, names.deep_view(), constructor.deep_view()),
    {
        let mut f = String::new();
        self.write_headline(constructor, &mut f);
        assert(f@ =~= headline(self@, constructor.deep_view()));
        let needs_container = self.needs_container();
        let ghost a0 = f@;
        if needs_container {
            f.append("#[repr(transparent)]\n");
        }
        assert(f@ =~= a0 + (if container_needed(self@) {
            "#[repr(transparent)]\n"@
        } else {
            Seq::empty()
        }));
        f.append("#[derive(Debug, Clone)]\npub struct ");
        self.write_name(&mut f);
        write_generics_with(
            slots,
            names,
            self.helper_module_prefix,
            self.needs_any,
            None,
            TypeParameters::Generic,
            &mut f,
        );
        let has_fields = some_slot_gives_field(slots);
        let ghost a1 = f@;
        if has_fields || self.body_required || needs_container {
            f.append(" {");
        }
        assert(f@ =~= a1 + (if has_field(self@) || self.body_required || container_needed(self@) {
            " {"@
        } else {
            Seq::empty()
        }));
        let ghost a2 = f@;
        if needs_container {
            f.append("\n    inner: ");
            self.write_container_name(&mut f);
            self.write_any_generic_if_needed(&mut f);
            f.append(",");
        } else {
            self.write_body_field_if_required(&mut f);
        }
        assert(f@ =~= a2 + first_field(self@));
        f
    }

    fn render_slots(
        &self,
        slots: &Vec<StructField<'a>>,
        names: &Vec<CasedName>,
        constructor: Option<&str>,
    ) -> (out: String)
        requires
            slots.deep_view() == unified(self@),
            names.len() == slots.len(),
            renderable(self@),
        ensures
            out@ == builder_text_with(self@, names.deep_view(), constructor.deep_view()),
    {
        let ghost all = slots.deep_view();
        let ghost cases = names.deep_view();
        let ghost prefix = self@.helper_module_prefix;
        let mut f = self.struct_head_text(slots, names, constructor);
        let needs_container = self.needs_container();
        let has_fields = some_slot_gives_field(slots);
        let mut container = String::new();
        if needs_container {
            container.append("#[derive(Debug, Default, Clone)]\nstruct ");
            self.write_container_name(&mut container);
            self.write_any_generic_if_needed(&mut container);
            container.append(" {");
            self.write_body_field_if_required(&mut container);
        }
        let ghost f1 = f@;
        let ghost c1 = container@;
        assert(needs_container ==> c1 =~= "#[derive(Debug, Default, Clone)]\nstruct "@
            + container_name(self@) + any_generic_if(self.needs_any) + " {"@ + body_field(self@));
        let mut i: usize = 0;
        assert(f@ =~= f1 + outer_fields(all.take(0), cases.take(0), prefix, needs_container));
        assert(container@ =~= c1 + inner_fields(all.take(0), cases.take(0), prefix));
        while i < slots.len()
            invariant
                i <= slots.len(),
                names.len() == slots.len(),
                all == slots.deep_view(),
                cases == names.deep_view(),
                prefix == self@.helper_module_prefix,
                slots_writable(all, prefix),
                f@ == f1 + outer_fields(
                    all.take(i as int),
                    cases.take(i as int),
                    prefix,
                    needs_container,
                ),
                needs_container ==> container@ == c1 + inner_fields(
                    all.take(i as int),
                    cases.take(i as int),
                    prefix,
                ),
            decreases slots.len() - i,
        {
            let field = &slots[i];
            let name = &names[i];
            let ghost slot = all[i as int];
            assert(all.take(i + 1).drop_last() =~= all.take(i as int));
            assert(cases.take(i + 1).drop_last() =~= cases.take(i as int));
            assert(parameter_writable(prefix, slot.prop, slot.ty, slot.delimiting));
            if needs_container {
                self.write_parameter_if_required(
                    field.prop,
                    name.snake.as_str(),
                    field.ty,
                    field.delimiting,
                    &mut container,
                );
                assert(container@ =~= c1 + inner_fields(
                    all.take(i + 1),
                    cases.take(i + 1),
                    prefix,
                ));
            } else {
                self.write_parameter_if_required(
                    field.prop,
                    name.snake.as_str(),
                    field.ty,
                    field.delimiting,
                    &mut f,
                );
            }
            write_marker_field(field, name, &mut f);
            assert(f@ =~= f1 + outer_fields(
                all.take(i + 1),
                cases.take(i + 1),
                prefix,
                needs_container,
            ));
            i += 1;
        }
        assert(all.take(i as int) =~= all);
        assert(cases.take(i as int) =~= cases);
        if has_fields || self.body_required {
            f.append("\n}\n");
        } else {
            f.append(";\n");
        }
        if needs_container {
            f.append("\n");
            f.append(container.as_str());
            f.append("\n}\n");
            assert(container@ =~= container_text(self@, cases));
        }
        assert(f@ =~= builder_text_with(self@, cases, constructor.deep_view()));
        f
    }

    /// Renders this builder with the given names: `names` holds the name of
    /// each entry of the unified list in its cases, `constructor` the name
    /// of the function that creates the builder.
    pub fn render_with(&self, names: &Vec<CasedName>, constructor: Option<&str>) -> (out: String)
        requires
            names.len() == unified(self@).len(),
            renderable(self@),
        ensures
            out@ == builder_text_with(self@, names.deep_view(), constructor.deep_view()),
    {
        let slots = self.struct_fields_iter();
        self.render_slots(&slots, names, constructor)
    }

    /// Renders this builder: its documentation, the declaration of its
    /// struct and, where it needs one, of its container.
    pub fn render(&self) -> (out: String)
        requires
            renderable(self@),
        ensures
            out@ == builder_text(self@),
    {
        let slots = self.struct_fields_iter();
        let names = cased_names(&slots);
        let constructor = self.constructor_fn_name();
        self.render_slots(&slots, &names, optional_as_str(&constructor))
    }
}

} // verus!
