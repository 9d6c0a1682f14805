//! The text of a data object: a documented record type with public fields.

use crate::docs::docs_text;
use crate::naming::{
    is_rust_keyword, rust_keywords, snake_case, to_snek_case, ANY_GENERIC_PARAMETER,
};
use crate::object::{ApiObject, FieldView, ObjectField, ObjectView};
use crate::text::{
    chars_of, contains, contains_text, ends_with, ends_with_text, find_char, first_index,
    optional_as_str, str_eq,
};
use vstd::prelude::*;
use vstd::string::*;

verus! {

/// The placeholder of dynamically typed values as the only generic
/// parameter.
pub open spec fn any_generic() -> Seq<char> {
    "<"@ + ANY_GENERIC_PARAMETER@ + ">"@
}

/// The placeholder as generic parameter where it is needed.
pub open spec fn any_generic_if(needed: bool) -> Seq<char> {
    if needed {
        any_generic()
    } else {
        Seq::empty()
    }
}

/// Whether a type is simple: no object of the generated code. Such a type
/// has no path separator, or it is a delimited sequence.
pub open spec fn simple_type(ty: Seq<char>) -> bool {
    !contains_text(ty, "::"@) || ends_with_text(ty, "Delimited"@)
}

/// Whether the placeholder can be put into a type: each generic type in it
/// is a sequence, with room for one argument between its brackets, or a
/// map, with room for the key and one more argument.
pub open spec fn any_shape(ty: Seq<char>) -> bool
    decreases ty.len(),
{
    let i = first_index(ty, '<');
    if 0 <= i < ty.len() {
        if ends_with_text(ty.take(i), "Vec"@) {
            i + 1 <= ty.len() - 1 && any_shape(ty.subrange(i + 1, ty.len() - 1))
        } else if ends_with_text(ty.take(i), "std::collections::BTreeMap"@) {
            i + 9 <= ty.len() - 1 && any_shape(ty.subrange(i + 9, ty.len() - 1))
        } else {
            false
        }
    } else {
        true
    }
}

/// A type with the placeholder put into it. A sequence keeps its name and
/// opening bracket, a map keeps them and its key, which takes eight
/// characters; the argument that follows is treated in the same way, up to
/// the last character of the type, which gives way to a closing bracket. A
/// type without arguments gets the placeholder as argument unless it is
/// simple.
pub open spec fn with_any(ty: Seq<char>) -> Seq<char>
    decreases ty.len(),
{
    let i = first_index(ty, '<');
    if 0 <= i < ty.len() {
        if ends_with_text(ty.take(i), "Vec"@) {
            if i + 1 <= ty.len() - 1 {
                ty.take(i + 1) + with_any(ty.subrange(i + 1, ty.len() - 1)) + ">"@
            } else {
                ty
            }
        } else {
            if i + 9 <= ty.len() - 1 {
                ty.take(i + 9) + with_any(ty.subrange(i + 9, ty.len() - 1)) + ">"@
            } else {
                ty
            }
        }
    } else {
        ty + any_generic_if(!simple_type(ty))
    }
}

/// The identifier of a field whose name in snake case is `snake`: that
/// name, with an underscore behind it where it is a reserved word.
pub open spec fn field_ident(snake: Seq<char>) -> Seq<char> {
    if rust_keywords().contains(snake) {
        snake + "_"@
    } else {
        snake
    }
}

/// The attribute that keeps the name of a field on the wire, where its
/// identifier differs from that name.
pub open spec fn rename_attr(name: Seq<char>, snake: Seq<char>) -> Seq<char> {
    if field_ident(snake) != name {
        "#[serde(rename = \""@ + name + "\")]\n    "@
    } else {
        Seq::empty()
    }
}

/// The type of a field: optional unless the field is required, boxed where
/// the field says so, with the placeholder where the type needs it.
pub open spec fn field_ty(f: FieldView) -> Seq<char> {
    (if f.is_required {
        Seq::empty()
    } else {
        "Option<"@
    }) + (if f.boxed {
        "Box<"@
    } else {
        Seq::empty()
    }) + (if f.needs_any {
        with_any(f.ty_path)
    } else {
        f.ty_path
    }) + (if f.boxed {
        ">"@
    } else {
        Seq::empty()
    }) + (if f.is_required {
        Seq::empty()
    } else {
        ">"@
    })
}

/// The documentation of a field, or an empty line in its place, and its
/// declaration up to the colon. `snake` is the name of the field in snake
/// case.
pub open spec fn field_head(f: FieldView, snake: Seq<char>) -> Seq<char> {
    docs_text(f.description, 1) + (if f.description is None {
        "\n"@
    } else {
        Seq::empty()
    }) + "    "@ + rename_attr(f.name, snake) + "pub "@ + field_ident(snake) + ": "@
}

/// The declaration of a field with its documentation.
pub open spec fn field_text(f: FieldView, snake: Seq<char>) -> Seq<char> {
    field_head(f, snake) + field_ty(f) + ","@
}

/// The declarations of the fields, one after the other. `snakes` holds the
/// name of each field in snake case.
pub open spec fn fields_text(fs: Seq<FieldView>, snakes: Seq<Seq<char>>) -> Seq<char>
    decreases fs.len(),
{
    if fs.len() == 0 {
        Seq::empty()
    } else {
        fields_text(fs.drop_last(), snakes.drop_last()) + field_text(fs.last(), snakes.last())
    }
}

/// The name of each field in snake case.
pub open spec fn snake_names(fs: Seq<FieldView>) -> Seq<Seq<char>> {
    Seq::new(fs.len(), |i: int| snake_case(fs[i].name))
}

/// Whether the type of some field is or holds the placeholder.
pub open spec fn any_field_needs_any(fs: Seq<FieldView>) -> bool {
    exists|i: int| 0 <= i < fs.len() && (#[trigger] fs[i]).needs_any
}

/// Whether an object can be rendered: the placeholder can be put into the
/// type of each field that needs it.
pub open spec fn object_renderable(o: ObjectView) -> bool {
    forall|i: int|
        0 <= i < o.fields.len() && (#[trigger] o.fields[i]).needs_any ==> any_shape(
            o.fields[i].ty_path,
        )
}

/// The text of an object: its documentation and the declaration of its
/// record type, which is generic over the placeholder where a field needs
/// it. `snakes` holds the name of each field in snake case.
pub open spec fn object_text_with(o: ObjectView, snakes: Seq<Seq<char>>) -> Seq<char> {
    docs_text(o.description, 0) + "#[derive(Debug, Default, Clone, Deserialize, Serialize)]"@
        + "\npub struct "@ + o.name + any_generic_if(any_field_needs_any(o.fields)) + " {"@
        + fields_text(o.fields, snakes) + (if o.fields.len() > 0 {
        "\n"@
    } else {
        Seq::empty()
    }) + "}\n"@
}

/// The text of an object.
pub open spec fn object_text(o: ObjectView) -> Seq<char> {
    object_text_with(o, snake_names(o.fields))
}

/// The identifier of a field whose name in snake case is `snake`.
pub fn field_identifier(snake: &str) -> (ident: String)
    ensures
        ident@ == field_ident(snake@),
{
    let mut ident = snake.to_owned();
    if is_rust_keyword(snake) {
        ident.append("_");
    }
    ident
}

fn some_field_needs_any(fs: &Vec<ObjectField>) -> (yes: bool)
    ensures
        yes == any_field_needs_any(fs.deep_view()),
{
    let mut i: usize = 0;
    while i < fs.len()
        invariant
            i <= fs.len(),
            forall|j: int| 0 <= j < i ==> !(#[trigger] fs.deep_view()[j]).needs_any,
        decreases fs.len() - i,
    {
        if fs[i].needs_any {
            assert(fs.deep_view()[i as int].needs_any);
            return true;
        }
        i += 1;
    }
    false
}

fn write_field_head(field: &ObjectField, snake: &str, f: &mut String)
    ensures
        final(f)@ == old(f)@ + field_head(field.deep_view(), snake@),
{
    let ghost f0 = f@;
    let ghost v = field.deep_view();
    let new_name = field_identifier(snake);
    ApiObject::write_docs(optional_as_str(&field.description), f, 1);
    if field.description.is_none() {
        f.append("\n");
    }
    f.append("    ");
    let ghost f1 = f@;
    if !str_eq(new_name.as_str(), field.name.as_str()) {
        f.append("#[serde(rename = \"");
        f.append(field.name.as_str());
        f.append("\")]\n    ");
    }
    assert(f@ =~= f1 + rename_attr(v.name, snake@));
    f.append("pub ");
    f.append(new_name.as_str());
    f.append(": ");
    assert(f@ =~= f0 + field_head(v, snake@));
}

fn write_field_ty(field: &ObjectField, f: &mut String)
    requires
        field.needs_any ==> any_shape(field.ty_path@),
    ensures
        final(f)@ == old(f)@ + field_ty(field.deep_view()),
{
    let ghost f0 = f@;
    if !field.is_required {
        f.append("Option<");
    }
    if field.boxed {
        f.append("Box<");
    }
    if field.needs_any {
        ApiObject::write_field_with_any(field.ty_path.as_str(), f);
    } else {
        f.append(field.ty_path.as_str());
    }
    if field.boxed {
        f.append(">");
    }
    if !field.is_required {
        f.append(">");
    }
    assert(f@ =~= f0 + field_ty(field.deep_view()));
}

fn write_field(field: &ObjectField, snake: &str, f: &mut String)
    requires
        field.needs_any ==> any_shape(field.ty_path@),
    ensures
        final(f)@ == old(f)@ + field_text(field.deep_view(), snake@),
{
    let ghost f0 = f@;
    write_field_head(field, snake, f);
    write_field_ty(field, f);
    f.append(",");
    assert(f@ =~= f0 + field_text(field.deep_view(), snake@));
}

fn snake_cased(fields: &Vec<ObjectField>) -> (snakes: Vec<String>)
    ensures
        snakes.deep_view() == snake_names(fields.deep_view()),
{
    let mut snakes: Vec<String> = Vec::new();
    let mut i: usize = 0;
    while i < fields.len()
        invariant
            i <= fields.len(),
            snakes.len() == i,
            forall|j: int|
                0 <= j < i ==> (#[trigger] snakes@[j])@ == snake_case(fields.deep_view()[j].name),
        decreases fields.len() - i,
    {
        snakes.push(to_snek_case(fields[i].name.as_str()));
        i += 1;
    }
    assert(snakes.deep_view() =~= snake_names(fields.deep_view()));
    snakes
}

impl ApiObject {
    /// Writes the placeholder as a generic parameter, brackets included.
    pub fn write_any_generic(f: &mut String)
        ensures
            final(f)@ == old(f)@ + any_generic(),
    {
        let ghost f0 = f@;
        f.append("<");
        f.append(ANY_GENERIC_PARAMETER);
        f.append(">");
        assert(f@ =~= f0 + any_generic());
    }

    /// Returns whether this type is simple: no object of the generated code.
    pub fn is_simple_type(ty: &str) -> (simple: bool)
        ensures
            simple == simple_type(ty@),
    {
        !contains(ty, "::") || ends_with(ty, "Delimited")
    }

    /// Returns whether the placeholder can be put into the given type.
    pub fn can_write_field_with_any(ty: &str) -> (yes: bool)
        ensures
            yes == any_shape(ty@),
        decreases ty@.len(),
    {
        let v = chars_of(ty);
        let i = find_char(&v, '<');
        if i < v.len() {
            let head = ty.substring_char(0, i);
            assert(head@ =~= ty@.take(i as int));
            if ends_with(head, "Vec") {
                i + 1 <= v.len() - 1 && Self::can_write_field_with_any(
                    ty.substring_char(i + 1, v.len() - 1),
                )
            } else if ends_with(head, "std::collections::BTreeMap") {
                v.len() >= 10 && i <= v.len() - 10 && Self::can_write_field_with_any(
                    ty.substring_char(i + 9, v.len() - 1),
                )
            } else {
                false
            }
        } else {
            true
        }
    }

    /// Writes the given type, which is or holds the placeholder, with the
    /// placeholder as generic parameter where it belongs.
    pub fn write_field_with_any(ty: &str, f: &mut String)
        requires
            any_shape(ty@),
        ensures
            final(f)@ == old(f)@ + with_any(ty@),
        decreases ty@.len(),
    {
        let ghost f0 = f@;
        let v = chars_of(ty);
        let i = find_char(&v, '<');
        if i < v.len() {
            let head = ty.substring_char(0, i);
            assert(head@ =~= ty@.take(i as int));
            if ends_with(head, "Vec") {
                f.append(ty.substring_char(0, i + 1));
                Self::write_field_with_any(ty.substring_char(i + 1, v.len() - 1), f);
                assert(ty@.subrange(0, i + 1) =~= ty@.take(i + 1));
            } else {
                f.append(ty.substring_char(0, i + 9));
                Self::write_field_with_any(ty.substring_char(i + 9, v.len() - 1), f);
                assert(ty@.subrange(0, i + 9) =~= ty@.take(i + 9));
            }
            f.append(">");
            assert(f@ =~= f0 + with_any(ty@));
            return ;
        }
        f.append(ty);
        if !Self::is_simple_type(ty) {
            Self::write_any_generic(f);
        }
        assert(f@ =~= f0 + with_any(ty@));
    }

    /// Returns whether this object can be rendered: whether the placeholder
    /// can be put into the type of each field that needs it.
    pub fn can_render(&self) -> (yes: bool)
        ensures
            yes == object_renderable(self@),
    {
        let mut i: usize = 0;
        while i < self.fields.len()
            invariant
                i <= self.fields.len(),
                forall|j: int|
                    0 <= j < i && (#[trigger] self@.fields[j]).needs_any ==> any_shape(
                        self@.fields[j].ty_path,
                    ),
            decreases self.fields.len() - i,
        {
            if self.fields[i].needs_any && !Self::can_write_field_with_any(
                self.fields[i].ty_path.as_str(),
            ) {
                assert(self@.fields[i as int].needs_any);
                return false;
            }
            i += 1;
        }
        true
    }

    /// Renders this object with the given names: `snakes` holds the name of
    /// each field in snake case.
    pub fn render_with(&self, snakes: &Vec<String>) -> (out: String)
        requires
            snakes.len() == self.fields.len(),
            object_renderable(self@),
        ensures
            out@ == object_text_with(self@, snakes.deep_view()),
    {
        let ghost o = self@;
        let ghost names = snakes.deep_view();
        let mut f = String::new();
        ApiObject::write_docs(optional_as_str(&self.description), &mut f, 0);
        assert(f@ =~= docs_text(o.description, 0));
        f.append("#[derive(Debug, Default, Clone, Deserialize, Serialize)]");
        f.append("\npub struct ");
        f.append(self.name.as_str());
        let ghost f0 = f@;
        if some_field_needs_any(&self.fields) {
            ApiObject::write_any_generic(&mut f);
        }
        assert(f@ =~= f0 + any_generic_if(any_field_needs_any(o.fields)));
        f.append(" {");
        let ghost f1 = f@;
        let mut i: usize = 0;
        assert(f@ =~= f1 + fields_text(o.fields.take(0), names.take(0)));
        while i < self.fields.len()
            invariant
                i <= self.fields.len(),
                snakes.len() == self.fields.len(),
                o == self@,
                names == snakes.deep_view(),
                object_renderable(o),
                f@ == f1 + fields_text(o.fields.take(i as int), names.take(i as int)),
            decreases self.fields.len() - i,
        {
            assert(o.fields.take(i + 1).drop_last() =~= o.fields.take(i as int));
            assert(names.take(i + 1).drop_last() =~= names.take(i as int));
            assert(o.fields[i as int] == self.fields[i as int].deep_view());
            write_field(&self.fields[i], snakes[i].as_str(), &mut f);
            assert(f@ =~= f1 + fields_text(o.fields.take(i + 1), names.take(i + 1)));
            i += 1;
        }
        assert(o.fields.take(i as int) =~= o.fields);
        assert(names.take(i as int) =~= names);
        let ghost f2 = f@;
        if self.fields.len() > 0 {
            f.append("\n");
        }
        assert(f@ =~= f2 + (if o.fields.len() > 0 {
            "\n"@
        } else {
            Seq::empty()
        }));
        f.append("}\n");
        f
    }

    /// Renders this object: its documentation and the declaration of its
    /// record type.
    pub fn render(&self) -> (out: String)
        requires
            object_renderable(self@),
        ensures
            out@ == object_text(self@),
    {
        let snakes = snake_cased(&self.fields);
        self.render_with(&snakes)
    }
}

} // verus!
