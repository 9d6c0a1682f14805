//! Typestate: the generic markers of a builder, one for each required
//! property in the order of the unified list, and behind them the slot of
//! the dynamically typed placeholder where the builder needs it.

use crate::builder::{ApiObjectBuilder, BuilderView, MarkerMode, SlotView, StructField, TypeParameters};
use crate::naming::{cased, Cased, CasedName, ANY_GENERIC_PARAMETER};
use crate::text::str_eq;
use crate::unify::unified;
use vstd::prelude::*;
use vstd::string::*;

verus! {

/// The marker of a property that has been set. `camel` is the name of the
/// property in camel case.
pub open spec fn exists_marker(prefix: Seq<char>, camel: Seq<char>) -> Seq<char> {
    prefix + "generics::"@ + camel + "Exists"@
}

/// The marker of a property that has not been set. `camel` is the name of
/// the property in camel case.
pub open spec fn missing_marker(prefix: Seq<char>, camel: Seq<char>) -> Seq<char> {
    prefix + "generics::"@ + "Missing"@ + camel
}

/// The marker of the property `name` in the given mode: "exists" where all
/// markers are changed or this one is, "missing" where all are replaced,
/// and else the name in camel case, a plain generic name.
pub open spec fn marker_with(prefix: Seq<char>, name: Seq<char>, camel: Seq<char>, mode: MarkerMode) -> Seq<
    char,
> {
    match mode {
        MarkerMode::Generic => camel,
        MarkerMode::ChangeOne(set) => if name == set {
            exists_marker(prefix, camel)
        } else {
            camel
        },
        MarkerMode::ReplaceAll => missing_marker(prefix, camel),
        MarkerMode::ChangeAll => exists_marker(prefix, camel),
    }
}

/// How many of the entries are required.
pub open spec fn required_count(slots: Seq<SlotView>) -> nat
    decreases slots.len(),
{
    if slots.len() == 0 {
        0
    } else if slots.last().prop.required() {
        required_count(slots.drop_last()) + 1
    } else {
        required_count(slots.drop_last())
    }
}

/// The markers of the required entries: the first behind `<`, each other
/// behind a comma and a space. `names` holds the name of each entry in its
/// cases.
pub open spec fn markers_with(
    slots: Seq<SlotView>,
    names: Seq<Cased>,
    prefix: Seq<char>,
    mode: MarkerMode,
) -> Seq<char>
    decreases slots.len(),
{
    if slots.len() == 0 {
        Seq::empty()
    } else if slots.last().prop.required() {
        markers_with(slots.drop_last(), names.drop_last(), prefix, mode) + (if required_count(
            slots.drop_last(),
        ) == 0 {
            "<"@
        } else {
            ", "@
        }) + marker_with(prefix, slots.last().name, names.last().camel, mode)
    } else {
        markers_with(slots.drop_last(), names.drop_last(), prefix, mode)
    }
}

/// What stands in the slot of the dynamically typed placeholder: the given
/// value, or the name of the placeholder.
pub open spec fn any_slot(any_value: Option<Seq<char>>) -> Seq<char> {
    match any_value {
        Some(v) => v,
        None => ANY_GENERIC_PARAMETER@,
    }
}

/// The generic parameters over a list of entries: the markers, then the
/// placeholder slot where it is needed, all between angle brackets; nothing
/// at all where there is neither.
pub open spec fn generics_with(
    slots: Seq<SlotView>,
    names: Seq<Cased>,
    prefix: Seq<char>,
    needs_any: bool,
    any_value: Option<Seq<char>>,
    mode: MarkerMode,
) -> Seq<char> {
    if needs_any {
        markers_with(slots, names, prefix, mode) + (if required_count(slots) > 0 {
            ", "@
        } else {
            "<"@
        }) + any_slot(any_value) + ">"@
    } else if required_count(slots) > 0 {
        markers_with(slots, names, prefix, mode) + ">"@
    } else {
        markers_with(slots, names, prefix, mode)
    }
}

/// The name of each entry in its cases.
pub open spec fn cased_all(slots: Seq<SlotView>) -> Seq<Cased> {
    Seq::new(slots.len(), |i: int| cased(slots[i].name))
}

/// The generic parameters of a builder.
pub open spec fn generics_text(b: BuilderView, any_value: Option<Seq<char>>, mode: MarkerMode) -> Seq<
    char,
> {
    generics_with(
        unified(b),
        cased_all(unified(b)),
        b.helper_module_prefix,
        b.needs_any,
        any_value,
        mode,
    )
}

/// How many generic parameters a builder has.
pub open spec fn generic_count(b: BuilderView) -> nat {
    required_count(unified(b)) + if b.needs_any {
        1nat
    } else {
        0nat
    }
}

/// Writes the marker of the property `name`, whose name in camel case is
/// `camel`, into `f`.
pub fn write_marker(prefix: &str, name: &str, camel: &str, params: TypeParameters<'_>, f: &mut String)
    ensures
        final(f)@ == old(f)@ + marker_with(prefix@, name@, camel@, params@),
{
    let ghost f0 = f@;
    let exists = match params {
        TypeParameters::ChangeOne(set) => str_eq(name, set),
        TypeParameters::ChangeAll => true,
        _ => false,
    };
    if exists {
        f.append(prefix);
        f.append("generics::");
        f.append(camel);
        f.append("Exists");
        assert(f@ =~= f0 + exists_marker(prefix@, camel@));
        return ;
    }
    if let TypeParameters::ReplaceAll = params {
        f.append(prefix);
        f.append("generics::");
        f.append("Missing");
    }
    f.append(camel);
    assert(f@ =~= f0 + marker_with(prefix@, name@, camel@, params@));
}

/// Converts the name of each entry to its cases.
pub fn cased_names(slots: &Vec<StructField<'_>>) -> (names: Vec<CasedName>)
    ensures
        names.deep_view() == cased_all(slots.deep_view()),
{
    let mut names: Vec<CasedName> = Vec::new();
    let mut i: usize = 0;
    while i < slots.len()
        invariant
            i <= slots.len(),
            names.len() == i,
            forall|j: int|
                0 <= j < i ==> (#[trigger] names@[j]).deep_view() == cased(
                    slots.deep_view()[j].name,
                ),
        decreases slots.len() - i,
    {
        names.push(CasedName::of(slots[i].name));
        i += 1;
    }
    assert(names.deep_view() =~= cased_all(slots.deep_view()));
    names
}

/// Writes the generic parameters over `slots` into `f`. `names` holds the
/// name of each entry in its cases.
pub fn write_generics_with(
    slots: &Vec<StructField<'_>>,
    names: &Vec<CasedName>,
    prefix: &str,
    needs_any: bool,
    any_value: Option<&str>,
    params: TypeParameters<'_>,
    f: &mut String,
)
    requires
        names.len() == slots.len(),
    ensures
        final(f)@ == old(f)@ + generics_with(
            slots.deep_view(),
            names.deep_view(),
            prefix@,
            needs_any,
            any_value.deep_view(),
            params@,
        ),
{
    let ghost f0 = f@;
    let ghost all = slots.deep_view();
    let ghost cases = names.deep_view();
    let mut first = true;
    let mut i: usize = 0;
    assert(f@ =~= f0 + markers_with(all.take(0), cases.take(0), prefix@, params@));
    while i < slots.len()
        invariant
            i <= slots.len(),
            names.len() == slots.len(),
            all == slots.deep_view(),
            cases == names.deep_view(),
            first == (required_count(all.take(i as int)) == 0),
            f@ == f0 + markers_with(all.take(i as int), cases.take(i as int), prefix@, params@),
        decreases slots.len() - i,
    {
        assert(all.take(i + 1).drop_last() =~= all.take(i as int));
        assert(cases.take(i + 1).drop_last() =~= cases.take(i as int));
        if slots[i].prop.is_required() {
            if first {
                f.append("<");
            } else {
                f.append(", ");
            }
            first = false;
            write_marker(prefix, slots[i].name, names[i].camel.as_str(), params, f);
            assert(f@ =~= f0 + markers_with(
                all.take(i + 1),
                cases.take(i + 1),
                prefix@,
                params@,
            ));
        }
        i += 1;
    }
    assert(all.take(i as int) =~= all);
    assert(cases.take(i as int) =~= cases);
    let ghost whole = generics_with(all, cases, prefix@, needs_any, any_value.deep_view(), params@);
    if needs_any {
        if first {
            f.append("<");
        } else {
            f.append(", ");
        }
        match any_value {
            Some(v) => f.append(v),
            None => f.append(ANY_GENERIC_PARAMETER),
        }
        f.append(">");
        assert(f@ =~= f0 + whole);
    } else if !first {
        f.append(">");
        assert(f@ =~= f0 + whole);
    }
}

/// Counts the required entries.
pub fn count_required(slots: &Vec<StructField<'_>>) -> (n: usize)
    ensures
        n == required_count(slots.deep_view()),
{
    let ghost all = slots.deep_view();
    let mut n: usize = 0;
    let mut i: usize = 0;
    while i < slots.len()
        invariant
            i <= slots.len(),
            all == slots.deep_view(),
            n <= i,
            n == required_count(all.take(i as int)),
        decreases slots.len() - i,
    {
        assert(all.take(i + 1).drop_last() =~= all.take(i as int));
        if slots[i].prop.is_required() {
            n += 1;
        }
        i += 1;
    }
    assert(all.take(i as int) =~= all);
    n
}

impl<'a> ApiObjectBuilder<'a> {
    /// Returns whether the number of generic parameters of this builder
    /// fits the machine.
    pub fn can_count_generics(&self) -> (yes: bool)
        ensures
            yes == (generic_count(self@) <= usize::MAX),
    {
        let slots = self.struct_fields_iter();
        let required = count_required(&slots);
        !self.needs_any || required < usize::MAX
    }

    /// Writes the generic parameters of this builder, if it has any, and
    /// returns how many it has.
    ///
    /// `params` says whether one, all or none of the markers are written as
    /// actual types. `any_value` stands in the slot of the dynamically typed
    /// placeholder in place of its name.
    pub fn write_generics_if_necessary(
        &self,
        f: &mut String,
        any_value: Option<&str>,
        params: TypeParameters<'_>,
    ) -> (num_generics: usize)
        requires
            generic_count(self@) <= usize::MAX,
        ensures
            final(f)@ == old(f)@ + generics_text(self@, any_value.deep_view(), params@),
            num_generics == generic_count(self@),
    {
        let slots = self.struct_fields_iter();
        let names = cased_names(&slots);
        write_generics_with(
            &slots,
            &names,
            self.helper_module_prefix,
            self.needs_any,
            any_value,
            params,
            f,
        );
        let required = count_required(&slots);
        if self.needs_any {
            required + 1
        } else {
            required
        }
    }
}

} // verus!
