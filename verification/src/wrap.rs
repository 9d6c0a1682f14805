//! Wrapping of array parameters: a parameter whose type is a sequence is
//! rewritten into a delimited sequence that carries, at each level of
//! nesting, the format by which the values of that level are joined.

use crate::builder::ApiObjectBuilder;
use crate::models::{format_name, CollectionFormat};
use crate::text::{
    chars_of, contains, contains_text, count_char, count_of, find_char_from, first_index,
    lemma_first_index, replace, replaced,
};
use vstd::prelude::*;
use vstd::string::*;

verus! {

/// The path of the delimited sequence type.
pub open spec fn delimited_path(prefix: Seq<char>) -> Seq<char> {
    prefix + "util::Delimited"@
}

/// `ty` with each sequence type replaced by the delimited sequence type.
pub open spec fn delimited_ty(prefix: Seq<char>, ty: Seq<char>) -> Seq<char> {
    replaced(ty, "Vec"@, delimited_path(prefix))
}

/// What closes one level of nesting: the format of the level as a second
/// type argument, and the closing bracket.
pub open spec fn level_end(prefix: Seq<char>, format: CollectionFormat) -> Seq<char> {
    ", "@ + prefix + "util::"@ + format_name(format) + ">"@
}

/// `t` up to its last closing bracket, with the first `k` formats of
/// `delims` put before its closing brackets: the last of them before the
/// first bracket, the first of them before the `k`-th.
pub open spec fn closed_levels(
    t: Seq<char>,
    prefix: Seq<char>,
    delims: Seq<CollectionFormat>,
    k: int,
) -> Seq<char>
    decreases t.len(),
{
    let at = first_index(t, '>');
    if 0 <= at < t.len() {
        t.take(at) + level_end(prefix, delims[k - 1]) + closed_levels(
            t.skip(at + 1),
            prefix,
            delims,
            k - 1,
        )
    } else {
        Seq::empty()
    }
}

/// Whether `delims` has a format for each level of nesting of `ty`.
pub open spec fn wrappable(prefix: Seq<char>, ty: Seq<char>, delims: Seq<CollectionFormat>) -> bool {
    contains_text(ty, "Vec"@) ==> count_of(delimited_ty(prefix, ty), '>') <= delims.len()
}

/// The type of a parameter as the builder holds it: a type without a
/// sequence as it is, any other with its levels delimited.
pub open spec fn wrapped_ty(prefix: Seq<char>, ty: Seq<char>, delims: Seq<CollectionFormat>) -> Seq<
    char,
> {
    if contains_text(ty, "Vec"@) {
        closed_levels(delimited_ty(prefix, ty), prefix, delims, delims.len() as int)
    } else {
        ty
    }
}

/// `c` stands in `s` as often as before and after any index together.
pub proof fn lemma_count_split(s: Seq<char>, c: char, i: int)
    requires
        0 <= i <= s.len(),
    ensures
        count_of(s, c) == count_of(s.take(i), c) + count_of(s.skip(i), c),
    decreases s.len() - i,
{
    if i == s.len() {
        assert(s.take(i) =~= s);
        assert(s.skip(i) =~= Seq::<char>::empty());
    } else {
        lemma_count_split(s, c, i + 1);
        assert(s.take(i + 1).drop_last() =~= s.take(i));
        lemma_count_first(s.skip(i), c);
        assert(s.skip(i).drop_first() =~= s.skip(i + 1));
    }
}

/// `c` stands in `s` as often as in all behind its first character, and
/// once more where that character is `c`.
pub proof fn lemma_count_first(s: Seq<char>, c: char)
    requires
        s.len() > 0,
    ensures
        count_of(s, c) == count_of(s.drop_first(), c) + if s[0] == c {
            1nat
        } else {
            0nat
        },
    decreases s.len(),
{
    if s.len() == 1 {
        assert(s.drop_last() =~= Seq::<char>::empty());
        assert(s.drop_first() =~= Seq::<char>::empty());
    } else {
        lemma_count_first(s.drop_last(), c);
        assert(s.drop_last().drop_first() =~= s.drop_first().drop_last());
    }
}

fn write_level_end(prefix: &str, format: CollectionFormat, f: &mut String)
    ensures
        final(f)@ == old(f)@ + level_end(prefix@, format),
{
    let ghost f0 = f@;
    f.append(", ");
    f.append(prefix);
    f.append("util::");
    f.append(format.name());
    f.append(">");
    assert(f@ =~= f0 + level_end(prefix@, format));
}

fn delimited(module_prefix: &str, ty: &str) -> (out: String)
    ensures
        out@ == delimited_ty(module_prefix@, ty@),
{
    let mut delim_ty = String::from_str(module_prefix);
    delim_ty.append("util::Delimited");
    replace(ty, "Vec", delim_ty.as_str())
}

impl<'a> ApiObjectBuilder<'a> {
    /// Returns whether `delims` has a format for each level of nesting of
    /// `ty`, so that the type can be wrapped.
    pub fn can_wrap_ty(module_prefix: &str, ty: &str, delims: &[CollectionFormat]) -> (yes: bool)
        ensures
            yes == wrappable(module_prefix@, ty@, delims@),
    {
        if !contains(ty, "Vec") {
            return true;
        }
        let t = delimited(module_prefix, ty);
        let v = chars_of(t.as_str());
        count_char(&v, '>') <= delims.len()
    }

    /// Wraps the type of a parameter, if it holds a sequence, and writes the
    /// old or the new type into `f`.
    pub fn write_wrapped_ty(
        module_prefix: &str,
        ty: &str,
        delims: &[CollectionFormat],
        f: &mut String,
    )
        requires
            wrappable(module_prefix@, ty@, delims@),
        ensures
            final(f)@ == old(f)@ + wrapped_ty(module_prefix@, ty@, delims@),
    {
        if !contains(ty, "Vec") {
            f.append(ty);
            return ;
        }
        let ghost f0 = f@;
        let t = delimited(module_prefix, ty);
        let v = chars_of(t.as_str());
        let mut start: usize = 0;
        let mut delim_idx: usize = delims.len();
        assert(t@.skip(0) =~= t@);
        loop
            invariant
                start <= v.len(),
                v@ == t@,
                delim_idx <= delims.len(),
                count_of(t@.skip(start as int), '>') <= delim_idx,
                f@ + closed_levels(t@.skip(start as int), module_prefix@, delims@, delim_idx as int)
                    == f0 + closed_levels(t@, module_prefix@, delims@, delims.len() as int),
            ensures
                f@ == f0 + closed_levels(t@, module_prefix@, delims@, delims.len() as int),
            decreases v.len() - start,
        {
            let ghost rest = t@.skip(start as int);
            let ghost before = f@;
            let idx = find_char_from(&v, start, '>');
            if idx == v.len() {
                assert(f@ =~= f@ + Seq::<char>::empty());
                break ;
            }
            proof {
                lemma_first_index(rest, '>');
                lemma_count_split(rest, '>', idx - start);
                lemma_count_first(rest.skip(idx - start), '>');
                assert(rest.skip(idx - start).drop_first() =~= t@.skip(idx + 1));
                assert(rest.skip(idx - start + 1) =~= t@.skip(idx + 1));
                assert(rest.take(idx - start) =~= t@.subrange(start as int, idx as int));
            }
            delim_idx -= 1;
            f.append(t.as_str().substring_char(start, idx));
            write_level_end(module_prefix, delims[delim_idx], f);
            proof {
                assert(f@ + closed_levels(
                    t@.skip(idx + 1),
                    module_prefix@,
                    delims@,
                    delim_idx as int,
                ) =~= before + closed_levels(rest, module_prefix@, delims@, delim_idx + 1));
            }
            start = idx + 1;
        }
    }
}

} // verus!
