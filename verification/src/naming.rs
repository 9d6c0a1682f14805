//! Identifier case conversion, reserved words and the reserved marker strings.

use crate::text::str_eq;
use heck::{CamelCase, SnekCase};
use vstd::prelude::*;

verus! {

/// The marker that stands for a file in place of a type path.
pub const FILE_MARKER: &'static str = "[FILE]";

/// The name of the generic slot that stands for a dynamically typed value.
pub const ANY_GENERIC_PARAMETER: &'static str = "Any";

/// The snake-case form of `s`, as `heck` computes it.
pub uninterp spec fn snake_case(s: Seq<char>) -> Seq<char>;

/// The camel-case form of `s`, as `heck` computes it.
pub uninterp spec fn camel_case(s: Seq<char>) -> Seq<char>;

/// Calls `heck::SnekCase::to_snek_case` on a string slice. The conversion
/// reads nothing but its argument, so its result is given the name
/// `snake_case`; nothing more is claimed of it.
#[verifier::external_body]
pub(crate) fn to_snek_case(s: &str) -> (out: String)
    ensures
        out@ == snake_case(s@),
{
    s.to_snek_case()
}

/// Calls `heck::CamelCase::to_camel_case` on a string slice. The conversion
/// reads nothing but its argument, so its result is given the name
/// `camel_case`; nothing more is claimed of it.
#[verifier::external_body]
pub(crate) fn to_camel_case(s: &str) -> (out: String)
    ensures
        out@ == camel_case(s@),
{
    s.to_camel_case()
}

/// A name in the two cases that the generated code writes it in.
#[derive(Debug, Clone, PartialEq, Eq)]
pub struct CasedName {
    /// The name in snake case, for fields and functions.
    pub snake: String,
    /// The name in camel case, for types.
    pub camel: String,
}

/// What a `CasedName` holds.
pub struct Cased {
    pub snake: Seq<char>,
    pub camel: Seq<char>,
}

impl DeepView for CasedName {
    type V = Cased;

    open spec fn deep_view(&self) -> Cased {
        Cased { snake: self.snake@, camel: self.camel@ }
    }
}

impl View for CasedName {
    type V = Cased;

    open spec fn view(&self) -> Cased {
        self.deep_view()
    }
}

/// `name` in snake case and in camel case.
pub open spec fn cased(name: Seq<char>) -> Cased {
    Cased { snake: snake_case(name), camel: camel_case(name) }
}

impl CasedName {
    /// Converts `name` to snake case and to camel case.
    pub fn of(name: &str) -> (out: CasedName)
        ensures
            out@ == cased(name@),
    {
        CasedName { snake: to_snek_case(name), camel: to_camel_case(name) }
    }
}

/// The words that cannot be used as identifiers in the generated code.
pub open spec fn rust_keywords() -> Seq<Seq<char>> {
    seq![
        "as"@, "break"@, "const"@, "continue"@, "crate"@, "dyn"@, "else"@, "enum"@, "extern"@,
        "false"@, "fn"@, "for"@, "if"@, "impl"@, "in"@, "let"@, "loop"@, "match"@, "mod"@,
        "move"@, "mut"@, "pub"@, "ref"@, "return"@, "self"@, "Self"@, "static"@, "struct"@,
        "super"@, "trait"@, "true"@, "type"@, "unsafe"@, "use"@, "where"@, "while"@,
        "abstract"@, "become"@, "box"@, "do"@, "final"@, "macro"@, "override"@, "priv"@,
        "typeof"@, "unsized"@, "virtual"@, "yield"@, "async"@, "await"@, "try"@,
    ]
}

fn keyword_table() -> (table: Vec<&'static str>)
    ensures
        table@.len() == rust_keywords().len(),
        forall|i: int| 0 <= i < table@.len() ==> table@[i]@ == rust_keywords()[i],
{
    vec![
        "as", "break", "const", "continue", "crate", "dyn", "else", "enum", "extern",
        "false", "fn", "for", "if", "impl", "in", "let", "loop", "match", "mod",
        "move", "mut", "pub", "ref", "return", "self", "Self", "static", "struct",
        "super", "trait", "true", "type", "unsafe", "use", "where", "while",
        "abstract", "become", "box", "do", "final", "macro", "override", "priv",
        "typeof", "unsized", "virtual", "yield", "async", "await", "try",
    ]
}

/// Whether `s` is a reserved word.
pub fn is_rust_keyword(s: &str) -> (reserved: bool)
    ensures
        reserved == rust_keywords().contains(s@),
{
    let table = keyword_table();
    let mut i: usize = 0;
    while i < table.len()
        invariant
            i <= table.len(),
            table@.len() == rust_keywords().len(),
            forall|j: int| 0 <= j < table@.len() ==> table@[j]@ == rust_keywords()[j],
            forall|j: int| 0 <= j < i ==> rust_keywords()[j] != s@,
        decreases table.len() - i,
    {
        if str_eq(table[i], s) {
            assert(rust_keywords()[i as int] == s@);
            return true;
        }
        i += 1;
    }
    false
}

/// Whether `s` is the file marker.
pub fn is_file_marker(s: &str) -> (file: bool)
    ensures
        file == (s@ == FILE_MARKER@),
{
    str_eq(s, FILE_MARKER)
}

} // verus!
