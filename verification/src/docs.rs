//! Documentation comments: one line of output per line of a description,
//! with the characters that documentation syntax reads as links escaped.

use crate::object::ApiObject;
use crate::text::{chars_of, find_char_from, first_index, str_eq, trim_end, trimmed_end};
use regex::{Captures, Regex};
use vstd::prelude::*;
use vstd::string::*;

verus! {

/// The pattern that matches the characters to escape in documentation.
pub const DOC_PATTERN: &'static str = "\\[|\\]";

/// What stands for `c` in documentation: a bracket behind a backslash, any
/// other character as it is.
pub open spec fn escaped_char(c: char) -> Seq<char> {
    if c == '[' || c == ']' {
        seq!['\\', c]
    } else {
        seq![c]
    }
}

/// `s` with each of its brackets behind a backslash.
pub open spec fn escaped(s: Seq<char>) -> Seq<char>
    decreases s.len(),
{
    if s.len() == 0 {
        s
    } else {
        escaped(s.drop_last()) + escaped_char(s.last())
    }
}

/// What replaces a bracket that the documentation pattern has matched.
pub fn bracket_escape(bracket: &str) -> (out: &'static str)
    requires
        bracket@ == seq!['['] || bracket@ == seq![']'],
    ensures
        out@ == seq!['\\'] + bracket@,
{
    proof {
        reveal_strlit("[");
        reveal_strlit("\\[");
        reveal_strlit("\\]");
        assert("["@ =~= seq!['[']);
    }
    if str_eq(bracket, "[") {
        assert("\\["@ =~= seq!['\\'] + bracket@);
        "\\["
    } else {
        assert("\\]"@ =~= seq!['\\'] + bracket@);
        "\\]"
    }
}

/// Compiles `pattern` with `regex::Regex::new` and calls
/// `regex::Regex::replace_all` on `line`, replacing each match by what
/// `bracket_escape` gives for it. The contract is stated for the
/// documentation pattern alone: that pattern matches each `[` and each `]`
/// and nothing else, so the result is `line` with a backslash put before
/// each bracket.
#[verifier::external_body]
fn replace_brackets(pattern: &str, line: &str) -> (out: String)
    requires
        pattern@ == DOC_PATTERN@,
    ensures
        out@ == escaped(line@),
{
    let re = Regex::new(pattern).unwrap();
    re.replace_all(line, |found: &Captures| bracket_escape(&found[0])).into_owned()
}

/// Escapes the brackets of `line`.
pub fn escape_brackets(line: &str) -> (out: String)
    ensures
        out@ == escaped(line@),
{
    replace_brackets(DOC_PATTERN, line)
}

/// Four spaces for each level.
pub open spec fn indent_text(levels: nat) -> Seq<char>
    decreases levels,
{
    if levels == 0 {
        Seq::<char>::empty()
    } else {
        indent_text((levels - 1) as nat) + "    "@
    }
}

/// One line of documentation: a line break, the indentation, three slashes
/// and, unless the line is empty, a space and the line with its brackets
/// escaped and without trailing white space.
pub open spec fn doc_line(line: Seq<char>, indent: Seq<char>) -> Seq<char> {
    if line.len() == 0 {
        "\n"@ + indent + "///"@
    } else {
        "\n"@ + indent + "///"@ + " "@ + trimmed_end(escaped(line))
    }
}

/// The documentation lines for every line of `desc`. Lines end at a line
/// feed; what follows the last line feed is a line too, also where it is
/// empty.
pub open spec fn doc_lines(desc: Seq<char>, indent: Seq<char>) -> Seq<char>
    decreases desc.len(),
{
    let k = first_index(desc, '\n');
    if 0 <= k < desc.len() {
        doc_line(desc.take(k), indent) + doc_lines(desc.skip(k + 1), indent)
    } else {
        doc_line(desc, indent)
    }
}

/// The documentation for a description, if there is one: its lines and a
/// closing line break.
pub open spec fn docs_text(desc: Option<Seq<char>>, levels: nat) -> Seq<char> {
    match desc {
        Some(d) => doc_lines(d, indent_text(levels)) + "\n"@,
        None => Seq::<char>::empty(),
    }
}

fn indentation(levels: usize) -> (out: String)
    ensures
        out@ == indent_text(levels as nat),
{
    let mut out = String::new();
    let mut i: usize = 0;
    while i < levels
        invariant
            i <= levels,
            out@ == indent_text(i as nat),
        decreases levels - i,
    {
        out.append("    ");
        i += 1;
    }
    out
}

fn write_doc_line(line: &str, indent: &str, f: &mut String)
    ensures
        final(f)@ == old(f)@ + doc_line(line@, indent@),
{
    let ghost f0 = f@;
    f.append("\n");
    f.append(indent);
    f.append("///");
    if line.is_empty() {
        assert(f@ =~= f0 + doc_line(line@, indent@));
        return ;
    }
    f.append(" ");
    let escaped_line = escape_brackets(line);
    f.append(trim_end(escaped_line.as_str()));
    assert(f@ =~= f0 + doc_line(line@, indent@));
}

impl ApiObject {
    /// Writes the given description, if any, as documentation into `f`,
    /// indented by `levels` levels.
    pub fn write_docs(stuff: Option<&str>, f: &mut String, levels: usize)
        ensures
            final(f)@ == old(f)@ + docs_text(stuff.deep_view(), levels as nat),
    {
        let ghost f0 = f@;
        if let Some(desc) = stuff {
            let indent = indentation(levels);
            let v = chars_of(desc);
            let mut start: usize = 0;
            let mut done = false;
            assert(desc@.skip(0) =~= desc@);
            while !done
                invariant
                    start <= v.len(),
                    v@ == desc@,
                    !done ==> f@ + doc_lines(desc@.skip(start as int), indent@) == f0 + doc_lines(
                        desc@,
                        indent@,
                    ),
                    done ==> f@ == f0 + doc_lines(desc@, indent@),
                decreases
                        if done {
                            0
                        } else {
                            v.len() - start + 1
                        },
            {
                let ghost rest = desc@.skip(start as int);
                let ghost before = f@;
                let end = find_char_from(&v, start, '\n');
                let line = desc.substring_char(start, end);
                write_doc_line(line, indent.as_str(), f);
                proof {
                    assert(line@ =~= rest.take(end - start));
                }
                if end == v.len() {
                    proof {
                        assert(line@ =~= rest);
                    }
                    done = true;
                } else {
                    proof {
                        assert(rest.skip(end - start + 1) =~= desc@.skip(end + 1));
                        assert(before + doc_line(line@, indent@) + doc_lines(
                            desc@.skip(end + 1),
                            indent@,
                        ) =~= before + doc_lines(rest, indent@));
                    }
                    start = end + 1;
                }
            }
            f.append("\n");
            assert(f@ =~= f0 + docs_text(stuff.deep_view(), levels as nat));
        } else {
            assert(f@ =~= f0 + docs_text(stuff.deep_view(), levels as nat));
        }
    }
}

} // verus!
