use builder_codegen::docs::{bracket_escape, escape_brackets};
use builder_codegen::ApiObject;

fn docs(desc: Option<&str>, levels: usize) -> String {
    let mut out = String::new();
    ApiObject::write_docs(desc, &mut out, levels);
    out
}

#[test]
fn doc_escaping_puts_a_backslash_before_each_bracket() {
    assert_eq!(docs(Some("[deprecated]"), 0), "\n/// \\[deprecated\\]\n");
}

#[test]
fn escape_brackets_leaves_other_characters_alone() {
    assert_eq!(escape_brackets("a[b]c"), "a\\[b\\]c");
    assert_eq!(escape_brackets("[[]]"), "\\[\\[\\]\\]");
    assert_eq!(escape_brackets("no brackets (here) {x}"), "no brackets (here) {x}");
    assert_eq!(escape_brackets(""), "");
    assert_eq!(escape_brackets("\\["), "\\\\[");
}

#[test]
fn bracket_escape_prefixes_the_bracket() {
    assert_eq!(bracket_escape("["), "\\[");
    assert_eq!(bracket_escape("]"), "\\]");
}

#[test]
fn docs_without_description_are_empty() {
    assert_eq!(docs(None, 0), "");
    assert_eq!(docs(None, 3), "");
}

#[test]
fn docs_append_to_what_is_there() {
    let mut out = String::from("x");
    ApiObject::write_docs(Some("a"), &mut out, 0);
    assert_eq!(out, "x\n/// a\n");
}

#[test]
fn docs_write_one_line_per_line_and_keep_blank_lines() {
    assert_eq!(docs(Some("first\n\nthird"), 0), "\n/// first\n///\n/// third\n");
    assert_eq!(docs(Some("a\n"), 0), "\n/// a\n///\n");
    assert_eq!(docs(Some(""), 0), "\n///\n");
    assert_eq!(docs(Some("\n"), 0), "\n///\n///\n");
}

#[test]
fn docs_strip_trailing_white_space_of_each_line() {
    assert_eq!(docs(Some("a  \nb\t"), 0), "\n/// a\n/// b\n");
    assert_eq!(docs(Some("   "), 0), "\n/// \n");
    assert_eq!(docs(Some("  lead"), 0), "\n///   lead\n");
    assert_eq!(docs(Some("a\r\nb"), 0), "\n/// a\n/// b\n");
}

#[test]
fn docs_indent_by_four_spaces_a_level() {
    assert_eq!(docs(Some("a\nb"), 1), "\n    /// a\n    /// b\n");
    assert_eq!(docs(Some("a"), 2), "\n        /// a\n");
}

#[test]
fn docs_escape_each_line() {
    assert_eq!(
        docs(Some("See [this].\nAnd [that] "), 1),
        "\n    /// See \\[this\\].\n    /// And \\[that\\]\n"
    );
}
