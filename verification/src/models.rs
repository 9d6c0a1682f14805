//! The small enumerations and handles that the object model carries.

use vstd::prelude::*;

verus! {

/// The HTTP method of an operation.
#[derive(Debug, Clone, Copy, PartialEq, Eq, Structural, PartialOrd, Ord, Hash)]
pub enum HttpMethod {
    Get,
    Put,
    Post,
    Delete,
    Options,
    Head,
    Patch,
}

/// The name of a method as it stands in the name of a builder type.
pub open spec fn method_name(m: HttpMethod) -> Seq<char> {
    match m {
        HttpMethod::Get => "Get"@,
        HttpMethod::Put => "Put"@,
        HttpMethod::Post => "Post"@,
        HttpMethod::Delete => "Delete"@,
        HttpMethod::Options => "Options"@,
        HttpMethod::Head => "Head"@,
        HttpMethod::Patch => "Patch"@,
    }
}

/// The name of a method as it stands on the wire, in capitals.
pub open spec fn method_verb(m: HttpMethod) -> Seq<char> {
    match m {
        HttpMethod::Get => "GET"@,
        HttpMethod::Put => "PUT"@,
        HttpMethod::Post => "POST"@,
        HttpMethod::Delete => "DELETE"@,
        HttpMethod::Options => "OPTIONS"@,
        HttpMethod::Head => "HEAD"@,
        HttpMethod::Patch => "PATCH"@,
    }
}

/// `c` in upper case where it is an ASCII lower-case letter, else `c`.
pub open spec fn ascii_upper(c: char) -> char {
    if 'a' <= c <= 'z' {
        ((c as u8) - 32) as char
    } else {
        c
    }
}

impl HttpMethod {
    /// The name of this method as it stands in the name of a builder type.
    pub fn name(self) -> (s: &'static str)
        ensures
            s@ == method_name(self),
    {
        match self {
            HttpMethod::Get => "Get",
            HttpMethod::Put => "Put",
            HttpMethod::Post => "Post",
            HttpMethod::Delete => "Delete",
            HttpMethod::Options => "Options",
            HttpMethod::Head => "Head",
            HttpMethod::Patch => "Patch",
        }
    }

    /// The name of this method in capitals.
    pub fn verb(self) -> (s: &'static str)
        ensures
            s@ == method_verb(self),
    {
        match self {
            HttpMethod::Get => "GET",
            HttpMethod::Put => "PUT",
            HttpMethod::Post => "POST",
            HttpMethod::Delete => "DELETE",
            HttpMethod::Options => "OPTIONS",
            HttpMethod::Head => "HEAD",
            HttpMethod::Patch => "PATCH",
        }
    }
}

/// The verb of a method is its name with every letter in upper case.
pub proof fn lemma_verb_is_upper_name(m: HttpMethod)
    ensures
        method_verb(m) == method_name(m).map_values(|c: char| ascii_upper(c)),
{
    reveal_strlit("Get");
    reveal_strlit("Put");
    reveal_strlit("Post");
    reveal_strlit("Delete");
    reveal_strlit("Options");
    reveal_strlit("Head");
    reveal_strlit("Patch");
    reveal_strlit("GET");
    reveal_strlit("PUT");
    reveal_strlit("POST");
    reveal_strlit("DELETE");
    reveal_strlit("OPTIONS");
    reveal_strlit("HEAD");
    reveal_strlit("PATCH");
    assert(method_verb(m) =~= method_name(m).map_values(|c: char| ascii_upper(c)));
}

/// Where a parameter lives in a request.
#[derive(Debug, Clone, Copy, PartialEq, Eq, Structural, Hash)]
pub enum ParameterIn {
    Query,
    Header,
    Path,
    FormData,
    Body,
}

/// How the values of an array parameter are joined into one value.
#[derive(Debug, Clone, Copy, PartialEq, Eq, Structural, Hash)]
pub enum CollectionFormat {
    /// Separated by commas.
    Csv,
    /// Separated by spaces.
    Ssv,
    /// Separated by tabs.
    Tsv,
    /// Separated by pipes.
    Pipes,
    /// One parameter instance per value.
    Multi,
}

/// The name of the marker type that stands for a collection format.
pub open spec fn format_name(c: CollectionFormat) -> Seq<char> {
    match c {
        CollectionFormat::Csv => "Csv"@,
        CollectionFormat::Ssv => "Ssv"@,
        CollectionFormat::Tsv => "Tsv"@,
        CollectionFormat::Pipes => "Pipes"@,
        CollectionFormat::Multi => "Multi"@,
    }
}

impl CollectionFormat {
    /// The name of the marker type that stands for this format.
    pub fn name(self) -> (s: &'static str)
        ensures
            s@ == format_name(self),
    {
        match self {
            CollectionFormat::Csv => "Csv",
            CollectionFormat::Ssv => "Ssv",
            CollectionFormat::Tsv => "Tsv",
            CollectionFormat::Pipes => "Pipes",
            CollectionFormat::Multi => "Multi",
        }
    }
}

/// A wire-format coder, carried through the model and never read here.
#[derive(Debug, Clone, Default)]
pub struct Coder {
    /// Path to the encoding function.
    pub encoder_path: String,
    /// Path to the decoding function.
    pub decoder_path: String,
    /// Path to the error type of the coder, if it has one of its own.
    pub error_path: Option<String>,
    /// Whether this coder is preferred over the others.
    pub prefer: bool,
    /// Whether this coder is built in.
    pub builtin: bool,
}

} // verus!
