//! The object model: data objects, their fields, and the operations and
//! parameters that address them.

use crate::models::{Coder, CollectionFormat, HttpMethod, ParameterIn};
use crate::naming::{is_file_marker, FILE_MARKER};
use std::collections::BTreeMap;
use std::sync::Arc;
use vstd::prelude::*;

verus! {

/// What a `Coder` holds.
pub struct CoderView {
    pub encoder_path: Seq<char>,
    pub decoder_path: Seq<char>,
    pub error_path: Option<Seq<char>>,
    pub prefer: bool,
    pub builtin: bool,
}

impl DeepView for Coder {
    type V = CoderView;

    open spec fn deep_view(&self) -> CoderView {
        CoderView {
            encoder_path: self.encoder_path@,
            decoder_path: self.decoder_path@,
            error_path: self.error_path.deep_view(),
            prefer: self.prefer,
            builtin: self.builtin,
        }
    }
}

impl DeepView for HttpMethod {
    type V = HttpMethod;

    open spec fn deep_view(&self) -> HttpMethod {
        *self
    }
}

impl DeepView for CollectionFormat {
    type V = CollectionFormat;

    open spec fn deep_view(&self) -> CollectionFormat {
        *self
    }
}

/// A field of a data object.
#[derive(Debug, Clone)]
pub struct ObjectField {
    /// Name of the field.
    pub name: String,
    /// Type of the field as a path.
    pub ty_path: String,
    /// Description of the field, if any, for its documentation.
    pub description: Option<String>,
    /// Whether the field is required.
    pub is_required: bool,
    /// Whether the type of the field is or holds the dynamically typed
    /// placeholder.
    pub needs_any: bool,
    /// Whether the field must be boxed to break a cycle of types.
    pub boxed: bool,
    /// Names of the required fields of the deepest type that is reached by
    /// unwrapping the arrays and maps in the type of this field.
    pub child_req_fields: Vec<String>,
}

/// What an `ObjectField` holds.
pub struct FieldView {
    pub name: Seq<char>,
    pub ty_path: Seq<char>,
    pub description: Option<Seq<char>>,
    pub is_required: bool,
    pub needs_any: bool,
    pub boxed: bool,
    pub child_req_fields: Seq<Seq<char>>,
}

impl DeepView for ObjectField {
    type V = FieldView;

    open spec fn deep_view(&self) -> FieldView {
        FieldView {
            name: self.name@,
            ty_path: self.ty_path@,
            description: self.description.deep_view(),
            is_required: self.is_required,
            needs_any: self.needs_any,
            boxed: self.boxed,
            child_req_fields: self.child_req_fields.deep_view(),
        }
    }
}

impl View for ObjectField {
    type V = FieldView;

    open spec fn view(&self) -> FieldView {
        self.deep_view()
    }
}

/// A parameter of an operation: in the header, the path, the query or
/// elsewhere.
#[derive(Debug, Clone)]
pub struct Parameter {
    /// Name of the parameter.
    pub name: String,
    /// Description of the parameter, if any, for its documentation.
    pub description: Option<String>,
    /// Type of the parameter as a path.
    pub ty_path: String,
    /// Whether the parameter is required.
    pub required: bool,
    /// Where the parameter lives.
    pub presence: ParameterIn,
    /// For an array of values, how each level of nesting is delimited,
    /// from the outermost level to the innermost.
    pub delimiting: Vec<CollectionFormat>,
}

/// What a `Parameter` holds.
pub struct ParamView {
    pub name: Seq<char>,
    pub description: Option<Seq<char>>,
    pub ty_path: Seq<char>,
    pub required: bool,
    pub presence: ParameterIn,
    pub delimiting: Seq<CollectionFormat>,
}

impl DeepView for Parameter {
    type V = ParamView;

    open spec fn deep_view(&self) -> ParamView {
        ParamView {
            name: self.name@,
            description: self.description.deep_view(),
            ty_path: self.ty_path@,
            required: self.required,
            presence: self.presence,
            delimiting: self.delimiting@,
        }
    }
}

impl View for Parameter {
    type V = ParamView;

    open spec fn view(&self) -> ParamView {
        self.deep_view()
    }
}

/// The response of an operation.
#[derive(Debug, Clone, Default)]
pub struct Response<S> {
    /// Type path of the response, if any. Without one the response is
    /// dynamically typed.
    pub ty_path: Option<S>,
    /// Whether the response holds a dynamically typed value.
    pub contains_any: bool,
}

/// What a `Response` holds.
pub struct ResponseView {
    pub ty_path: Option<Seq<char>>,
    pub contains_any: bool,
}

/// Whether a response is a file: its type path is the file marker.
pub open spec fn response_is_file(r: ResponseView) -> bool {
    r.ty_path == Some(FILE_MARKER@)
}

impl DeepView for Response<String> {
    type V = ResponseView;

    open spec fn deep_view(&self) -> ResponseView {
        ResponseView { ty_path: self.ty_path.deep_view(), contains_any: self.contains_any }
    }
}

impl View for Response<String> {
    type V = ResponseView;

    open spec fn view(&self) -> ResponseView {
        self.deep_view()
    }
}

impl<'a> DeepView for Response<&'a str> {
    type V = ResponseView;

    open spec fn deep_view(&self) -> ResponseView {
        ResponseView {
            ty_path: match self.ty_path {
                Some(s) => Some(s@),
                None => None,
            },
            contains_any: self.contains_any,
        }
    }
}

impl<'a> View for Response<&'a str> {
    type V = ResponseView;

    open spec fn view(&self) -> ResponseView {
        self.deep_view()
    }
}

impl Response<String> {
    /// Returns whether this response is a file.
    pub fn is_file(&self) -> (file: bool)
        ensures
            file == response_is_file(self@),
    {
        match &self.ty_path {
            Some(s) => is_file_marker(s.as_str()),
            None => false,
        }
    }
}

impl<'a> Response<&'a str> {
    /// Returns whether this response is a file.
    pub fn is_file(&self) -> (file: bool)
        ensures
            file == response_is_file(self@),
    {
        match self.ty_path {
            Some(s) => is_file_marker(s),
            None => false,
        }
    }
}

/// What an operation requires of the object it addresses.
#[derive(Debug, Clone)]
pub struct OpRequirement {
    /// Operation identifier, if the schema gives one.
    pub id: Option<String>,
    /// Description of the operation, if any, for its documentation.
    pub description: Option<String>,
    /// Whether the operation is deprecated.
    pub deprecated: bool,
    /// Parameters of this operation alone.
    pub params: Vec<Parameter>,
    /// Whether the object itself is required, as the body of the request.
    pub body_required: bool,
    /// Whether the operation returns a list of the object.
    pub listable: bool,
    /// The response of the operation.
    pub response: Response<String>,
    /// Preferred media range and coder for the body of the request.
    pub encoding: Option<(String, Arc<Coder>)>,
    /// Preferred media range and coder for the response.
    pub decoding: Option<(String, Arc<Coder>)>,
}

/// What an `OpRequirement` holds.
pub struct OpView {
    pub id: Option<Seq<char>>,
    pub description: Option<Seq<char>>,
    pub deprecated: bool,
    pub params: Seq<ParamView>,
    pub body_required: bool,
    pub listable: bool,
    pub response: ResponseView,
    pub encoding: Option<(Seq<char>, CoderView)>,
    pub decoding: Option<(Seq<char>, CoderView)>,
}

impl DeepView for OpRequirement {
    type V = OpView;

    open spec fn deep_view(&self) -> OpView {
        OpView {
            id: self.id.deep_view(),
            description: self.description.deep_view(),
            deprecated: self.deprecated,
            params: self.params.deep_view(),
            body_required: self.body_required,
            listable: self.listable,
            response: self.response.deep_view(),
            encoding: self.encoding.deep_view(),
            decoding: self.decoding.deep_view(),
        }
    }
}

impl View for OpRequirement {
    type V = OpView;

    open spec fn view(&self) -> OpView {
        self.deep_view()
    }
}

/// The operations of one URL path.
#[derive(Debug, Clone, Default)]
pub struct PathOps {
    /// The operations of this path by method, each with what it requires.
    pub req: BTreeMap<HttpMethod, OpRequirement>,
    /// Parameters shared by all operations of this path.
    pub params: Vec<Parameter>,
}

/// What a `PathOps` holds.
pub struct PathOpsView {
    pub req: Map<HttpMethod, OpView>,
    pub params: Seq<ParamView>,
}

impl DeepView for PathOps {
    type V = PathOpsView;

    open spec fn deep_view(&self) -> PathOpsView {
        PathOpsView { req: self.req.deep_view(), params: self.params.deep_view() }
    }
}

impl View for PathOps {
    type V = PathOpsView;

    open spec fn view(&self) -> PathOpsView {
        self.deep_view()
    }
}

/// A data object of the API: a record type of the generated code.
#[derive(Debug, Clone, Default)]
pub struct ApiObject {
    /// Name of the record type.
    pub name: String,
    /// Description of the object, if any, for its documentation.
    pub description: Option<String>,
    /// Dotted path to the object from the root of the generated code.
    pub path: String,
    /// The fields, in the order in which they are written.
    pub fields: Vec<ObjectField>,
    /// The URL paths whose operations address this object.
    pub paths: BTreeMap<String, PathOps>,
}

/// What an `ApiObject` holds.
pub struct ObjectView {
    pub name: Seq<char>,
    pub description: Option<Seq<char>>,
    pub path: Seq<char>,
    pub fields: Seq<FieldView>,
    pub paths: Map<Seq<char>, PathOpsView>,
}

impl DeepView for ApiObject {
    type V = ObjectView;

    open spec fn deep_view(&self) -> ObjectView {
        ObjectView {
            name: self.name@,
            description: self.description.deep_view(),
            path: self.path@,
            fields: self.fields.deep_view(),
            paths: self.paths.deep_view(),
        }
    }
}

impl View for ApiObject {
    type V = ObjectView;

    open spec fn view(&self) -> ObjectView {
        self.deep_view()
    }
}

impl ApiObject {
    /// Creates an object with the given name, without description, fields
    /// or paths.
    pub fn with_name(name: &str) -> (object: ApiObject)
        ensures
            object@.name == name@,
            object@.description.is_none(),
            object@.path.len() == 0,
            object@.fields.len() == 0,
            object@.paths == Map::<Seq<char>, PathOpsView>::empty(),
    {
        let object = ApiObject {
            name: name.to_owned(),
            description: None,
            path: String::new(),
            fields: Vec::new(),
            paths: BTreeMap::new(),
        };
        proof {
            vstd::std_specs::btree::lemma_btree_map_deepview_dom(object.paths);
            assert(object@.paths.dom() =~= Set::<Seq<char>>::empty());
            assert(object@.paths =~= Map::<Seq<char>, PathOpsView>::empty());
        }
        object
    }
}

} // verus!
