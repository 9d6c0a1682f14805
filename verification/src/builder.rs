//! The builder of one operation on one object, and the unified view of the
//! fields and parameters that it holds.

use crate::models::{Coder, CollectionFormat, HttpMethod, ParameterIn};
use crate::object::{CoderView, FieldView, ObjectField, ParamView, Parameter, Response, ResponseView};
use std::sync::Arc;
use vstd::prelude::*;

verus! {

/// What a property of a builder stands for.
#[derive(Debug, Clone, Copy, PartialEq, Eq, Structural)]
pub enum Property {
    RequiredField,
    OptionalField,
    RequiredParam,
    OptionalParam,
}

impl Property {
    /// Whether this property is required.
    pub open spec fn required(self) -> bool {
        self == Property::RequiredField || self == Property::RequiredParam
    }

    /// Whether this property is a parameter.
    pub open spec fn parameter(self) -> bool {
        self == Property::RequiredParam || self == Property::OptionalParam
    }

    /// Whether this property is a field.
    pub open spec fn field(self) -> bool {
        self == Property::RequiredField || self == Property::OptionalField
    }

    /// Whether this property is required.
    pub fn is_required(self) -> (yes: bool)
        ensures
            yes == self.required(),
    {
        match self {
            Property::RequiredField | Property::RequiredParam => true,
            _ => false,
        }
    }

    /// Checks whether this property is a parameter.
    pub fn is_parameter(self) -> (yes: bool)
        ensures
            yes == self.parameter(),
    {
        match self {
            Property::RequiredParam | Property::OptionalParam => true,
            _ => false,
        }
    }

    /// Checks whether this property is a field.
    pub fn is_field(self) -> (yes: bool)
        ensures
            yes == self.field(),
    {
        match self {
            Property::RequiredField | Property::OptionalField => true,
            _ => false,
        }
    }
}

/// How the markers of the required properties are written.
#[derive(Debug, Clone, Copy)]
pub enum TypeParameters<'a> {
    /// Each marker is a plain generic name.
    Generic,
    /// The marker of the named property is its "exists" type, the others are
    /// plain generic names.
    ChangeOne(&'a str),
    /// Each marker is the "missing" type of its property.
    ReplaceAll,
    /// Each marker is the "exists" type of its property.
    ChangeAll,
}

/// What a `TypeParameters` holds.
pub enum MarkerMode {
    Generic,
    ChangeOne(Seq<char>),
    ReplaceAll,
    ChangeAll,
}

impl<'a> View for TypeParameters<'a> {
    type V = MarkerMode;

    open spec fn view(&self) -> MarkerMode {
        match self {
            TypeParameters::Generic => MarkerMode::Generic,
            TypeParameters::ChangeOne(name) => MarkerMode::ChangeOne(name@),
            TypeParameters::ReplaceAll => MarkerMode::ReplaceAll,
            TypeParameters::ChangeAll => MarkerMode::ChangeAll,
        }
    }
}

/// A field of a builder struct: an object field or a parameter.
#[derive(Debug, Clone, Copy)]
pub struct StructField<'a> {
    /// Name of this field, in no particular case.
    pub name: &'a str,
    /// Type of this field.
    pub ty: &'a str,
    /// What this field stands for.
    pub prop: Property,
    /// Description of this field, if any, for its documentation.
    pub desc: Option<&'a str>,
    /// Whether a later field of the same name and type was merged into
    /// this one.
    pub overridden: bool,
    /// Required fields of the deepest child type of this field.
    pub strict_child_fields: &'a [String],
    /// Delimiting of array values, for a parameter.
    pub delimiting: &'a [CollectionFormat],
    /// Location of the parameter, for a parameter.
    pub param_loc: Option<ParameterIn>,
    /// Whether the type of this field is or holds the dynamically typed
    /// placeholder. Only object fields can.
    pub needs_any: bool,
    /// Whether this field stands for a file.
    pub needs_file: bool,
}

/// What a `StructField` holds.
pub struct SlotView {
    pub name: Seq<char>,
    pub ty: Seq<char>,
    pub prop: Property,
    pub desc: Option<Seq<char>>,
    pub overridden: bool,
    pub strict_child_fields: Seq<Seq<char>>,
    pub delimiting: Seq<CollectionFormat>,
    pub param_loc: Option<ParameterIn>,
    pub needs_any: bool,
    pub needs_file: bool,
}

impl<'a> DeepView for StructField<'a> {
    type V = SlotView;

    open spec fn deep_view(&self) -> SlotView {
        SlotView {
            name: self.name@,
            ty: self.ty@,
            prop: self.prop,
            desc: self.desc.deep_view(),
            overridden: self.overridden,
            strict_child_fields: self.strict_child_fields.deep_view(),
            delimiting: self.delimiting@,
            param_loc: self.param_loc,
            needs_any: self.needs_any,
            needs_file: self.needs_file,
        }
    }
}

impl<'a> View for StructField<'a> {
    type V = SlotView;

    open spec fn view(&self) -> SlotView {
        self.deep_view()
    }
}

/// The builder of one operation on one object.
#[derive(Debug, Clone, Default)]
pub struct ApiObjectBuilder<'a> {
    /// Index of this builder among the builders of its object.
    pub idx: usize,
    /// Description, if any, for the documentation.
    pub description: Option<&'a str>,
    /// Whether the object is required as the body of the request.
    pub body_required: bool,
    /// Prefix that addresses the helper modules from the crate root.
    pub helper_module_prefix: &'a str,
    /// Operation identifier, if any.
    pub op_id: Option<&'a str>,
    /// Whether the operation is deprecated.
    pub deprecated: bool,
    /// HTTP method of the operation. Only the builder of the object itself
    /// has none.
    pub method: Option<HttpMethod>,
    /// Relative URL path, present with the method.
    pub rel_path: Option<&'a str>,
    /// Whether the operation returns a list of the object.
    pub is_list_op: bool,
    /// Response of the operation.
    pub response: Response<&'a str>,
    /// Name of the object that this builder belongs to.
    pub object: &'a str,
    /// Encoding of the request, where it is not the default.
    pub encoding: Option<&'a (String, Arc<Coder>)>,
    /// Decoding of the response, where it is not the default.
    pub decoding: Option<&'a (String, Arc<Coder>)>,
    /// Whether the object has more than one builder.
    pub multiple_builders_exist: bool,
    /// Fields of the object.
    pub fields: &'a [ObjectField],
    /// Parameters shared by the operations of the URL path.
    pub global_params: &'a [Parameter],
    /// Parameters of this operation alone.
    pub local_params: &'a [Parameter],
    /// Whether this builder is generic over the dynamically typed
    /// placeholder.
    pub needs_any: bool,
}

/// What an `ApiObjectBuilder` holds.
pub struct BuilderView {
    pub idx: nat,
    pub description: Option<Seq<char>>,
    pub body_required: bool,
    pub helper_module_prefix: Seq<char>,
    pub op_id: Option<Seq<char>>,
    pub deprecated: bool,
    pub method: Option<HttpMethod>,
    pub rel_path: Option<Seq<char>>,
    pub is_list_op: bool,
    pub response: ResponseView,
    pub object: Seq<char>,
    pub encoding: Option<(Seq<char>, CoderView)>,
    pub decoding: Option<(Seq<char>, CoderView)>,
    pub multiple_builders_exist: bool,
    pub fields: Seq<FieldView>,
    pub global_params: Seq<ParamView>,
    pub local_params: Seq<ParamView>,
    pub needs_any: bool,
}

impl<'a> DeepView for ApiObjectBuilder<'a> {
    type V = BuilderView;

    open spec fn deep_view(&self) -> BuilderView {
        BuilderView {
            idx: self.idx as nat,
            description: self.description.deep_view(),
            body_required: self.body_required,
            helper_module_prefix: self.helper_module_prefix@,
            op_id: self.op_id.deep_view(),
            deprecated: self.deprecated,
            method: self.method,
            rel_path: self.rel_path.deep_view(),
            is_list_op: self.is_list_op,
            response: self.response.deep_view(),
            object: self.object@,
            encoding: self.encoding.deep_view(),
            decoding: self.decoding.deep_view(),
            multiple_builders_exist: self.multiple_builders_exist,
            fields: self.fields.deep_view(),
            global_params: self.global_params.deep_view(),
            local_params: self.local_params.deep_view(),
            needs_any: self.needs_any,
        }
    }
}

impl<'a> View for ApiObjectBuilder<'a> {
    type V = BuilderView;

    open spec fn view(&self) -> BuilderView {
        self.deep_view()
    }
}

} // verus!
