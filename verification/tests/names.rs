use builder_codegen::emit::numbered_name;
use builder_codegen::naming::CasedName;
use builder_codegen::record::field_identifier;
use builder_codegen::text::optional_as_str;
use builder_codegen::typestate::{cased_names, count_required, write_generics_with, write_marker};
use builder_codegen::{
    ApiObject, ApiObjectBuilder, HttpMethod, ObjectField, Parameter, ParameterIn, TypeParameters,
};

fn field(name: &str, ty: &str, required: bool) -> ObjectField {
    ObjectField {
        name: name.to_string(),
        ty_path: ty.to_string(),
        description: None,
        is_required: required,
        needs_any: false,
        boxed: false,
        child_req_fields: vec![],
    }
}

fn param(name: &str, ty: &str, required: bool) -> Parameter {
    Parameter {
        name: name.to_string(),
        description: None,
        ty_path: ty.to_string(),
        required,
        presence: ParameterIn::Query,
        delimiting: vec![],
    }
}

fn cased_as(snake: &str, camel: &str) -> CasedName {
    CasedName { snake: snake.to_string(), camel: camel.to_string() }
}

#[test]
fn cased_name_converts_to_both_cases() {
    assert_eq!(CasedName::of("petId"), cased_as("pet_id", "PetId"));
    assert_eq!(CasedName::of("X-Rate-Limit"), cased_as("x_rate_limit", "XRateLimit"));
    assert_eq!(CasedName::of("HTTPResponse"), cased_as("http_response", "HttpResponse"));
    assert_eq!(CasedName::of("already_snake"), cased_as("already_snake", "AlreadySnake"));
    assert_eq!(CasedName::of(""), cased_as("", ""));
}

#[test]
fn cased_names_follow_the_unified_list() {
    let fields = vec![field("petName", "String", true)];
    let local = vec![param("api-key", "String", true)];
    let b = ApiObjectBuilder { object: "Pet", fields: &fields, local_params: &local, ..Default::default() };
    let slots = b.struct_fields_iter();
    assert_eq!(
        cased_names(&slots),
        vec![cased_as("api_key", "ApiKey"), cased_as("pet_name", "PetName")]
    );
    assert_eq!(cased_names(&Vec::new()), Vec::<CasedName>::new());
}

#[test]
fn numbered_name_numbers_later_builders_only() {
    assert_eq!(numbered_name("get".to_string(), true, 0), "get");
    assert_eq!(numbered_name("get".to_string(), true, 1), "get_1");
    assert_eq!(numbered_name("get".to_string(), true, 120), "get_120");
    assert_eq!(numbered_name("get".to_string(), false, 7), "get");
    assert_eq!(numbered_name(String::new(), true, 3), "_3");
}

#[test]
fn field_identifier_avoids_reserved_words() {
    assert_eq!(field_identifier("type"), "type_");
    assert_eq!(field_identifier("match"), "match_");
    assert_eq!(field_identifier("name"), "name");
    assert_eq!(field_identifier("type_"), "type_");
    assert_eq!(field_identifier(""), "");
}

#[test]
fn optional_as_str_borrows_the_string() {
    assert_eq!(optional_as_str(&Some("a".to_string())), Some("a"));
    assert_eq!(optional_as_str(&None), None);
}

#[test]
fn marker_of_one_property_in_each_mode() {
    let mut out = String::new();
    write_marker("p::", "id", "Id", TypeParameters::Generic, &mut out);
    assert_eq!(out, "Id");
    let mut out = String::new();
    write_marker("p::", "id", "Id", TypeParameters::ChangeAll, &mut out);
    assert_eq!(out, "p::generics::IdExists");
    let mut out = String::new();
    write_marker("p::", "id", "Id", TypeParameters::ReplaceAll, &mut out);
    assert_eq!(out, "p::generics::MissingId");
    let mut out = String::new();
    write_marker("p::", "id", "Id", TypeParameters::ChangeOne("id"), &mut out);
    assert_eq!(out, "p::generics::IdExists");
    let mut out = String::from("<");
    write_marker("p::", "id", "Id", TypeParameters::ChangeOne("Id"), &mut out);
    assert_eq!(out, "<Id");
}

#[test]
fn generics_are_written_with_the_names_given() {
    let fields = vec![field("a", "A", true), field("b", "B", false), field("c", "C", true)];
    let b = ApiObjectBuilder { object: "O", body_required: true, fields: &fields, ..Default::default() };
    let slots = b.struct_fields_iter();
    assert_eq!(count_required(&slots), 2);
    let names = vec![cased_as("x", "First"), cased_as("y", "Second"), cased_as("z", "Third")];
    let mut out = String::new();
    write_generics_with(&slots, &names, "m::", false, None, TypeParameters::Generic, &mut out);
    assert_eq!(out, "<First, Third>");
    let mut out = String::new();
    write_generics_with(&slots, &names, "m::", true, Some("V"), TypeParameters::ChangeOne("c"), &mut out);
    assert_eq!(out, "<First, m::generics::ThirdExists, V>");
    let mut out = String::new();
    write_generics_with(&Vec::new(), &Vec::new(), "m::", false, None, TypeParameters::ChangeAll, &mut out);
    assert_eq!(out, "");
}

#[test]
fn generics_of_a_builder_can_be_counted() {
    let fields = vec![field("a", "A", true)];
    let b = ApiObjectBuilder {
        object: "O",
        body_required: true,
        fields: &fields,
        needs_any: true,
        ..Default::default()
    };
    assert!(b.can_count_generics());
    let mut out = String::new();
    assert_eq!(b.write_generics_if_necessary(&mut out, None, TypeParameters::Generic), 2);
    assert_eq!(out, "<A, Any>");
}

#[test]
fn builder_is_rendered_with_the_names_given() {
    let fields = vec![field("id", "i64", true)];
    let local = vec![param("limit", "i32", false)];
    let b = ApiObjectBuilder {
        object: "Pet",
        method: Some(HttpMethod::Head),
        body_required: false,
        helper_module_prefix: "crate::",
        fields: &fields,
        local_params: &local,
        ..Default::default()
    };
    let names = vec![cased_as("the_limit", "TheLimit"), cased_as("the_id", "TheId")];
    assert_eq!(
        b.render_with(&names, Some("peek")),
        "/// Builder created by [`Pet::peek`](./struct.Pet.html#method.peek) method for a `HEAD` operation associated with `Pet`.\n\
#[derive(Debug, Clone)]\n\
pub struct PetHeadBuilder {\n\
\x20   param_the_limit: Option<i32>,\n\
}\n"
    );
    assert_eq!(
        b.render_with(&names, None),
        "/// Builder for [`Pet`](./struct.Pet.html) object.\n\
#[derive(Debug, Clone)]\n\
pub struct PetHeadBuilder {\n\
\x20   param_the_limit: Option<i32>,\n\
}\n"
    );
    let required = ApiObjectBuilder { body_required: true, ..b.clone() };
    assert_eq!(
        required.render_with(&names, Some("peek")),
        "/// Builder created by [`Pet::peek`](./struct.Pet.html#method.peek) method for a `HEAD` operation associated with `Pet`.\n\
#[repr(transparent)]\n\
#[derive(Debug, Clone)]\n\
pub struct PetHeadBuilder<TheId> {\n\
\x20   inner: PetHeadBuilderContainer,\n\
\x20   _the_id: core::marker::PhantomData<TheId>,\n\
}\n\
\n\
#[derive(Debug, Default, Clone)]\n\
struct PetHeadBuilderContainer {\n\
\x20   body: self::Pet,\n\
\x20   param_the_limit: Option<i32>,\n\
}\n"
    );
}

#[test]
fn object_is_rendered_with_the_names_given() {
    let mut object = ApiObject::with_name("Pet");
    object.fields.push(field("id", "i64", true));
    object.fields.push(field("kind", "String", false));
    let snakes = vec!["id".to_string(), "type".to_string()];
    assert_eq!(
        object.render_with(&snakes),
        "#[derive(Debug, Default, Clone, Deserialize, Serialize)]\n\
pub struct Pet {\n\
\x20   pub id: i64,\n\
\x20   #[serde(rename = \"kind\")]\n\
\x20   pub type_: Option<String>,\n\
}\n"
    );
}
