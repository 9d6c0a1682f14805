use builder_codegen::{ApiObject, ObjectField, Response};

fn field(name: &str, ty: &str, required: bool) -> ObjectField {
    ObjectField {
        name: name.to_string(),
        ty_path: ty.to_string(),
        description: None,
        is_required: required,
        needs_any: false,
        boxed: false,
        child_req_fields: vec![],
    }
}

fn with_any(ty: &str) -> String {
    let mut out = String::new();
    ApiObject::write_field_with_any(ty, &mut out);
    out
}

#[test]
fn with_name_sets_the_name_and_nothing_else() {
    let object = ApiObject::with_name("Pet");
    assert_eq!(object.name, "Pet");
    assert_eq!(object.description, None);
    assert_eq!(object.path, "");
    assert!(object.fields.is_empty());
    assert!(object.paths.is_empty());
}

#[test]
fn response_is_file_only_for_the_file_marker() {
    let file: Response<String> = Response { ty_path: Some("[FILE]".to_string()), contains_any: false };
    assert!(file.is_file());
    let other: Response<String> = Response { ty_path: Some("String".to_string()), contains_any: false };
    assert!(!other.is_file());
    let none: Response<String> = Response { ty_path: None, contains_any: true };
    assert!(!none.is_file());
    let borrowed: Response<&str> = Response { ty_path: Some("[FILE]"), contains_any: false };
    assert!(borrowed.is_file());
    let borrowed_other: Response<&str> = Response { ty_path: Some("[FILE] "), contains_any: false };
    assert!(!borrowed_other.is_file());
    let borrowed_none: Response<&str> = Response { ty_path: None, contains_any: false };
    assert!(!borrowed_none.is_file());
}

#[test]
fn any_generic_is_written_with_its_brackets() {
    let mut out = String::from("Pet");
    ApiObject::write_any_generic(&mut out);
    assert_eq!(out, "Pet<Any>");
}

#[test]
fn simple_types_have_no_path_or_are_delimited() {
    assert!(ApiObject::is_simple_type("String"));
    assert!(ApiObject::is_simple_type("i64"));
    assert!(!ApiObject::is_simple_type("crate::pet::Pet"));
    assert!(ApiObject::is_simple_type("crate::util::Delimited"));
    assert!(!ApiObject::is_simple_type("crate::util::Delimited<String>"));
    assert!(ApiObject::is_simple_type(""));
}

#[test]
fn field_with_any_gets_the_placeholder_at_its_leaf() {
    assert_eq!(with_any("crate::pet::Pet"), "crate::pet::Pet<Any>");
    assert_eq!(with_any("String"), "String");
    assert_eq!(with_any("Vec<crate::pet::Pet>"), "Vec<crate::pet::Pet<Any>>");
    assert_eq!(with_any("Vec<Vec<crate::pet::Pet>>"), "Vec<Vec<crate::pet::Pet<Any>>>");
    assert_eq!(
        with_any("std::collections::BTreeMap<String, crate::pet::Pet>"),
        "std::collections::BTreeMap<String, crate::pet::Pet<Any>>"
    );
    assert_eq!(
        with_any("Vec<std::collections::BTreeMap<String, Vec<crate::a::B>>>"),
        "Vec<std::collections::BTreeMap<String, Vec<crate::a::B<Any>>>>"
    );
    assert_eq!(with_any("Vec<String>"), "Vec<String>");
    assert_eq!(with_any("Vec<>"), "Vec<>");
}

#[test]
fn field_with_any_is_defined_for_sequences_and_maps_only() {
    assert!(ApiObject::can_write_field_with_any("crate::pet::Pet"));
    assert!(ApiObject::can_write_field_with_any("Vec<crate::pet::Pet>"));
    assert!(ApiObject::can_write_field_with_any(
        "std::collections::BTreeMap<String, Vec<crate::pet::Pet>>"
    ));
    assert!(!ApiObject::can_write_field_with_any("Option<crate::pet::Pet>"));
    assert!(!ApiObject::can_write_field_with_any("Vec<Box<crate::pet::Pet>>"));
    assert!(!ApiObject::can_write_field_with_any("Vec<"));
    assert!(!ApiObject::can_write_field_with_any("std::collections::BTreeMap<String,>"));
    assert!(ApiObject::can_write_field_with_any("std::collections::BTreeMap<String, >"));
    assert!(!ApiObject::can_write_field_with_any("<"));
}

#[test]
fn object_without_fields_is_an_empty_record() {
    let object = ApiObject::with_name("Empty");
    assert!(object.can_render());
    assert_eq!(
        object.render(),
        "#[derive(Debug, Default, Clone, Deserialize, Serialize)]\npub struct Empty {}\n"
    );
}

#[test]
fn object_renders_documentation_fields_and_renames() {
    let mut object = ApiObject::with_name("Pet");
    object.description = Some("A pet.\nHas [tags].".to_string());
    object.fields.push(field("id", "i64", true));
    let mut kind = field("petType", "String", false);
    kind.description = Some("Type of pet".to_string());
    object.fields.push(kind);
    object.fields.push(field("type", "String", true));
    let mut parent = field("parent", "crate::pet::Pet", false);
    parent.boxed = true;
    object.fields.push(parent);
    assert!(object.can_render());
    let expected = "\n/// A pet.\n/// Has \\[tags\\].\n\
#[derive(Debug, Default, Clone, Deserialize, Serialize)]\n\
pub struct Pet {\n\
\x20   pub id: i64,\n\
\x20   /// Type of pet\n\
\x20   #[serde(rename = \"petType\")]\n\
\x20   pub pet_type: Option<String>,\n\
\x20   #[serde(rename = \"type\")]\n\
\x20   pub type_: String,\n\
\x20   pub parent: Option<Box<crate::pet::Pet>>,\n\
}\n";
    assert_eq!(object.render(), expected);
}

#[test]
fn object_is_generic_only_where_a_field_needs_the_placeholder() {
    let mut object = ApiObject::with_name("Wrapper");
    object.fields.push(field("plain", "crate::a::B", true));
    assert_eq!(
        object.render(),
        "#[derive(Debug, Default, Clone, Deserialize, Serialize)]\n\
pub struct Wrapper {\n\
\x20   pub plain: crate::a::B,\n\
}\n"
    );
    let mut items = field("items", "Vec<crate::a::B>", true);
    items.needs_any = true;
    object.fields.push(items);
    let mut extra = field("extra", "std::collections::BTreeMap<String, crate::a::B>", false);
    extra.needs_any = true;
    extra.boxed = true;
    object.fields.push(extra);
    assert!(object.can_render());
    assert_eq!(
        object.render(),
        "#[derive(Debug, Default, Clone, Deserialize, Serialize)]\n\
pub struct Wrapper<Any> {\n\
\x20   pub plain: crate::a::B,\n\
\x20   pub items: Vec<crate::a::B<Any>>,\n\
\x20   pub extra: Option<Box<std::collections::BTreeMap<String, crate::a::B<Any>>>>,\n\
}\n"
    );
}

#[test]
fn object_with_an_unknown_generic_shape_cannot_be_rendered() {
    let mut object = ApiObject::with_name("Odd");
    let mut odd = field("odd", "Option<crate::a::B>", true);
    odd.needs_any = true;
    object.fields.push(odd);
    assert!(!object.can_render());
    object.fields[0].needs_any = false;
    assert!(object.can_render());
    assert_eq!(
        object.render(),
        "#[derive(Debug, Default, Clone, Deserialize, Serialize)]\n\
pub struct Odd {\n\
\x20   pub odd: Option<crate::a::B>,\n\
}\n"
    );
}

#[test]
fn rendering_an_object_twice_gives_the_same_text() {
    let mut object = ApiObject::with_name("Pet");
    object.description = Some("Twice.".to_string());
    object.fields.push(field("petId", "i64", true));
    let first = object.render();
    let second = object.render();
    assert_eq!(first, second);
    let copy = object.clone();
    assert_eq!(copy.render(), first);
}
