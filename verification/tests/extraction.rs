use serde_json::Value;
use user_crud::error::{AppError, ErrorType};
use user_crud::extract::{extract, extract_identifier, identify, Policy};
use user_crud::fields::FieldMap;
use user_crud::patch::{patch_extract, patch_extract_body};
use user_crud::post::post_extract;
use user_crud::schema::{FieldDescriptor, SchemaRegistry, TableSchema};
use user_crud::types::{DataKind, DataValue};

fn json(text: &str) -> Value {
    serde_json::from_str(text).unwrap()
}

fn user_schema() -> TableSchema {
    let mut table = TableSchema::new("user");
    assert!(table.add(FieldDescriptor::new("id", DataKind::UnsignedInt32, true, true)));
    assert!(table.add(FieldDescriptor::new("name", DataKind::String, true, false)));
    assert!(table.add(FieldDescriptor::new("email", DataKind::String, true, false)));
    assert!(table.add(FieldDescriptor::new("type", DataKind::Enum, true, false)));
    table
}

fn full_schema() -> TableSchema {
    let mut table = user_schema();
    assert!(table.add(FieldDescriptor::new("registered", DataKind::String, false, false)));
    assert!(table.add(FieldDescriptor::new("age", DataKind::Byte, false, false)));
    table
}

fn registry() -> SchemaRegistry {
    let mut registry = SchemaRegistry::new();
    assert!(registry.add(full_schema()));
    registry
}

fn text(value: &str) -> DataValue {
    DataValue::String(value.to_string())
}

fn bad_request(result: Result<FieldMap, AppError>) -> String {
    let error = result.unwrap_err();
    assert_eq!(error.err_type, ErrorType::BadRequest);
    error.message
}

#[test]
fn create_with_all_required_fields_succeeds() {
    let body = json(r#"{"name":"Alice","email":"a@x.com","type":2}"#);
    let map = extract(&body, &user_schema(), Policy::Create).unwrap();
    assert_eq!(map.len(), 3);
    assert_eq!(map.get("name"), Some(&text("Alice")));
    assert_eq!(map.get("email"), Some(&text("a@x.com")));
    assert_eq!(map.get("type"), Some(&DataValue::Enum(2)));
    assert_eq!(map.get("id"), None);
}

#[test]
fn create_keeps_the_declared_kind_of_each_value() {
    let body = json(r#"{"name":"Alice","email":"a@x.com","type":2}"#);
    let map = extract(&body, &user_schema(), Policy::Create).unwrap();
    assert_eq!(map.get("name").unwrap().kind(), DataKind::String);
    assert_eq!(map.get("email").unwrap().kind(), DataKind::String);
    assert_eq!(map.get("type").unwrap().kind(), DataKind::Enum);
}

#[test]
fn create_without_name_names_the_field() {
    let body = json(r#"{"email":"a@x.com","type":2}"#);
    let message = bad_request(extract(&body, &user_schema(), Policy::Create));
    assert_eq!(
        message,
        "field name is listed as required, but was not included in the request body"
    );
}

#[test]
fn create_without_any_one_required_field_names_it() {
    let full = r#"{"name":"Alice","email":"a@x.com","type":2}"#;
    for field in ["name", "email", "type"] {
        let mut body = json(full);
        body.as_object_mut().unwrap().remove(field);
        let message = bad_request(extract(&body, &user_schema(), Policy::Create));
        assert_eq!(
            message,
            format!(
                "field {} is listed as required, but was not included in the request body",
                field
            )
        );
    }
}

#[test]
fn create_with_empty_body_fails_on_first_required_field() {
    let message = bad_request(extract(&json("{}"), &user_schema(), Policy::Create));
    assert_eq!(
        message,
        "field name is listed as required, but was not included in the request body"
    );
}

#[test]
fn create_accepts_a_generated_field_that_is_sent() {
    let body = json(r#"{"id":9,"name":"Alice","email":"a@x.com","type":2}"#);
    let map = extract(&body, &user_schema(), Policy::Create).unwrap();
    assert_eq!(map.len(), 4);
    assert_eq!(map.get("id"), Some(&DataValue::UnsignedInt32(9)));
}

#[test]
fn create_with_wrong_shape_reports_the_mismatch() {
    let body = json(r#"{"name":"Alice","email":"a@x.com","type":"admin"}"#);
    let message = bad_request(extract(&body, &user_schema(), Policy::Create));
    assert_eq!(
        message,
        "field type is not formatted properly: value \"admin\" is not of type Enum (JSON cast failed)"
    );
}

#[test]
fn first_mismatch_in_declared_order_wins() {
    let body = json(r#"{"id":"seven","name":5,"email":false,"type":"x"}"#);
    let message = bad_request(extract(&body, &user_schema(), Policy::Create));
    assert_eq!(
        message,
        "field id is not formatted properly: value \"seven\" is not of type Unsigned 32-bit Integer (JSON cast failed)"
    );
}

#[test]
fn mismatch_comes_before_a_later_missing_field() {
    let body = json(r#"{"name":17}"#);
    let message = bad_request(extract(&body, &user_schema(), Policy::Create));
    assert_eq!(
        message,
        "field name is not formatted properly: value 17 is not of type String (JSON cast failed)"
    );
}

#[test]
fn missing_field_comes_before_a_later_mismatch() {
    let body = json(r#"{"email":1,"type":2}"#);
    let message = bad_request(extract(&body, &user_schema(), Policy::Create));
    assert_eq!(
        message,
        "field name is listed as required, but was not included in the request body"
    );
}

#[test]
fn out_of_range_number_is_a_bad_request() {
    let body = json(r#"{"name":"A","email":"e","type":4294967296}"#);
    let message = bad_request(extract(&body, &user_schema(), Policy::Create));
    assert_eq!(
        message,
        "field type is not formatted properly: value 4294967296 is over the limit for type Enum"
    );
}

#[test]
fn unknown_keys_are_ignored_on_create() {
    let plain = json(r#"{"name":"Alice","email":"a@x.com","type":2}"#);
    let extra = json(r#"{"name":"Alice","zip":[1,2],"email":"a@x.com","type":2,"x":{"y":null}}"#);
    let a = extract(&plain, &user_schema(), Policy::Create).unwrap();
    let b = extract(&extra, &user_schema(), Policy::Create).unwrap();
    assert_eq!(a.len(), b.len());
    for name in ["name", "email", "type"] {
        assert_eq!(a.get(name), b.get(name));
    }
    assert_eq!(b.get("zip"), None);
    assert_eq!(b.get("x"), None);
}

#[test]
fn unknown_keys_are_ignored_on_update() {
    let body = json(r#"{"nickname":"Al","name":"Alice"}"#);
    let map = extract(&body, &user_schema(), Policy::Update).unwrap();
    assert_eq!(map.len(), 1);
    assert_eq!(map.get("name"), Some(&text("Alice")));
}

#[test]
fn unknown_keys_do_not_hide_a_failure() {
    let body = json(r#"{"nickname":"Al","email":"a@x.com","type":2}"#);
    let message = bad_request(extract(&body, &user_schema(), Policy::Create));
    assert_eq!(
        message,
        "field name is listed as required, but was not included in the request body"
    );
}

#[test]
fn update_with_empty_body_succeeds() {
    let map = extract(&json("{}"), &full_schema(), Policy::Update).unwrap();
    assert!(map.is_empty());
    assert_eq!(map.len(), 0);
}

#[test]
fn update_with_optional_subset_holds_exactly_those_fields() {
    let body = json(r#"{"registered":"2021-09-01","age":30}"#);
    let map = extract(&body, &full_schema(), Policy::Update).unwrap();
    assert_eq!(map.len(), 2);
    assert_eq!(map.get("registered"), Some(&text("2021-09-01")));
    assert_eq!(map.get("age"), Some(&DataValue::Byte(30)));
}

#[test]
fn update_does_not_read_the_identifier() {
    let body = json(r#"{"id":"not a number","name":"Bob"}"#);
    let map = extract(&body, &user_schema(), Policy::Update).unwrap();
    assert_eq!(map.len(), 1);
    assert_eq!(map.get("name"), Some(&text("Bob")));
    assert!(!map.contains_key("id"));
}

#[test]
fn update_with_wrong_shape_fails() {
    let body = json(r#"{"age":256}"#);
    let message = bad_request(extract(&body, &full_schema(), Policy::Update));
    assert_eq!(
        message,
        "field age is not formatted properly: value 256 is over the limit for type Byte"
    );
}

#[test]
fn non_object_body_fails_for_every_policy() {
    for policy in [Policy::Create, Policy::Update, Policy::Identify] {
        let message = bad_request(extract(&json("[1,2]"), &user_schema(), policy));
        assert_eq!(
            message,
            "failed to parse JSON as object, JSON: \"[1,2]\" (err: body should be a map)"
        );
        let message = bad_request(extract(&json("\"id\""), &user_schema(), policy));
        assert_eq!(
            message,
            "failed to parse JSON as object, JSON: \"\"id\"\" (err: body should be a map)"
        );
        let message = bad_request(extract(&json("null"), &user_schema(), policy));
        assert_eq!(
            message,
            "failed to parse JSON as object, JSON: \"null\" (err: body should be a map)"
        );
        let message = bad_request(extract(&json("7"), &user_schema(), policy));
        assert_eq!(
            message,
            "failed to parse JSON as object, JSON: \"7\" (err: body should be a map)"
        );
    }
}

#[test]
fn non_object_text_prints_object_keys_in_order() {
    let body = json(r#"[{"b":1,"a":true}]"#);
    let message = bad_request(extract(&body, &user_schema(), Policy::Create));
    assert_eq!(
        message,
        "failed to parse JSON as object, JSON: \"[{\"a\":true,\"b\":1}]\" (err: body should be a map)"
    );
}

#[test]
fn identify_reads_only_the_identifier() {
    let body = json(r#"{"id":7,"name":12}"#);
    let map = extract(&body, &user_schema(), Policy::Identify).unwrap();
    assert_eq!(map.len(), 1);
    assert_eq!(map.get("id"), Some(&DataValue::UnsignedInt32(7)));
}

#[test]
fn identify_without_identifier_is_a_bad_request() {
    let body = json(r#"{"name":"Alice"}"#);
    let message = bad_request(extract(&body, &user_schema(), Policy::Identify));
    assert_eq!(
        message,
        "field id is listed as required, but was not included in the request body"
    );
}

#[test]
fn identifier_is_extracted() {
    assert_eq!(extract_identifier(&json(r#"{"id":7}"#), &user_schema()).unwrap(), 7);
    assert_eq!(
        extract_identifier(&json(r#"{"id":4294967295}"#), &user_schema()).unwrap(),
        4294967295
    );
    assert_eq!(extract_identifier(&json(r#"{"id":0,"x":1}"#), &user_schema()).unwrap(), 0);
}

#[test]
fn identifier_that_is_absent_is_a_bad_request() {
    let error = extract_identifier(&json("{}"), &user_schema()).unwrap_err();
    assert_eq!(error.err_type, ErrorType::BadRequest);
    assert_eq!(
        error.message,
        "field id is listed as required, but was not included in the request body"
    );
}

#[test]
fn identifier_of_wrong_shape_is_a_bad_request() {
    let error = extract_identifier(&json(r#"{"id":-3}"#), &user_schema()).unwrap_err();
    assert_eq!(error.err_type, ErrorType::BadRequest);
    assert_eq!(
        error.message,
        "field id is not formatted properly: value -3 is not of type Unsigned 32-bit Integer (JSON cast failed)"
    );
}

#[test]
fn identifier_of_wrong_declared_kind_is_internal() {
    let mut table = TableSchema::new("user");
    assert!(table.add(FieldDescriptor::new("id", DataKind::String, true, true)));
    let error = extract_identifier(&json(r#"{"id":"abc"}"#), &table).unwrap_err();
    assert_eq!(error.err_type, ErrorType::Internal);
    assert_eq!(
        error.message,
        "err: wrong type; expected Unsigned 32-bit Integer, found other; JSON: \"abc\""
    );
}

#[test]
fn identifier_that_the_table_lacks_is_internal() {
    let mut table = TableSchema::new("user");
    assert!(table.add(FieldDescriptor::new("name", DataKind::String, true, false)));
    let error = extract_identifier(&json(r#"{"id":1}"#), &table).unwrap_err();
    assert_eq!(error.err_type, ErrorType::Internal);
    assert_eq!(error.message, "err: value not found (internal)");
}

#[test]
fn identify_uses_the_user_table() {
    assert_eq!(identify(&json(r#"{"id":12}"#), &registry()).unwrap(), 12);
    let error = identify(&json(r#"{"id":12}"#), &SchemaRegistry::new()).unwrap_err();
    assert_eq!(error.err_type, ErrorType::Internal);
    assert_eq!(error.message, "err: value not found (internal)");
    let error = identify(&json("12"), &SchemaRegistry::new()).unwrap_err();
    assert_eq!(error.err_type, ErrorType::BadRequest);
}

#[test]
fn post_extract_uses_the_user_table() {
    let body = json(r#"{"name":"Alice","email":"a@x.com","type":2,"age":41}"#);
    let map = post_extract(&body, &registry()).unwrap();
    assert_eq!(map.len(), 4);
    assert_eq!(map.get("age"), Some(&DataValue::Byte(41)));
}

#[test]
fn post_extract_without_user_table_is_internal() {
    let mut other = SchemaRegistry::new();
    assert!(other.add(TableSchema::new("item")));
    let error = post_extract(&json("{}"), &other).unwrap_err();
    assert_eq!(error.err_type, ErrorType::Internal);
    assert_eq!(error.message, "err: value not found (internal)");
}

#[test]
fn post_extract_checks_the_body_before_the_table() {
    let error = post_extract(&json("true"), &SchemaRegistry::new()).unwrap_err();
    assert_eq!(error.err_type, ErrorType::BadRequest);
    assert_eq!(
        error.message,
        "failed to parse JSON as object, JSON: \"true\" (err: body should be a map)"
    );
}

#[test]
fn patch_extract_passes_the_identifier_on() {
    let body = json(r#"{"name":"Bob"}"#);
    let (id, map) = patch_extract(5, &body, &registry()).unwrap();
    assert_eq!(id, 5);
    assert_eq!(map.len(), 1);
    assert_eq!(map.get("name"), Some(&text("Bob")));
}

#[test]
fn patch_extract_fails_like_update() {
    let error = patch_extract(5, &json(r#"{"name":false}"#), &registry()).unwrap_err();
    assert_eq!(error.err_type, ErrorType::BadRequest);
    assert_eq!(
        error.message,
        "field name is not formatted properly: value false is not of type String (JSON cast failed)"
    );
    let error = patch_extract(5, &json("[]"), &registry()).unwrap_err();
    assert_eq!(error.err_type, ErrorType::BadRequest);
    let error = patch_extract(5, &json("{}"), &SchemaRegistry::new()).unwrap_err();
    assert_eq!(error.err_type, ErrorType::Internal);
}

#[test]
fn update_body_with_identifier_gives_both() {
    let body = json(r#"{"id":5,"name":"Bob"}"#);
    let (id, map) = patch_extract_body(&body, &registry()).unwrap();
    assert_eq!(id, 5);
    assert_eq!(map.len(), 1);
    assert_eq!(map.get("name"), Some(&text("Bob")));
    assert_eq!(map.get("id"), None);
}

#[test]
fn update_body_without_identifier_is_a_bad_request() {
    let error = patch_extract_body(&json(r#"{"name":"Bob"}"#), &registry()).unwrap_err();
    assert_eq!(error.err_type, ErrorType::BadRequest);
    assert_eq!(
        error.message,
        "field id is listed as required, but was not included in the request body"
    );
}

#[test]
fn update_body_reads_the_identifier_first() {
    let error = patch_extract_body(&json(r#"{"id":1.5,"name":3}"#), &registry()).unwrap_err();
    assert_eq!(error.err_type, ErrorType::BadRequest);
    assert_eq!(
        error.message,
        "field id is not formatted properly: value 1.5 is not of type Unsigned 32-bit Integer (JSON cast failed)"
    );
}
