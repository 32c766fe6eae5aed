use serde_json::Value;
use user_crud::delete::{delete_retrieve, delete_success, delete_user, delete_user_body};
use user_crud::error::{AppError, ErrorType};
use user_crud::fields::FieldMap;
use user_crud::get::{get_retrieve, get_success, get_user, get_user_body};
use user_crud::patch::{patch_insert, patch_success, patch_user, patch_user_body};
use user_crud::post::{post_extract, post_insert, post_success, post_user};
use user_crud::routes::respond;
use user_crud::schema::{FieldDescriptor, SchemaRegistry, TableSchema};
use user_crud::types::{DataKind, DataValue};

fn parse(text: &str) -> Value {
    serde_json::from_str(text).unwrap()
}

fn users() -> SchemaRegistry {
    let mut table = TableSchema::new("user");
    assert!(table.add(FieldDescriptor::new("id", DataKind::UnsignedInt32, true, true)));
    assert!(table.add(FieldDescriptor::new("name", DataKind::String, true, false)));
    assert!(table.add(FieldDescriptor::new("email", DataKind::String, true, false)));
    assert!(table.add(FieldDescriptor::new("type", DataKind::Enum, true, false)));
    assert!(table.add(FieldDescriptor::new("registered", DataKind::String, false, false)));
    let mut registry = SchemaRegistry::new();
    assert!(registry.add(table));
    registry
}

fn fields(entries: Vec<(&str, DataValue)>) -> FieldMap {
    let mut map = FieldMap::new();
    for (name, value) in entries {
        assert_eq!(map.insert(name.to_string(), value), None);
    }
    map
}

fn string(value: &str) -> DataValue {
    DataValue::String(value.to_string())
}

fn internal(error: AppError) -> String {
    assert_eq!(error.err_type, ErrorType::Internal);
    error.message
}

#[test]
fn create_scenario_welcomes_alice() {
    let body = parse(r#"{"name":"Alice","email":"a@x.com","type":2}"#);
    let map = post_extract(&body, &users()).unwrap();
    assert_eq!(map.len(), 3);
    assert_eq!(map.get("name"), Some(&string("Alice")));
    assert_eq!(map.get("email"), Some(&string("a@x.com")));
    assert_eq!(map.get("type"), Some(&DataValue::Enum(2)));
    let done = post_user(&body, &users()).unwrap();
    assert_eq!(done.reply.status, 202);
    assert!(done.reply.message.contains("Alice"));
    assert_eq!(
        done.reply.message,
        "Welcome, Alice! If this was hooked up to a database, you would be added."
    );
    assert_eq!(done.log, "Found User: { name: Alice, email: a@x.com, type: 2 }");
}

#[test]
fn create_scenario_without_name_fails() {
    let body = parse(r#"{"email":"a@x.com","type":2}"#);
    let error = post_user(&body, &users()).unwrap_err();
    assert_eq!(error.err_type, ErrorType::BadRequest);
    assert!(error.message.contains("name"));
    assert_eq!(error.to_http_status(), 400);
}

#[test]
fn update_scenario_with_identifier_in_body() {
    let body = parse(r#"{"id":5,"name":"Bob"}"#);
    let done = patch_user_body(&body, &users()).unwrap();
    assert_eq!(done.reply.status, 202);
    assert_eq!(
        done.reply.message,
        "Welcome, User #5! If this was hooked up to a database, your information would be changed."
    );
    assert_eq!(done.log, "Updated User: { id: 5, name: Bob,");
}

#[test]
fn update_with_identifier_in_path() {
    let body = parse(r#"{"email":"b@x.com","type":1,"registered":"2021-09-23"}"#);
    let done = patch_user(4000000000, &body, &users()).unwrap();
    assert_eq!(done.reply.status, 202);
    assert_eq!(
        done.reply.message,
        "Welcome, User #4000000000! If this was hooked up to a database, your information would be changed."
    );
    assert_eq!(
        done.log,
        "Updated User: { id: 4000000000, email: b@x.com,registered: 2021-09-23,type: 1"
    );
}

#[test]
fn update_failures_pass_through() {
    let error = patch_user(1, &parse(r#"{"type":"x"}"#), &users()).unwrap_err();
    assert_eq!(error.err_type, ErrorType::BadRequest);
    let error = patch_user_body(&parse(r#"{"name":"Bob"}"#), &users()).unwrap_err();
    assert_eq!(error.err_type, ErrorType::BadRequest);
    assert!(error.message.contains("id"));
}

#[test]
fn delete_scenario_with_identifier() {
    let done = delete_user(7).unwrap();
    assert_eq!(done.reply.status, 202);
    assert!(done.reply.message.contains("7"));
    assert_eq!(
        done.reply.message,
        "Goodbye, User #7. If this was hooked up to a database, your information would be deleted."
    );
    assert_eq!(done.log, "User #7 deleted");
}

#[test]
fn delete_with_identifier_in_body() {
    let done = delete_user_body(&parse(r#"{"id":31}"#), &users()).unwrap();
    assert_eq!(done.log, "User #31 deleted");
    let error = delete_user_body(&parse("{}"), &users()).unwrap_err();
    assert_eq!(error.err_type, ErrorType::BadRequest);
}

#[test]
fn read_with_identifier() {
    let done = get_user(0).unwrap();
    assert_eq!(done.reply.status, 202);
    assert_eq!(
        done.reply.message,
        "Welcome, User #0! If this was hooked up to a database, your information would be retrieved."
    );
    assert_eq!(done.log, "User #0: <SQL-retrieved stuff>");
}

#[test]
fn read_with_identifier_in_body() {
    let done = get_user_body(&parse(r#"{"id":1234567890}"#), &users()).unwrap();
    assert_eq!(done.log, "User #1234567890: <SQL-retrieved stuff>");
    let error = get_user_body(&parse(r#"{"id":"1"}"#), &users()).unwrap_err();
    assert_eq!(error.err_type, ErrorType::BadRequest);
    let error = get_user_body(&parse("[7]"), &users()).unwrap_err();
    assert_eq!(error.err_type, ErrorType::BadRequest);
}

#[test]
fn retrieve_steps_pass_the_identifier_on() {
    let action = get_retrieve(42).unwrap();
    assert_eq!(action.subject, "42");
    assert_eq!(action.log, "User #42: <SQL-retrieved stuff>");
    let action = delete_retrieve(4294967295).unwrap();
    assert_eq!(action.subject, "4294967295");
    assert_eq!(action.log, "User #4294967295 deleted");
}

#[test]
fn success_steps_build_the_reply() {
    let reply = post_success("Zoë".to_string()).unwrap();
    assert_eq!(reply.status, 202);
    assert_eq!(
        reply.message,
        "Welcome, Zoë! If this was hooked up to a database, you would be added."
    );
    let reply = get_success("3".to_string()).unwrap();
    assert_eq!(
        reply.message,
        "Welcome, User #3! If this was hooked up to a database, your information would be retrieved."
    );
    let reply = patch_success("3".to_string()).unwrap();
    assert_eq!(
        reply.message,
        "Welcome, User #3! If this was hooked up to a database, your information would be changed."
    );
    let reply = delete_success("3".to_string()).unwrap();
    assert_eq!(
        reply.message,
        "Goodbye, User #3. If this was hooked up to a database, your information would be deleted."
    );
}

#[test]
fn respond_keeps_message_and_error() {
    let reply = respond(Ok("done".to_string()), 202).unwrap();
    assert_eq!(reply.status, 202);
    assert_eq!(reply.message, "done");
    let error = AppError::new(ErrorType::NotFound, "gone".to_string());
    let error = respond(Err(error), 202).unwrap_err();
    assert_eq!(error.err_type, ErrorType::NotFound);
    assert_eq!(error.message, "gone");
}

#[test]
fn insert_with_registered_logs_it() {
    let req = fields(vec![
        ("type", DataValue::Enum(0)),
        ("registered", string("2021-09-01")),
        ("email", string("c@x.com")),
        ("name", string("Carol")),
    ]);
    let action = post_insert(req).unwrap();
    assert_eq!(action.subject, "Carol");
    assert_eq!(
        action.log,
        "Found User: { name: Carol, email: c@x.com, registered: 2021-09-01, type: 0 }"
    );
}

#[test]
fn insert_without_required_field_is_internal() {
    let req = fields(vec![("email", string("c@x.com")), ("type", DataValue::Enum(0))]);
    assert_eq!(internal(post_insert(req).unwrap_err()), "err: value not found (internal)");
    let req = fields(vec![("name", string("Carol")), ("type", DataValue::Enum(0))]);
    assert_eq!(internal(post_insert(req).unwrap_err()), "err: value not found (internal)");
    let req = fields(vec![("name", string("Carol")), ("email", string("c@x.com"))]);
    assert_eq!(internal(post_insert(req).unwrap_err()), "err: value not found (internal)");
}

#[test]
fn insert_with_wrong_kind_is_internal() {
    let req = fields(vec![
        ("name", DataValue::UnsignedInt32(12)),
        ("email", string("c@x.com")),
        ("type", DataValue::Enum(0)),
    ]);
    assert_eq!(
        internal(post_insert(req).unwrap_err()),
        "err: wrong type; expected String, found other; JSON: \"12\""
    );
    let req = fields(vec![
        ("name", string("Carol")),
        ("email", string("c@x.com")),
        ("registered", DataValue::Byte(9)),
        ("type", DataValue::Enum(0)),
    ]);
    assert_eq!(
        internal(post_insert(req).unwrap_err()),
        "err: wrong type; expected String, found other; JSON: \"9\""
    );
    let req = fields(vec![
        ("name", string("Carol")),
        ("email", string("c@x.com")),
        ("type", string("admin")),
    ]);
    assert_eq!(
        internal(post_insert(req).unwrap_err()),
        "err: wrong type; expected Enum, found other; JSON: \"admin\""
    );
}

#[test]
fn insert_reports_the_first_problem() {
    let req = fields(vec![("name", DataValue::Enum(1)), ("type", string("x"))]);
    assert_eq!(
        internal(post_insert(req).unwrap_err()),
        "err: wrong type; expected String, found other; JSON: \"1\""
    );
    let req = fields(vec![("name", string("n")), ("type", string("x"))]);
    assert_eq!(internal(post_insert(req).unwrap_err()), "err: value not found (internal)");
}

#[test]
fn update_with_nothing_to_change() {
    let action = patch_insert((9, FieldMap::new())).unwrap();
    assert_eq!(action.subject, "9");
    assert_eq!(action.log, "Updated User: { id: 9, ");
}

#[test]
fn update_with_every_field() {
    let req = fields(vec![
        ("name", string("Dan")),
        ("email", string("d@x.com")),
        ("registered", string("2020-01-01")),
        ("type", DataValue::Enum(3)),
    ]);
    let action = patch_insert((10, req)).unwrap();
    assert_eq!(action.subject, "10");
    assert_eq!(
        action.log,
        "Updated User: { id: 10, name: Dan,email: d@x.com,registered: 2020-01-01,type: 3"
    );
}

#[test]
fn update_with_wrong_kind_is_internal() {
    let req = fields(vec![("email", DataValue::Byte(1))]);
    assert_eq!(
        internal(patch_insert((1, req)).unwrap_err()),
        "err: wrong type; expected String, found other; JSON: \"1\""
    );
    let req = fields(vec![("type", DataValue::UnsignedInt32(1))]);
    assert_eq!(
        internal(patch_insert((1, req)).unwrap_err()),
        "err: wrong type; expected Enum, found other; JSON: \"1\""
    );
}

#[test]
fn valid_client_input_never_reaches_an_internal_error() {
    let bodies = [
        r#"{"name":"A","email":"e","type":0}"#,
        r#"{"name":"A","email":"e","type":7,"registered":"r"}"#,
        r#"{"id":3,"name":"A","email":"e","type":7,"other":[]}"#,
    ];
    for body in bodies {
        assert!(post_user(&parse(body), &users()).is_ok());
        assert!(patch_user(1, &parse(body), &users()).is_ok());
    }
}
