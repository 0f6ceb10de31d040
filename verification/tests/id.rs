use jrpc_types::id::Id;
use jrpc_types::json::Json;
use jrpc_types::wire::parse_json;
use jrpc_types::wire::render_json;

fn id_object_fields(text: &str) -> Option<Vec<(String, Json)>> {
    match parse_json(text) {
        Ok(Json::Obj(fields)) => Some(fields),
        _ => None,
    }
}

fn id_object_text(id: Id) -> String {
    let back = Json::Obj(vec![("id".to_string(), id.to_json())]);
    render_json(&back).unwrap()
}

#[test]
fn string_id() {
    let initial_id = "string-id";
    let to_id: Id = Id::from_text(initial_id);
    let from_id = to_id.into_text();
    assert!(from_id.is_ok());
    assert_eq!(from_id.unwrap(), initial_id);

    let test_obj_str = r#"{"id":"string-id"}"#;
    let fields = id_object_fields(test_obj_str);
    assert!(fields.is_some(), "{:?}", test_obj_str);
    let fields = fields.unwrap();
    let id_value = Json::obj_find(&fields, "id");
    assert!(id_value.is_some());
    let id = Id::from_json(id_value.unwrap());
    assert!(id.is_ok(), "{:?}", id.unwrap_err().message());
    let id = id.unwrap();
    assert!(matches!(&id, Id::Text(_)));
    assert_eq!(id_object_text(id), test_obj_str);
}

#[test]
fn number_id() {
    let initial_id = 25;
    let to_id: Id = Id::from_number(initial_id);
    let from_id = to_id.into_number();
    assert!(from_id.is_ok());
    assert_eq!(from_id.unwrap(), initial_id);

    let test_obj_str = r#"{"id":64}"#;
    let fields = id_object_fields(test_obj_str);
    assert!(fields.is_some(), "{:?}", test_obj_str);
    let fields = fields.unwrap();
    let id_value = Json::obj_find(&fields, "id");
    assert!(id_value.is_some());
    let id = Id::from_json(id_value.unwrap());
    assert!(id.is_ok(), "{:?}", id.unwrap_err().message());
    let id = id.unwrap();
    assert!(matches!(&id, Id::Number(64)));
    assert_eq!(id_object_text(id), test_obj_str);
}

#[test]
fn fractional_id() {
    let initial_id = 1.2f32;
    let to_id = Id::from_fractional(&format!("{:?}", initial_id));
    assert!(to_id.is_ok());
    let from_id = to_id.unwrap().into_fractional();
    assert!(from_id.is_ok());
    assert_eq!(from_id.unwrap(), "1.2");

    let test_obj_str = r#"{"id":1.2}"#;
    let fields = id_object_fields(test_obj_str);
    assert!(fields.is_some(), "{:?}", test_obj_str);
    let fields = fields.unwrap();
    let id_value = Json::obj_find(&fields, "id");
    assert!(id_value.is_some());
    let id = Id::from_json(id_value.unwrap());
    assert!(id.is_ok(), "{:?}", id.unwrap_err().message());
    let id = id.unwrap();
    assert!(matches!(&id, Id::Fractional(_)));
    assert_eq!(id_object_text(id), test_obj_str);
}

#[test]
fn null_id() {
    let to_id: Id = Id::null();
    let from_id = to_id.into_null();
    assert!(from_id.is_ok());
    assert_eq!(from_id.unwrap(), ());

    let test_obj_str = r#"{"id":null}"#;
    let fields = id_object_fields(test_obj_str);
    assert!(fields.is_some(), "{:?}", test_obj_str);
    let fields = fields.unwrap();
    let id_value = Json::obj_find(&fields, "id");
    assert!(id_value.is_some());
    let id = Id::from_json(id_value.unwrap());
    assert!(id.is_ok(), "{:?}", id.unwrap_err().message());
    let id = id.unwrap();
    assert!(matches!(&id, Id::Null));
    assert_eq!(id_object_text(id), test_obj_str);
}

#[test]
fn id_negative_serde_tests() {
    // id as object
    let obj = r#"{"id":{"test":"id"}}"#;
    let fields = id_object_fields(obj).unwrap();
    let id_value = Json::obj_find(&fields, "id").unwrap();
    assert!(Id::from_json(id_value).is_err());

    // id as array
    let obj = r#"{"id":["test","id"]}"#;
    let fields = id_object_fields(obj).unwrap();
    let id_value = Json::obj_find(&fields, "id").unwrap();
    assert!(Id::from_json(id_value).is_err());

    // id missing
    let obj = r#"{}"#;
    let fields = id_object_fields(obj).unwrap();
    assert!(Json::obj_find(&fields, "id").is_none());
}
