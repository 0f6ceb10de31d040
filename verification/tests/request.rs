use jrpc_types::id::Id;
use jrpc_types::json::Json;
use jrpc_types::params::Params;
use jrpc_types::request::Request;

#[test]
fn request_deserialize_spec_requests() {
    let req = r#"{"jsonrpc": "2.0", "method": "subtract", "params": [42, 23], "id": 1}"#;
    let req_obj = Request::from_str(req);
    assert!(req_obj.is_ok());
    let req_obj = req_obj.unwrap();
    assert_eq!(req_obj.version(), "2.0");
    assert_eq!(req_obj.method, "subtract");

    let req = r#"{"jsonrpc": "2.0", "method": "subtract", "params": [23, 42], "id": 2}"#;
    let req_obj = Request::from_str(req);
    assert!(req_obj.is_ok());
    let req_obj = req_obj.unwrap();
    assert_eq!(req_obj.version(), "2.0");
    assert_eq!(req_obj.method, "subtract");

    let req = r#"{"jsonrpc": "2.0", "method": "subtract", "params": {"subtrahend": 23, "minuend": 42}, "id": 3}"#;
    let req_obj = Request::from_str(req);
    assert!(req_obj.is_ok());
    let req_obj = req_obj.unwrap();
    assert_eq!(req_obj.version(), "2.0");
    assert_eq!(req_obj.method, "subtract");

    let req = r#"{"jsonrpc": "2.0", "method": "subtract", "params": {"minuend": 42, "subtrahend": 23}, "id": 4}"#;
    let req_obj = Request::from_str(req);
    assert!(req_obj.is_ok());
    let req_obj = req_obj.unwrap();
    assert_eq!(req_obj.version(), "2.0");
    assert_eq!(req_obj.method, "subtract");

    let req = r#"{"jsonrpc": "2.0", "method": "foobar", "id": "1"}"#;
    let req_obj = Request::from_str(req);
    assert!(req_obj.is_ok());
    let req_obj = req_obj.unwrap();
    assert_eq!(req_obj.version(), "2.0");
    assert_eq!(req_obj.method, "foobar");

    let req = r#"{"jsonrpc": "2.0", "method": "foobar, "params": "bar", "baz]"#;
    let req_obj = Request::from_str(req);
    assert!(req_obj.is_err());

    let req = r#"{"jsonrpc": "2.0", "method": 1, "params": "bar"}"#;
    let req_obj = Request::from_str(req);
    assert!(req_obj.is_err());
}

#[test]
fn request_negative_serde_tests() {
    let req = r#"{"jsonrpc": "2.0", "method": "subtract", "params": [42, 23]}"#; // no id
    let req_obj = Request::from_str(req);
    assert!(req_obj.is_err());

    let req = r#"{"jsonrpc": "2.0", "method": "subtract", "params": [42, 23], "id":{}}"#; // id is obj
    let req_obj = Request::from_str(req);
    assert!(req_obj.is_err());

    let req = r#"{"jsonrpc": "2.0", "method": "subtract", "params": [42, 23], "id":[]}"#; // id is array
    let req_obj = Request::from_str(req);
    assert!(req_obj.is_err());

    let req = r#"{"jsonrpc": "2.0", "method": "subtract", "params": 1, "id":2}"#; // params is number
    let req_obj = Request::from_str(req);
    assert!(req_obj.is_err());

    let req = r#"{"jsonrpc": "2.0", "method": "subtract", "params": "hello", "id":2}"#; // params is string
    let req_obj = Request::from_str(req);
    assert!(req_obj.is_err());

    let req = r#"{"jsonrpc": "2.1", "method": "subtract", "id":2}"#; // jsonrpc version wrong
    let req_obj = Request::from_str(req);
    assert!(req_obj.is_err());

    let req = r#"{"jsonrpc": 2.0, "method": "subtract", "id":2}"#; // jsonrpc version not a string
    let req_obj = Request::from_str(req);
    assert!(req_obj.is_err());
}

#[test]
fn request_builder() {
    let params = Params::from_json(Json::Arr(vec![Json::Int(10), Json::Int(0)])).unwrap();
    let req = Request::builder()
        .id(Id::from_number(10))
        .method("test-method")
        .params(params)
        .build();
    let req_str = req.into_string().unwrap();
    let new_req = Request::from_str(req_str.as_str());
    assert!(new_req.is_ok());
}
