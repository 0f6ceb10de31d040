use jrpc_types::json::Json;
use jrpc_types::notification::Notification;
use jrpc_types::params::Params;

#[test]
fn deserialize_spec_notifications() {
    let req = r#"{"jsonrpc": "2.0", "method": "update", "params": [1,2,3,4,5]}"#;
    let req_obj = Notification::from_str(req);
    assert!(req_obj.is_ok());
    let req_obj = req_obj.unwrap();
    assert_eq!(req_obj.version(), "2.0");
    assert_eq!(req_obj.method, "update");

    let req = r#"{"jsonrpc": "2.0", "method": "notify_hello", "params": [7]}"#;
    let req_obj = Notification::from_str(req);
    assert!(req_obj.is_ok());
    let req_obj = req_obj.unwrap();
    assert_eq!(req_obj.version(), "2.0");
    assert_eq!(req_obj.method, "notify_hello");

    let req = r#"{"jsonrpc": "2.0", "method": "notify_hello", "params": {"hi":"hello"}}"#;
    let req_obj = Notification::from_str(req);
    assert!(req_obj.is_ok());
    let req_obj = req_obj.unwrap();
    assert_eq!(req_obj.version(), "2.0");
    assert_eq!(req_obj.method, "notify_hello");
}

#[test]
fn notification_negative_serde_tests() {
    let req = r#"{"jsonrpc": "2.0", "method": "subtract", "params": 1}"#; // params is number
    let req_obj = Notification::from_str(req);
    assert!(req_obj.is_err());

    let req = r#"{"jsonrpc": "2.0", "method": "subtract", "params": "hello"}"#; // params is string
    let req_obj = Notification::from_str(req);
    assert!(req_obj.is_err());

    let req = r#"{"jsonrpc": "2.1", "method": "subtract"}"#; // jsonrpc version wrong
    let req_obj = Notification::from_str(req);
    assert!(req_obj.is_err());

    let req = r#"{"jsonrpc": 2.0, "method": "subtract"}"#; // jsonrpc version not a string
    let req_obj = Notification::from_str(req);
    assert!(req_obj.is_err());

    let req = r#"{"jsonrpc": 2.0, "method": "subtract", id: 2}"#; // id exists (i.e. a request)
    let req_obj = Notification::from_str(req);
    assert!(req_obj.is_err());
}

#[test]
fn notification_id_key_rejected() {
    // well-formed JSON, valid version, but an id key: that is a request, not
    // a notification
    let req = r#"{"jsonrpc": "2.0", "method": "subtract", "id": 2}"#;
    let req_obj = Notification::from_str(req);
    assert!(req_obj.is_err());
}

#[test]
fn notification_builder() {
    let params = Params::from_json(Json::Arr(vec![Json::Int(10), Json::Int(0)])).unwrap();
    let req = Notification::builder().method("test-notification").params(params).build();
    let req_str = req.into_string().unwrap();
    let new_req = Notification::from_str(req_str.as_str());
    assert!(new_req.is_ok());
}
