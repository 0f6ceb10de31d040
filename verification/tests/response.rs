use jrpc_types::id::Id;
use jrpc_types::json::Json;
use jrpc_types::response::Response;
use jrpc_types::response::Status;

#[test]
fn response_deserialize_spec_requests() {
    let req = r#"{"jsonrpc": "2.0", "result": 19, "id": 1}"#;
    let req_obj = Response::from_str(req);
    assert!(req_obj.is_ok());
    let req_obj = req_obj.unwrap();
    assert_eq!(req_obj.version(), "2.0");
    assert!(matches!(req_obj.status, Status::Success(Json::Int(_))));

    let req = r#"{"jsonrpc": "2.0", "result": -19, "id": 2}"#;
    let req_obj = Response::from_str(req);
    assert!(req_obj.is_ok());
    let req_obj = req_obj.unwrap();
    assert_eq!(req_obj.version(), "2.0");
    assert!(matches!(req_obj.status, Status::Success(Json::Int(_))));

    let req = r#"{"jsonrpc": "2.0", "error": {"code": -32601, "message": "Method not found"}, "id": "1"}"#;
    let req_obj = Response::from_str(req);
    assert!(req_obj.is_ok());
    let req_obj = req_obj.unwrap();
    assert_eq!(req_obj.version(), "2.0");
    assert!(matches!(req_obj.status, Status::Error { code: _, message: _, data: _ }));

    let req = r#"{"jsonrpc": "2.0", "error": {"code": -32600, "message": "Invalid Request"}, "id": null}"#;
    let req_obj = Response::from_str(req);
    assert!(req_obj.is_ok());
    let req_obj = req_obj.unwrap();
    assert_eq!(req_obj.version(), "2.0");
    assert!(matches!(req_obj.status, Status::Error { code: _, message: _, data: _ }));
}

#[test]
fn response_negative_serde_tests() {
    let req = r#"{"jsonrpc": "2.1", "error": {"code": -32600, "message": "Invalid Request"}, "id": null}"#; // invalid version
    let req_obj = Response::from_str(req);
    assert!(req_obj.is_err());

    let req = r#"{"jsonrpc": 2.1, "error": {"code": -32600, "message": "Invalid Request"}, "id": null}"#; // number version
    let req_obj = Response::from_str(req);
    assert!(req_obj.is_err());

    let req = r#"{"jsonrpc": "2.0", "id": null}"#; // no result or error
    let req_obj = Response::from_str(req);
    assert!(req_obj.is_err());

    let req = r#"{"jsonrpc": "2.0", "error": {"code": -32600, "message": "Invalid Request"}}"#; // no id
    let req_obj = Response::from_str(req);
    assert!(req_obj.is_err());
}

#[test]
fn response_builder() {
    let rsp = Response::builder()
        .id(Id::from_number(10))
        .success()
        .result(Json::Arr(vec![Json::Int(10), Json::Int(0)]))
        .build();
    let rsp_str = rsp.into_string().unwrap();
    let new_req = Response::from_str(rsp_str.as_str());
    assert!(new_req.is_ok());

    let rsp = Response::builder().error().invalid_params().id(Id::from_number(10)).build();
    let rsp_str = rsp.into_string().unwrap();
    let new_req = Response::from_str(rsp_str.as_str());
    assert!(new_req.is_ok());
}
