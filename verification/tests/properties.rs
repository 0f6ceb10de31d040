use jrpc_types::error::Error;
use jrpc_types::id::Id;
use jrpc_types::json::Json;
use jrpc_types::notification::Notification;
use jrpc_types::params::Params;
use jrpc_types::request::Request;
use jrpc_types::response::builder::ServerErrorCode;
use jrpc_types::response::Response;
use jrpc_types::response::Status;

#[test]
fn spec_request_scenario() {
    let text = r#"{"jsonrpc":"2.0","method":"subtract","params":[42,23],"id":1}"#;
    let req = Request::from_str(text).unwrap();
    assert_eq!(req.method, "subtract");
    assert!(matches!(req.id, Id::Number(1)));
    match &req.params {
        Some(p) => match &p.0 {
            Json::Arr(items) => {
                assert_eq!(items.len(), 2);
                assert!(matches!(items[0], Json::Int(42)));
                assert!(matches!(items[1], Json::Int(23)));
            }
            _ => panic!("params must be an array"),
        },
        None => panic!("params must be present"),
    }
    assert_eq!(req.into_string().unwrap(), text);
}

#[test]
fn spec_notification_scenario() {
    let text = r#"{"jsonrpc":"2.0","method":"update","params":[1,2,3,4,5]}"#;
    let n = Notification::from_str(text).unwrap();
    assert_eq!(n.method, "update");
    assert!(n.params.is_some());
    assert_eq!(n.into_string().unwrap(), text);
}

#[test]
fn spec_error_builder_scenario() {
    let rsp = Response::builder().id(Id::from_number(10)).error().invalid_params().build();
    let text = rsp.into_string().unwrap();
    assert_eq!(
        text,
        r#"{"jsonrpc":"2.0","id":10,"error":{"code":-32602,"message":"Invalid params"}}"#
    );
}

#[test]
fn server_error_band() {
    let ok = ServerErrorCode::try_new(-32050);
    assert!(ok.is_some());
    let rsp = Response::builder()
        .id(Id::from_number(1))
        .error()
        .server_error(ServerErrorCode::new(-32050))
        .build();
    match rsp.status {
        Status::Error { code, ref message, ref data } => {
            assert_eq!(code, -32050);
            assert_eq!(message, "Server error");
            assert!(data.is_none());
        }
        _ => panic!("expected an error status"),
    }
    assert!(ServerErrorCode::try_new(-32100).is_none());
    assert!(ServerErrorCode::try_new(-31999).is_none());
}

#[test]
fn id_strict_conversions() {
    assert!(Id::from_text("a").into_text().is_ok());
    assert!(Id::from_text("a").into_number().is_err());
    assert!(Id::from_text("a").into_fractional().is_err());
    assert!(Id::from_text("a").into_null().is_err());

    assert!(Id::from_number(2).into_text().is_err());
    assert_eq!(Id::from_number(2).into_number().unwrap(), 2);
    assert!(Id::from_number(2).into_fractional().is_err());
    assert!(Id::from_number(2).into_null().is_err());

    let frac = || Id::from_fractional("2.5").unwrap();
    assert!(frac().into_text().is_err());
    assert!(frac().into_number().is_err());
    assert_eq!(frac().into_fractional().unwrap(), "2.5");
    assert!(frac().into_null().is_err());

    assert!(Id::null().into_text().is_err());
    assert!(Id::null().into_number().is_err());
    assert!(Id::null().into_fractional().is_err());
    assert!(Id::null().into_null().is_ok());

    // an integer id is never promoted to a fractional one, even when the
    // values are numerically equal
    let e = Id::from_number(2).into_fractional().unwrap_err();
    assert_eq!(e.message(), "cannot convert Id type Number to Fractional");
}

#[test]
fn params_shape_bool_and_scalars() {
    assert!(Params::from_text("true").is_err());
    assert!(Params::from_text("false").is_err());
    assert!(Params::from_json(Json::Bool(true)).is_err());
    assert!(Params::from_json(Json::Int(3)).is_err());
    assert!(Params::from_json(Json::Str("x".to_string())).is_err());
    assert!(Params::from_json(Json::Null).is_err());
    assert!(Params::from_json(Json::Arr(vec![])).is_ok());
    assert!(Params::from_json(Json::Obj(vec![])).is_ok());
}

#[test]
fn response_result_and_error_rejected() {
    let text = r#"{"jsonrpc":"2.0","id":1,"result":5,"error":{"code":-32600,"message":"x"}}"#;
    assert!(Response::from_str(text).is_err());
}

#[test]
fn response_null_result_accepted() {
    let text = r#"{"jsonrpc":"2.0","id":1,"result":null}"#;
    let rsp = Response::from_str(text).unwrap();
    assert!(matches!(rsp.status, Status::Success(Json::Null)));
}

#[test]
fn version_strictness() {
    assert!(Request::from_str(r#"{"jsonrpc":"2.1","method":"m","id":1}"#).is_err());
    assert!(Request::from_str(r#"{"jsonrpc":2.0,"method":"m","id":1}"#).is_err());
    assert!(Request::from_str(r#"{"jsonrpc":"2.0","method":"m","id":1}"#).is_ok());
}

#[test]
fn error_variants() {
    // unparsable text: an error of the text layer
    match Request::from_str("{") {
        Err(Error::Serde(_)) => (),
        other => panic!("expected a Serde error, got {:?}", other),
    }
    // version of the wrong JSON type: a type error
    match Request::from_str(r#"{"jsonrpc":2.0,"method":"m","id":1}"#) {
        Err(Error::InvalidType(_)) => (),
        other => panic!("expected an InvalidType error, got {:?}", other),
    }
    // version of the wrong value: a decode error naming the value
    match Request::from_str(r#"{"jsonrpc":"2.1","method":"m","id":1}"#) {
        Err(Error::Decode(m)) => assert_eq!(m, "jsonrpc version NOT 2.0: 2.1"),
        other => panic!("expected a Decode error, got {:?}", other),
    }
    // a conversion against the wrong variant: a type error
    match Id::from_number(7).into_text() {
        Err(Error::InvalidType(m)) => {
            assert_eq!(m, "cannot convert Id type Number to String");
        }
        other => panic!("expected an InvalidType error, got {:?}", other),
    }
}

#[test]
fn round_trips_through_text() {
    // request: every field survives encode + decode
    let req = Request::builder()
        .id(Id::from_text("abc"))
        .method("sum")
        .params_str(r#"{"a": 1, "b": [true, null]}"#)
        .unwrap()
        .build();
    let text = req.into_string().unwrap();
    let back = Request::from_str(&text).unwrap();
    assert_eq!(back.method, "sum");
    assert_eq!(back.into_string().unwrap(), text);

    // notification without params
    let n = Notification::builder().method("ping").build();
    let text = n.into_string().unwrap();
    assert_eq!(text, r#"{"jsonrpc":"2.0","method":"ping"}"#);
    assert!(Notification::from_str(&text).is_ok());

    // error response with data and a fractional id
    let rsp = Response::builder()
        .error()
        .method_not_found()
        .data_str("details")
        .id(Id::from_fractional("1.5").unwrap())
        .build();
    let text = rsp.into_string().unwrap();
    assert_eq!(
        text,
        r#"{"jsonrpc":"2.0","id":1.5,"error":{"code":-32601,"message":"Method not found","data":"details"}}"#
    );
    let back = Response::from_str(&text).unwrap();
    assert!(matches!(back.id, Id::Fractional(_)));
    assert_eq!(back.into_string().unwrap(), text);
}

#[test]
fn parser_canonicalizes_text() {
    // the text layer really parses and re-renders: spacing is normalized
    let p = Params::from_text(r#"[ 1 , 2 ]"#).unwrap();
    assert_eq!(p.into_string().unwrap(), "[1,2]");

    // a fractional literal that is integral stays fractional
    let p = Params::from_text(r#"[2.0]"#).unwrap();
    match &p.0 {
        Json::Arr(items) => assert!(matches!(items[0], Json::Frac(_))),
        _ => panic!("expected an array"),
    }
    assert_eq!(p.into_string().unwrap(), "[2.0]");
}

#[test]
fn request_unknown_key_rejected() {
    let text = r#"{"jsonrpc":"2.0","method":"m","id":1,"extra":0}"#;
    assert!(Request::from_str(text).is_err());
}

#[test]
fn request_duplicate_key_rejected() {
    let req = Request::from_json(&Json::Obj(vec![
        ("jsonrpc".to_string(), Json::Str("2.0".to_string())),
        ("method".to_string(), Json::Str("m".to_string())),
        ("id".to_string(), Json::Int(1)),
        ("id".to_string(), Json::Int(2)),
    ]));
    assert!(req.is_err());
}

#[test]
fn response_reuses_request_id() {
    let req = Request::from_str(r#"{"jsonrpc":"2.0","method":"sum","id":"req-7"}"#).unwrap();
    let rsp = Response::builder().id(req.id.duplicate()).success().result(Json::Int(3)).build();
    let text = rsp.into_string().unwrap();
    assert_eq!(text, r#"{"jsonrpc":"2.0","id":"req-7","result":3}"#);
}
