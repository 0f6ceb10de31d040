use jrpc_types::params::Params;

#[test]
fn params_object() {
    let params = r#"{"val":123}"#;
    let params_obj = Params::from_text(params);
    assert!(params_obj.is_ok());
}

#[test]
fn params_array() {
    let params = r#"["hello","hi"]"#;
    let params_obj = Params::from_text(params);
    assert!(params_obj.is_ok());
}

#[test]
fn params_negative_tests() {
    let params = r#"12"#;
    let params_obj = Params::from_text(params);
    assert!(params_obj.is_err());

    let params = r#""hello""#;
    let params_obj = Params::from_text(params);
    assert!(params_obj.is_err());

    let params = r#""#;
    let params_obj = Params::from_text(params);
    assert!(params_obj.is_err());

    let params = r#"null"#;
    let params_obj = Params::from_text(params);
    assert!(params_obj.is_err());
}
