use bitmax::error::ClientError;
use bitmax::json::Json;
use bitmax::response::handle_response;

#[test]
fn zero_code_yields_data() {
    let r = handle_response(200, r#"{"code":0,"data":[]}"#.to_string());
    assert!(matches!(r, Ok(Json::Array(ref v)) if v.is_empty()));
}

#[test]
fn nonzero_code_is_remote_error() {
    let body = r#"{"code":100004,"data":null}"#;
    match handle_response(200, body.to_string()) {
        Err(ClientError::Remote { code, raw }) => {
            assert_eq!(code, 100004);
            assert_eq!(raw, body);
        }
        other => panic!("unexpected {:?}", other),
    }
}

#[test]
fn non_success_status_is_transport_error() {
    match handle_response(502, "bad gateway".to_string()) {
        Err(ClientError::Transport { status, body }) => {
            assert_eq!(status, 502);
            assert_eq!(body, "bad gateway");
        }
        other => panic!("unexpected {:?}", other),
    }
}

#[test]
fn malformed_envelopes_are_decode_errors() {
    for body in ["not json", r#"{"data":1}"#, r#"{"code":0}"#, r#"{"code":-1,"data":1}"#, r#"{"code":4294967296,"data":1}"#, "[1]"] {
        assert!(matches!(handle_response(200, body.to_string()), Err(ClientError::Decode { .. })), "{}", body);
    }
}

#[test]
fn data_member_is_handed_out_whole() {
    let r = handle_response(201, r#"{"code":0,"data":{"a":"x","b":true}}"#.to_string()).unwrap();
    match r {
        Json::Object(ms) => {
            assert_eq!(ms.len(), 2);
            assert_eq!(ms[0].0, "a");
            assert!(matches!(ms[0].1, Json::Str(ref s) if s == "x"));
            assert!(matches!(ms[1].1, Json::Bool(true)));
        }
        other => panic!("unexpected {:?}", other),
    }
}
