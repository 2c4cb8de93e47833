use asic_rs::errors::RPCError;
use asic_rs::rpc::{
    btminer_v1_status, is_reply_complete, trim_terminators, clean_btminer_v1_response, parse_rpc_result, rpc_request,
    rpc_status_accepted,
};

#[test]
fn success_statuses_are_accepted() {
    let v = parse_rpc_result(r#"{"STATUS":[{"STATUS":"S","Msg":"ok"}],"SUMMARY":[]}"#).unwrap();
    assert_eq!(v["STATUS"][0]["Msg"], "ok");
    assert!(parse_rpc_result(r#"{"STATUS":[{"STATUS":"I"}]}"#).is_some());
    assert!(parse_rpc_result(r#"{"STATUS":"S","Msg":"ok"}"#).is_some());
}

#[test]
fn failures_are_rejected() {
    assert!(parse_rpc_result(r#"{"STATUS":[{"STATUS":"E","Msg":"bad"}]}"#).is_none());
    assert!(parse_rpc_result(r#"{"SUMMARY":[]}"#).is_none());
    assert!(parse_rpc_result("not json").is_none());
    assert!(parse_rpc_result("").is_none());
}

#[test]
fn newlines_inside_strings_are_removed() {
    let v = parse_rpc_result("{\"STATUS\":\"S\",\"Version\":\"1.\n2\"}").unwrap();
    assert_eq!(v["Version"], "1.2");
}

#[test]
fn status_acceptance() {
    assert!(rpc_status_accepted(&Some("S".to_string()), &None));
    assert!(rpc_status_accepted(&None, &Some("I".to_string())));
    assert!(!rpc_status_accepted(&Some("E".to_string()), &Some("S".to_string())));
    assert!(!rpc_status_accepted(&None, &None));
}

#[test]
fn btminer_statuses() {
    assert!(btminer_v1_status(r#"{"STATUS":"S","Msg":"ok"}"#).is_ok());
    match btminer_v1_status(r#"{"STATUS":"E","Msg":"invalid cmd"}"#) {
        Err(RPCError::StatusCheckFailed(m)) => assert_eq!(m, "invalid cmd"),
        other => panic!("unexpected {other:?}"),
    }
    match btminer_v1_status(r#"{"STATUS":[{"STATUS":"E"}]}"#) {
        Err(RPCError::StatusCheckFailed(m)) => {
            assert_eq!(m, "Unknown error when looking for status code")
        }
        other => panic!("unexpected {other:?}"),
    }
    match btminer_v1_status(r#"{"Code":14}"#) {
        Err(RPCError::StatusCheckFailed(m)) => assert_eq!(m, "Unknown error when parsing status"),
        other => panic!("unexpected {other:?}"),
    }
    assert!(matches!(
        btminer_v1_status("{"),
        Err(RPCError::DeserializationFailed(_))
    ));
    match btminer_v1_status("{") {
        Err(RPCError::DeserializationFailed(e)) => {
            let expected = serde_json::from_str::<serde_json::Value>("{").unwrap_err();
            assert_eq!(e.to_string(), expected.to_string());
        }
        other => panic!("unexpected {other:?}"),
    }
}

#[test]
fn accepted_reply_is_the_parsed_text() {
    let text = "{\"STATUS\":[{\"STATUS\":\"S\"}],\n\"DEVS\":[1,2]}";
    let v = parse_rpc_result(text).unwrap();
    let expected: serde_json::Value = serde_json::from_str(&text.replace('\n', "")).unwrap();
    assert_eq!(v, expected);
}

#[test]
fn btminer_cleanup() {
    assert_eq!(
        clean_btminer_v1_response("{\"a\":1,}\n"),
        "{\"a\":1}"
    );
    assert_eq!(clean_btminer_v1_response(",,}"), ",}");
    assert_eq!(clean_btminer_v1_response("{\"a\":\"x,\n}\"}"), "{\"a\":\"x}\"}");
}

#[test]
fn request_text() {
    assert_eq!(rpc_request("version"), "{\"command\":\"version\"}");
}

#[test]
fn reply_terminators() {
    assert!(is_reply_complete("{\"STATUS\":\"S\"}\0"));
    assert!(is_reply_complete("{\"STATUS\":\"S\"}\n"));
    assert!(is_reply_complete("{\"STATUS\":\0 more"));
    assert!(!is_reply_complete("{\"STATUS\":"));
    assert!(!is_reply_complete(""));
    assert_eq!(trim_terminators("{\"STATUS\":\"S\"}\0"), "{\"STATUS\":\"S\"}");
    assert_eq!(trim_terminators("{\"STATUS\":\"S\"}\n"), "{\"STATUS\":\"S\"}");
    assert_eq!(trim_terminators("{\"STATUS\":\"S\"}\0\n"), "{\"STATUS\":\"S\"}");
    assert_eq!(trim_terminators(""), "");
    assert_eq!(trim_terminators("a\nb\n\0"), "a\nb");
}
