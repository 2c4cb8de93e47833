use asic_rs::errors::{is_expected_write_error, IoFailure, ModelSelectionError, RPCError};

#[test]
fn transient_errors() {
    for e in [
        RPCError::ConnectionTimeout,
        RPCError::ReadTimeout,
        RPCError::WriteTimeout,
        RPCError::ConnectionReset,
        RPCError::BrokenPipe,
    ] {
        assert!(e.is_transient());
        assert!(is_expected_write_error(Some(&e)));
    }
    assert!(!RPCError::ConnectionFailed.is_transient());
    assert!(!RPCError::StatusCheckFailed("x".to_string()).is_transient());
    assert!(!is_expected_write_error(Some(&RPCError::ConnectionFailed)));
    assert!(!is_expected_write_error(None));
}

#[test]
fn io_failures() {
    assert!(matches!(RPCError::from_io_failure(IoFailure::ConnectionReset), RPCError::ConnectionReset));
    assert!(matches!(RPCError::from_io_failure(IoFailure::BrokenPipe), RPCError::BrokenPipe));
    assert!(matches!(RPCError::from_io_failure(IoFailure::Other), RPCError::ConnectionFailed));
}

#[test]
fn error_messages() {
    assert_eq!(
        ModelSelectionError::NoModelResponse.message(),
        "No response when querying model"
    );
    assert_eq!(
        ModelSelectionError::UnexpectedModelResponse.message(),
        "Response to model query was formatted unexpectedly"
    );
    assert_eq!(
        RPCError::StatusCheckFailed("boom".to_string()).message(),
        "Command returned with error status: boom"
    );
    assert_eq!(RPCError::ReadTimeout.message(), "RPC read timed out");
    assert_eq!(RPCError::BrokenPipe.message(), "Broken pipe (miner closed connection)");
    let json_err = serde_json::from_str::<serde_json::Value>("{").unwrap_err();
    let text = RPCError::from(json_err).message();
    assert!(text.starts_with("Failed to deserialize result: "));
    assert!(text.len() > "Failed to deserialize result: ".len());
}
