use eth_gas_estimator::{classify_rpc_message, contains_text, map_upstream_error, Error, UpstreamError};

fn resp(message: &str) -> UpstreamError {
    UpstreamError::ErrorResp { message: message.to_string() }
}

#[test]
fn reverted_execution_is_a_gas_estimation_failure() {
    match map_upstream_error(&resp("execution reverted: ERC20: transfer amount exceeds balance")) {
        Error::GasEstimation(msg) => {
            assert_eq!(
                msg,
                "Transaction would fail: Details: execution reverted: ERC20: transfer amount exceeds balance"
            );
            assert!(msg.contains("execution reverted"));
        }
        other => panic!("expected a gas estimation failure, got {:?}", other),
    }
}

#[test]
fn revert_detection_ignores_case() {
    match map_upstream_error(&resp("Execution Reverted")) {
        Error::GasEstimation(msg) => {
            assert_eq!(msg, "Transaction would fail: Details: Execution Reverted")
        }
        other => panic!("expected a gas estimation failure, got {:?}", other),
    }
    match map_upstream_error(&resp("GAS REQUIRED EXCEEDS ALLOWANCE (30000000)")) {
        Error::GasEstimation(msg) => {
            assert_eq!(msg, "Transaction would fail: gas required exceeds allowance")
        }
        other => panic!("expected a gas estimation failure, got {:?}", other),
    }
}

#[test]
fn other_messages_are_provider_failures() {
    match map_upstream_error(&resp("nonce too low")) {
        Error::Provider(msg) => assert_eq!(msg, "RPC error: nonce too low"),
        other => panic!("expected a provider failure, got {:?}", other),
    }
}

#[test]
fn classify_takes_the_lowered_text_as_given() {
    let e = classify_rpc_message("execution reverted", "EXECUTION REVERTED");
    assert!(matches!(e, Error::GasEstimation(ref m) if m == "Transaction would fail: Details: EXECUTION REVERTED"));
    let e = classify_rpc_message("EXECUTION REVERTED", "EXECUTION REVERTED");
    assert!(matches!(e, Error::Provider(ref m) if m == "RPC error: EXECUTION REVERTED"));
}

#[test]
fn every_upstream_shape_is_mapped() {
    let cases = [
        (UpstreamError::NullResp, "Received null response"),
        (UpstreamError::Transport, "Transport error"),
        (UpstreamError::UnsupportedFeature("pubsub".to_string()), "Unsupported feature: pubsub"),
        (UpstreamError::LocalUsageError("no signer".to_string()), "Local usage error: no signer"),
        (UpstreamError::SerError("bad key".to_string()), "Serialization error: bad key"),
        (
            UpstreamError::DeserError { err: "expected hex".to_string(), text: "{}".to_string() },
            "Deserialization error: expected hex for text: {}",
        ),
    ];
    for (e, expected) in cases {
        match map_upstream_error(&e) {
            Error::Provider(msg) => assert_eq!(msg, expected),
            other => panic!("expected a provider failure, got {:?}", other),
        }
    }
}

#[test]
fn contains_text_finds_runs() {
    assert!(contains_text("abc", ""));
    assert!(contains_text("abc", "abc"));
    assert!(contains_text("xxabcxx", "bcx"));
    assert!(!contains_text("ab", "abc"));
    assert!(!contains_text("aXbc", "abc"));
    assert!(!contains_text("", "a"));
}

#[test]
fn error_categories_have_names_and_statuses() {
    let all = [
        (Error::Config("c".to_string()), "configuration_error", 500, "Configuration error: c", "Configuration error: c"),
        (Error::Provider("p".to_string()), "provider_error", 503, "Ethereum provider error: p", "Ethereum provider error: p"),
        (Error::InvalidInput("i".to_string()), "invalid_input", 400, "Invalid input: i", "i"),
        (Error::GasEstimation("g".to_string()), "gas_estimation_error", 400, "Gas estimation failed: g", "g"),
        (Error::Server("s".to_string()), "server_error", 500, "Server error: s", "Server error: s"),
    ];
    for (e, name, status, described, shown) in all {
        assert_eq!(e.error_type(), name);
        assert_eq!(e.http_status(), status);
        assert_eq!(e.describe(), described);
        assert_eq!(e.response_message(), shown);
    }
}
