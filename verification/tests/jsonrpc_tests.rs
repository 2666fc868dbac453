use std::time::Duration;
use uiautomator::error::Error;
use uiautomator::jsonrpc::{
    forward_reply_outcome, is_pong, local_ping_url, local_rpc_url,
    md5_needs_fallback, md5_output_matches, no_attempt_error, retry_decision, retry_delay_fits,
    rpc_answer_outcome, rpc_error_outcome, rpc_request, ForwardReply, RetryAction, RpcAnswer,
    RpcErrorField,
};

fn message_of(r: Result<(), Error>) -> String {
    match r {
        Err(Error::JsonRpc(m)) => m,
        other => panic!("unexpected {:?}", other),
    }
}

#[test]
fn retry_waits_base_times_attempt() {
    let base = Duration::from_millis(100);
    match retry_decision(1, 3, Error::HttpTimeout, base) {
        RetryAction::Retry { restart, delay } => {
            assert!(!restart);
            assert_eq!(delay, Duration::from_millis(100));
        }
        other => panic!("unexpected {:?}", other),
    }
    match retry_decision(2, 3, Error::UiAutomatorNotConnected, base) {
        RetryAction::Retry { restart, delay } => {
            assert!(restart);
            assert_eq!(delay, Duration::from_millis(200));
        }
        other => panic!("unexpected {:?}", other),
    }
}

#[test]
fn retry_gives_up_on_last_attempt_or_other_errors() {
    let base = Duration::from_millis(100);
    assert!(matches!(
        retry_decision(3, 3, Error::HttpTimeout, base),
        RetryAction::Fail(Error::HttpTimeout)
    ));
    assert!(matches!(
        retry_decision(1, 3, Error::JsonRpc("x".to_string()), base),
        RetryAction::Fail(Error::JsonRpc(m)) if m == "x"
    ));
    assert!(matches!(
        retry_decision(1, 1, Error::HttpTimeout, base),
        RetryAction::Fail(Error::HttpTimeout)
    ));
}

#[test]
fn retry_loop_scenario_counts_attempts() {
    // An operation that always times out is tried max_retries times.
    let max = 3u32;
    let mut attempts = 0u32;
    let mut waited = Duration::from_millis(0);
    for attempt in 1..=max {
        attempts += 1;
        match retry_decision(attempt, max, Error::HttpTimeout, Duration::from_millis(100)) {
            RetryAction::Retry { delay, .. } => waited += delay,
            RetryAction::Fail(_) => break,
        }
    }
    assert_eq!(attempts, 3);
    assert_eq!(waited, Duration::from_millis(300));
}

#[test]
fn no_attempts_is_an_unknown_error() {
    match no_attempt_error() {
        Error::JsonRpc(m) => assert_eq!(m, "未知错误"),
        e => panic!("unexpected {:?}", e),
    }
}

fn answer_message(r: Result<RpcAnswer, Error>) -> String {
    match r {
        Err(Error::JsonRpc(m)) => m,
        other => panic!("unexpected {:?}", other),
    }
}

#[test]
fn answer_checks_in_order() {
    assert!(matches!(
        rpc_answer_outcome(1, false, "not json"),
        Err(Error::Serialization(_))
    ));
    assert_eq!(
        answer_message(rpc_answer_outcome(1, false, "[1]")),
        "响应格式无效：不是 JSON 对象"
    );
    assert_eq!(
        answer_message(rpc_answer_outcome(1, false, r#"{"id":"1","result":1}"#)),
        "响应中缺少有效的 id 字段"
    );
    assert_eq!(
        answer_message(rpc_answer_outcome(7, false, r#"{"id":8,"result":1}"#)),
        "响应 ID 不匹配: 期望 7, 实际 8"
    );
    assert!(matches!(
        rpc_answer_outcome(7, true, r#"{"id":8,"result":true}"#),
        Ok(RpcAnswer::Ready(t)) if t == "true"
    ));
    match rpc_answer_outcome(1, false, r#"{"id":1,"error":{"code":-32601,"message":"Method not found"}}"#) {
        Ok(RpcAnswer::ErrorObject(t)) => {
            let v: serde_json::Value = serde_json::from_str(&t).unwrap();
            assert_eq!(v["code"], -32601);
        }
        other => panic!("unexpected {:?}", other),
    }
    assert!(matches!(
        rpc_answer_outcome(1, false, r#"{"id":1,"error":null,"result":{"a":[1,2]}}"#),
        Ok(RpcAnswer::Ready(t)) if t == r#"{"a":[1,2]}"#
    ));
    assert_eq!(
        answer_message(rpc_answer_outcome(1, false, r#"{"id":1,"error":null}"#)),
        "响应中缺少 result 字段"
    );
}

#[test]
fn error_objects_become_json_rpc_errors() {
    match rpc_error_outcome(RpcErrorField::Valid {
        code: -32601,
        message: "Method not found".to_string(),
    }) {
        Error::JsonRpc(m) => assert_eq!(m, "错误码 -32601: Method not found"),
        e => panic!("unexpected {:?}", e),
    }
    match rpc_error_outcome(RpcErrorField::Invalid("bad".to_string())) {
        Error::JsonRpc(m) => assert_eq!(m, "解析 error 字段失败: bad"),
        e => panic!("unexpected {:?}", e),
    }
}

#[test]
fn retry_delay_fits_only_matters_when_retrying() {
    assert!(retry_delay_fits(1, 3, &Error::HttpTimeout, Duration::from_millis(100)));
    assert!(!retry_delay_fits(2, 3, &Error::HttpTimeout, Duration::MAX));
    assert!(retry_delay_fits(1, 3, &Error::HttpTimeout, Duration::MAX));
    assert!(retry_delay_fits(3, 3, &Error::HttpTimeout, Duration::MAX));
    assert!(retry_delay_fits(2, 3, &Error::Timeout, Duration::MAX));
}

#[test]
fn forwarded_reply_checks() {
    let err = ForwardReply {
        error: Some((Some(-32000), Some("boom".to_string()))),
        has_result: true,
    };
    assert_eq!(message_of(forward_reply_outcome(&err)), "错误码 -32000: boom");
    let bare = ForwardReply {
        error: Some((None, None)),
        has_result: false,
    };
    assert_eq!(message_of(forward_reply_outcome(&bare)), "错误码 -1: Unknown error");
    let wide = ForwardReply {
        error: Some((Some(4294967297), None)),
        has_result: false,
    };
    assert_eq!(message_of(forward_reply_outcome(&wide)), "错误码 1: Unknown error");
    let ok = ForwardReply {
        error: None,
        has_result: true,
    };
    assert!(forward_reply_outcome(&ok).is_ok());
    let empty = ForwardReply {
        error: None,
        has_result: false,
    };
    assert_eq!(message_of(forward_reply_outcome(&empty)), "Invalid JSON-RPC response");
}

#[test]
fn request_text_is_json() {
    let text = rpc_request(5, "click", "[1,2]");
    assert_eq!(
        text,
        "{\"jsonrpc\":\"2.0\",\"id\":5,\"method\":\"click\",\"params\":[1,2]}"
    );
    let v: serde_json::Value = serde_json::from_str(&rpc_request(1, "a\"b", "{}")).unwrap();
    assert_eq!(v["method"], "a\"b");
}

#[test]
fn endpoint_urls_and_ping() {
    assert_eq!(local_rpc_url(9008), "http://127.0.0.1:9008/jsonrpc/0");
    assert_eq!(local_ping_url(0), "http://127.0.0.1:0/ping");
    assert!(is_pong(" pong\n"));
    assert!(!is_pong("pong!"));
}

#[test]
fn jar_checksum_helpers() {
    assert!(md5_needs_fallback("/system/bin/sh: toybox: not found"));
    assert!(!md5_needs_fallback("abc  /data/local/tmp/u2.jar"));
    assert!(md5_output_matches("abc123  /data/local/tmp/u2.jar", "abc123"));
    assert!(!md5_output_matches("abc124  /data/local/tmp/u2.jar", "abc123"));
}
