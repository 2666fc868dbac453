//! JSON-RPC with the device-side service: the request text, what an answer
//! means, and when a failed call is retried.
use vstd::prelude::*;

use std::time::Duration;

use crate::duration::duration_nanos;
use crate::error::{decimal_i32, push_decimal_i32, Error};
use crate::json::{json_quote, json_u32, push_decimal_u128, push_json_quoted};
use crate::text::{chars_eq_str, chars_of, contains_str, push_str, seq_contains, trim, trim_chars};

verus! {

/// The longest `Duration`: `u64::MAX` seconds and 999 999 999 nanoseconds.
pub open spec fn max_duration_nanos() -> nat {
    (u64::MAX as nat) * 1_000_000_000 + 999_999_999
}

/// Calls `Duration::checked_mul`.
///
/// Trusted: the standard library documents the product, and `None` where
/// it would not fit in a `Duration`.
#[verifier::external_body]
fn duration_checked_mul(d: Duration, n: u32) -> (r: Option<Duration>)
    ensures
        r is Some <==> duration_nanos(d) * n <= max_duration_nanos(),
        r matches Some(x) ==> duration_nanos(x) == duration_nanos(d) * n,
{
    d.checked_mul(n)
}

/// What to do after a failed attempt.
#[derive(Debug)]
pub enum RetryAction {
    /// Give up with this error.
    Fail(Error),
    /// Try again after `delay`, restarting the service first where
    /// `restart` is set.
    Retry {
        /// Restart the service before the next attempt.
        restart: bool,
        /// How long to wait before the next attempt.
        delay: Duration,
    },
}

/// Errors after which a call is tried again: timeouts, HTTP failures and
/// a lost service.
pub open spec fn is_retryable(e: Error) -> bool {
    e is HttpTimeout || e is Http || e is UiAutomatorNotConnected
}

/// Errors after which the service is restarted before the next attempt.
pub open spec fn needs_restart(e: Error) -> bool {
    e is UiAutomatorNotConnected || e is Http
}

/// The error of a call that was allowed no attempt at all.
pub fn no_attempt_error() -> (r: Error)
    ensures
        r matches Error::JsonRpc(m) && m@ == "未知错误"@,
{
    let mut m = String::new();
    push_str(&mut m, "未知错误");
    Error::JsonRpc(m)
}

/// `r` is what `retry_decision` answers after attempt `attempt` of
/// `max_retries` failed with `error`.
pub open spec fn retry_decided(
    attempt: u32,
    max_retries: u32,
    error: Error,
    base_delay: Duration,
    r: RetryAction,
) -> bool {
    &&& is_retryable(error) && attempt < max_retries ==> (r matches RetryAction::Retry {
        restart,
        delay,
    } && restart == needs_restart(error) && duration_nanos(delay) == duration_nanos(base_delay)
        * attempt)
    &&& !(is_retryable(error) && attempt < max_retries) ==> r == RetryAction::Fail(error)
}

/// Decides what follows the failure of attempt number `attempt` (counted
/// from 1) out of `max_retries`: a retryable error before the last attempt
/// is retried after `base_delay * attempt`, restarting the service for a
/// lost service or an HTTP failure; anything else fails with the error.
pub fn retry_decision(attempt: u32, max_retries: u32, error: Error, base_delay: Duration) -> (r:
    RetryAction)
    requires
        1 <= attempt <= max_retries,
        is_retryable(error) && attempt < max_retries ==> duration_nanos(base_delay) * attempt
            <= max_duration_nanos(),
    ensures
        is_retryable(error) && attempt < max_retries ==> (r matches RetryAction::Retry {
            restart,
            delay,
        } && restart == needs_restart(error) && duration_nanos(delay) == duration_nanos(
            base_delay,
        ) * attempt),
        !(is_retryable(error) && attempt < max_retries) ==> r == RetryAction::Fail(error),
        retry_decided(attempt, max_retries, error, base_delay, r),
{
    let retryable = match &error {
        Error::HttpTimeout => true,
        Error::Http(_) => true,
        Error::UiAutomatorNotConnected => true,
        _ => false,
    };
    if !retryable || attempt == max_retries {
        return RetryAction::Fail(error);
    }
    let restart = match &error {
        Error::UiAutomatorNotConnected => true,
        Error::Http(_) => true,
        _ => false,
    };
    match duration_checked_mul(base_delay, attempt) {
        Some(delay) => RetryAction::Retry { restart, delay },
        None => RetryAction::Fail(error),
    }
}

/// Whether the wait that a retry after attempt `attempt` would take fits in
/// a `Duration`; it always does where no retry follows.
pub fn retry_delay_fits(attempt: u32, max_retries: u32, error: &Error, base_delay: Duration) -> (r:
    bool)
    ensures
        r == (!(is_retryable(*error) && attempt < max_retries) || duration_nanos(base_delay)
            * attempt <= max_duration_nanos()),
{
    let retryable = match error {
        Error::HttpTimeout => true,
        Error::Http(_) => true,
        Error::UiAutomatorNotConnected => true,
        _ => false,
    };
    if !retryable || attempt >= max_retries {
        return true;
    }
    duration_checked_mul(base_delay, attempt).is_some()
}

/// The retry policy error by error: before the last attempt, an HTTP
/// failure or a lost service is retried after restarting the service, a
/// timeout is retried without a restart, each after `base_delay * attempt`;
/// every other error, and any error on the last attempt, ends the call with
/// that error.
pub proof fn lemma_retry_policy_by_error(
    attempt: u32,
    max_retries: u32,
    error: Error,
    base_delay: Duration,
    r: RetryAction,
)
    requires
        1 <= attempt <= max_retries,
        retry_decided(attempt, max_retries, error, base_delay, r),
    ensures
        attempt < max_retries && (error is Http || error is UiAutomatorNotConnected) ==> (
        r matches RetryAction::Retry { restart, delay } && restart && duration_nanos(delay)
            == duration_nanos(base_delay) * attempt),
        attempt < max_retries && error is HttpTimeout ==> (r matches RetryAction::Retry {
            restart,
            delay,
        } && !restart && duration_nanos(delay) == duration_nanos(base_delay) * attempt),
        attempt == max_retries ==> r == RetryAction::Fail(error),
        !(error is Http || error is UiAutomatorNotConnected || error is HttpTimeout) ==> r
            == RetryAction::Fail(error),
{
}

/// Two retries in a row wait the base delay longer each: the wait after
/// attempt `k + 1` exceeds the wait after attempt `k` by `base_delay`.
pub proof fn lemma_retry_delays_grow(
    k: u32,
    max_retries: u32,
    e1: Error,
    e2: Error,
    base_delay: Duration,
    d1: Duration,
    d2: Duration,
)
    requires
        1 <= k,
        k + 1 < max_retries,
        is_retryable(e1),
        is_retryable(e2),
        duration_nanos(d1) == duration_nanos(base_delay) * k,
        duration_nanos(d2) == duration_nanos(base_delay) * (k + 1),
    ensures
        duration_nanos(d2) == duration_nanos(d1) + duration_nanos(base_delay),
{
    assert(duration_nanos(base_delay) * (k + 1) == duration_nanos(base_delay) * k
        + duration_nanos(base_delay)) by (nonlinear_arith);
}

/// The `error` object of a JSON-RPC answer, as its typed reading gives it.
#[derive(Debug, Clone)]
pub enum RpcErrorField {
    /// An error object with an `i32` code and a message.
    Valid {
        /// The error code.
        code: i32,
        /// The error message.
        message: String,
    },
    /// An `error` member that is no such object; the text says why.
    Invalid(String),
}

/// The `error` member of a JSON-RPC answer body.
#[derive(Debug, Clone)]
pub enum RpcErrorMember {
    /// No `error` member.
    Absent,
    /// `"error": null`.
    Null,
    /// Any other value, written as JSON text.
    Present(String),
}

/// What the library reads of a JSON-RPC answer body that is JSON.
#[derive(Debug, Clone)]
pub struct RpcBody {
    /// The body is a JSON object.
    pub is_object: bool,
    /// The `id` member, where it is an unsigned integer.
    pub id: Option<u64>,
    /// The `error` member.
    pub error: RpcErrorMember,
    /// The `result` member, written as JSON text.
    pub result: Option<String>,
}

/// The view of an `error` member: `None` when absent, `Some(None)` when
/// null, else its JSON text.
pub open spec fn error_member_view(e: RpcErrorMember) -> Option<Option<Seq<char>>> {
    match e {
        RpcErrorMember::Absent => None,
        RpcErrorMember::Null => Some(None),
        RpcErrorMember::Present(t) => Some(Some(t@)),
    }
}

/// The view of an answer body.
pub open spec fn rpc_body_view(b: RpcBody) -> (bool, Option<u64>, Option<Option<Seq<char>>>, Option<
    Seq<char>,
>) {
    (
        b.is_object,
        b.id,
        error_member_view(b.error),
        match b.result {
            Some(t) => Some(t@),
            None => None,
        },
    )
}

/// What `serde_json::from_str::<serde_json::Value>` reads of an answer
/// body, `None` where the text is no JSON: whether it is an object, its
/// `id` where that is an unsigned integer, its `error` member (absent,
/// null, or written as JSON text) and its `result` member written as JSON
/// text.
pub uninterp spec fn rpc_reply_of(body: Seq<char>) -> Option<
    (bool, Option<u64>, Option<Option<Seq<char>>>, Option<Seq<char>>),
>;

/// Calls `serde_json::from_str::<serde_json::Value>`, then `as_object`,
/// `get`, `as_u64`, `is_null` and `to_string` on the members read.
///
/// Trusted: the text is JSON exactly where `rpc_reply_of` holds a reading
/// of it, and the members are those it names.
#[verifier::external_body]
fn parse_rpc_body(body: &str) -> (r: Result<RpcBody, serde_json::Error>)
    ensures
        r is Ok <==> rpc_reply_of(body@) is Some,
        r matches Ok(b) ==> rpc_reply_of(body@) == Some(rpc_body_view(b)),
{
    let value: serde_json::Value = serde_json::from_str(body)?;
    let object = value.as_object();
    let error = match object.and_then(|o| o.get("error")) {
        None => RpcErrorMember::Absent,
        Some(e) if e.is_null() => RpcErrorMember::Null,
        Some(e) => RpcErrorMember::Present(e.to_string()),
    };
    let id = object.and_then(|o| o.get("id")).and_then(|v| v.as_u64());
    let result = object.and_then(|o| o.get("result")).map(|v| v.to_string());
    Ok(RpcBody { is_object: object.is_some(), id, error, result })
}

/// What a checked answer leaves to do.
#[derive(Debug)]
pub enum RpcAnswer {
    /// Read the `result`, given as JSON text.
    Ready(String),
    /// Read the non-null `error` object, given as JSON text, and fail.
    ErrorObject(String),
}

/// The message of a JSON-RPC error code and text.
pub open spec fn rpc_error_message(code: i32, message: Seq<char>) -> Seq<char> {
    "错误码 "@ + decimal_i32(code) + ": "@ + message
}

/// What an answer body that is JSON comes to, for the request with id
/// `expected_id`: an answer with another id is refused unless the endpoint
/// is a custom one; a non-null `error` is left to read; else the `result`
/// is needed.
pub open spec fn rpc_answer_spec(
    expected_id: u64,
    custom_endpoint: bool,
    v: (bool, Option<u64>, Option<Option<Seq<char>>>, Option<Seq<char>>),
    r: Result<RpcAnswer, Error>,
) -> bool {
    let (is_object, id, error, result) = v;
    if !is_object {
        r matches Err(e) && e matches Error::JsonRpc(m) && m@ == "响应格式无效：不是 JSON 对象"@
    } else if id is None {
        r matches Err(e) && e matches Error::JsonRpc(m) && m@ == "响应中缺少有效的 id 字段"@
    } else if id.unwrap() != expected_id && !custom_endpoint {
        r matches Err(e) && e matches Error::JsonRpc(m) && m@ == "响应 ID 不匹配: 期望 "@
            + json_u32(expected_id as nat) + ", 实际 "@ + json_u32(id.unwrap() as nat)
    } else {
        match error {
            Some(Some(t)) => r matches Ok(RpcAnswer::ErrorObject(x)) && x@ == t,
            _ => match result {
                Some(t) => r matches Ok(RpcAnswer::Ready(x)) && x@ == t,
                None => r matches Err(e) && e matches Error::JsonRpc(m) && m@
                    == "响应中缺少 result 字段"@,
            },
        }
    }
}

/// Checks the body of an answer to the request with id `expected_id`: a
/// body that is no JSON fails with the serialization error.
pub fn rpc_answer_outcome(expected_id: u64, custom_endpoint: bool, body: &str) -> (r: Result<
    RpcAnswer,
    Error,
>)
    ensures
        match rpc_reply_of(body@) {
            None => r matches Err(e) && e is Serialization,
            Some(v) => rpc_answer_spec(expected_id, custom_endpoint, v, r),
        },
{
    let reply = match parse_rpc_body(body) {
        Ok(b) => b,
        Err(e) => {
            return Err(Error::Serialization(e));
        },
    };
    if !reply.is_object {
        let mut m = String::new();
        push_str(&mut m, "响应格式无效：不是 JSON 对象");
        return Err(Error::JsonRpc(m));
    }
    let id = match reply.id {
        Some(id) => id,
        None => {
            let mut m = String::new();
            push_str(&mut m, "响应中缺少有效的 id 字段");
            return Err(Error::JsonRpc(m));
        },
    };
    if id != expected_id && !custom_endpoint {
        let mut m = String::new();
        push_str(&mut m, "响应 ID 不匹配: 期望 ");
        push_decimal_u128(&mut m, expected_id as u128);
        push_str(&mut m, ", 实际 ");
        push_decimal_u128(&mut m, id as u128);
        return Err(Error::JsonRpc(m));
    }
    match reply.error {
        RpcErrorMember::Present(t) => {
            return Ok(RpcAnswer::ErrorObject(t));
        },
        _ => {},
    }
    match reply.result {
        Some(t) => Ok(RpcAnswer::Ready(t)),
        None => {
            let mut m = String::new();
            push_str(&mut m, "响应中缺少 result 字段");
            Err(Error::JsonRpc(m))
        },
    }
}

/// The error a JSON-RPC call fails with, given the typed reading of the
/// answer's `error` object.
pub fn rpc_error_outcome(field: RpcErrorField) -> (r: Error)
    ensures
        match field {
            RpcErrorField::Valid { code, message } => r matches Error::JsonRpc(m) && m@
                == rpc_error_message(code, message@),
            RpcErrorField::Invalid(why) => r matches Error::JsonRpc(m) && m@
                == "解析 error 字段失败: "@ + why@,
        },
{
    match field {
        RpcErrorField::Valid { code, message } => {
            let mut m = String::new();
            push_str(&mut m, "错误码 ");
            push_decimal_i32(&mut m, code);
            push_str(&mut m, ": ");
            push_str(&mut m, message.as_str());
            Error::JsonRpc(m)
        },
        RpcErrorField::Invalid(why) => {
            let mut m = String::new();
            push_str(&mut m, "解析 error 字段失败: ");
            push_str(&mut m, why.as_str());
            Error::JsonRpc(m)
        },
    }
}

/// What the library reads of an answer forwarded by the ATX-Agent daemon.
#[derive(Debug, Clone)]
pub struct ForwardReply {
    /// The `error` member, where there is one: its `code` where that is an
    /// integer and its `message` where that is a string.
    pub error: Option<(Option<i64>, Option<String>)>,
    /// There is a `result` member.
    pub has_result: bool,
}

/// Checks an answer forwarded by the daemon: an `error` member fails with
/// its code (`-1` where missing, cut to `i32`) and message (`Unknown error`
/// where missing); else a `result` is needed.
pub fn forward_reply_outcome(reply: &ForwardReply) -> (r: Result<(), Error>)
    ensures
        match reply.error {
            Some((code, message)) => {
                let c: i32 = match code {
                    Some(c) => c as i32,
                    None => -1i32,
                };
                let msg = match message {
                    Some(s) => s@,
                    None => "Unknown error"@,
                };
                r matches Err(e) && e matches Error::JsonRpc(m) && m@ == rpc_error_message(c, msg)
            },
            None => if reply.has_result {
                r is Ok
            } else {
                r matches Err(e) && e matches Error::JsonRpc(m) && m@
                    == "Invalid JSON-RPC response"@
            },
        },
{
    match &reply.error {
        Some((code, message)) => {
            let c: i32 = match code {
                Some(c) => *c as i32,
                None => -1i32,
            };
            let mut m = String::new();
            push_str(&mut m, "错误码 ");
            push_decimal_i32(&mut m, c);
            push_str(&mut m, ": ");
            match message {
                Some(s) => push_str(&mut m, s.as_str()),
                None => push_str(&mut m, "Unknown error"),
            }
            Err(Error::JsonRpc(m))
        },
        None => {
            if reply.has_result {
                Ok(())
            } else {
                let mut m = String::new();
                push_str(&mut m, "Invalid JSON-RPC response");
                Err(Error::JsonRpc(m))
            }
        },
    }
}

/// The text of a JSON-RPC request: version `2.0`, the id, the method, and
/// the parameters as JSON text.
pub open spec fn rpc_request_text(id: u64, method: Seq<char>, params: Seq<char>) -> Seq<char> {
    "{\"jsonrpc\":\"2.0\",\"id\":"@ + json_u32(id as nat) + ",\"method\":"@ + json_quote(method)
        + ",\"params\":"@ + params + "}"@
}

/// Writes a JSON-RPC request.
pub fn rpc_request(id: u64, method: &str, params_json: &str) -> (r: String)
    ensures
        r@ == rpc_request_text(id, method@, params_json@),
{
    let mut out = String::new();
    push_str(&mut out, "{\"jsonrpc\":\"2.0\",\"id\":");
    push_decimal_u128(&mut out, id as u128);
    push_str(&mut out, ",\"method\":");
    push_json_quoted(&mut out, method);
    push_str(&mut out, ",\"params\":");
    push_str(&mut out, params_json);
    push_str(&mut out, "}");
    out
}

/// The JSON-RPC endpoint behind a forwarded local port.
pub fn local_rpc_url(port: u16) -> (r: String)
    ensures
        r@ == "http://127.0.0.1:"@ + json_u32(port as nat) + "/jsonrpc/0"@,
{
    let mut out = String::new();
    push_str(&mut out, "http://127.0.0.1:");
    push_decimal_u128(&mut out, port as u128);
    push_str(&mut out, "/jsonrpc/0");
    out
}

/// The ping endpoint behind a forwarded local port.
pub fn local_ping_url(port: u16) -> (r: String)
    ensures
        r@ == "http://127.0.0.1:"@ + json_u32(port as nat) + "/ping"@,
{
    let mut out = String::new();
    push_str(&mut out, "http://127.0.0.1:");
    push_decimal_u128(&mut out, port as u128);
    push_str(&mut out, "/ping");
    out
}

/// Whether a ping answer says the service is alive: it is `pong` once
/// trimmed.
pub fn is_pong(text: &str) -> (r: bool)
    ensures
        r == (trim(text@) == "pong"@),
{
    let v = chars_of(text);
    let t = trim_chars(&v);
    chars_eq_str(&t, "pong")
}

/// Whether the device lacks `toybox md5sum`, so that `md5` is tried.
pub fn md5_needs_fallback(output: &str) -> (r: bool)
    ensures
        r == (seq_contains(output@, "toybox"@) && seq_contains(output@, "not found"@)),
{
    let v = chars_of(output);
    contains_str(&v, "toybox") && contains_str(&v, "not found")
}

/// Whether a checksum listing holds the expected checksum.
pub fn md5_output_matches(output: &str, md5: &str) -> (r: bool)
    ensures
        r == seq_contains(output@, md5@),
{
    let v = chars_of(output);
    contains_str(&v, md5)
}

} // verus!
