//! The errors of the library, with a numeric code and a category each.
//!
//! Codes are grouped by category: 1000-1999 device, 2000-2999 element,
//! 3000-3999 application, 4000-4999 network and communication (4000-4099
//! JSON-RPC, 4100-4199 ADB, 4200-4299 HTTP), 5000-5999 other.
use vstd::prelude::*;

use crate::duration::{duration_nanos};
use crate::json::{json_u32, push_json_u32};
use crate::text::{push_str, seq_starts_with, string_push};

use std::fmt::Write;
use std::time::Duration;

verus! {

/// The errors of the library.
#[derive(Debug)]
pub enum Error {
    /// No connected device was found.
    DeviceNotFound,
    /// More than one device is connected; a serial is needed.
    MultipleDevicesFound,
    /// The device with this serial is offline.
    DeviceOffline(String),
    /// Connecting to the device failed.
    DeviceConnection(String),
    /// No element matches the selector.
    ElementNotFound {
        /// Description of the selector.
        selector: String,
    },
    /// The element did not appear within the timeout.
    ElementTimeout {
        /// Description of the selector.
        selector: String,
        /// How long was waited.
        timeout: Duration,
    },
    /// Older name of `ElementNotFound`, kept for compatibility.
    UiObjectNotFound(String),
    /// The application is not installed.
    AppNotInstalled(String),
    /// The application is not running.
    AppNotRunning(String),
    /// The application crashed.
    AppCrashed(String),
    /// The application could not be started.
    AppStartFailed(String),
    /// Older name of `AppNotInstalled`, kept for compatibility.
    AppNotFound(String),
    /// A JSON-RPC call failed.
    JsonRpc(String),
    /// A JSON-RPC answer could not be read.
    JsonRpcParse(String),
    /// Older JSON-RPC error with its code, kept for compatibility.
    JsonRpcCode(i32, String),
    /// An ADB command failed.
    Adb(String),
    /// An HTTP request failed.
    Http(reqwest::Error),
    /// An HTTP request timed out.
    HttpTimeout,
    /// The UiAutomator service is not reachable.
    UiAutomatorNotConnected,
    /// An operation timed out.
    Timeout,
    /// JSON (de)serialization failed.
    Serialization(serde_json::Error),
    /// An I/O operation failed.
    Io(std::io::Error),
    /// An image could not be decoded or written.
    Image(image::ImageError),
    /// An argument was refused.
    InvalidArgument(String),
    /// An internal error.
    Internal(String),
    /// An error of no known kind.
    Unknown(String),
}

/// The code of an error.
pub open spec fn error_code(e: Error) -> u32 {
    match e {
        Error::DeviceNotFound => 1001,
        Error::MultipleDevicesFound => 1002,
        Error::DeviceOffline(_) => 1003,
        Error::DeviceConnection(_) => 1004,
        Error::ElementNotFound { .. } => 2001,
        Error::ElementTimeout { .. } => 2002,
        Error::UiObjectNotFound(_) => 2003,
        Error::AppNotInstalled(_) => 3001,
        Error::AppNotRunning(_) => 3002,
        Error::AppCrashed(_) => 3003,
        Error::AppStartFailed(_) => 3004,
        Error::AppNotFound(_) => 3005,
        Error::JsonRpc(_) => 4001,
        Error::JsonRpcParse(_) => 4002,
        Error::JsonRpcCode(_, _) => 4003,
        Error::Adb(_) => 4101,
        Error::Http(_) => 4201,
        Error::HttpTimeout => 4202,
        Error::UiAutomatorNotConnected => 4203,
        Error::Timeout => 5001,
        Error::Serialization(_) => 5002,
        Error::Io(_) => 5003,
        Error::Image(_) => 5004,
        Error::InvalidArgument(_) => 5005,
        Error::Internal(_) => 5006,
        Error::Unknown(_) => 5999,
    }
}

/// The category of an error.
pub open spec fn error_category(e: Error) -> Seq<char> {
    match e {
        Error::DeviceNotFound => "Device"@,
        Error::MultipleDevicesFound => "Device"@,
        Error::DeviceOffline(_) => "Device"@,
        Error::DeviceConnection(_) => "Device"@,
        Error::ElementNotFound { .. } => "Element"@,
        Error::ElementTimeout { .. } => "Element"@,
        Error::UiObjectNotFound(_) => "Element"@,
        Error::AppNotInstalled(_) => "Application"@,
        Error::AppNotRunning(_) => "Application"@,
        Error::AppCrashed(_) => "Application"@,
        Error::AppStartFailed(_) => "Application"@,
        Error::AppNotFound(_) => "Application"@,
        Error::JsonRpc(_) => "Network"@,
        Error::JsonRpcParse(_) => "Network"@,
        Error::JsonRpcCode(_, _) => "Network"@,
        Error::Adb(_) => "Network"@,
        Error::Http(_) => "Network"@,
        Error::HttpTimeout => "Network"@,
        Error::UiAutomatorNotConnected => "Network"@,
        Error::Timeout => "Other"@,
        Error::Serialization(_) => "Other"@,
        Error::Io(_) => "Other"@,
        Error::Image(_) => "Other"@,
        Error::InvalidArgument(_) => "Other"@,
        Error::Internal(_) => "Other"@,
        Error::Unknown(_) => "Other"@,
    }
}

/// The position of an error's variant in the declaration.
pub open spec fn error_variant_index(e: Error) -> int {
    match e {
        Error::DeviceNotFound => 0,
        Error::MultipleDevicesFound => 1,
        Error::DeviceOffline(_) => 2,
        Error::DeviceConnection(_) => 3,
        Error::ElementNotFound { .. } => 4,
        Error::ElementTimeout { .. } => 5,
        Error::UiObjectNotFound(_) => 6,
        Error::AppNotInstalled(_) => 7,
        Error::AppNotRunning(_) => 8,
        Error::AppCrashed(_) => 9,
        Error::AppStartFailed(_) => 10,
        Error::AppNotFound(_) => 11,
        Error::JsonRpc(_) => 12,
        Error::JsonRpcParse(_) => 13,
        Error::JsonRpcCode(_, _) => 14,
        Error::Adb(_) => 15,
        Error::Http(_) => 16,
        Error::HttpTimeout => 17,
        Error::UiAutomatorNotConnected => 18,
        Error::Timeout => 19,
        Error::Serialization(_) => 20,
        Error::Io(_) => 21,
        Error::Image(_) => 22,
        Error::InvalidArgument(_) => 23,
        Error::Internal(_) => 24,
        Error::Unknown(_) => 25,
    }
}

/// What `Duration`'s `Debug` form is for a duration of `nanos` nanoseconds.
pub uninterp spec fn duration_debug_text(nanos: nat) -> Seq<char>;

/// Writes a duration in its `Debug` form (such as `10s` or `500ms`).
///
/// Trusted: the text is `duration_debug_text` of the length of `d`; the
/// standard library's `Debug` form depends on the length alone.
#[verifier::external_body]
fn push_duration_debug(out: &mut String, d: &Duration)
    ensures
        final(out)@ == old(out)@ + duration_debug_text(duration_nanos(*d)),
{
    let _ = write!(out, "{:?}", d);
}

/// Writes the `Display` text of a `reqwest::Error`.
///
/// Trusted: appends the text; what it says depends on the error value,
/// which this crate cannot see into, and is left unstated.
#[verifier::external_body]
fn push_reqwest_error(out: &mut String, e: &reqwest::Error)
    ensures
        seq_starts_with(final(out)@, old(out)@),
{
    let _ = write!(out, "{}", e);
}

/// Writes the `Display` text of a `serde_json::Error`.
///
/// Trusted: appends the text; what it says is left unstated.
#[verifier::external_body]
fn push_serde_json_error(out: &mut String, e: &serde_json::Error)
    ensures
        seq_starts_with(final(out)@, old(out)@),
{
    let _ = write!(out, "{}", e);
}

/// Writes the `Display` text of a `std::io::Error`.
///
/// Trusted: appends the text; it may come from the operating system and is
/// left unstated.
#[verifier::external_body]
fn push_io_error(out: &mut String, e: &std::io::Error)
    ensures
        seq_starts_with(final(out)@, old(out)@),
{
    let _ = write!(out, "{}", e);
}

/// Writes the `Display` text of an `image::ImageError`.
///
/// Trusted: appends the text; what it says is left unstated.
#[verifier::external_body]
fn push_image_error(out: &mut String, e: &image::ImageError)
    ensures
        seq_starts_with(final(out)@, old(out)@),
{
    let _ = write!(out, "{}", e);
}

/// The decimal writing of an `i32`, with a `-` for negative values.
pub open spec fn decimal_i32(n: i32) -> Seq<char> {
    if n < 0 {
        seq!['-'] + json_u32((-(n as int)) as nat)
    } else {
        json_u32(n as nat)
    }
}

/// Appends the decimal writing of `n`.
pub fn push_decimal_i32(out: &mut String, n: i32)
    ensures
        final(out)@ == old(out)@ + decimal_i32(n),
{
    let ghost start = out@;
    if n < 0 {
        string_push(out, '-');
        let a: u32 = (-(n as i64)) as u32;
        push_json_u32(out, a);
        assert(out@ =~= start + decimal_i32(n));
    } else {
        push_json_u32(out, n as u32);
    }
}

/// `text` is the message of `e`: the fixed wording of its variant with its
/// payload; for payloads of outside error types only the wording before
/// them is fixed.
pub open spec fn is_error_message(e: Error, text: Seq<char>) -> bool {
    match e {
        Error::DeviceNotFound => text == "设备未找到"@,
        Error::MultipleDevicesFound => text == "发现多个设备，请指定设备序列号"@,
        Error::DeviceOffline(x) => text == "设备 "@ + x@ + " 离线"@,
        Error::DeviceConnection(x) => text == "设备连接错误: "@ + x@,
        Error::ElementNotFound { selector } => text == "元素未找到: "@ + selector@,
        Error::ElementTimeout { selector, timeout } => text == "元素查找超时 ("@ + duration_debug_text(duration_nanos(timeout)) + "): "@ + selector@,
        Error::UiObjectNotFound(x) => text == "UI 对象未找到: "@ + x@,
        Error::AppNotInstalled(x) => text == "应用未安装: "@ + x@,
        Error::AppNotRunning(x) => text == "应用未运行: "@ + x@,
        Error::AppCrashed(x) => text == "应用崩溃: "@ + x@,
        Error::AppStartFailed(x) => text == "无法启动应用: "@ + x@,
        Error::AppNotFound(x) => text == "应用未找到: "@ + x@,
        Error::JsonRpc(x) => text == "JSON-RPC 调用失败: "@ + x@,
        Error::JsonRpcParse(x) => text == "JSON-RPC 响应解析失败: "@ + x@,
        Error::JsonRpcCode(code, msg) => text == "JSON-RPC 错误: code="@ + decimal_i32(code) + ", message="@ + msg@,
        Error::Adb(x) => text == "ADB 命令执行失败: "@ + x@,
        Error::Http(_) => seq_starts_with(text, "HTTP 请求失败: "@),
        Error::HttpTimeout => text == "HTTP 超时"@,
        Error::UiAutomatorNotConnected => text == "UiAutomator 服务未连接"@,
        Error::Timeout => text == "操作超时"@,
        Error::Serialization(_) => seq_starts_with(text, "序列化错误: "@),
        Error::Io(_) => seq_starts_with(text, "IO 错误: "@),
        Error::Image(_) => seq_starts_with(text, "图像处理错误: "@),
        Error::InvalidArgument(x) => text == "无效参数: "@ + x@,
        Error::Internal(x) => text == "内部错误: "@ + x@,
        Error::Unknown(x) => text == "未知错误: "@ + x@,
    }
}

impl Error {
    /// The code of this error, unique to its variant.
    pub fn code(&self) -> (r: u32)
        ensures
            r == error_code(*self),
    {
        match self {
            Error::DeviceNotFound => 1001,
            Error::MultipleDevicesFound => 1002,
            Error::DeviceOffline(_) => 1003,
            Error::DeviceConnection(_) => 1004,
            Error::ElementNotFound { .. } => 2001,
            Error::ElementTimeout { .. } => 2002,
            Error::UiObjectNotFound(_) => 2003,
            Error::AppNotInstalled(_) => 3001,
            Error::AppNotRunning(_) => 3002,
            Error::AppCrashed(_) => 3003,
            Error::AppStartFailed(_) => 3004,
            Error::AppNotFound(_) => 3005,
            Error::JsonRpc(_) => 4001,
            Error::JsonRpcParse(_) => 4002,
            Error::JsonRpcCode(_, _) => 4003,
            Error::Adb(_) => 4101,
            Error::Http(_) => 4201,
            Error::HttpTimeout => 4202,
            Error::UiAutomatorNotConnected => 4203,
            Error::Timeout => 5001,
            Error::Serialization(_) => 5002,
            Error::Io(_) => 5003,
            Error::Image(_) => 5004,
            Error::InvalidArgument(_) => 5005,
            Error::Internal(_) => 5006,
            Error::Unknown(_) => 5999,
        }
    }

    /// The category of this error: `Device`, `Element`, `Application`,
    /// `Network` or `Other`.
    pub fn category(&self) -> (r: &'static str)
        ensures
            r@ == error_category(*self),
    {
        match self {
            Error::DeviceNotFound => "Device",
            Error::MultipleDevicesFound => "Device",
            Error::DeviceOffline(_) => "Device",
            Error::DeviceConnection(_) => "Device",
            Error::ElementNotFound { .. } => "Element",
            Error::ElementTimeout { .. } => "Element",
            Error::UiObjectNotFound(_) => "Element",
            Error::AppNotInstalled(_) => "Application",
            Error::AppNotRunning(_) => "Application",
            Error::AppCrashed(_) => "Application",
            Error::AppStartFailed(_) => "Application",
            Error::AppNotFound(_) => "Application",
            Error::JsonRpc(_) => "Network",
            Error::JsonRpcParse(_) => "Network",
            Error::JsonRpcCode(_, _) => "Network",
            Error::Adb(_) => "Network",
            Error::Http(_) => "Network",
            Error::HttpTimeout => "Network",
            Error::UiAutomatorNotConnected => "Network",
            Error::Timeout => "Other",
            Error::Serialization(_) => "Other",
            Error::Io(_) => "Other",
            Error::Image(_) => "Other",
            Error::InvalidArgument(_) => "Other",
            Error::Internal(_) => "Other",
            Error::Unknown(_) => "Other",
        }
    }

    /// The human-readable message of this error.
    pub fn message(&self) -> (r: String)
        ensures
            is_error_message(*self, r@),
    {
        let mut out = String::new();
        match self {
            Error::DeviceNotFound => {
                push_str(&mut out, "设备未找到");
                assert(out@ =~= "设备未找到"@);
            },
            Error::MultipleDevicesFound => {
                push_str(&mut out, "发现多个设备，请指定设备序列号");
                assert(out@ =~= "发现多个设备，请指定设备序列号"@);
            },
            Error::DeviceOffline(x) => {
                push_str(&mut out, "设备 ");
                push_str(&mut out, x.as_str());
                push_str(&mut out, " 离线");
                assert(out@ =~= "设备 "@ + x@ + " 离线"@);
            },
            Error::DeviceConnection(x) => {
                push_str(&mut out, "设备连接错误: ");
                push_str(&mut out, x.as_str());
                assert(out@ =~= "设备连接错误: "@ + x@);
            },
            Error::ElementNotFound { selector } => {
                push_str(&mut out, "元素未找到: ");
                push_str(&mut out, selector.as_str());
                assert(out@ =~= "元素未找到: "@ + selector@);
            },
            Error::ElementTimeout { selector, timeout } => {
                push_str(&mut out, "元素查找超时 (");
                push_duration_debug(&mut out, timeout);
                push_str(&mut out, "): ");
                push_str(&mut out, selector.as_str());
                assert(out@ =~= "元素查找超时 ("@ + duration_debug_text(duration_nanos(*timeout)) + "): "@ + selector@);
            },
            Error::UiObjectNotFound(x) => {
                push_str(&mut out, "UI 对象未找到: ");
                push_str(&mut out, x.as_str());
                assert(out@ =~= "UI 对象未找到: "@ + x@);
            },
            Error::AppNotInstalled(x) => {
                push_str(&mut out, "应用未安装: ");
                push_str(&mut out, x.as_str());
                assert(out@ =~= "应用未安装: "@ + x@);
            },
            Error::AppNotRunning(x) => {
                push_str(&mut out, "应用未运行: ");
                push_str(&mut out, x.as_str());
                assert(out@ =~= "应用未运行: "@ + x@);
            },
            Error::AppCrashed(x) => {
                push_str(&mut out, "应用崩溃: ");
                push_str(&mut out, x.as_str());
                assert(out@ =~= "应用崩溃: "@ + x@);
            },
            Error::AppStartFailed(x) => {
                push_str(&mut out, "无法启动应用: ");
                push_str(&mut out, x.as_str());
                assert(out@ =~= "无法启动应用: "@ + x@);
            },
            Error::AppNotFound(x) => {
                push_str(&mut out, "应用未找到: ");
                push_str(&mut out, x.as_str());
                assert(out@ =~= "应用未找到: "@ + x@);
            },
            Error::JsonRpc(x) => {
                push_str(&mut out, "JSON-RPC 调用失败: ");
                push_str(&mut out, x.as_str());
                assert(out@ =~= "JSON-RPC 调用失败: "@ + x@);
            },
            Error::JsonRpcParse(x) => {
                push_str(&mut out, "JSON-RPC 响应解析失败: ");
                push_str(&mut out, x.as_str());
                assert(out@ =~= "JSON-RPC 响应解析失败: "@ + x@);
            },
            Error::JsonRpcCode(code, msg) => {
                push_str(&mut out, "JSON-RPC 错误: code=");
                push_decimal_i32(&mut out, *code);
                push_str(&mut out, ", message=");
                push_str(&mut out, msg.as_str());
                assert(out@ =~= "JSON-RPC 错误: code="@ + decimal_i32(*code) + ", message="@ + msg@);
            },
            Error::Adb(x) => {
                push_str(&mut out, "ADB 命令执行失败: ");
                push_str(&mut out, x.as_str());
                assert(out@ =~= "ADB 命令执行失败: "@ + x@);
            },
            Error::Http(x) => {
                push_str(&mut out, "HTTP 请求失败: ");
                let ghost mid = out@;
                assert(mid =~= "HTTP 请求失败: "@);
                push_reqwest_error(&mut out, x);
            },
            Error::HttpTimeout => {
                push_str(&mut out, "HTTP 超时");
                assert(out@ =~= "HTTP 超时"@);
            },
            Error::UiAutomatorNotConnected => {
                push_str(&mut out, "UiAutomator 服务未连接");
                assert(out@ =~= "UiAutomator 服务未连接"@);
            },
            Error::Timeout => {
                push_str(&mut out, "操作超时");
                assert(out@ =~= "操作超时"@);
            },
            Error::Serialization(x) => {
                push_str(&mut out, "序列化错误: ");
                let ghost mid = out@;
                assert(mid =~= "序列化错误: "@);
                push_serde_json_error(&mut out, x);
            },
            Error::Io(x) => {
                push_str(&mut out, "IO 错误: ");
                let ghost mid = out@;
                assert(mid =~= "IO 错误: "@);
                push_io_error(&mut out, x);
            },
            Error::Image(x) => {
                push_str(&mut out, "图像处理错误: ");
                let ghost mid = out@;
                assert(mid =~= "图像处理错误: "@);
                push_image_error(&mut out, x);
            },
            Error::InvalidArgument(x) => {
                push_str(&mut out, "无效参数: ");
                push_str(&mut out, x.as_str());
                assert(out@ =~= "无效参数: "@ + x@);
            },
            Error::Internal(x) => {
                push_str(&mut out, "内部错误: ");
                push_str(&mut out, x.as_str());
                assert(out@ =~= "内部错误: "@ + x@);
            },
            Error::Unknown(x) => {
                push_str(&mut out, "未知错误: ");
                push_str(&mut out, x.as_str());
                assert(out@ =~= "未知错误: "@ + x@);
            },
        }
        out
    }
}

/// The code of an error lies in the range of its category: 1000-1999
/// Device, 2000-2999 Element, 3000-3999 Application, 4000-4999 Network,
/// 5000-5999 Other.
pub proof fn lemma_error_code_in_category_range(e: Error)
    ensures
        error_category(e) == "Device"@ <==> 1000 <= error_code(e) < 2000,
        error_category(e) == "Element"@ <==> 2000 <= error_code(e) < 3000,
        error_category(e) == "Application"@ <==> 3000 <= error_code(e) < 4000,
        error_category(e) == "Network"@ <==> 4000 <= error_code(e) < 5000,
        error_category(e) == "Other"@ <==> 5000 <= error_code(e) < 6000,
{
    reveal_strlit("Device");
    reveal_strlit("Element");
    reveal_strlit("Application");
    reveal_strlit("Network");
    reveal_strlit("Other");
    assert("Device"@[0] != "Element"@[0]);
    assert("Device"@[0] != "Application"@[0]);
    assert("Device"@[0] != "Network"@[0]);
    assert("Device"@[0] != "Other"@[0]);
    assert("Element"@[0] != "Application"@[0]);
    assert("Element"@[0] != "Network"@[0]);
    assert("Element"@[0] != "Other"@[0]);
    assert("Application"@[0] != "Network"@[0]);
    assert("Application"@[0] != "Other"@[0]);
    assert("Network"@[0] != "Other"@[0]);
}

/// Two errors have the same code exactly when they are of the same variant.
pub proof fn lemma_error_code_identifies_variant(e1: Error, e2: Error)
    ensures
        error_code(e1) == error_code(e2) <==> error_variant_index(e1) == error_variant_index(e2),
{
}

/// Network errors (4000-4999) split further: JSON-RPC 4000-4099, ADB
/// 4100-4199, HTTP 4200-4299.
pub proof fn lemma_network_code_subranges(e: Error)
    ensures
        (e is JsonRpc || e is JsonRpcParse || e is JsonRpcCode) <==> 4000 <= error_code(e) < 4100,
        e is Adb <==> 4100 <= error_code(e) < 4200,
        (e is Http || e is HttpTimeout || e is UiAutomatorNotConnected) <==> 4200 <= error_code(e)
            < 4300,
{
}

impl From<reqwest::Error> for Error {
    fn from(e: reqwest::Error) -> (r: Self) {
        Error::Http(e)
    }
}

impl vstd::std_specs::convert::FromSpecImpl<reqwest::Error> for Error {
    open spec fn obeys_from_spec() -> bool {
        true
    }

    open spec fn from_spec(e: reqwest::Error) -> Self {
        Error::Http(e)
    }
}

impl From<serde_json::Error> for Error {
    fn from(e: serde_json::Error) -> (r: Self) {
        Error::Serialization(e)
    }
}

impl vstd::std_specs::convert::FromSpecImpl<serde_json::Error> for Error {
    open spec fn obeys_from_spec() -> bool {
        true
    }

    open spec fn from_spec(e: serde_json::Error) -> Self {
        Error::Serialization(e)
    }
}

impl From<std::io::Error> for Error {
    fn from(e: std::io::Error) -> (r: Self) {
        Error::Io(e)
    }
}

impl vstd::std_specs::convert::FromSpecImpl<std::io::Error> for Error {
    open spec fn obeys_from_spec() -> bool {
        true
    }

    open spec fn from_spec(e: std::io::Error) -> Self {
        Error::Io(e)
    }
}

impl From<image::ImageError> for Error {
    fn from(e: image::ImageError) -> (r: Self) {
        Error::Image(e)
    }
}

impl vstd::std_specs::convert::FromSpecImpl<image::ImageError> for Error {
    open spec fn obeys_from_spec() -> bool {
        true
    }

    open spec fn from_spec(e: image::ImageError) -> Self {
        Error::Image(e)
    }
}

} // verus!
