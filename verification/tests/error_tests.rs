use std::time::Duration;
use uiautomator::error::Error;


// ========== 设备相关错误测试 ==========

#[test]
fn test_device_not_found() {
    let err = Error::DeviceNotFound;
    assert_eq!(err.message(), "设备未找到");
}

#[test]
fn test_multiple_devices_found() {
    let err = Error::MultipleDevicesFound;
    assert_eq!(err.message(), "发现多个设备，请指定设备序列号");
}

#[test]
fn test_device_offline() {
    let err = Error::DeviceOffline("emulator-5554".to_string());
    assert_eq!(err.message(), "设备 emulator-5554 离线");
    assert_eq!(err.code(), 1003);
    assert_eq!(err.category(), "Device");
}

#[test]
fn test_device_connection() {
    let err = Error::DeviceConnection("无法连接".to_string());
    assert_eq!(err.message(), "设备连接错误: 无法连接");
}

// ========== 元素相关错误测试 ==========

#[test]
fn error_test_element_not_found() {
    let err = Error::ElementNotFound {
        selector: "text=Settings".to_string(),
    };
    assert_eq!(err.message(), "元素未找到: text=Settings");
}

#[test]
fn test_element_timeout() {
    let err = Error::ElementTimeout {
        selector: "text=Button".to_string(),
        timeout: Duration::from_secs(10),
    };
    let err_str = err.message();
    assert!(err_str.contains("元素查找超时"));
    assert!(err_str.contains("text=Button"));
    assert!(err_str.contains("10s"));
}

// ========== 应用相关错误测试 ==========

#[test]
fn test_app_not_installed() {
    let err = Error::AppNotInstalled("com.example.app".to_string());
    assert_eq!(err.message(), "应用未安装: com.example.app");
}

#[test]
fn test_app_not_running() {
    let err = Error::AppNotRunning("com.example.app".to_string());
    assert_eq!(err.message(), "应用未运行: com.example.app");
}

#[test]
fn test_app_crashed() {
    let err = Error::AppCrashed("com.example.app".to_string());
    assert_eq!(err.message(), "应用崩溃: com.example.app");
}

#[test]
fn test_app_start_failed() {
    let err = Error::AppStartFailed("com.example.app".to_string());
    assert_eq!(err.message(), "无法启动应用: com.example.app");
}

// ========== JSON-RPC 错误测试 ==========

#[test]
fn test_jsonrpc_error() {
    let err = Error::JsonRpc("method not found".to_string());
    assert_eq!(err.message(), "JSON-RPC 调用失败: method not found");
}

#[test]
fn test_jsonrpc_parse_error() {
    let err = Error::JsonRpcParse("invalid json".to_string());
    assert_eq!(err.message(), "JSON-RPC 响应解析失败: invalid json");
    assert_eq!(err.code(), 4002);
    assert_eq!(err.category(), "Network");
}

// ========== ADB 错误测试 ==========

#[test]
fn test_adb_error() {
    let err = Error::Adb("命令失败".to_string());
    assert_eq!(err.message(), "ADB 命令执行失败: 命令失败");
}

// ========== 其他错误测试 ==========

#[test]
fn test_http_timeout() {
    let err = Error::HttpTimeout;
    assert_eq!(err.message(), "HTTP 超时");
}

#[test]
fn test_uiautomator_not_connected() {
    let err = Error::UiAutomatorNotConnected;
    assert_eq!(err.message(), "UiAutomator 服务未连接");
}

#[test]
fn test_timeout() {
    let err = Error::Timeout;
    assert_eq!(err.message(), "操作超时");
}

#[test]
fn test_invalid_argument() {
    let err = Error::InvalidArgument("坐标超出范围".to_string());
    assert_eq!(err.message(), "无效参数: 坐标超出范围");
}

#[test]
fn test_internal_error() {
    let err = Error::Internal("Settings lock poisoned".to_string());
    assert_eq!(err.message(), "内部错误: Settings lock poisoned");
}

#[test]
fn test_unknown_error() {
    let err = Error::Unknown("未知问题".to_string());
    assert_eq!(err.message(), "未知错误: 未知问题");
}

// ========== 错误转换测试 ==========

#[test]
fn test_error_from_serde_json() {
    let json_err = serde_json::from_str::<i32>("invalid").unwrap_err();
    let err: Error = json_err.into();
    assert!(matches!(err, Error::Serialization(_)));
}

#[test]
fn test_error_from_io() {
    let io_err = std::io::Error::new(std::io::ErrorKind::NotFound, "文件未找到");
    let err: Error = io_err.into();
    assert!(matches!(err, Error::Io(_)));
}

#[test]
fn test_result_type() {
    fn returns_error() -> Result<i32, Error> {
        Err(Error::Timeout)
    }

    let result = returns_error();
    assert!(result.is_err());
    assert!(matches!(result.unwrap_err(), Error::Timeout));
}

#[test]
fn test_error_debug() {
    let err = Error::DeviceConnection("测试".to_string());
    let debug_str = format!("{:?}", err);
    assert!(debug_str.contains("DeviceConnection"));
    assert!(debug_str.contains("测试"));
}

// ========== 错误上下文测试 ==========

#[test]
fn test_element_not_found_contains_selector() {
    let err = Error::ElementNotFound {
        selector: "resourceId=com.example:id/button".to_string(),
    };
    let err_str = err.message();
    assert!(err_str.contains("resourceId=com.example:id/button"));
}

#[test]
fn test_element_timeout_contains_both_selector_and_timeout() {
    let err = Error::ElementTimeout {
        selector: "text=Login".to_string(),
        timeout: Duration::from_secs(5),
    };
    let err_str = err.message();
    assert!(err_str.contains("text=Login"));
    assert!(err_str.contains("5s"));
}

#[test]
fn test_device_offline_contains_serial() {
    let err = Error::DeviceOffline("192.168.1.100:5555".to_string());
    let err_str = err.message();
    assert!(err_str.contains("192.168.1.100:5555"));
}

// ========== 错误码测试 ==========

#[test]
fn test_error_codes_device() {
    assert_eq!(Error::DeviceNotFound.code(), 1001);
    assert_eq!(Error::MultipleDevicesFound.code(), 1002);
    assert_eq!(Error::DeviceOffline("test".to_string()).code(), 1003);
    assert_eq!(Error::DeviceConnection("test".to_string()).code(), 1004);
}

#[test]
fn test_error_codes_element() {
    assert_eq!(
        Error::ElementNotFound {
            selector: "test".to_string()
        }
        .code(),
        2001
    );
    assert_eq!(
        Error::ElementTimeout {
            selector: "test".to_string(),
            timeout: Duration::from_secs(5)
        }
        .code(),
        2002
    );
}

#[test]
fn test_error_codes_application() {
    assert_eq!(Error::AppNotInstalled("test".to_string()).code(), 3001);
    assert_eq!(Error::AppNotRunning("test".to_string()).code(), 3002);
    assert_eq!(Error::AppCrashed("test".to_string()).code(), 3003);
    assert_eq!(Error::AppStartFailed("test".to_string()).code(), 3004);
}

#[test]
fn test_error_codes_network() {
    assert_eq!(Error::JsonRpc("test".to_string()).code(), 4001);
    assert_eq!(Error::JsonRpcParse("test".to_string()).code(), 4002);
    assert_eq!(Error::Adb("test".to_string()).code(), 4101);
    assert_eq!(Error::HttpTimeout.code(), 4202);
    assert_eq!(Error::UiAutomatorNotConnected.code(), 4203);
}

#[test]
fn test_error_codes_other() {
    assert_eq!(Error::Timeout.code(), 5001);
    assert_eq!(Error::InvalidArgument("test".to_string()).code(), 5005);
    assert_eq!(Error::Internal("test".to_string()).code(), 5006);
    assert_eq!(Error::Unknown("test".to_string()).code(), 5999);
}

#[test]
fn test_error_categories() {
    assert_eq!(Error::DeviceNotFound.category(), "Device");
    assert_eq!(
        Error::ElementNotFound {
            selector: "test".to_string()
        }
        .category(),
        "Element"
    );
    assert_eq!(
        Error::AppNotInstalled("test".to_string()).category(),
        "Application"
    );
    assert_eq!(
        Error::AppNotRunning("test".to_string()).category(),
        "Application"
    );
    assert_eq!(Error::JsonRpc("test".to_string()).category(), "Network");
    assert_eq!(Error::Timeout.category(), "Other");
    assert_eq!(Error::Internal("test".to_string()).category(), "Other");
}

#[test]
fn test_error_code_uniqueness() {
    // 确保错误码在各自范围内是唯一的
    let device_codes = vec![
        Error::DeviceNotFound.code(),
        Error::MultipleDevicesFound.code(),
        Error::DeviceOffline("".to_string()).code(),
        Error::DeviceConnection("".to_string()).code(),
    ];
    let unique_device: std::collections::HashSet<_> = device_codes.iter().collect();
    assert_eq!(
        device_codes.len(),
        unique_device.len(),
        "设备错误码应该唯一"
    );

    let element_codes = vec![
        Error::ElementNotFound {
            selector: "".to_string(),
        }
        .code(),
        Error::ElementTimeout {
            selector: "".to_string(),
            timeout: Duration::from_secs(1),
        }
        .code(),
    ];
    let unique_element: std::collections::HashSet<_> = element_codes.iter().collect();
    assert_eq!(
        element_codes.len(),
        unique_element.len(),
        "元素错误码应该唯一"
    );
}


#[test]
fn error_json_rpc_code_message() {
    let err = Error::JsonRpcCode(-32601, "Method not found".to_string());
    assert_eq!(err.message(), "JSON-RPC 错误: code=-32601, message=Method not found");
    assert_eq!(err.code(), 4003);
}

#[test]
fn error_codes_of_compatibility_variants() {
    assert_eq!(Error::UiObjectNotFound("x".to_string()).code(), 2003);
    assert_eq!(Error::AppNotFound("x".to_string()).code(), 3005);
    assert_eq!(Error::UiObjectNotFound("x".to_string()).category(), "Element");
    assert_eq!(Error::AppNotFound("x".to_string()).message(), "应用未找到: x");
}

#[test]
fn error_from_io_and_serde_keeps_kind() {
    let io_err = std::io::Error::new(std::io::ErrorKind::Other, "disk");
    let err = Error::from(io_err);
    assert_eq!(err.code(), 5003);
    assert!(err.message().starts_with("IO 错误: "));
    let json_err = serde_json::from_str::<i32>("x").unwrap_err();
    let err = Error::from(json_err);
    assert_eq!(err.code(), 5002);
    assert_eq!(err.category(), "Other");
    assert!(err.message().starts_with("序列化错误: "));
}

#[test]
fn error_codes_lie_in_their_category_ranges() {
    let errors = vec![
        Error::DeviceNotFound,
        Error::ElementNotFound { selector: String::new() },
        Error::AppCrashed(String::new()),
        Error::Adb(String::new()),
        Error::HttpTimeout,
        Error::Timeout,
        Error::Unknown(String::new()),
    ];
    for e in errors {
        let code = e.code();
        let expected = match code / 1000 {
            1 => "Device",
            2 => "Element",
            3 => "Application",
            4 => "Network",
            _ => "Other",
        };
        assert_eq!(e.category(), expected);
    }
}
