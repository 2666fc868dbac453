use base64::Engine;
use uiautomator::error::Error;
use uiautomator::screen::{
    decode_image_bytes,
    decode_jsonrpc_screenshot_response, decode_screencap_output, screenshot_format_for_path,
    ScreenshotFormat,
};

// A 1x1 PNG image.
const TINY_PNG_BASE64: &str =
    "iVBORw0KGgoAAAANSUhEUgAAAAEAAAABCAQAAAC1HAwCAAAAC0lEQVR42mNkYAAAAAYAAjCB0C8AAAAASUVORK5CYII=";

#[test]
fn screencap_output_with_line_breaks_decodes() {
    let (a, b) = TINY_PNG_BASE64.split_at(20);
    let output = format!("  {}\n{}\r\n", a, b);
    assert!(decode_screencap_output(&output).is_ok());
}

#[test]
fn screencap_empty_output() {
    match decode_screencap_output(" \n ") {
        Err(Error::Adb(m)) => assert_eq!(m, "adb screencap returned empty output"),
        other => panic!("unexpected {:?}", other.map(|_| ())),
    }
}

#[test]
fn screencap_command_failure_text() {
    match decode_screencap_output("/system/bin/sh: screencap: not found") {
        Err(Error::Adb(m)) => assert_eq!(
            m,
            "adb screencap command failed: /system/bin/sh: screencap: not found"
        ),
        other => panic!("unexpected {:?}", other.map(|_| ())),
    }
}

#[test]
fn screencap_undecodable_payload() {
    match decode_screencap_output("@@@@") {
        Err(Error::InvalidArgument(m)) => {
            assert!(m.starts_with("failed to decode adb screencap base64 output: "))
        }
        other => panic!("unexpected {:?}", other.map(|_| ())),
    }
}

#[test]
fn screencap_valid_base64_but_no_image() {
    assert!(matches!(
        decode_screencap_output("aGVsbG8="),
        Err(Error::Image(_))
    ));
}

#[test]
fn jsonrpc_screenshot_answers() {
    assert!(decode_jsonrpc_screenshot_response(Some(TINY_PNG_BASE64)).is_ok());
    match decode_jsonrpc_screenshot_response(None) {
        Err(Error::InvalidArgument(m)) => assert_eq!(m, "截图响应不是字符串"),
        other => panic!("unexpected {:?}", other.map(|_| ())),
    }
    match decode_jsonrpc_screenshot_response(Some("!!")) {
        Err(Error::InvalidArgument(m)) => assert!(m.starts_with("Base64 解码失败: ")),
        other => panic!("unexpected {:?}", other.map(|_| ())),
    }
}

#[test]
fn screenshot_format_by_extension() {
    assert_eq!(screenshot_format_for_path("a.PNG"), ScreenshotFormat::Png);
    assert_eq!(screenshot_format_for_path("a.jpg"), ScreenshotFormat::Jpeg);
    assert_eq!(screenshot_format_for_path("dir/a.JPEG"), ScreenshotFormat::Jpeg);
    assert_eq!(screenshot_format_for_path("a.bmp"), ScreenshotFormat::Png);
}

#[test]
fn image_bytes_decode_or_fail_as_image_errors() {
    let png = base64::engine::general_purpose::STANDARD
        .decode(TINY_PNG_BASE64)
        .unwrap();
    assert!(decode_image_bytes(&png).is_ok());
    assert!(matches!(
        decode_image_bytes(b"not an image"),
        Err(Error::Image(_))
    ));
}
