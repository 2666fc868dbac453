use uiautomator::error::Error;
use uiautomator::models::{ElementInfo, Rect};
use uiautomator::selector::Selector;
use std::time::Duration;
use uiautomator::uiobject::{
    element_matches_selector, ensure_action_rpc_result, is_element_not_found_error, poll_step,
    PollStep,
};

fn params_of(selector: &Selector) -> serde_json::Value {
    serde_json::from_str(&selector.to_params()).expect("selector parameters are JSON")
}

#[test]
fn test_uiobject_structure() {
    let selector = Selector::new().text("测试按钮").clickable(true);
    let params = params_of(&selector);
    assert_eq!(params["text"], "测试按钮");
    assert_eq!(params["clickable"], true);
}

#[test]
fn test_uiobject_selector_combinations() {
    let selector = Selector::new()
        .text("设置")
        .resource_id("com.example:id/button")
        .class_name("android.widget.Button")
        .enabled(true);
    let params = params_of(&selector);
    assert_eq!(params["text"], "设置");
    assert_eq!(params["resourceId"], "com.example:id/button");
    assert_eq!(params["className"], "android.widget.Button");
    assert_eq!(params["enabled"], true);
}

#[test]
fn test_is_element_not_found_error_matches_known_patterns() {
    assert!(is_element_not_found_error(
        "UiObjectNotFoundException: no such object"
    ));
    assert!(is_element_not_found_error(
        "java.lang.RuntimeException: Accessibility node info is null"
    ));
    assert!(is_element_not_found_error("node not found for selector"));
}

#[test]
fn test_is_element_not_found_error_avoids_false_positive() {
    assert!(!is_element_not_found_error("Error: invalid selector syntax"));
    assert!(!is_element_not_found_error("method not found: clearTextField"));
    assert!(!is_element_not_found_error("element selector invalid"));
}

#[test]
fn test_ensure_action_rpc_result_handles_boolean_and_non_boolean() {
    assert!(ensure_action_rpc_result("setText", Some(true)).is_ok());

    let err = ensure_action_rpc_result("setText", Some(false))
        .expect_err("false should be treated as failure");
    assert!(matches!(err, Error::JsonRpc(_)));

    assert!(ensure_action_rpc_result("setText", None).is_ok());
}

#[test]
fn element_action_failure_message() {
    match ensure_action_rpc_result("setText", Some(false)) {
        Err(Error::JsonRpc(m)) => assert_eq!(m, "setText 返回 false（操作失败）"),
        other => panic!("unexpected {:?}", other),
    }
}

#[test]
fn not_found_needs_both_halves_of_a_generic_message() {
    assert!(is_element_not_found_error("UI object does not exist"));
    assert!(!is_element_not_found_error("file not found"));
    assert!(!is_element_not_found_error("timeout"));
}

fn element(class_name: &str, left: u32, top: u32, text: &str, resource_id: &str) -> ElementInfo {
    ElementInfo {
        text: text.to_string(),
        content_description: String::new(),
        class_name: class_name.to_string(),
        package_name: "com.example".to_string(),
        resource_id: resource_id.to_string(),
        bounds: Rect::new(left, top, left + 100, top + 50),
        visible_bounds: Rect::new(left, top, left + 100, top + 50),
        clickable: true,
        enabled: true,
        focusable: false,
        focused: false,
        scrollable: false,
        long_clickable: false,
        checkable: false,
        checked: false,
        selected: false,
        child_count: 0,
    }
}

#[test]
fn root_element_only_matches_unspecific_selectors() {
    let root = element("android.widget.FrameLayout", 0, 0, "", "");
    assert!(!element_matches_selector(&Selector::new().text("OK"), &root));
    assert!(!element_matches_selector(
        &Selector::new().class_name("android.widget.Button"),
        &root
    ));
    assert!(element_matches_selector(
        &Selector::new().class_name("android.widget.FrameLayout"),
        &root
    ));
    assert!(element_matches_selector(&Selector::new().clickable(true), &root));
}

#[test]
fn other_elements_must_agree_with_the_selector() {
    let button = element("android.widget.Button", 10, 20, "Submit form", "com.example:id/ok");
    assert!(element_matches_selector(&Selector::new().text("Submit form"), &button));
    assert!(!element_matches_selector(&Selector::new().text("Submit"), &button));
    assert!(element_matches_selector(&Selector::new().text_contains("form"), &button));
    assert!(!element_matches_selector(&Selector::new().text_contains("xyz"), &button));
    assert!(element_matches_selector(
        &Selector::new().resource_id("com.example:id/ok").class_name("android.widget.Button"),
        &button
    ));
    assert!(!element_matches_selector(
        &Selector::new().resource_id("com.example:id/cancel"),
        &button
    ));
    assert!(element_matches_selector(&Selector::new().description("ignored"), &button));
}

#[test]
fn poll_steps() {
    let s = Duration::from_millis;
    assert_eq!(poll_step(true, s(5000), s(1000)), PollStep::Done);
    assert_eq!(poll_step(false, s(1000), s(1000)), PollStep::TimedOut);
    assert_eq!(poll_step(false, s(999), s(1000)), PollStep::Wait);
}
