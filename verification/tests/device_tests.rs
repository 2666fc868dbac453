use std::sync::{Arc, RwLock};
use std::time::Duration;
use uiautomator::device::{
    app_clear_outcome, app_start_outcome, app_start_shell_command, atx_agent_init_guidance,
    atx_client_creation_error, classify_app_start_failure, ensure_action_rpc_result,
    ensure_valid_activity_name, ensure_valid_package_name, explicit_start_command,
    extract_app_start_failure_reason, input_swipe_command, input_swipe_outcome,
    is_app_start_failure_line, is_jsonrpc_method_params_invalid_error,
    is_jsonrpc_method_unavailable_error, is_likely_device_offline_text,
    is_resolve_activity_command_unavailable_error, is_valid_activity_name, is_valid_package_name,
    parse_app_component_from_dump, parse_resolved_activity_component,
    parse_shell_output_with_exit_code, pid_from_output, pm_path_output_has_package,
    polling_interval_or_default, qualify_activity, resolve_activity_command,
    resolve_activity_outcome, resolved_start_command, select_device_serial,
    truncate_error_detail, validate_app_start, ConnectStep, InfoCache, ServerMode,
};
use uiautomator::device::connect_step;
use uiautomator::models::DeviceInfo;
use uiautomator::device::{
    double_click_after_rpc, long_click_after_input, long_click_after_rpc, long_click_after_swipe,
    screenshot_fallback, GestureStep,
};
use uiautomator::error::Error;
use uiautomator::key::Key;
use uiautomator::settings::Settings;

#[test]
fn test_device_structure() {
    assert_eq!(ServerMode::Direct, ServerMode::Direct);
    assert_ne!(ServerMode::Direct, ServerMode::AtxAgent);
}

#[test]
fn test_parse_shell_output_with_exit_code() {
    let output =
        "Starting: Intent { cmp=com.android.settings/.Settings }\n__U2_APP_START_EXIT_CODE__:0\n";
    let (exit_code, cleaned) =
        parse_shell_output_with_exit_code(output, "__U2_APP_START_EXIT_CODE__:");

    assert_eq!(exit_code, Some(0));
    assert_eq!(
        cleaned,
        "Starting: Intent { cmp=com.android.settings/.Settings }"
    );
}

#[test]
fn test_pm_path_output_has_package() {
    assert!(pm_path_output_has_package(
        "package:/data/app/~~abc/com.example.app/base.apk"
    ));
    assert!(!pm_path_output_has_package(
        "Error: package com.example.app was not found"
    ));
}

#[test]
fn test_is_likely_device_offline_text_detection() {
    assert!(is_likely_device_offline_text("adb: error: device offline"));
    assert!(is_likely_device_offline_text(
        "error: device unauthorized. Please check the confirmation dialog on your device."
    ));
    assert!(!is_likely_device_offline_text(
        "adb forward failed: cannot bind listener socket"
    ));
}

#[test]
fn test_is_app_start_failure_line_is_precise() {
    assert!(is_app_start_failure_line(
        "Error: Activity class {com.foo/.MainActivity} does not exist."
    ));
    assert!(!is_app_start_failure_line(
        "Info: Error recovery completed successfully"
    ));
}

#[test]
fn test_extract_and_truncate_app_start_failure_reason() {
    let long_error = format!("Error: {}", "x".repeat(400));
    let reason = extract_app_start_failure_reason(&long_error);

    assert!(reason.starts_with("Error: "));
    assert!(reason.ends_with("..."));
    assert!(reason.chars().count() <= 243);
}

#[test]
fn test_classify_app_start_failure_app_not_installed() {
    let err = classify_app_start_failure("com.example.app", "Unknown package: com.example.app");
    assert!(matches!(err, Error::AppNotInstalled(_)));
}

#[test]
fn test_classify_app_start_failure_activity_missing_is_not_not_installed() {
    let err = classify_app_start_failure(
        "com.example.app",
        "Error: Activity class {com.example.app/.MainActivity} does not exist.",
    );
    assert!(matches!(err, Error::AppStartFailed(_)));
}

#[test]
fn test_classify_app_start_failure_app_crashed() {
    let err = classify_app_start_failure(
        "com.example.app",
        "FATAL EXCEPTION: main Process crashed unexpectedly",
    );
    assert!(matches!(err, Error::AppCrashed(_)));
}

#[test]
fn test_classify_app_start_failure_fallback() {
    let err = classify_app_start_failure("com.example.app", "exit_code=1 unknown");
    assert!(matches!(err, Error::AppStartFailed(_)));
}

#[test]
fn test_is_jsonrpc_method_unavailable_error_is_precise() {
    let method_not_found =
        Error::JsonRpc(r#"{"code":-32601,"message":"Method not found"}"#.to_string());
    assert!(is_jsonrpc_method_unavailable_error(&method_not_found));

    let params_invalid =
        Error::JsonRpc(r#"{"code":-32602,"message":"Invalid params"}"#.to_string());
    assert!(!is_jsonrpc_method_unavailable_error(&params_invalid));
}

#[test]
fn test_is_jsonrpc_method_params_invalid_error_is_precise() {
    let params_invalid =
        Error::JsonRpc(r#"{"code":-32602,"message":"Invalid params"}"#.to_string());
    assert!(is_jsonrpc_method_params_invalid_error(&params_invalid));

    let method_not_found =
        Error::JsonRpc(r#"{"code":-32601,"message":"Method not found"}"#.to_string());
    assert!(!is_jsonrpc_method_params_invalid_error(&method_not_found));
}

#[test]
fn test_resolve_activity_command_unavailable_detection() {
    let unsupported = Error::AppStartFailed(
        "com.demo: failed to resolve launch activity: cmd: inaccessible or not found".to_string(),
    );
    assert!(is_resolve_activity_command_unavailable_error(&unsupported));

    let app_not_found = Error::AppStartFailed(
        "com.demo: failed to resolve launch activity: No activity found".to_string(),
    );
    assert!(!is_resolve_activity_command_unavailable_error(&app_not_found));
}

#[test]
fn test_parse_app_component_from_dump_prefers_focus_lines() {
    let dump = r#"
        Window #1 Window{1234 u0 com.android.launcher/com.android.launcher2.Launcher}
        mCurrentFocus=Window{7f54f7 u0 com.android.settings/.Settings}
        mFocusedApp=AppWindowToken{5e6e8f token=Token{0 ActivityRecord{abc u0 com.android.settings/.Settings t88}}}
    "#;

    let parsed = parse_app_component_from_dump(dump);
    assert_eq!(
        parsed,
        Some(("com.android.settings".to_string(), ".Settings".to_string()))
    );
}

#[test]
fn test_parse_app_component_from_dump_ignores_keyboard_focus_short_name() {
    let dump = r#"
        mCurrentFocus=Window{7f54f7 u0 keyb/v}
        mFocusedApp=AppWindowToken{5e6e8f token=Token{0 ActivityRecord{abc u0 com.android.settings/.Settings t88}}}
    "#;

    let parsed = parse_app_component_from_dump(dump);
    assert_eq!(
        parsed,
        Some(("com.android.settings".to_string(), ".Settings".to_string()))
    );
}

#[test]
fn test_parse_app_component_from_dump_does_not_use_unfocused_window_lines() {
    let dump = r#"
        Window #7 Window{8338c4c u0 com.samsung.android.app.cocktailbarservice/com.samsung.android.app.cocktailbarservice.CocktailBarService}:
        Window #11 Window{d73791c u0 com.android.settings/com.android.settings.Settings}:
    "#;

    let parsed = parse_app_component_from_dump(dump);
    assert_eq!(parsed, None);
}

#[test]
fn test_parse_app_component_from_dump_supports_activity_dump_fallback() {
    let dump = r#"
        ActivityRecord{77f5 u0 com.android.settings/.Settings t42}
        Hist #0: ActivityRecord{8888 u0 com.android.settings/.Settings t42}
    "#;

    let parsed = parse_app_component_from_dump(dump);
    assert_eq!(
        parsed,
        Some(("com.android.settings".to_string(), ".Settings".to_string()))
    );
}

#[test]
fn device_tests_test_set_wait_timeout() {
    let settings = Arc::new(RwLock::new(Settings::default()));

    {
        let s = settings.read().unwrap();
        assert_eq!(s.wait_timeout, Duration::from_secs(20));
    }

    {
        let mut s = settings.write().unwrap();
        s.set_wait_timeout(Duration::from_secs(30));
    }

    {
        let s = settings.read().unwrap();
        assert_eq!(s.wait_timeout, Duration::from_secs(30));
    }
}

#[test]
fn test_get_wait_timeout() {
    let settings = Arc::new(RwLock::new(Settings::default()));
    let timeout = {
        let s = settings.read().unwrap();
        s.wait_timeout
    };
    assert_eq!(timeout, Duration::from_secs(20));
}

#[test]
fn test_set_wait_timeout_various_values() {
    let settings = Arc::new(RwLock::new(Settings::default()));
    let test_values = vec![
        Duration::from_secs(1),
        Duration::from_secs(10),
        Duration::from_secs(30),
        Duration::from_secs(60),
        Duration::from_millis(500),
    ];

    for timeout in test_values {
        {
            let mut s = settings.write().unwrap();
            s.set_wait_timeout(timeout);
        }
        {
            let s = settings.read().unwrap();
            assert_eq!(s.wait_timeout, timeout);
        }
    }
}

#[test]
fn test_server_mode_debug() {
    let mode = ServerMode::Direct;
    let debug_str = format!("{:?}", mode);
    assert!(debug_str.contains("Direct"));
}

#[test]
fn test_server_mode_clone_copy() {
    let mode1 = ServerMode::Direct;
    let mode2 = mode1;
    let mode3 = mode1;

    assert_eq!(mode1, mode2);
    assert_eq!(mode1, mode3);
}

#[test]
fn test_atx_agent_init_guidance_contains_cli_command() {
    let serial = "emulator-5554";
    let message = atx_agent_init_guidance(serial);
    assert!(message.contains("uiautomator init --serial emulator-5554 --force"));
    assert!(message.contains("uiautomator-cli"));
}

#[test]
fn test_key_to_keycode_consistency() {
    assert_eq!(Key::Home.to_keycode(), 3);
    assert_eq!(Key::Back.to_keycode(), 4);
    assert_eq!(Key::Power.to_keycode(), 26);
    assert_eq!(Key::VolumeUp.to_keycode(), 24);
    assert_eq!(Key::VolumeDown.to_keycode(), 25);
    assert_eq!(Key::Enter.to_keycode(), 66);
    assert_eq!(Key::Up.to_keycode(), 19);
    assert_eq!(Key::Down.to_keycode(), 20);
    assert_eq!(Key::Left.to_keycode(), 21);
    assert_eq!(Key::Right.to_keycode(), 22);
}

#[test]
fn package_names_are_checked_segment_by_segment() {
    assert!(is_valid_package_name("com.example.app"));
    assert!(is_valid_package_name("_a.b_1"));
    assert!(!is_valid_package_name("com"));
    assert!(!is_valid_package_name(""));
    assert!(!is_valid_package_name(".com.example"));
    assert!(!is_valid_package_name("com..example"));
    assert!(!is_valid_package_name("com.example."));
    assert!(!is_valid_package_name("com.1example"));
    assert!(!is_valid_package_name("com.exa-mple"));
    assert!(!is_valid_package_name("com.exämple"));
    let long = format!("a.{}", "b".repeat(254));
    assert!(!is_valid_package_name(&long));
    let longest = format!("a.{}", "b".repeat(253));
    assert!(is_valid_package_name(&longest));
}

#[test]
fn activity_names_allow_dots_and_dollars() {
    assert!(is_valid_activity_name(".MainActivity"));
    assert!(is_valid_activity_name("com.example.Outer$Inner"));
    assert!(!is_valid_activity_name(""));
    assert!(!is_valid_activity_name("Main Activity"));
    assert!(!is_valid_activity_name(&"a".repeat(256)));
}

#[test]
fn invalid_names_give_invalid_argument_with_the_name() {
    match ensure_valid_package_name("bad") {
        Err(Error::InvalidArgument(m)) => assert_eq!(m, "鏃犳晥鐨勫寘鍚? bad"),
        other => panic!("unexpected {:?}", other),
    }
    match ensure_valid_activity_name("a b") {
        Err(Error::InvalidArgument(m)) => assert_eq!(m, "鏃犳晥鐨?Activity 鍚? a b"),
        other => panic!("unexpected {:?}", other),
    }
    assert!(ensure_valid_package_name("com.example").is_ok());
    assert!(validate_app_start("com.example", Some(".Main")).is_ok());
    assert!(matches!(
        validate_app_start("com.example", Some("a b")),
        Err(Error::InvalidArgument(_))
    ));
}

#[test]
fn shell_output_keeps_last_marker_and_drops_marker_lines() {
    let output = "a\r\nM:1\nb\nM:x\nM:2\n";
    let (code, cleaned) = parse_shell_output_with_exit_code(output, "M:");
    assert_eq!(code, Some(2));
    assert_eq!(cleaned, "a\nb\nM:x");
    let (code, cleaned) = parse_shell_output_with_exit_code("  only text  ", "M:");
    assert_eq!(code, None);
    assert_eq!(cleaned, "only text");
    let (code, _) = parse_shell_output_with_exit_code("  M:-3  ", "M:");
    assert_eq!(code, Some(-3));
}

#[test]
fn failure_reason_without_failure_lines() {
    assert_eq!(
        extract_app_start_failure_reason("   \n  "),
        "am start 失败，但没有可用错误输出"
    );
    assert_eq!(
        extract_app_start_failure_reason("  Starting: Intent  "),
        "Starting: Intent"
    );
    assert_eq!(
        extract_app_start_failure_reason("ok\n  Error type 3  \nlater"),
        "Error type 3"
    );
}

#[test]
fn truncation_counts_characters() {
    assert_eq!(truncate_error_detail("abc", 3), "abc");
    assert_eq!(truncate_error_detail("abcd", 3), "abc...");
    assert_eq!(truncate_error_detail("中文字符", 2), "中文...");
}

#[test]
fn resolved_component_skips_headers() {
    let out = "priority=0 preferredOrder=0\nResolveInfo{abc}\n  com.example/.Main  \n";
    assert_eq!(
        parse_resolved_activity_component(out),
        Some("com.example/.Main".to_string())
    );
    assert_eq!(parse_resolved_activity_component("No activity found"), None);
}

#[test]
fn resolve_outcome_reads_component_or_failure() {
    let ok = "com.example/.Main\n__U2_RESOLVE_ACTIVITY_EXIT_CODE__:0";
    assert_eq!(
        resolve_activity_outcome("com.example", ok).unwrap(),
        "com.example/.Main"
    );
    let failed = "Error: Unknown package: com.example\n__U2_RESOLVE_ACTIVITY_EXIT_CODE__:1";
    assert!(matches!(
        resolve_activity_outcome("com.example", failed),
        Err(Error::AppNotInstalled(p)) if p == "com.example"
    ));
    match resolve_activity_outcome("com.example", "nothing here") {
        Err(Error::AppStartFailed(m)) => assert_eq!(
            m,
            "com.example: failed to resolve launch activity: nothing here"
        ),
        other => panic!("unexpected {:?}", other),
    }
    assert_eq!(
        resolve_activity_command("com.example"),
        "cmd package resolve-activity --brief com.example 2>&1; echo __U2_RESOLVE_ACTIVITY_EXIT_CODE__:$?"
    );
}

#[test]
fn start_commands_are_built_from_the_activity() {
    assert_eq!(qualify_activity("com.a", ".Main"), "com.a.Main");
    assert_eq!(qualify_activity("com.a", "com.b.Main"), "com.b.Main");
    assert_eq!(
        explicit_start_command("com.a", ".Main"),
        "am start -n com.a/com.a.Main"
    );
    assert_eq!(
        resolved_start_command("com.a", Ok("com.a/.Main".to_string())).unwrap(),
        "am start -n com.a/.Main"
    );
    let unavailable = Error::AppStartFailed("x: cmd: not found".to_string());
    assert_eq!(
        resolved_start_command("com.a", Err(unavailable)).unwrap(),
        "am start com.a"
    );
    let other = Error::AppNotInstalled("com.a".to_string());
    assert!(matches!(
        resolved_start_command("com.a", Err(other)),
        Err(Error::AppNotInstalled(_))
    ));
    assert_eq!(
        app_start_shell_command("am start com.a"),
        "am start com.a; echo __U2_APP_START_EXIT_CODE__:$?"
    );
}

#[test]
fn app_start_outcome_reads_exit_code_and_failure_lines() {
    assert!(app_start_outcome("com.a", "Starting: Intent\n__U2_APP_START_EXIT_CODE__:0").is_ok());
    match app_start_outcome("com.a", "weird\n__U2_APP_START_EXIT_CODE__:2") {
        Err(Error::AppStartFailed(m)) => assert_eq!(m, "com.a: exit_code=2 weird"),
        other => panic!("unexpected {:?}", other),
    }
    match app_start_outcome("com.a", "Error: Activity class {x} does not exist.\n__U2_APP_START_EXIT_CODE__:0") {
        Err(Error::AppStartFailed(m)) => {
            assert_eq!(m, "com.a: Error: Activity class {x} does not exist.")
        }
        other => panic!("unexpected {:?}", other),
    }
    assert!(matches!(
        app_start_outcome("com.a", "Error: FATAL EXCEPTION in main"),
        Err(Error::AppCrashed(_))
    ));
}

#[test]
fn app_clear_outcome_by_output() {
    assert!(app_clear_outcome("com.a", "Success").is_ok());
    assert!(matches!(
        app_clear_outcome("com.a", "Failed"),
        Err(Error::AppNotInstalled(p)) if p == "com.a"
    ));
    match app_clear_outcome("com.a", "huh") {
        Err(Error::Adb(m)) => assert_eq!(m, "清除应用数据失败: huh"),
        other => panic!("unexpected {:?}", other),
    }
}

#[test]
fn pid_is_the_first_number_printed() {
    assert_eq!(pid_from_output("com.a", " 1234 5678\n").unwrap(), 1234);
    assert!(matches!(
        pid_from_output("com.a", "  \n"),
        Err(Error::AppNotRunning(p)) if p == "com.a"
    ));
    match pid_from_output("com.a", "abc 12") {
        Err(Error::Adb(m)) => assert_eq!(m, "无法解析 PID: abc 12"),
        other => panic!("unexpected {:?}", other),
    }
}

#[test]
fn device_serial_selection() {
    let none: Vec<String> = vec![];
    let one = vec!["emulator-5554".to_string()];
    let two = vec!["a".to_string(), "b".to_string()];
    assert!(matches!(select_device_serial(None, &none), Err(Error::DeviceNotFound)));
    assert!(matches!(select_device_serial(None, &two), Err(Error::MultipleDevicesFound)));
    assert_eq!(select_device_serial(None, &one).unwrap(), "emulator-5554");
    assert_eq!(select_device_serial(Some("x"), &two).unwrap(), "x");
}

#[test]
fn device_action_results() {
    assert!(ensure_action_rpc_result("click", Some(true)).is_ok());
    assert!(ensure_action_rpc_result("click", None).is_ok());
    match ensure_action_rpc_result("click", Some(false)) {
        Err(Error::JsonRpc(m)) => assert_eq!(m, "click returned false (action failed)"),
        other => panic!("unexpected {:?}", other),
    }
}

#[test]
fn input_swipe_command_and_outcome() {
    assert_eq!(
        input_swipe_command(10, 20, Duration::from_millis(30)),
        "input swipe 10 20 10 20 100"
    );
    assert_eq!(
        input_swipe_command(1, 2, Duration::from_millis(1500)),
        "input swipe 1 2 1 2 1500"
    );
    assert!(input_swipe_outcome("").is_ok());
    assert!(input_swipe_outcome("some chatter").is_ok());
    match input_swipe_outcome("  Error: Unknown command  ") {
        Err(Error::Adb(m)) => assert_eq!(m, "input swipe failed: Error: Unknown command"),
        other => panic!("unexpected {:?}", other),
    }
}

#[test]
fn polling_interval_zero_means_default() {
    assert_eq!(
        polling_interval_or_default(Duration::from_millis(0)),
        Duration::from_millis(500)
    );
    assert_eq!(
        polling_interval_or_default(Duration::from_millis(80)),
        Duration::from_millis(80)
    );
}

#[test]
fn atx_client_errors_are_classified() {
    let offline = Error::Adb("device offline".to_string());
    assert!(matches!(
        atx_client_creation_error("s1", &offline),
        Error::DeviceOffline(s) if s == "s1"
    ));
    let other = Error::Adb("port in use".to_string());
    match atx_client_creation_error("s1", &other) {
        Error::DeviceConnection(m) => {
            assert!(m.starts_with("创建 ATX-Agent 客户端失败: ADB 命令执行失败: port in use。"));
            assert!(m.contains("--serial s1 --force"));
        }
        e => panic!("unexpected {:?}", e),
    }
}

#[test]
fn exit_marker_echoed_after_output_is_read_back() {
    for code in [0i32, 1, -5, 255, i32::MIN] {
        let raw = format!("Starting: Intent\nline two\n__U2_APP_START_EXIT_CODE__:{}\n", code);
        let (exit_code, cleaned) =
            parse_shell_output_with_exit_code(&raw, "__U2_APP_START_EXIT_CODE__:");
        assert_eq!(exit_code, Some(code));
        assert_eq!(cleaned, "Starting: Intent\nline two");
    }
    let (exit_code, cleaned) =
        parse_shell_output_with_exit_code("__U2_APP_START_EXIT_CODE__:7\n", "__U2_APP_START_EXIT_CODE__:");
    assert_eq!(exit_code, Some(7));
    assert_eq!(cleaned, "");
}

#[test]
fn qualified_activity_is_stable() {
    let once = qualify_activity("com.a", ".Main");
    assert_eq!(qualify_activity("com.a", &once), once);
}

#[test]
fn failure_reason_is_at_most_243_characters() {
    let long = "y".repeat(1000);
    assert_eq!(extract_app_start_failure_reason(&long).chars().count(), 243);
}

#[test]
fn long_click_falls_back_step_by_step() {
    assert!(matches!(long_click_after_rpc(Ok(Some(true))), GestureStep::Done(Ok(()))));
    assert!(matches!(long_click_after_rpc(Ok(None)), GestureStep::Done(Ok(()))));
    assert!(matches!(
        long_click_after_rpc(Ok(Some(false))),
        GestureStep::Done(Err(Error::JsonRpc(m))) if m == "longClick returned false (action failed)"
    ));
    let missing = Error::JsonRpc("Method not found".to_string());
    assert!(matches!(long_click_after_rpc(Err(missing)), GestureStep::Fallback));
    let params = Error::JsonRpc("-32602 invalid params".to_string());
    assert!(matches!(long_click_after_rpc(Err(params)), GestureStep::Fallback));
    assert!(matches!(
        long_click_after_rpc(Err(Error::HttpTimeout)),
        GestureStep::Done(Err(Error::HttpTimeout))
    ));
    assert!(matches!(long_click_after_input(Ok(())), GestureStep::Done(Ok(()))));
    assert!(matches!(
        long_click_after_input(Err(Error::Adb("x".to_string()))),
        GestureStep::Fallback
    ));
    assert!(long_click_after_swipe(Ok(Some(true))).is_ok());
    assert!(matches!(
        long_click_after_swipe(Ok(Some(false))),
        Err(Error::JsonRpc(m)) if m == "swipe returned false (action failed)"
    ));
    assert!(matches!(long_click_after_swipe(Err(Error::Timeout)), Err(Error::Timeout)));
}

#[test]
fn double_click_and_screenshot_fallbacks() {
    assert!(matches!(double_click_after_rpc(Ok(())), GestureStep::Done(Ok(()))));
    let missing = Error::JsonRpc("unknown method doubleClick".to_string());
    assert!(matches!(double_click_after_rpc(Err(missing)), GestureStep::Fallback));
    let params = Error::JsonRpc("invalid params".to_string());
    assert!(matches!(
        double_click_after_rpc(Err(params)),
        GestureStep::Done(Err(Error::JsonRpc(_)))
    ));
    assert!(screenshot_fallback(Error::JsonRpc("not implemented".to_string())).is_ok());
    assert!(matches!(screenshot_fallback(Error::Timeout), Err(Error::Timeout)));
}

#[test]
fn deadlines_and_cache_freshness() {
    assert!(uiautomator::device::deadline_reached(Duration::from_secs(2), Duration::from_secs(2)));
    assert!(!uiautomator::device::deadline_reached(Duration::from_millis(1999), Duration::from_secs(2)));
    assert!(uiautomator::device::cache_is_fresh(Duration::from_secs(2), Duration::from_secs(2)));
    assert!(!uiautomator::device::cache_is_fresh(Duration::from_millis(2001), Duration::from_secs(2)));
}

fn sample_device_info(width: u32) -> DeviceInfo {
    DeviceInfo {
        display_width: width,
        display_height: 2400,
        display_rotation: 0,
        current_package_name: "com.example.settings".to_string(),
        sdk_int: 33,
        screen_on: true,
        natural_orientation: true,
    }
}

#[test]
fn connect_step_routes_each_mode() {
    assert_eq!(connect_step(ServerMode::Direct, false), ConnectStep::Direct);
    assert_eq!(connect_step(ServerMode::Direct, true), ConnectStep::Direct);
    assert_eq!(connect_step(ServerMode::AtxAgent, false), ConnectStep::AtxAgent);
    assert_eq!(connect_step(ServerMode::AtxAgent, true), ConnectStep::GiveUp);
    assert_eq!(connect_step(ServerMode::Auto, false), ConnectStep::AtxAgent);
    assert_eq!(connect_step(ServerMode::Auto, true), ConnectStep::Direct);
}

#[test]
fn info_cache_is_off_by_default() {
    let mut cache: InfoCache<u32> = InfoCache::new();
    assert_eq!(cache.ttl(), None);
    cache.store(sample_device_info(1080), 1);
    assert!(cache.stamp().is_none());
    assert!(cache.lookup(Duration::from_secs(0)).is_none());
}

#[test]
fn info_cache_serves_stored_value_within_ttl() {
    let mut cache: InfoCache<u32> = InfoCache::new();
    cache.set_ttl(Duration::from_secs(5));
    assert!(cache.lookup(Duration::from_secs(0)).is_none());
    cache.store(sample_device_info(1080), 7);
    assert_eq!(cache.stamp(), Some(&7));
    let first = cache.lookup(Duration::from_secs(1)).expect("fresh value");
    assert_eq!(first.display_width, 1080);
    let second = cache.lookup(Duration::from_secs(5)).expect("still fresh at the lifetime");
    assert_eq!(second.display_width, 1080);
}

#[test]
fn info_cache_expires_after_ttl() {
    let mut cache: InfoCache<u32> = InfoCache::new();
    cache.set_ttl(Duration::from_millis(10));
    cache.store(sample_device_info(1080), 0);
    assert!(cache.lookup(Duration::from_millis(30)).is_none());
}

#[test]
fn info_cache_clear_forces_refetch() {
    let mut cache: InfoCache<u32> = InfoCache::new();
    cache.set_ttl(Duration::from_secs(5));
    cache.store(sample_device_info(1080), 0);
    cache.clear();
    assert!(cache.lookup(Duration::from_secs(0)).is_none());
    assert_eq!(cache.ttl(), Some(Duration::from_secs(5)));
    cache.store(sample_device_info(720), 1);
    assert_eq!(cache.lookup(Duration::from_secs(0)).map(|i| i.display_width), Some(720));
}

#[test]
fn info_cache_disable_turns_off_cache() {
    let mut cache: InfoCache<u32> = InfoCache::new();
    cache.set_ttl(Duration::from_secs(5));
    cache.store(sample_device_info(1080), 0);
    cache.disable();
    assert!(cache.lookup(Duration::from_secs(0)).is_none());
    cache.store(sample_device_info(1080), 1);
    assert!(cache.lookup(Duration::from_secs(0)).is_none());
    assert_eq!(cache.ttl(), None);
}

#[test]
fn info_cache_new_ttl_drops_value() {
    let mut cache: InfoCache<u32> = InfoCache::new();
    cache.set_ttl(Duration::from_secs(5));
    cache.store(sample_device_info(1080), 0);
    cache.set_ttl(Duration::from_secs(9));
    assert!(cache.lookup(Duration::from_secs(0)).is_none());
}
