use uiautomator::atx_agent::{
    apk_install_outcome, candidate_labels_for_abi, checksum_matches, file_exists_from_output,
    is_plausible_version, is_usable_binary, md5_from_output, parse_abi_list,
    parse_version_response, select_binaries_for_abis, verify_version_output, version_from_probe,
    AtxDeviceInfo, UiAutomatorStatus,
};
use uiautomator::error::Error;

#[test]
fn test_parse_version_response_json_object() {
    let version = parse_version_response(r#"{"version":"0.10.0"}"#).unwrap();
    assert_eq!(version, "0.10.0");
}

#[test]
fn test_parse_version_response_plain_text() {
    let version = parse_version_response("0.10.0\n").unwrap();
    assert_eq!(version, "0.10.0");
}

#[test]
fn test_parse_version_response_empty_body() {
    let err = parse_version_response("  ").unwrap_err();
    assert!(matches!(err, Error::JsonRpc(_)));
}

#[test]
fn test_parse_version_response_invalid_plain_text() {
    let err = parse_version_response("service ready").unwrap_err();
    assert!(matches!(err, Error::JsonRpc(_)));
}

#[test]
fn test_parse_version_response_invalid_json_version() {
    let err = parse_version_response(r#"{"version":"service ready"}"#).unwrap_err();
    assert!(matches!(err, Error::JsonRpc(_)));
}

#[test]
fn test_candidate_labels_for_x86_64_prefers_amd64_then_386() {
    assert_eq!(
        candidate_labels_for_abi("x86_64"),
        vec!["amd64".to_string(), "386".to_string(), "legacy".to_string()]
    );
}

#[test]
fn version_as_json_string_value() {
    assert_eq!(parse_version_response("\"v1.2\"").unwrap(), "v1.2");
    match parse_version_response("{\"version\": 3}") {
        Err(Error::JsonRpc(m)) => assert_eq!(m, "版本响应格式无效: {\"version\": 3}"),
        other => panic!("unexpected {:?}", other),
    }
    match parse_version_response("  ") {
        Err(Error::JsonRpc(m)) => assert_eq!(m, "版本响应为空"),
        other => panic!("unexpected {:?}", other),
    }
}

#[test]
fn version_from_probe_uses_the_probe_first() {
    assert_eq!(
        version_from_probe("{...}", Some("1.0".to_string())).unwrap(),
        "1.0"
    );
    assert_eq!(version_from_probe("2.0-rc1", None).unwrap(), "2.0-rc1");
    assert!(version_from_probe("2.0", Some("ready".to_string())).is_err());
}

#[test]
fn plausible_versions() {
    assert!(is_plausible_version("0.10.0"));
    assert!(is_plausible_version(" vv1.2.3-beta+build_7 "));
    assert!(!is_plausible_version("v"));
    assert!(!is_plausible_version("10"));
    assert!(!is_plausible_version("1.0 beta"));
    assert!(!is_plausible_version("a.b"));
}

#[test]
fn labels_for_each_abi_family() {
    assert_eq!(candidate_labels_for_abi("arm64-v8a"), vec!["arm64", "legacy"]);
    assert_eq!(candidate_labels_for_abi("armeabi"), vec!["armv7", "legacy"]);
    assert_eq!(candidate_labels_for_abi("i686"), vec!["386", "legacy"]);
    assert!(candidate_labels_for_abi("mips").is_empty());
}

#[test]
fn binaries_are_chosen_once_and_only_when_usable() {
    let abis = vec!["x86_64".to_string(), "x86".to_string()];
    let usable = vec!["386".to_string(), "legacy".to_string(), "amd64".to_string()];
    assert_eq!(
        select_binaries_for_abis(&abis, &usable),
        vec!["amd64".to_string(), "386".to_string(), "legacy".to_string()]
    );
    let only_legacy = vec!["legacy".to_string()];
    let unknown = vec!["mips".to_string()];
    assert_eq!(
        select_binaries_for_abis(&unknown, &only_legacy),
        vec!["legacy".to_string()]
    );
    let none: Vec<String> = vec![];
    assert!(select_binaries_for_abis(&abis, &none).is_empty());
}

#[test]
fn usable_binaries_need_bytes_and_a_checksum() {
    assert!(is_usable_binary(10, "abc"));
    assert!(!is_usable_binary(0, "abc"));
    assert!(!is_usable_binary(10, "placeholder"));
}

#[test]
fn abi_list_is_split_and_trimmed() {
    assert_eq!(
        parse_abi_list(" arm64-v8a, armeabi-v7a ,,armeabi\n"),
        vec!["arm64-v8a", "armeabi-v7a", "armeabi"]
    );
    assert!(parse_abi_list("   ").is_empty());
    assert_eq!(parse_abi_list("x86"), vec!["x86"]);
}

#[test]
fn md5_is_the_first_word() {
    assert_eq!(
        md5_from_output("d41d8cd98f00b204e9800998ecf8427e  /data/local/tmp/atx-agent\n").unwrap(),
        "d41d8cd98f00b204e9800998ecf8427e"
    );
    match md5_from_output(" \n ") {
        Err(Error::Adb(m)) => assert_eq!(m, "无法解析 MD5 输出"),
        other => panic!("unexpected {:?}", other),
    }
}

#[test]
fn install_probe_outputs() {
    assert!(file_exists_from_output(" exists\n"));
    assert!(!file_exists_from_output("not_exists"));
    let md5s = vec!["aaa".to_string(), "bbb".to_string()];
    assert!(checksum_matches(&md5s, "bbb"));
    assert!(!checksum_matches(&md5s, "ccc"));
}

#[test]
fn version_output_checks() {
    assert!(verify_version_output("arm64", "0.10.0\n").is_ok());
    match verify_version_output("arm64", "exec format error") {
        Err(Error::Adb(m)) => assert_eq!(
            m,
            "binary 'arm64' verification output is invalid: exec format error"
        ),
        other => panic!("unexpected {:?}", other),
    }
    assert!(verify_version_output("arm64", "dev").is_err());
    assert!(verify_version_output("arm64", "").is_err());
    let long = "9".repeat(250) + " error";
    match verify_version_output("x", &long) {
        Err(Error::Adb(m)) => assert_eq!(
            m,
            format!("binary 'x' verification output is invalid: {}", "9".repeat(200))
        ),
        other => panic!("unexpected {:?}", other),
    }
}

#[test]
fn apk_install_needs_success() {
    assert!(apk_install_outcome("a.apk", "Performing Streamed Install\nSuccess").is_ok());
    match apk_install_outcome("a.apk", "Failure [X]") {
        Err(Error::Adb(m)) => assert_eq!(m, "安装 a.apk 失败: Failure [X]"),
        other => panic!("unexpected {:?}", other),
    }
}

#[test]
fn atx_models_hold_their_values() {
    let info = AtxDeviceInfo {
        udid: "demo-udid".to_string(),
        serial: "emulator-5554".to_string(),
        brand: "google".to_string(),
        model: "sdk_gphone64_x86_64".to_string(),
        hwaddr: "00:00:00:00:00:00".to_string(),
        agent_version: "0.10.0".to_string(),
    };
    assert_eq!(info.serial, "emulator-5554");
    let status = UiAutomatorStatus { running: true };
    assert!(status.clone().running);
}

#[test]
fn single_abi_keeps_the_trimmed_value() {
    assert_eq!(
        uiautomator::atx_agent::single_abi("  x86_64\n"),
        Some("x86_64".to_string())
    );
    assert_eq!(
        uiautomator::atx_agent::single_abi(" arm64-v8a,armeabi "),
        Some("arm64-v8a,armeabi".to_string())
    );
    assert_eq!(uiautomator::atx_agent::single_abi(" \n"), None);
}
