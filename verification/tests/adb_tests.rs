use uiautomator::adb::AdbClient;

#[test]
fn test_decode_shell_output_plain_text() {
    let raw = b"hello\n";
    let decoded = AdbClient::decode_shell_output(raw).expect("decode should succeed");
    assert_eq!(decoded, "hello\n");
}

#[test]
fn test_decode_shell_output_shell_v2_stdout_exit() {
    // stdout "28\n" + exit code 0
    let raw = vec![1, 3, 0, 0, 0, b'2', b'8', b'\n', 3, 1, 0, 0, 0, 0];

    let decoded = AdbClient::decode_shell_output(&raw).expect("decode should succeed");
    assert_eq!(decoded, "28\n");
}

#[test]
fn test_decode_shell_output_shell_v2_with_stderr() {
    // stdout "ok\n" + stderr "warn\n" + exit code 0
    let raw = vec![
        1, 3, 0, 0, 0, b'o', b'k', b'\n', 2, 5, 0, 0, 0, b'w', b'a', b'r', b'n', b'\n', 3, 1, 0, 0,
        0, 0,
    ];

    let decoded = AdbClient::decode_shell_output(&raw).expect("decode should succeed");
    assert_eq!(decoded, "ok\nwarn\n");
}

#[test]
fn test_try_decode_shell_v2_invalid_stream_returns_none() {
    let raw = vec![1, 10, 0, 0, 0, b'a'];
    assert!(AdbClient::try_decode_shell_v2(&raw).is_none());
}

#[test]
fn shell_v2_round_trip_of_encoded_packets() {
    // stdout "ab", stderr "c", exit 2: stderr follows stdout on a line of its own.
    let raw = vec![1, 2, 0, 0, 0, b'a', b'b', 2, 1, 0, 0, 0, b'c', 3, 1, 0, 0, 0, 2];
    assert_eq!(AdbClient::try_decode_shell_v2(&raw), Some(b"ab\nc".to_vec()));
}

#[test]
fn shell_v2_empty_stream_is_not_shell_v2() {
    assert!(AdbClient::try_decode_shell_v2(&[]).is_none());
}

#[test]
fn shell_v2_unknown_packet_kind_is_refused() {
    let raw = vec![9, 1, 0, 0, 0, b'x'];
    assert!(AdbClient::try_decode_shell_v2(&raw).is_none());
}

#[test]
fn decode_shell_output_invalid_utf8_fails() {
    let raw = vec![0xff, 0xfe, 0x41];
    assert!(AdbClient::decode_shell_output(&raw).is_err());
}

#[test]
fn unchecked_client_can_be_made() {
    let _client = AdbClient::unchecked();
}
