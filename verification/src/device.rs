//! The decisions a device session makes around its ADB shell commands and
//! JSON-RPC calls: name checks, the reading of `am`, `pm`, `pidof` and
//! `dumpsys` output, and the classification of failures.
use vstd::prelude::*;

use std::time::Duration;

use crate::duration::{duration_as_millis, duration_nanos};
use crate::error::Error;
use crate::models::DeviceInfo;
use crate::json::{json_u32, push_decimal_u128, push_json_u32};
use crate::number::{parse_i32, parse_i32_spec, parse_u32, parse_u32_spec};
use crate::text::{
    chars_of, contains_str, first_word, first_word_chars, lemma_trim_idempotent, lines, lines_of, lower_chars, push_chars,
    push_str, seq_contains, seq_starts_with, slice_chars, starts_with_chars, starts_with_str,
    string_of, string_of_range, trim, trim_chars, trim_start, trim_start_chars,
    unicode_lowercase,
};

verus! {

/// How the library talks to the device-side service.
#[derive(Debug, Clone, Copy, PartialEq, Eq, Structural)]
pub enum ServerMode {
    /// Straight to the UiAutomator server through a forwarded port.
    Direct,
    /// Through the ATX-Agent daemon.
    AtxAgent,
    /// ATX-Agent first, `Direct` when it is not available.
    Auto,
}

/// The lower-cased text names a device that went away or was refused.
pub open spec fn is_likely_device_offline_spec(text: Seq<char>) -> bool {
    let l = unicode_lowercase(text);
    ||| seq_contains(l, "device offline"@)
    ||| seq_contains(l, "is offline"@)
    ||| seq_contains(l, "device not found"@)
    ||| seq_contains(l, "closed"@)
    ||| seq_contains(l, "broken pipe"@)
    ||| seq_contains(l, "transport error"@)
    ||| seq_contains(l, "device unauthorized"@)
    ||| seq_contains(l, "unauthorized"@)
}

/// Whether an error text says that the device is offline, gone or not
/// authorized.
pub fn is_likely_device_offline_text(text: &str) -> (r: bool)
    ensures
        r == is_likely_device_offline_spec(text@),
{
    let t = chars_of(text);
    let l = lower_chars(&t);
    contains_str(&l, "device offline") || contains_str(&l, "is offline") || contains_str(
        &l,
        "device not found",
    ) || contains_str(&l, "closed") || contains_str(&l, "broken pipe") || contains_str(
        &l,
        "transport error",
    ) || contains_str(&l, "device unauthorized") || contains_str(&l, "unauthorized")
}

/// The advice given when the ATX-Agent daemon is missing on `serial`.
pub open spec fn atx_agent_init_guidance_spec(serial: Seq<char>) -> Seq<char> {
    "请先初始化设备端 ATX-Agent：`uiautomator init --serial "@ + serial
        + " --force`。若从源码运行 CLI，请执行：`cd uiautomator-cli && cargo run -- init --serial "@
        + serial + " --force`。"@
}

/// The command lines that set up the ATX-Agent daemon on `serial`.
pub fn atx_agent_init_guidance(serial: &str) -> (r: String)
    ensures
        r@ == atx_agent_init_guidance_spec(serial@),
{
    let mut out = String::new();
    push_str(&mut out, "请先初始化设备端 ATX-Agent：`uiautomator init --serial ");
    push_str(&mut out, serial);
    push_str(
        &mut out,
        " --force`。若从源码运行 CLI，请执行：`cd uiautomator-cli && cargo run -- init --serial ",
    );
    push_str(&mut out, serial);
    push_str(&mut out, " --force`。");
    assert(out@ =~= atx_agent_init_guidance_spec(serial@));
    out
}

/// An ASCII letter or `_`.
pub open spec fn is_ident_start(c: char) -> bool {
    ('a' <= c <= 'z') || ('A' <= c <= 'Z') || c == '_'
}

/// An ASCII letter, digit or `_`.
pub open spec fn is_ident_char(c: char) -> bool {
    is_ident_start(c) || ('0' <= c <= '9')
}

/// Position `i` begins a dot-separated segment of `s`.
pub open spec fn starts_segment(s: Seq<char>, i: int) -> bool {
    i == 0 || s[i - 1] == '.'
}

/// A package name: at most 255 characters, two or more dot-separated
/// segments, each a letter or `_` followed by letters, digits or `_`.
pub open spec fn is_valid_package_name_spec(s: Seq<char>) -> bool {
    &&& 1 <= s.len() <= 255
    &&& forall|i: int| 0 <= i < s.len() ==> is_ident_char(#[trigger] s[i]) || s[i] == '.'
    &&& forall|i: int|
        0 <= i <= s.len() && #[trigger] starts_segment(s, i) ==> i < s.len() && is_ident_start(
            s[i],
        )
    &&& exists|i: int| 0 <= i < s.len() && #[trigger] s[i] == '.'
}

/// An activity name: 1 to 255 letters, digits, `_`, `.` or `$`.
pub open spec fn is_valid_activity_name_spec(s: Seq<char>) -> bool {
    &&& 1 <= s.len() <= 255
    &&& forall|i: int|
        0 <= i < s.len() ==> is_ident_char(#[trigger] s[i]) || s[i] == '.' || s[i] == '$'
}

fn is_ident_start_exec(c: char) -> (r: bool)
    ensures
        r == is_ident_start(c),
{
    ('a' <= c && c <= 'z') || ('A' <= c && c <= 'Z') || c == '_'
}

fn is_ident_char_exec(c: char) -> (r: bool)
    ensures
        r == is_ident_char(c),
{
    is_ident_start_exec(c) || ('0' <= c && c <= '9')
}

/// Whether `package` is a well-formed Android package name.
///
/// The length limit of 255 is one of bytes; every accepted character is
/// ASCII, so it is one of characters too.
pub fn is_valid_package_name(package: &str) -> (r: bool)
    ensures
        r == is_valid_package_name_spec(package@),
{
    let v = chars_of(package);
    let n = v.len();
    if n == 0 || n > 255 {
        return false;
    }
    let mut seg_start = true;
    let mut has_dot = false;
    let mut i: usize = 0;
    while i < n
        invariant
            n == v@.len(),
            1 <= n <= 255,
            i <= n,
            v@ == package@,
            seg_start == starts_segment(v@, i as int),
            has_dot == (exists|j: int| 0 <= j < i && #[trigger] v@[j] == '.'),
            forall|j: int| 0 <= j < i ==> is_ident_char(#[trigger] v@[j]) || v@[j] == '.',
            forall|j: int|
                0 <= j < i && #[trigger] starts_segment(v@, j) ==> is_ident_start(v@[j]),
        decreases n - i,
    {
        let c = v[i];
        if c == '.' {
            if seg_start {
                assert(starts_segment(v@, i as int));
                return false;
            }
            has_dot = true;
            seg_start = true;
        } else if seg_start {
            if !is_ident_start_exec(c) {
                assert(starts_segment(v@, i as int));
                return false;
            }
            seg_start = false;
        } else {
            if !is_ident_char_exec(c) {
                return false;
            }
        }
        i = i + 1;
    }
    if seg_start {
        assert(starts_segment(v@, n as int));
        return false;
    }
    if !has_dot {
        return false;
    }
    assert forall|j: int| 0 <= j <= v@.len() && #[trigger] starts_segment(v@, j) implies j
        < v@.len() && is_ident_start(v@[j]) by {}
    true
}

/// Whether `activity` is a well-formed activity name.
pub fn is_valid_activity_name(activity: &str) -> (r: bool)
    ensures
        r == is_valid_activity_name_spec(activity@),
{
    let v = chars_of(activity);
    let n = v.len();
    if n == 0 || n > 255 {
        return false;
    }
    let mut i: usize = 0;
    while i < n
        invariant
            n == v@.len(),
            i <= n,
            v@ == activity@,
            forall|j: int|
                0 <= j < i ==> is_ident_char(#[trigger] v@[j]) || v@[j] == '.' || v@[j] == '$',
        decreases n - i,
    {
        let c = v[i];
        if !(is_ident_char_exec(c) || c == '.' || c == '$') {
            return false;
        }
        i = i + 1;
    }
    true
}

/// The text of the error for a refused package name.
pub open spec fn invalid_package_message(package: Seq<char>) -> Seq<char> {
    "鏃犳晥鐨勫寘鍚? "@ + package
}

/// The text of the error for a refused activity name.
pub open spec fn invalid_activity_message(activity: Seq<char>) -> Seq<char> {
    "鏃犳晥鐨?Activity 鍚? "@ + activity
}

/// `Ok` for a well-formed package name, else `InvalidArgument`.
pub fn ensure_valid_package_name(package: &str) -> (r: Result<(), Error>)
    ensures
        r is Ok <==> is_valid_package_name_spec(package@),
        r matches Err(e) ==> e matches Error::InvalidArgument(m) && m@ == invalid_package_message(
            package@,
        ),
{
    if is_valid_package_name(package) {
        return Ok(());
    }
    let mut m = String::new();
    push_str(&mut m, "鏃犳晥鐨勫寘鍚? ");
    push_str(&mut m, package);
    Err(Error::InvalidArgument(m))
}

/// `Ok` for a well-formed activity name, else `InvalidArgument`.
pub fn ensure_valid_activity_name(activity: &str) -> (r: Result<(), Error>)
    ensures
        r is Ok <==> is_valid_activity_name_spec(activity@),
        r matches Err(e) ==> e matches Error::InvalidArgument(m) && m@
            == invalid_activity_message(activity@),
{
    if is_valid_activity_name(activity) {
        return Ok(());
    }
    let mut m = String::new();
    push_str(&mut m, "鏃犳晥鐨?Activity 鍚? ");
    push_str(&mut m, activity);
    Err(Error::InvalidArgument(m))
}

/// The exit code that a marker line carries: the trimmed line is `marker`
/// followed by a decimal `i32`.
pub open spec fn marker_exit_code(line: Seq<char>, marker: Seq<char>) -> Option<i32> {
    let t = trim(line);
    if seq_starts_with(t, marker) {
        parse_i32_spec(t.skip(marker.len() as int))
    } else {
        None
    }
}

/// The exit code of the last marker line among `ls`.
pub open spec fn last_exit_code(ls: Seq<Seq<char>>, marker: Seq<char>) -> Option<i32>
    decreases ls.len(),
{
    if ls.len() == 0 {
        None
    } else {
        match marker_exit_code(ls.last(), marker) {
            Some(c) => Some(c),
            None => last_exit_code(ls.drop_last(), marker),
        }
    }
}

/// The lines of `ls` that are not marker lines, in order.
pub open spec fn kept_lines(ls: Seq<Seq<char>>, marker: Seq<char>) -> Seq<Seq<char>>
    decreases ls.len(),
{
    if ls.len() == 0 {
        Seq::empty()
    } else {
        let rest = kept_lines(ls.drop_last(), marker);
        if marker_exit_code(ls.last(), marker) is None {
            rest.push(ls.last())
        } else {
            rest
        }
    }
}

/// The lines joined with `'\n'` between them.
pub open spec fn join_lines(ls: Seq<Seq<char>>) -> Seq<char>
    decreases ls.len(),
{
    if ls.len() == 0 {
        Seq::empty()
    } else if ls.len() == 1 {
        ls[0]
    } else {
        join_lines(ls.drop_last()) + seq!['\n'] + ls.last()
    }
}

/// Splits shell output into the exit code that the last marker line
/// carries and the other lines, joined and trimmed.
pub fn parse_shell_output_with_exit_code(output: &str, exit_marker: &str) -> (r: (
    Option<i32>,
    String,
))
    ensures
        r.0 == last_exit_code(lines(output@), exit_marker@),
        r.1@ == trim(join_lines(kept_lines(lines(output@), exit_marker@))),
{
    let ov = chars_of(output);
    let mv = chars_of(exit_marker);
    let ls = lines_of(&ov);
    let ghost all = lines(output@);
    let mut code: Option<i32> = None;
    let mut joined: Vec<char> = Vec::new();
    let mut kept: usize = 0;
    let mut k: usize = 0;
    while k < ls.len()
        invariant
            k <= ls@.len(),
            ls@.len() == all.len(),
            all == lines(ov@),
            ov@ == output@,
            mv@ == exit_marker@,
            forall|j: int| 0 <= j < ls@.len() ==> (#[trigger] ls@[j])@ == all[j],
            code == last_exit_code(all.take(k as int), mv@),
            joined@ == join_lines(kept_lines(all.take(k as int), mv@)),
            kept == kept_lines(all.take(k as int), mv@).len(),
            kept <= k,
        decreases ls@.len() - k,
    {
        let line = &ls[k];
        let t = trim_chars(line);
        let mut this_code: Option<i32> = None;
        if starts_with_chars(&t, &mv) {
            let rest = slice_chars(&t, mv.len(), t.len());
            assert(rest@ =~= t@.skip(mv@.len() as int));
            this_code = parse_i32(&rest);
        }
        assert(this_code == marker_exit_code(all[k as int], mv@));
        assert(all.take(k + 1).drop_last() =~= all.take(k as int));
        assert(all.take(k + 1).last() == all[k as int]);
        match this_code {
            Some(c) => {
                code = Some(c);
            },
            None => {
                let ghost before = kept_lines(all.take(k as int), mv@);
                if kept > 0 {
                    joined.push('\n');
                }
                let mut i: usize = 0;
                let ghost start = joined@;
                while i < line.len()
                    invariant
                        i <= line@.len(),
                        joined@ == start + line@.subrange(0, i as int),
                    decreases line@.len() - i,
                {
                    joined.push(line[i]);
                    i = i + 1;
                }
                assert(line@.subrange(0, line@.len() as int) =~= line@);
                assert(before.push(line@).drop_last() =~= before);
                kept = kept + 1;
            },
        }
        k = k + 1;
    }
    assert(all.take(ls@.len() as int) =~= all);
    let cleaned = trim_chars(&joined);
    (code, string_of(&cleaned))
}

/// Some line of `pm path` output starts with `package:` once its leading
/// whitespace is dropped.
pub open spec fn pm_path_has_package_spec(output: Seq<char>) -> bool {
    exists|k: int|
        0 <= k < lines(output).len() && seq_starts_with(
            trim_start(#[trigger] lines(output)[k]),
            "package:"@,
        )
}

/// Whether `pm path` output names an installed package.
pub fn pm_path_output_has_package(output: &str) -> (r: bool)
    ensures
        r == pm_path_has_package_spec(output@),
{
    let ov = chars_of(output);
    let ls = lines_of(&ov);
    let mut k: usize = 0;
    while k < ls.len()
        invariant
            k <= ls@.len(),
            ov@ == output@,
            ls@.len() == lines(output@).len(),
            forall|j: int| 0 <= j < ls@.len() ==> (#[trigger] ls@[j])@ == lines(output@)[j],
            forall|j: int|
                0 <= j < k ==> !seq_starts_with(
                    trim_start(#[trigger] lines(output@)[j]),
                    "package:"@,
                ),
        decreases ls@.len() - k,
    {
        let t = trim_start_chars(&ls[k]);
        if starts_with_str(&t, "package:") {
            assert(ls@[k as int]@ == lines(output@)[k as int]);
            return true;
        }
        k = k + 1;
    }
    false
}

/// A trimmed line of `am start` output that reports a failure.
pub open spec fn app_start_failure_text(t: Seq<char>) -> bool {
    &&& t.len() > 0
    &&& {
        ||| seq_starts_with(t, "Error:"@)
        ||| seq_starts_with(t, "Error type "@)
        ||| seq_starts_with(t, "Exception occurred while executing"@)
        ||| seq_contains(t, "java.lang.SecurityException"@)
        ||| seq_contains(t, "java.lang.IllegalArgumentException"@)
        ||| seq_contains(t, "Activity class"@)
        ||| seq_contains(t, "does not exist"@)
        ||| seq_contains(t, "Unable to resolve Intent"@)
        ||| seq_contains(t, "No activity found"@)
        ||| seq_contains(t, "No activities found to run"@)
    }
}

/// A line of `am start` output that reports a failure, once trimmed.
pub open spec fn is_app_start_failure_line_spec(line: Seq<char>) -> bool {
    app_start_failure_text(trim(line))
}

fn failure_line_chars(v: &Vec<char>) -> (r: bool)
    ensures
        r == is_app_start_failure_line_spec(v@),
{
    let t = trim_chars(v);
    if t.len() == 0 {
        return false;
    }
    starts_with_str(&t, "Error:") || starts_with_str(&t, "Error type ") || starts_with_str(
        &t,
        "Exception occurred while executing",
    ) || contains_str(&t, "java.lang.SecurityException") || contains_str(
        &t,
        "java.lang.IllegalArgumentException",
    ) || contains_str(&t, "Activity class") || contains_str(&t, "does not exist")
        || contains_str(&t, "Unable to resolve Intent") || contains_str(&t, "No activity found")
        || contains_str(&t, "No activities found to run")
}

/// Whether a line of `am start` output reports a failure.
pub fn is_app_start_failure_line(line: &str) -> (r: bool)
    ensures
        r == is_app_start_failure_line_spec(line@),
{
    let v = chars_of(line);
    failure_line_chars(&v)
}

/// At most `max` characters of `m`; a longer text is cut and `...` added.
pub open spec fn truncate_detail_spec(m: Seq<char>, max: nat) -> Seq<char> {
    if m.len() <= max {
        m
    } else {
        m.take(max as int) + "..."@
    }
}

fn truncate_chars(v: &Vec<char>, max_chars: usize) -> (r: String)
    ensures
        r@ == truncate_detail_spec(v@, max_chars as nat),
{
    if v.len() <= max_chars {
        return string_of(v);
    }
    let mut s = string_of_range(v, 0, max_chars);
    push_str(&mut s, "...");
    assert(v@.subrange(0, max_chars as int) =~= v@.take(max_chars as int));
    s
}

/// `message`, cut to `max_chars` characters with `...` added when longer.
pub fn truncate_error_detail(message: &str, max_chars: usize) -> (r: String)
    ensures
        r@ == truncate_detail_spec(message@, max_chars as nat),
{
    let v = chars_of(message);
    truncate_chars(&v, max_chars)
}

/// The first failure line among `ls`, trimmed.
pub open spec fn first_failure_line(ls: Seq<Seq<char>>) -> Option<Seq<char>>
    decreases ls.len(),
{
    if ls.len() == 0 {
        None
    } else if is_app_start_failure_line_spec(ls[0]) {
        Some(trim(ls[0]))
    } else {
        first_failure_line(ls.drop_first())
    }
}

/// The text used when `am start` failed without saying why.
pub open spec fn silent_start_failure_text() -> Seq<char> {
    "am start 失败，但没有可用错误输出"@
}

/// The reason of an `am start` failure: its first failure line, else the
/// whole trimmed output, cut to 240 characters.
pub open spec fn extract_reason_spec(output: Seq<char>) -> Seq<char> {
    match first_failure_line(lines(output)) {
        Some(l) => truncate_detail_spec(l, 240),
        None => if trim(output).len() == 0 {
            silent_start_failure_text()
        } else {
            truncate_detail_spec(trim(output), 240)
        },
    }
}

/// Picks the reason of an `am start` failure out of its output.
pub fn extract_app_start_failure_reason(output: &str) -> (r: String)
    ensures
        r@ == extract_reason_spec(output@),
{
    let ov = chars_of(output);
    let ls = lines_of(&ov);
    let ghost all = lines(output@);
    assert(all.skip(0) =~= all);
    let mut k: usize = 0;
    while k < ls.len()
        invariant
            k <= ls@.len(),
            ov@ == output@,
            all == lines(output@),
            ls@.len() == all.len(),
            forall|j: int| 0 <= j < ls@.len() ==> (#[trigger] ls@[j])@ == all[j],
            first_failure_line(all) == first_failure_line(all.skip(k as int)),
        decreases ls@.len() - k,
    {
        assert(all.skip(k as int)[0] == all[k as int]);
        assert(all.skip(k as int).drop_first() =~= all.skip(k + 1));
        let t = trim_chars(&ls[k]);
        proof {
            lemma_trim_idempotent(all[k as int]);
        }
        if failure_line_chars(&t) {
            return truncate_chars(&t, 240);
        }
        k = k + 1;
    }
    assert(all.skip(k as int) =~= Seq::<Seq<char>>::empty());
    let t = trim_chars(&ov);
    if t.len() == 0 {
        let mut s = String::new();
        push_str(&mut s, "am start 失败，但没有可用错误输出");
        assert(s@ =~= silent_start_failure_text());
        return s;
    }
    truncate_chars(&t, 240)
}

/// The lower-cased reason says that the package is not installed.
pub open spec fn reason_says_not_installed(reason: Seq<char>) -> bool {
    let l = unicode_lowercase(reason);
    ||| seq_contains(l, "unknown package"@)
    ||| seq_contains(l, "package not found"@)
    ||| seq_contains(l, "package was not found"@)
    ||| seq_contains(l, "is not installed for"@)
}

/// The lower-cased reason says that the application crashed.
pub open spec fn reason_says_crashed(reason: Seq<char>) -> bool {
    let l = unicode_lowercase(reason);
    ||| seq_contains(l, "fatal exception"@)
    ||| seq_contains(l, "has crashed"@)
    ||| seq_contains(l, "has stopped"@)
    ||| seq_contains(l, "force finishing activity"@)
    ||| seq_contains(l, "process crashed"@)
    ||| seq_contains(l, "anr in"@)
    ||| seq_contains(l, "application not responding"@)
}

/// `e` is the error for a failed start of `package` with this reason: not
/// installed, crashed, or a start failure that carries the reason.
pub open spec fn is_start_failure_error(e: Error, package: Seq<char>, reason: Seq<char>) -> bool {
    if reason_says_not_installed(reason) {
        e matches Error::AppNotInstalled(p) && p@ == package
    } else if reason_says_crashed(reason) {
        e matches Error::AppCrashed(p) && p@ == package
    } else {
        e matches Error::AppStartFailed(m) && m@ == package + ": "@ + reason
    }
}

/// The error for a failed start of `package`: not installed, crashed, or a
/// start failure that carries the reason.
pub fn classify_app_start_failure(package: &str, reason: &str) -> (r: Error)
    ensures
        is_start_failure_error(r, package@, reason@),
{
    let rv = chars_of(reason);
    let l = lower_chars(&rv);
    if contains_str(&l, "unknown package") || contains_str(&l, "package not found")
        || contains_str(&l, "package was not found") || contains_str(&l, "is not installed for") {
        let mut p = String::new();
        push_str(&mut p, package);
        assert(p@ =~= package@);
        return Error::AppNotInstalled(p);
    }
    if contains_str(&l, "fatal exception") || contains_str(&l, "has crashed") || contains_str(
        &l,
        "has stopped",
    ) || contains_str(&l, "force finishing activity") || contains_str(&l, "process crashed")
        || contains_str(&l, "anr in") || contains_str(&l, "application not responding") {
        let mut p = String::new();
        push_str(&mut p, package);
        assert(p@ =~= package@);
        return Error::AppCrashed(p);
    }
    let mut m = String::new();
    push_str(&mut m, package);
    push_str(&mut m, ": ");
    push_str(&mut m, reason);
    Error::AppStartFailed(m)
}

/// A trimmed line of `resolve-activity --brief` output that names a
/// component.
pub open spec fn is_component_line(t: Seq<char>) -> bool {
    &&& t.len() > 0
    &&& !seq_starts_with(t, "priority="@)
    &&& !seq_starts_with(t, "ResolveInfo"@)
    &&& seq_contains(t, "/"@)
}

/// The first line of `ls` that names a component, trimmed.
pub open spec fn first_component_line(ls: Seq<Seq<char>>) -> Option<Seq<char>>
    decreases ls.len(),
{
    if ls.len() == 0 {
        None
    } else if is_component_line(trim(ls[0])) {
        Some(trim(ls[0]))
    } else {
        first_component_line(ls.drop_first())
    }
}

/// The launchable component that `cmd package resolve-activity --brief`
/// printed, if any.
pub fn parse_resolved_activity_component(output: &str) -> (r: Option<String>)
    ensures
        r is Some <==> first_component_line(lines(output@)) is Some,
        r matches Some(c) ==> first_component_line(lines(output@)) == Some(c@),
{
    let ov = chars_of(output);
    let ls = lines_of(&ov);
    let ghost all = lines(output@);
    assert(all.skip(0) =~= all);
    let mut k: usize = 0;
    while k < ls.len()
        invariant
            k <= ls@.len(),
            ov@ == output@,
            all == lines(output@),
            ls@.len() == all.len(),
            forall|j: int| 0 <= j < ls@.len() ==> (#[trigger] ls@[j])@ == all[j],
            first_component_line(all) == first_component_line(all.skip(k as int)),
        decreases ls@.len() - k,
    {
        assert(all.skip(k as int)[0] == all[k as int]);
        assert(all.skip(k as int).drop_first() =~= all.skip(k + 1));
        let t = trim_chars(&ls[k]);
        if t.len() > 0 && !starts_with_str(&t, "priority=") && !starts_with_str(
            &t,
            "ResolveInfo",
        ) && contains_str(&t, "/") {
            return Some(string_of(&t));
        }
        k = k + 1;
    }
    assert(all.skip(k as int) =~= Seq::<Seq<char>>::empty());
    None
}

/// The error says that `cmd package resolve-activity` itself is missing
/// or refused on the device.
pub open spec fn resolve_command_unavailable_spec(e: Error) -> bool {
    match e {
        Error::AppStartFailed(m) => {
            let l = unicode_lowercase(m@);
            ||| seq_contains(l, "cmd: not found"@)
            ||| seq_contains(l, "cmd: inaccessible"@)
            ||| seq_contains(l, "inaccessible or not found"@)
            ||| seq_contains(l, "unknown command"@)
            ||| seq_contains(l, "can't find service"@)
            ||| seq_contains(l, "no service package"@)
            ||| seq_contains(l, "not supported"@)
            ||| seq_contains(l, "permission denied"@)
        },
        _ => false,
    }
}

/// Whether a failure to resolve the launch activity came from the command
/// being unavailable rather than from the package.
pub fn is_resolve_activity_command_unavailable_error(error: &Error) -> (r: bool)
    ensures
        r == resolve_command_unavailable_spec(*error),
{
    match error {
        Error::AppStartFailed(m) => {
            let v = chars_of(m.as_str());
            let l = lower_chars(&v);
            contains_str(&l, "cmd: not found") || contains_str(&l, "cmd: inaccessible")
                || contains_str(&l, "inaccessible or not found") || contains_str(
                &l,
                "unknown command",
            ) || contains_str(&l, "can't find service") || contains_str(
                &l,
                "no service package",
            ) || contains_str(&l, "not supported") || contains_str(&l, "permission denied")
        },
        _ => false,
    }
}

/// A JSON-RPC error saying that the method does not exist.
pub open spec fn method_unavailable_spec(e: Error) -> bool {
    match e {
        Error::JsonRpc(m) => {
            let l = unicode_lowercase(m@);
            ||| seq_contains(l, "-32601"@)
            ||| seq_contains(l, "method not found"@)
            ||| seq_contains(l, "unknown method"@)
            ||| seq_contains(l, "not implemented"@)
        },
        _ => false,
    }
}

/// A JSON-RPC error saying that the method's parameters were refused.
pub open spec fn method_params_invalid_spec(e: Error) -> bool {
    match e {
        Error::JsonRpc(m) => {
            let l = unicode_lowercase(m@);
            ||| seq_contains(l, "-32602"@)
            ||| seq_contains(l, "invalid params"@)
            ||| seq_contains(l, "method parameters invalid"@)
        },
        _ => false,
    }
}

/// Whether a JSON-RPC error says that the service lacks the method.
pub fn is_jsonrpc_method_unavailable_error(error: &Error) -> (r: bool)
    ensures
        r == method_unavailable_spec(*error),
{
    match error {
        Error::JsonRpc(m) => {
            let v = chars_of(m.as_str());
            let l = lower_chars(&v);
            contains_str(&l, "-32601") || contains_str(&l, "method not found") || contains_str(
                &l,
                "unknown method",
            ) || contains_str(&l, "not implemented")
        },
        _ => false,
    }
}

/// Whether a JSON-RPC error says that the parameters were refused.
pub fn is_jsonrpc_method_params_invalid_error(error: &Error) -> (r: bool)
    ensures
        r == method_params_invalid_spec(*error),
{
    match error {
        Error::JsonRpc(m) => {
            let v = chars_of(m.as_str());
            let l = lower_chars(&v);
            contains_str(&l, "-32602") || contains_str(&l, "invalid params") || contains_str(
                &l,
                "method parameters invalid",
            )
        },
        _ => false,
    }
}

/// The marker echoed after `resolve-activity` together with its exit status.
pub open spec fn resolve_exit_marker() -> Seq<char> {
    "__U2_RESOLVE_ACTIVITY_EXIT_CODE__:"@
}

/// The marker echoed after `am start` together with its exit status.
pub open spec fn start_exit_marker() -> Seq<char> {
    "__U2_APP_START_EXIT_CODE__:"@
}

/// The output of a marked shell command without its marker lines, trimmed.
pub open spec fn cleaned_output(raw: Seq<char>, marker: Seq<char>) -> Seq<char> {
    trim(join_lines(kept_lines(lines(raw), marker)))
}

/// The exit code of a marked shell command is known and not zero.
pub open spec fn nonzero_exit(raw: Seq<char>, marker: Seq<char>) -> bool {
    last_exit_code(lines(raw), marker) matches Some(c) && c != 0
}

/// The shell command that asks for the launchable activity of `package`.
pub fn resolve_activity_command(package: &str) -> (r: String)
    ensures
        r@ == "cmd package resolve-activity --brief "@ + package@ + " 2>&1; echo "@
            + resolve_exit_marker() + "$?"@,
{
    let mut out = String::new();
    push_str(&mut out, "cmd package resolve-activity --brief ");
    push_str(&mut out, package);
    push_str(&mut out, " 2>&1; echo ");
    push_str(&mut out, "__U2_RESOLVE_ACTIVITY_EXIT_CODE__:");
    push_str(&mut out, "$?");
    out
}

/// The reason given when no launch activity could be resolved.
pub open spec fn resolve_failure_reason(cleaned: Seq<char>) -> Seq<char> {
    "failed to resolve launch activity: "@ + extract_reason_spec(cleaned)
}

fn resolve_failure(package: &str, cleaned: &str) -> (r: Error)
    ensures
        is_start_failure_error(r, package@, resolve_failure_reason(cleaned@)),
{
    let reason = extract_app_start_failure_reason(cleaned);
    let mut detail = String::new();
    push_str(&mut detail, "failed to resolve launch activity: ");
    push_str(&mut detail, reason.as_str());
    classify_app_start_failure(package, detail.as_str())
}

/// Reads the output of `resolve_activity_command`: the component it
/// printed, or the classified failure.
pub fn resolve_activity_outcome(package: &str, raw_output: &str) -> (r: Result<String, Error>)
    ensures
        ({
            let cleaned = cleaned_output(raw_output@, resolve_exit_marker());
            &&& r is Ok <==> !nonzero_exit(raw_output@, resolve_exit_marker())
                && first_component_line(lines(cleaned)) is Some
            &&& r matches Ok(c) ==> first_component_line(lines(cleaned)) == Some(c@)
            &&& r matches Err(e) ==> is_start_failure_error(
                e,
                package@,
                resolve_failure_reason(cleaned),
            )
        }),
{
    let (code, output) = parse_shell_output_with_exit_code(
        raw_output,
        "__U2_RESOLVE_ACTIVITY_EXIT_CODE__:",
    );
    let nonzero = match code {
        Some(c) => c != 0,
        None => false,
    };
    if nonzero {
        return Err(resolve_failure(package, output.as_str()));
    }
    match parse_resolved_activity_component(output.as_str()) {
        Some(c) => Ok(c),
        None => Err(resolve_failure(package, output.as_str())),
    }
}

/// The checks made before starting an application: a well-formed package
/// name, and a well-formed activity name where one is given.
pub fn validate_app_start(package: &str, activity: Option<&str>) -> (r: Result<(), Error>)
    ensures
        r is Ok <==> is_valid_package_name_spec(package@) && (activity matches Some(a)
            ==> is_valid_activity_name_spec(a@)),
        r matches Err(e) ==> (if !is_valid_package_name_spec(package@) {
            e matches Error::InvalidArgument(m) && m@ == invalid_package_message(package@)
        } else {
            activity matches Some(a) && e matches Error::InvalidArgument(m) && m@
                == invalid_activity_message(a@)
        }),
{
    ensure_valid_package_name(package)?;
    match activity {
        Some(a) => ensure_valid_activity_name(a),
        None => Ok(()),
    }
}

/// The activity as a full class name: one that starts with `.` is taken
/// relative to the package.
pub open spec fn qualify_activity_spec(package: Seq<char>, activity: Seq<char>) -> Seq<char> {
    if seq_starts_with(activity, "."@) {
        package + activity
    } else {
        activity
    }
}

/// Qualifies a relative activity name with its package.
pub fn qualify_activity(package: &str, activity: &str) -> (r: String)
    ensures
        r@ == qualify_activity_spec(package@, activity@),
{
    let av = chars_of(activity);
    let mut out = String::new();
    if starts_with_str(&av, ".") {
        push_str(&mut out, package);
    }
    push_str(&mut out, activity);
    out
}

/// The `am start` command for an explicit activity of `package`.
pub fn explicit_start_command(package: &str, activity: &str) -> (r: String)
    ensures
        r@ == "am start -n "@ + package@ + "/"@ + qualify_activity_spec(package@, activity@),
{
    let full = qualify_activity(package, activity);
    let mut out = String::new();
    push_str(&mut out, "am start -n ");
    push_str(&mut out, package);
    push_str(&mut out, "/");
    push_str(&mut out, full.as_str());
    out
}

/// The `am start` command when no activity is given, from the outcome of
/// resolving the launch activity: the resolved component, or the package
/// alone where the resolve command itself is unavailable.
pub fn resolved_start_command(package: &str, resolved: Result<String, Error>) -> (r: Result<
    String,
    Error,
>)
    ensures
        match resolved {
            Ok(c) => r matches Ok(cmd) && cmd@ == "am start -n "@ + c@,
            Err(e) => if resolve_command_unavailable_spec(e) {
                r matches Ok(cmd) && cmd@ == "am start "@ + package@
            } else {
                r == Err::<String, Error>(e)
            },
        },
{
    match resolved {
        Ok(c) => {
            let mut out = String::new();
            push_str(&mut out, "am start -n ");
            push_str(&mut out, c.as_str());
            Ok(out)
        },
        Err(e) => {
            if is_resolve_activity_command_unavailable_error(&e) {
                let mut out = String::new();
                push_str(&mut out, "am start ");
                push_str(&mut out, package);
                Ok(out)
            } else {
                Err(e)
            }
        },
    }
}

/// The shell command that runs `am_start` and echoes its exit status after
/// the start marker.
pub fn app_start_shell_command(am_start: &str) -> (r: String)
    ensures
        r@ == am_start@ + "; echo "@ + start_exit_marker() + "$?"@,
{
    let mut out = String::new();
    push_str(&mut out, am_start);
    push_str(&mut out, "; echo ");
    push_str(&mut out, "__U2_APP_START_EXIT_CODE__:");
    push_str(&mut out, "$?");
    out
}

fn has_failure_line(output: &str) -> (r: bool)
    ensures
        r == first_failure_line(lines(output@)) is Some,
{
    let ov = chars_of(output);
    let ls = lines_of(&ov);
    let ghost all = lines(output@);
    assert(all.skip(0) =~= all);
    let mut k: usize = 0;
    while k < ls.len()
        invariant
            k <= ls@.len(),
            ov@ == output@,
            all == lines(output@),
            ls@.len() == all.len(),
            forall|j: int| 0 <= j < ls@.len() ==> (#[trigger] ls@[j])@ == all[j],
            first_failure_line(all) == first_failure_line(all.skip(k as int)),
        decreases ls@.len() - k,
    {
        assert(all.skip(k as int)[0] == all[k as int]);
        assert(all.skip(k as int).drop_first() =~= all.skip(k + 1));
        if failure_line_chars(&ls[k]) {
            return true;
        }
        k = k + 1;
    }
    assert(all.skip(k as int) =~= Seq::<Seq<char>>::empty());
    false
}

/// The reason recorded for a failed `am start`: the exit code, where it is
/// known and not zero, before the extracted reason.
pub open spec fn start_failure_detail(raw: Seq<char>) -> Seq<char> {
    let cleaned = cleaned_output(raw, start_exit_marker());
    match last_exit_code(lines(raw), start_exit_marker()) {
        Some(c) => if c != 0 {
            "exit_code="@ + crate::error::decimal_i32(c) + " "@ + extract_reason_spec(cleaned)
        } else {
            extract_reason_spec(cleaned)
        },
        None => extract_reason_spec(cleaned),
    }
}

/// Reads the output of `app_start_shell_command`: success unless the exit
/// code is known and not zero or a line reports a failure.
pub fn app_start_outcome(package: &str, raw_output: &str) -> (r: Result<(), Error>)
    ensures
        r is Ok <==> !nonzero_exit(raw_output@, start_exit_marker()) && first_failure_line(
            lines(cleaned_output(raw_output@, start_exit_marker())),
        ) is None,
        r matches Err(e) ==> is_start_failure_error(
            e,
            package@,
            start_failure_detail(raw_output@),
        ),
{
    let (code, output) = parse_shell_output_with_exit_code(
        raw_output,
        "__U2_APP_START_EXIT_CODE__:",
    );
    let failure_line = has_failure_line(output.as_str());
    let nonzero = match code {
        Some(c) => c != 0,
        None => false,
    };
    if !nonzero && !failure_line {
        return Ok(());
    }
    let reason = extract_app_start_failure_reason(output.as_str());
    let mut detail = String::new();
    match code {
        Some(c) => {
            if c != 0 {
                push_str(&mut detail, "exit_code=");
                crate::error::push_decimal_i32(&mut detail, c);
                push_str(&mut detail, " ");
            }
        },
        None => {},
    }
    push_str(&mut detail, reason.as_str());
    Err(classify_app_start_failure(package, detail.as_str()))
}

/// The shell command that lists the installed paths of `package`.
pub fn pm_path_command(package: &str) -> (r: String)
    ensures
        r@ == "pm path "@ + package@,
{
    let mut out = String::new();
    push_str(&mut out, "pm path ");
    push_str(&mut out, package);
    out
}

/// The shell command that force-stops `package`.
pub fn force_stop_command(package: &str) -> (r: String)
    ensures
        r@ == "am force-stop "@ + package@,
{
    let mut out = String::new();
    push_str(&mut out, "am force-stop ");
    push_str(&mut out, package);
    out
}

/// The shell command that clears the data of `package`.
pub fn pm_clear_command(package: &str) -> (r: String)
    ensures
        r@ == "pm clear "@ + package@,
{
    let mut out = String::new();
    push_str(&mut out, "pm clear ");
    push_str(&mut out, package);
    out
}

/// Reads the output of `pm clear`: `Success` clears, `Failed` or
/// `Unknown package` means the package is not installed, anything else is
/// an ADB failure that carries the output.
pub fn app_clear_outcome(package: &str, output: &str) -> (r: Result<(), Error>)
    ensures
        r is Ok <==> seq_contains(output@, "Success"@),
        r matches Err(e) ==> if seq_contains(output@, "Failed"@) || seq_contains(
            output@,
            "Unknown package"@,
        ) {
            e matches Error::AppNotInstalled(p) && p@ == package@
        } else {
            e matches Error::Adb(m) && m@ == "清除应用数据失败: "@ + output@
        },
{
    let ov = chars_of(output);
    if contains_str(&ov, "Success") {
        return Ok(());
    }
    if contains_str(&ov, "Failed") || contains_str(&ov, "Unknown package") {
        let mut p = String::new();
        push_str(&mut p, package);
        assert(p@ =~= package@);
        return Err(Error::AppNotInstalled(p));
    }
    let mut m = String::new();
    push_str(&mut m, "清除应用数据失败: ");
    push_str(&mut m, output);
    Err(Error::Adb(m))
}

/// The shell command that prints the process ids of `package`.
pub fn pidof_command(package: &str) -> (r: String)
    ensures
        r@ == "pidof "@ + package@,
{
    let mut out = String::new();
    push_str(&mut out, "pidof ");
    push_str(&mut out, package);
    out
}

/// Reads the output of `pidof`: the first process id it printed.
pub fn pid_from_output(package: &str, output: &str) -> (r: Result<u32, Error>)
    ensures
        trim(output@).len() == 0 ==> (r matches Err(e) && e matches Error::AppNotRunning(p)
            && p@ == package@),
        trim(output@).len() > 0 ==> ({
            let first = first_word(trim(output@)).unwrap();
            match parse_u32_spec(first) {
                Some(pid) => r == Ok::<u32, Error>(pid),
                None => r matches Err(e) && e matches Error::Adb(m) && m@ == "无法解析 PID: "@
                    + trim(output@),
            }
        }),
{
    let ov = chars_of(output);
    let t = trim_chars(&ov);
    if t.len() == 0 {
        let mut p = String::new();
        push_str(&mut p, package);
        assert(p@ =~= package@);
        return Err(Error::AppNotRunning(p));
    }
    proof {
        crate::text::lemma_first_word_of_nonblank(ov@);
    }
    let w = match first_word_chars(&t) {
        Some(w) => w,
        None => Vec::new(),
    };
    match parse_u32(&w) {
        Some(pid) => Ok(pid),
        None => {
            let mut m = String::new();
            push_str(&mut m, "无法解析 PID: ");
            push_chars(&mut m, &t);
            Err(Error::Adb(m))
        },
    }
}

/// The serial to use: the one asked for, else the only connected device.
pub fn select_device_serial(serial: Option<&str>, devices: &Vec<String>) -> (r: Result<
    String,
    Error,
>)
    ensures
        match serial {
            Some(s) => r matches Ok(x) && x@ == s@,
            None => if devices@.len() == 0 {
                r matches Err(Error::DeviceNotFound)
            } else if devices@.len() > 1 {
                r matches Err(Error::MultipleDevicesFound)
            } else {
                r matches Ok(x) && x@ == devices@[0]@
            },
        },
{
    match serial {
        Some(s) => {
            let mut x = String::new();
            push_str(&mut x, s);
            assert(x@ =~= s@);
            Ok(x)
        },
        None => {
            if devices.len() == 0 {
                return Err(Error::DeviceNotFound);
            }
            if devices.len() > 1 {
                return Err(Error::MultipleDevicesFound);
            }
            let mut x = String::new();
            push_str(&mut x, devices[0].as_str());
            assert(x@ =~= devices@[0]@);
            Ok(x)
        },
    }
}

/// The outcome of an action call whose answer may be a JSON boolean
/// (`Some`): `false` is a failure, `true` and any other answer succeed.
pub fn ensure_action_rpc_result(method: &str, result: Option<bool>) -> (r: Result<(), Error>)
    ensures
        r is Ok <==> result != Some(false),
        r matches Err(e) ==> e matches Error::JsonRpc(m) && m@ == method@
            + " returned false (action failed)"@,
{
    match result {
        Some(false) => {
            let mut m = String::new();
            push_str(&mut m, method);
            push_str(&mut m, " returned false (action failed)");
            Err(Error::JsonRpc(m))
        },
        _ => Ok(()),
    }
}

/// How long a long press by `input swipe` lasts: the duration in whole
/// milliseconds, at least 100.
pub open spec fn long_press_millis(d: Duration) -> nat {
    let ms = duration_nanos(d) / 1_000_000;
    if ms < 100 {
        100
    } else {
        ms
    }
}

/// The `input swipe` command that holds a press at `(x, y)`.
pub fn input_swipe_command(x: u32, y: u32, duration: Duration) -> (r: String)
    ensures
        r@ == "input swipe "@ + json_u32(x as nat) + " "@ + json_u32(y as nat) + " "@ + json_u32(
            x as nat,
        ) + " "@ + json_u32(y as nat) + " "@ + json_u32(long_press_millis(duration)),
{
    let mut ms = duration_as_millis(&duration);
    if ms < 100 {
        ms = 100;
    }
    let mut out = String::new();
    push_str(&mut out, "input swipe ");
    push_json_u32(&mut out, x);
    push_str(&mut out, " ");
    push_json_u32(&mut out, y);
    push_str(&mut out, " ");
    push_json_u32(&mut out, x);
    push_str(&mut out, " ");
    push_json_u32(&mut out, y);
    push_str(&mut out, " ");
    push_decimal_u128(&mut out, ms);
    out
}

/// The trimmed output of `input swipe` names an error.
pub open spec fn input_swipe_failed(output: Seq<char>) -> bool {
    let t = trim(output);
    let l = unicode_lowercase(t);
    &&& t.len() > 0
    &&& {
        ||| seq_contains(l, "error"@)
        ||| seq_contains(l, "unknown"@)
        ||| seq_contains(l, "invalid"@)
        ||| seq_contains(l, "usage"@)
    }
}

/// Reads the output of `input swipe`: silence or chatter succeed, an error
/// text is an ADB failure that carries it, cut to 200 characters.
pub fn input_swipe_outcome(output: &str) -> (r: Result<(), Error>)
    ensures
        r is Ok <==> !input_swipe_failed(output@),
        r matches Err(e) ==> e matches Error::Adb(m) && m@ == "input swipe failed: "@
            + truncate_detail_spec(trim(output@), 200),
{
    let ov = chars_of(output);
    let t = trim_chars(&ov);
    if t.len() == 0 {
        return Ok(());
    }
    let l = lower_chars(&t);
    if contains_str(&l, "error") || contains_str(&l, "unknown") || contains_str(&l, "invalid")
        || contains_str(&l, "usage") {
        let d = truncate_chars(&t, 200);
        let mut m = String::new();
        push_str(&mut m, "input swipe failed: ");
        push_str(&mut m, d.as_str());
        return Err(Error::Adb(m));
    }
    Ok(())
}

/// Whether `regex::Regex::new` accepts the pattern.
pub uninterp spec fn regex_compiles(pattern: Seq<char>) -> bool;

/// Groups 1 and 2 of the leftmost-first match of the pattern in the text,
/// as `regex::Regex::captures` and `Captures::get` give them; `None` when
/// there is no match.
pub uninterp spec fn regex_first_groups(pattern: Seq<char>, haystack: Seq<char>) -> Option<
    (Option<Seq<char>>, Option<Seq<char>>),
>;

/// A compiled regular expression together with the pattern it came from.
pub struct Pattern {
    source: String,
    re: regex::Regex,
}

impl Pattern {
    /// The pattern this was compiled from.
    pub closed spec fn source(&self) -> Seq<char> {
        self.source@
    }
}

/// The view of the groups of a match.
pub open spec fn groups_view(g: Option<(Option<String>, Option<String>)>) -> Option<
    (Option<Seq<char>>, Option<Seq<char>>),
> {
    match g {
        None => None,
        Some((a, b)) => Some(
            (
                match a {
                    Some(x) => Some(x@),
                    None => None,
                },
                match b {
                    Some(x) => Some(x@),
                    None => None,
                },
            ),
        ),
    }
}

/// Calls `regex::Regex::new`.
///
/// Trusted: the pattern compiles or not as `regex_compiles` names it, a
/// property of the pattern alone; a compiled value keeps its pattern.
#[verifier::external_body]
fn compile_pattern(pattern: &str) -> (r: Option<Pattern>)
    ensures
        r is Some <==> regex_compiles(pattern@),
        r matches Some(p) ==> p.source() == pattern@,
{
    match regex::Regex::new(pattern) {
        Ok(re) => Some(Pattern { source: pattern.to_string(), re }),
        Err(_) => None,
    }
}

/// Calls `regex::Regex::captures`, then `Captures::get` for groups 1 and 2.
///
/// Trusted: the groups are those that `regex_first_groups` names for the
/// pattern and the text, which the matching determines alone.
#[verifier::external_body]
fn first_groups(p: &Pattern, haystack: &str) -> (r: Option<(Option<String>, Option<String>)>)
    ensures
        groups_view(r) == regex_first_groups(p.source(), haystack@),
{
    p.re.captures(haystack).map(
        |c| (c.get(1).map(|m| m.as_str().to_string()), c.get(2).map(|m| m.as_str().to_string())),
    )
}

/// The pattern of an Android component, `package/activity`.
pub open spec fn component_pattern() -> Seq<char> {
    "([A-Za-z0-9_.]+)/([A-Za-z0-9_.$]+)"@
}

/// A package name worth reporting: `android`, or one with a dot.
pub open spec fn is_plausible_package(p: Seq<char>) -> bool {
    p == "android"@ || seq_contains(p, "."@)
}

/// Some marker occurs in the line.
pub open spec fn contains_any(line: Seq<char>, markers: Seq<Seq<char>>) -> bool {
    exists|i: int| 0 <= i < markers.len() && seq_contains(line, #[trigger] markers[i])
}

/// What one line gives: `None` to go on, `Some(x)` to stop with `x`.
pub open spec fn component_line_step(line: Seq<char>, markers: Seq<Seq<char>>) -> Option<
    Option<(Seq<char>, Seq<char>)>,
> {
    if !contains_any(line, markers) {
        None
    } else {
        match regex_first_groups(component_pattern(), line) {
            None => None,
            Some((Some(p), Some(a))) => if is_plausible_package(p) {
                Some(Some((p, a)))
            } else {
                None
            },
            Some(_) => Some(None),
        }
    }
}

/// Scans the lines in order for a marked line with a plausible component.
pub open spec fn scan_component_lines(ls: Seq<Seq<char>>, markers: Seq<Seq<char>>) -> Option<
    Option<(Seq<char>, Seq<char>)>,
>
    decreases ls.len(),
{
    if ls.len() == 0 {
        None
    } else {
        match component_line_step(ls[0], markers) {
            Some(x) => Some(x),
            None => scan_component_lines(ls.drop_first(), markers),
        }
    }
}

/// The outcome of a scan, or `rest` when the scan went through.
pub open spec fn or_then(scan: Option<Option<(Seq<char>, Seq<char>)>>, rest: Option<
    (Seq<char>, Seq<char>),
>) -> Option<(Seq<char>, Seq<char>)> {
    match scan {
        Some(x) => x,
        None => rest,
    }
}

/// The markers of the fallback scan.
pub open spec fn fallback_markers() -> Seq<Seq<char>> {
    seq![
        "ActivityRecord{"@,
        "ResumedActivity"@,
        "topResumedActivity"@,
        "mFocusedApp"@,
        "mCurrentFocus"@,
        "mResumedActivity"@,
    ]
}

/// The foreground `(package, activity)` of a `dumpsys` dump: lines that
/// carry a focus marker are scanned, one marker after the other in order
/// of priority (`mFocusedApp`, `topResumedActivity`, `mResumedActivity`,
/// `mCurrentFocus`), then lines that carry any fallback marker.
pub open spec fn component_from_dump_spec(dump: Seq<char>) -> Option<(Seq<char>, Seq<char>)> {
    let ls = lines(dump);
    if !regex_compiles(component_pattern()) {
        None
    } else {
        or_then(
            scan_component_lines(ls, seq!["mFocusedApp"@]),
            or_then(
                scan_component_lines(ls, seq!["topResumedActivity"@]),
                or_then(
                    scan_component_lines(ls, seq!["mResumedActivity"@]),
                    or_then(
                        scan_component_lines(ls, seq!["mCurrentFocus"@]),
                        or_then(scan_component_lines(ls, fallback_markers()), None),
                    ),
                ),
            ),
        )
    }
}

fn contains_any_exec(line: &Vec<char>, markers: &Vec<Vec<char>>) -> (r: bool)
    ensures
        r == contains_any(line@, markers@.map_values(|m: Vec<char>| m@)),
{
    let ghost ms = markers@.map_values(|m: Vec<char>| m@);
    let mut i: usize = 0;
    while i < markers.len()
        invariant
            i <= markers@.len(),
            ms == markers@.map_values(|m: Vec<char>| m@),
            forall|j: int| 0 <= j < i ==> !seq_contains(line@, #[trigger] ms[j]),
        decreases markers@.len() - i,
    {
        assert(ms[i as int] == markers@[i as int]@);
        if crate::text::contains_chars(line, &markers[i]) {
            return true;
        }
        i = i + 1;
    }
    false
}

fn scan_components(p: &Pattern, ls: &Vec<Vec<char>>, markers: &Vec<Vec<char>>) -> (r: Option<
    Option<(String, String)>,
>)
    requires
        p.source() == component_pattern(),
    ensures
        ({
            let s = scan_component_lines(
                ls@.map_values(|l: Vec<char>| l@),
                markers@.map_values(|m: Vec<char>| m@),
            );
            &&& r is Some <==> s is Some
            &&& r matches Some(x) ==> (s matches Some(y) && (x is Some <==> y is Some) && (
            x matches Some(pa) ==> y == Some((pa.0@, pa.1@))))
        }),
{
    let ghost all = ls@.map_values(|l: Vec<char>| l@);
    let ghost ms = markers@.map_values(|m: Vec<char>| m@);
    assert(all.skip(0) =~= all);
    let mut k: usize = 0;
    while k < ls.len()
        invariant
            k <= ls@.len(),
            p.source() == component_pattern(),
            all == ls@.map_values(|l: Vec<char>| l@),
            ms == markers@.map_values(|m: Vec<char>| m@),
            scan_component_lines(all, ms) == scan_component_lines(all.skip(k as int), ms),
        decreases ls@.len() - k,
    {
        assert(all.skip(k as int)[0] == all[k as int]);
        assert(all[k as int] == ls@[k as int]@);
        assert(all.skip(k as int).drop_first() =~= all.skip(k + 1));
        let line = &ls[k];
        if contains_any_exec(line, markers) {
            let s = string_of(line);
            match first_groups(p, s.as_str()) {
                None => {},
                Some((Some(pk), Some(act))) => {
                    let pv = chars_of(pk.as_str());
                    if crate::text::chars_eq_str(&pv, "android") || contains_str(&pv, ".") {
                        return Some(Some((pk, act)));
                    }
                },
                Some(_) => {
                    return Some(None);
                },
            }
        }
        k = k + 1;
    }
    assert(all.skip(k as int) =~= Seq::<Seq<char>>::empty());
    None
}

fn marker_list(m: &str) -> (r: Vec<Vec<char>>)
    ensures
        r@.map_values(|v: Vec<char>| v@) == seq![m@],
{
    let mut r: Vec<Vec<char>> = Vec::new();
    r.push(chars_of(m));
    assert(r@.map_values(|v: Vec<char>| v@) =~= seq![m@]);
    r
}

/// The foreground `(package, activity)` that a `dumpsys window` or
/// `dumpsys activity` dump names, if any.
pub fn parse_app_component_from_dump(output: &str) -> (r: Option<(String, String)>)
    ensures
        r is Some <==> component_from_dump_spec(output@) is Some,
        r matches Some(pa) ==> component_from_dump_spec(output@) == Some((pa.0@, pa.1@)),
{
    let p = match compile_pattern("([A-Za-z0-9_.]+)/([A-Za-z0-9_.$]+)") {
        Some(p) => p,
        None => {
            return None;
        },
    };
    let ov = chars_of(output);
    let ls = lines_of(&ov);
    assert(ls@.map_values(|l: Vec<char>| l@) =~= lines(output@));
    let m1 = marker_list("mFocusedApp");
    match scan_components(&p, &ls, &m1) {
        Some(x) => {
            return x;
        },
        None => {},
    }
    let m2 = marker_list("topResumedActivity");
    match scan_components(&p, &ls, &m2) {
        Some(x) => {
            return x;
        },
        None => {},
    }
    let m3 = marker_list("mResumedActivity");
    match scan_components(&p, &ls, &m3) {
        Some(x) => {
            return x;
        },
        None => {},
    }
    let m4 = marker_list("mCurrentFocus");
    match scan_components(&p, &ls, &m4) {
        Some(x) => {
            return x;
        },
        None => {},
    }
    let mut fb: Vec<Vec<char>> = Vec::new();
    fb.push(chars_of("ActivityRecord{"));
    fb.push(chars_of("ResumedActivity"));
    fb.push(chars_of("topResumedActivity"));
    fb.push(chars_of("mFocusedApp"));
    fb.push(chars_of("mCurrentFocus"));
    fb.push(chars_of("mResumedActivity"));
    assert(fb@.map_values(|v: Vec<char>| v@) =~= fallback_markers());
    match scan_components(&p, &ls, &fb) {
        Some(x) => x,
        None => None,
    }
}

/// The polling interval in use: the configured one, or 500 ms where it is
/// zero.
pub fn polling_interval_or_default(interval: Duration) -> (r: Duration)
    ensures
        duration_nanos(interval) == 0 ==> duration_nanos(r) == 500_000_000,
        duration_nanos(interval) != 0 ==> r == interval,
{
    if crate::duration::duration_as_nanos(&interval) == 0 {
        crate::duration::duration_from_millis(500)
    } else {
        interval
    }
}

/// The error reported when the ATX-Agent client could not be created on
/// `serial`: the device is offline where the cause's message says so,
/// else a connection error that carries the message and the set-up advice.
pub fn atx_client_creation_error(serial: &str, cause: &Error) -> (r: Error)
    ensures
        exists|m: Seq<char>|
            crate::error::is_error_message(*cause, m) && if is_likely_device_offline_spec(m) {
                r matches Error::DeviceOffline(s) && s@ == serial@
            } else {
                r matches Error::DeviceConnection(x) && x@ == "创建 ATX-Agent 客户端失败: "@ + m
                    + "。"@ + atx_agent_init_guidance_spec(serial@)
            },
{
    let text = cause.message();
    if is_likely_device_offline_text(text.as_str()) {
        let mut s = String::new();
        push_str(&mut s, serial);
        assert(s@ =~= serial@);
        return Error::DeviceOffline(s);
    }
    let guidance = atx_agent_init_guidance(serial);
    let mut x = String::new();
    push_str(&mut x, "创建 ATX-Agent 客户端失败: ");
    push_str(&mut x, text.as_str());
    push_str(&mut x, "。");
    push_str(&mut x, guidance.as_str());
    Error::DeviceConnection(x)
}

/// The line that `echo MARKER$?` prints for `code` is a single line, not
/// padded, that carries the code.
#[verifier::spinoff_prover]
proof fn lemma_marker_line(marker: Seq<char>, code: i32)
    requires
        marker.len() > 0,
        !crate::text::is_whitespace(marker[0]),
        forall|i: int| 0 <= i < marker.len() ==> marker[i] != '\n',
    ensures
        ({
            let t = marker + crate::error::decimal_i32(code);
            &&& forall|i: int| 0 <= i < t.len() ==> t[i] != '\n'
            &&& t.len() > 0 && t.last() != '\r'
            &&& marker_exit_code(t, marker) == Some(code)
        }),
{
    let d = crate::error::decimal_i32(code);
    let m: nat = if code < 0 {
        (-(code as int)) as nat
    } else {
        code as nat
    };
    crate::number::lemma_decimal_writing(m);
    crate::number::lemma_parse_i32_of_decimal(code);
    let w = json_u32(m);
    assert(crate::number::is_digit(w[w.len() - 1]));
    assert(d.len() > 0 && d.last() == w.last()) by {
        if code < 0 {
            assert(d == seq!['-'] + w);
        }
    }
    assert forall|i: int| 0 <= i < d.len() implies d[i] != '\n' by {
        if code < 0 {
            assert(d == seq!['-'] + w);
            if i > 0 {
                assert(d[i] == w[i - 1]);
                assert(crate::number::is_digit(w[i - 1]));
            }
        } else {
            assert(crate::number::is_digit(w[i]));
        }
    }
    let t = marker + d;
    assert forall|i: int| 0 <= i < t.len() implies t[i] != '\n' by {
        if i < marker.len() {
            assert(t[i] == marker[i]);
        } else {
            assert(t[i] == d[i - marker.len()]);
        }
    }
    assert(t.last() == d.last());
    assert(t[0] == marker[0]);
    crate::text::lemma_trim_unpadded(t);
    assert(t.subrange(0, marker.len() as int) =~= marker);
    assert(t.skip(marker.len() as int) =~= d);
}

/// The exit code that `echo MARKER$?` prints after a command is read back:
/// where the command's output ends a line (or is empty) and the marker is a
/// single line that does not start with whitespace, the marker line gives
/// the code, and the other lines are those of the command's output.
#[verifier::spinoff_prover]
pub proof fn lemma_exit_marker_read_back(output: Seq<char>, marker: Seq<char>, code: i32)
    requires
        output.len() == 0 || output.last() == '\n',
        marker.len() > 0,
        !crate::text::is_whitespace(marker[0]),
        forall|i: int| 0 <= i < marker.len() ==> marker[i] != '\n',
    ensures
        last_exit_code(
            lines(output + marker + crate::error::decimal_i32(code) + seq!['\n']),
            marker,
        ) == Some(code),
        kept_lines(lines(output + marker + crate::error::decimal_i32(code) + seq!['\n']), marker)
            == kept_lines(lines(output), marker),
{
    let t = marker + crate::error::decimal_i32(code);
    lemma_marker_line(marker, code);
    assert(output + marker + crate::error::decimal_i32(code) + seq!['\n'] =~= output + t
        + seq!['\n']);
    crate::text::lemma_lines_append_line(output, t);
    let ls = lines(output);
    assert(ls.push(t).drop_last() =~= ls);
    assert(ls.push(t).last() == t);
}

/// A cut detail is at most `max` characters and `...`, and begins with the
/// text it was cut from.
pub proof fn lemma_truncate_detail_bounds(m: Seq<char>, max: nat)
    ensures
        truncate_detail_spec(m, max).len() <= max + 3,
        m.len() <= max ==> truncate_detail_spec(m, max) == m,
        m.len() > max ==> seq_starts_with(truncate_detail_spec(m, max), m.take(max as int)),
{
    reveal_strlit("...");
    if m.len() > max {
        let r = m.take(max as int) + "..."@;
        assert(r.subrange(0, max as int) =~= m.take(max as int));
    }
}

/// The reason of a failed start is never longer than 243 characters.
pub proof fn lemma_start_failure_reason_bounded(output: Seq<char>)
    ensures
        extract_reason_spec(output).len() <= 243,
{
    reveal_strlit("am start 失败，但没有可用错误输出");
    match first_failure_line(lines(output)) {
        Some(l) => lemma_truncate_detail_bounds(l, 240),
        None => lemma_truncate_detail_bounds(trim(output), 240),
    }
}

/// A well-formed package name is ASCII, so its length in bytes is its
/// length in characters, and it does not start with a dot.
pub proof fn lemma_valid_package_name_is_ascii(s: Seq<char>)
    requires
        is_valid_package_name_spec(s),
    ensures
        crate::text::all_ascii(s),
        s[0] != '.',
{
    assert(starts_segment(s, 0));
    assert forall|i: int| 0 <= i < s.len() implies (#[trigger] s[i]) as u32 <= 127 by {
        assert(is_ident_char(s[i]) || s[i] == '.');
    }
}

/// Qualifying an activity twice with a well-formed package changes nothing
/// more.
pub proof fn lemma_qualify_activity_idempotent(package: Seq<char>, activity: Seq<char>)
    requires
        is_valid_package_name_spec(package),
    ensures
        qualify_activity_spec(package, qualify_activity_spec(package, activity))
            == qualify_activity_spec(package, activity),
{
    reveal_strlit(".");
    lemma_valid_package_name_is_ascii(package);
    if seq_starts_with(activity, "."@) {
        let q = package + activity;
        assert(q[0] == package[0]);
        assert(q.subrange(0, 1)[0] == package[0]);
        assert(!seq_starts_with(q, "."@));
    }
}

/// What a gesture with fallbacks does next.
#[derive(Debug)]
pub enum GestureStep {
    /// Stop with this outcome.
    Done(Result<(), Error>),
    /// Try the next way of doing the gesture.
    Fallback,
}

/// After the `longClick` call: its answer decides (a `false` answer is a
/// failure); a service that lacks the method or refuses its parameters
/// falls back to `input swipe`; any other error ends the gesture.
pub fn long_click_after_rpc(answer: Result<Option<bool>, Error>) -> (r: GestureStep)
    ensures
        match answer {
            Ok(v) => r matches GestureStep::Done(x) && (x is Ok <==> v != Some(false)) && (
            x matches Err(e) ==> e matches Error::JsonRpc(m) && m@ == "longClick"@ + " returned false (action failed)"@),
            Err(e) => if method_unavailable_spec(e) || method_params_invalid_spec(e) {
                r is Fallback
            } else {
                r == GestureStep::Done(Err(e))
            },
        },
{
    match answer {
        Ok(v) => GestureStep::Done(ensure_action_rpc_result("longClick", v)),
        Err(e) => {
            if is_jsonrpc_method_unavailable_error(&e) || is_jsonrpc_method_params_invalid_error(
                &e,
            ) {
                GestureStep::Fallback
            } else {
                GestureStep::Done(Err(e))
            }
        },
    }
}

/// After the `input swipe` long press: done where it worked, else the
/// press is held by a JSON-RPC `swipe` from the point to itself.
pub fn long_click_after_input(outcome: Result<(), Error>) -> (r: GestureStep)
    ensures
        outcome is Ok ==> r matches GestureStep::Done(Ok(())),
        outcome is Err ==> r is Fallback,
{
    match outcome {
        Ok(()) => GestureStep::Done(Ok(())),
        Err(_) => GestureStep::Fallback,
    }
}

/// After the `swipe` that holds the press: its answer decides.
pub fn long_click_after_swipe(answer: Result<Option<bool>, Error>) -> (r: Result<(), Error>)
    ensures
        match answer {
            Ok(v) => (r is Ok <==> v != Some(false)) && (r matches Err(e) ==> e matches Error::JsonRpc(m) && m@ == "swipe"@ + " returned false (action failed)"@),
            Err(e) => r == Err::<(), Error>(e),
        },
{
    match answer {
        Ok(v) => ensure_action_rpc_result("swipe", v),
        Err(e) => Err(e),
    }
}

/// After the `doubleClick` call: any answer succeeds; a service that lacks
/// the method falls back to two `click` calls; any other error ends the
/// gesture.
pub fn double_click_after_rpc(answer: Result<(), Error>) -> (r: GestureStep)
    ensures
        match answer {
            Ok(()) => r matches GestureStep::Done(Ok(())),
            Err(e) => if method_unavailable_spec(e) {
                r is Fallback
            } else {
                r == GestureStep::Done(Err(e))
            },
        },
{
    match answer {
        Ok(()) => GestureStep::Done(Ok(())),
        Err(e) => {
            if is_jsonrpc_method_unavailable_error(&e) {
                GestureStep::Fallback
            } else {
                GestureStep::Done(Err(e))
            }
        },
    }
}

/// After a failed `screenshot` call: a service that lacks the method falls
/// back to the ATX-Agent screenshot and then to `screencap` (`Ok`); any
/// other error is returned.
pub fn screenshot_fallback(error: Error) -> (r: Result<(), Error>)
    ensures
        method_unavailable_spec(error) ==> r is Ok,
        !method_unavailable_spec(error) ==> r == Err::<(), Error>(error),
{
    if is_jsonrpc_method_unavailable_error(&error) {
        Ok(())
    } else {
        Err(error)
    }
}

/// Whether a wait that has lasted `elapsed` has reached its `timeout`.
pub fn deadline_reached(elapsed: Duration, timeout: Duration) -> (r: bool)
    ensures
        r == (duration_nanos(elapsed) >= duration_nanos(timeout)),
{
    crate::duration::duration_as_nanos(&elapsed) >= crate::duration::duration_as_nanos(&timeout)
}

/// Whether cached device information of age `age` is still fresh under
/// the lifetime `ttl`.
pub fn cache_is_fresh(age: Duration, ttl: Duration) -> (r: bool)
    ensures
        r == (duration_nanos(age) <= duration_nanos(ttl)),
{
    crate::duration::duration_as_nanos(&age) <= crate::duration::duration_as_nanos(&ttl)
}

/// What a connection attempt does next.
#[derive(Debug, Clone, Copy, PartialEq, Eq, Structural)]
pub enum ConnectStep {
    /// Start the ATX-Agent daemon and reach the server through it.
    AtxAgent,
    /// Forward a port straight to the UiAutomator server.
    Direct,
    /// Stop and report the failure of the ATX-Agent attempt.
    GiveUp,
}

/// The step that a connection in `mode` takes, before any attempt
/// (`atx_attempt_failed` false) or after the ATX-Agent attempt failed.
pub open spec fn connect_step_spec(mode: ServerMode, atx_attempt_failed: bool) -> ConnectStep {
    match mode {
        ServerMode::Direct => ConnectStep::Direct,
        ServerMode::AtxAgent => if atx_attempt_failed {
            ConnectStep::GiveUp
        } else {
            ConnectStep::AtxAgent
        },
        ServerMode::Auto => if atx_attempt_failed {
            ConnectStep::Direct
        } else {
            ConnectStep::AtxAgent
        },
    }
}

/// Routes a connection by its server mode: `Direct` goes straight to the
/// server; `AtxAgent` tries the daemon and gives up when that fails; `Auto`
/// tries the daemon first and falls back to `Direct` when that fails.
pub fn connect_step(mode: ServerMode, atx_attempt_failed: bool) -> (step: ConnectStep)
    ensures
        step == connect_step_spec(mode, atx_attempt_failed),
{
    match mode {
        ServerMode::Direct => ConnectStep::Direct,
        ServerMode::AtxAgent => if atx_attempt_failed {
            ConnectStep::GiveUp
        } else {
            ConnectStep::AtxAgent
        },
        ServerMode::Auto => if atx_attempt_failed {
            ConnectStep::Direct
        } else {
            ConnectStep::AtxAgent
        },
    }
}

/// Every mode ends after at most one fallback: a failed ATX-Agent attempt
/// never leads to another ATX-Agent attempt, and `Direct` never tries the
/// daemon.
pub proof fn lemma_connect_routing_ends(mode: ServerMode)
    ensures
        connect_step_spec(mode, true) != ConnectStep::AtxAgent,
        mode == ServerMode::Direct <==> connect_step_spec(mode, false) == ConnectStep::Direct,
        connect_step_spec(mode, true) == ConnectStep::Direct <==> mode != ServerMode::AtxAgent,
{
}

/// What a device-information cache holds: the lifetime it was enabled
/// with (none when it is off) and the last stored value with its stamp.
pub struct InfoCacheView<S> {
    pub ttl: Option<Duration>,
    pub entry: Option<(DeviceInfo, S)>,
}

impl<S> InfoCacheView<S> {
    /// The cached value that a read of age `age` is served, if any: only
    /// when the cache is on, holds a value, and the value is no older than
    /// the lifetime.
    pub open spec fn lookup(self, age: Duration) -> Option<DeviceInfo> {
        match (self.ttl, self.entry) {
            (Some(t), Some(e)) => if duration_nanos(age) <= duration_nanos(t) {
                Some(e.0)
            } else {
                None
            },
            _ => None,
        }
    }

    /// The cache after a freshly fetched value is offered to it: kept with
    /// its stamp while the cache is on, ignored while it is off.
    pub open spec fn store(self, info: DeviceInfo, stamp: S) -> InfoCacheView<S> {
        if self.ttl is Some {
            InfoCacheView { ttl: self.ttl, entry: Some((info, stamp)) }
        } else {
            self
        }
    }

    /// The cache with its value dropped and its lifetime kept.
    pub open spec fn clear(self) -> InfoCacheView<S> {
        InfoCacheView { ttl: self.ttl, entry: None }
    }

    /// The cache switched on with lifetime `ttl`, empty.
    pub open spec fn enable(self, ttl: Duration) -> InfoCacheView<S> {
        InfoCacheView { ttl: Some(ttl), entry: None }
    }

    /// The cache switched off, empty.
    pub open spec fn disable(self) -> InfoCacheView<S> {
        InfoCacheView { ttl: None, entry: None }
    }
}

/// The device-information cache: off until a lifetime is set, and then
/// serving the last fetched value while it is young enough. `S` is the
/// stamp of the moment a value was stored, from which the caller measures
/// its age.
#[derive(Debug)]
pub struct InfoCache<S> {
    ttl: Option<Duration>,
    entry: Option<(DeviceInfo, S)>,
}

impl<S> View for InfoCache<S> {
    type V = InfoCacheView<S>;

    closed spec fn view(&self) -> InfoCacheView<S> {
        InfoCacheView { ttl: self.ttl, entry: self.entry }
    }
}

impl<S> InfoCache<S> {
    /// A cache that is off: every read goes to the device.
    pub fn new() -> (c: Self)
        ensures
            c@.ttl is None,
            c@.entry is None,
    {
        InfoCache { ttl: None, entry: None }
    }

    /// Switches the cache on with lifetime `ttl` and drops any value.
    pub fn set_ttl(&mut self, ttl: Duration)
        ensures
            final(self)@ == old(self)@.enable(ttl),
    {
        self.ttl = Some(ttl);
        self.entry = None;
    }

    /// Drops the cached value; the cache stays on or off as it was.
    pub fn clear(&mut self)
        ensures
            final(self)@ == old(self)@.clear(),
    {
        self.entry = None;
    }

    /// Switches the cache off and drops any value.
    pub fn disable(&mut self)
        ensures
            final(self)@ == old(self)@.disable(),
    {
        self.ttl = None;
        self.entry = None;
    }

    /// The lifetime the cache is on with, if it is on.
    pub fn ttl(&self) -> (r: Option<Duration>)
        ensures
            r == self@.ttl,
    {
        self.ttl
    }

    /// The stamp of the cached value, if there is one.
    pub fn stamp(&self) -> (r: Option<&S>)
        ensures
            r is Some <==> self@.entry is Some,
            r matches Some(s) ==> *s == self@.entry.unwrap().1,
    {
        match &self.entry {
            Some(e) => Some(&e.1),
            None => None,
        }
    }

    /// The cached value for a read made `age` after it was stored.
    pub fn lookup(&self, age: Duration) -> (r: Option<&DeviceInfo>)
        ensures
            r is Some <==> self@.lookup(age) is Some,
            r matches Some(i) ==> self@.lookup(age) == Some(*i),
    {
        match (&self.ttl, &self.entry) {
            (Some(t), Some(e)) => if cache_is_fresh(age, *t) {
                Some(&e.0)
            } else {
                None
            },
            _ => None,
        }
    }

    /// Offers a freshly fetched value, stamped `stamp`: kept while the cache
    /// is on, ignored while it is off.
    pub fn store(&mut self, info: DeviceInfo, stamp: S)
        ensures
            final(self)@ == old(self)@.store(info, stamp),
    {
        if self.ttl.is_some() {
            self.entry = Some((info, stamp));
        }
    }
}

/// A read made within the lifetime after a value was stored is served that
/// value; a read made later is not served.
pub proof fn lemma_cache_read_after_store<S>(
    c: InfoCacheView<S>,
    info: DeviceInfo,
    stamp: S,
    age: Duration,
)
    requires
        c.ttl is Some,
    ensures
        duration_nanos(age) <= duration_nanos(c.ttl.unwrap()) ==> c.store(info, stamp).lookup(age)
            == Some(info),
        duration_nanos(age) > duration_nanos(c.ttl.unwrap()) ==> c.store(info, stamp).lookup(age)
            is None,
{
}

/// A cache that is off serves nothing and keeps nothing that is offered to
/// it, so every read goes to the device.
pub proof fn lemma_cache_off_serves_nothing<S>(
    c: InfoCacheView<S>,
    info: DeviceInfo,
    stamp: S,
    age: Duration,
)
    requires
        c.ttl is None,
    ensures
        c.lookup(age) is None,
        c.store(info, stamp) == c,
{
}

/// After the cache is cleared, switched off or given a new lifetime, the
/// next read is not served from it.
pub proof fn lemma_cache_reset_forgets<S>(c: InfoCacheView<S>, ttl: Duration, age: Duration)
    ensures
        c.clear().lookup(age) is None,
        c.disable().lookup(age) is None,
        c.enable(ttl).lookup(age) is None,
        c.clear().ttl == c.ttl,
{
}

} // verus!
