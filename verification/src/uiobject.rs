//! UI elements found by a selector: when a service error means that no
//! element matched, and whether the element the service returned really
//! is the one the selector asks for.
use vstd::prelude::*;

use std::time::Duration;

use crate::duration::{duration_as_nanos, duration_nanos};
use crate::error::Error;
use crate::models::ElementInfo;
use crate::selector::Selector;
use crate::text::{chars_eq, chars_of, contains_chars, contains_str, lower_chars, push_str, seq_contains, unicode_lowercase};

verus! {

/// The lower-cased message says that no element matched, and is none of
/// the errors that only look alike (an unknown method, a bad selector).
pub open spec fn element_not_found_spec(msg: Seq<char>) -> bool {
    let l = unicode_lowercase(msg);
    if seq_contains(l, "method not found"@) || seq_contains(l, "invalid selector"@)
        || seq_contains(l, "selector invalid"@) {
        false
    } else if {
        ||| seq_contains(l, "uiobjectnotfoundexception"@)
        ||| seq_contains(l, "uiautomator.uiobjectnotfoundexception"@)
        ||| seq_contains(l, "nosuchobjectexception"@)
        ||| seq_contains(l, "no such object"@)
        ||| seq_contains(l, "cannot find ui object"@)
        ||| seq_contains(l, "node not found"@)
        ||| seq_contains(l, "no node found"@)
        ||| seq_contains(l, "accessibility node info is null"@)
    } {
        true
    } else {
        (seq_contains(l, "not found"@) || seq_contains(l, "does not exist"@)) && (seq_contains(
            l,
            "ui object"@,
        ) || seq_contains(l, "uiobject"@) || seq_contains(l, "node"@))
    }
}

/// Whether a JSON-RPC error message means that no element matched.
pub fn is_element_not_found_error(msg: &str) -> (r: bool)
    ensures
        r == element_not_found_spec(msg@),
{
    let v = chars_of(msg);
    let l = lower_chars(&v);
    if contains_str(&l, "method not found") || contains_str(&l, "invalid selector")
        || contains_str(&l, "selector invalid") {
        return false;
    }
    if contains_str(&l, "uiobjectnotfoundexception") || contains_str(
        &l,
        "uiautomator.uiobjectnotfoundexception",
    ) || contains_str(&l, "nosuchobjectexception") || contains_str(&l, "no such object")
        || contains_str(&l, "cannot find ui object") || contains_str(&l, "node not found")
        || contains_str(&l, "no node found") || contains_str(
        &l,
        "accessibility node info is null",
    ) {
        return true;
    }
    (contains_str(&l, "not found") || contains_str(&l, "does not exist")) && (contains_str(
        &l,
        "ui object",
    ) || contains_str(&l, "uiobject") || contains_str(&l, "node"))
}

/// The outcome of an element action whose answer may be a JSON boolean
/// (`Some`): `false` is a failure, `true` and any other answer succeed.
pub fn ensure_action_rpc_result(method: &str, result: Option<bool>) -> (r: Result<(), Error>)
    ensures
        r is Ok <==> result != Some(false),
        r matches Err(e) ==> e matches Error::JsonRpc(m) && m@ == method@
            + " 返回 false（操作失败）"@,
{
    match result {
        Some(false) => {
            let mut m = String::new();
            push_str(&mut m, method);
            push_str(&mut m, " 返回 false（操作失败）");
            Err(Error::JsonRpc(m))
        },
        _ => Ok(()),
    }
}

/// The element looks like the root of the window, which the service
/// returns when nothing matched: a `FrameLayout` at the top left, without
/// text or resource id.
pub open spec fn is_likely_root_spec(info: ElementInfo) -> bool {
    &&& seq_contains(info.class_name@, "FrameLayout"@)
    &&& info.bounds.left == 0
    &&& info.bounds.top == 0
    &&& info.text@.len() == 0
    &&& info.resource_id@.len() == 0
}

/// The selector names something a window root does not have: a text, a
/// text part, a resource id, or a class other than a `FrameLayout`.
pub open spec fn has_specific_selector_spec(s: Selector) -> bool {
    ||| s.text is Some
    ||| s.text_contains is Some
    ||| s.resource_id is Some
    ||| (s.class_name matches Some(c) && !seq_contains(c@, "FrameLayout"@))
}

/// The element agrees with the selector's text, text part, resource id and
/// class, where the selector gives them.
pub open spec fn agrees_with_selector_spec(s: Selector, info: ElementInfo) -> bool {
    &&& (s.text matches Some(t) ==> info.text@ == t@)
    &&& (s.text_contains matches Some(t) ==> seq_contains(info.text@, t@))
    &&& (s.resource_id matches Some(t) ==> info.resource_id@ == t@)
    &&& (s.class_name matches Some(t) ==> info.class_name@ == t@)
}

/// The element returned for the selector is taken as found: a likely root
/// only where the selector names nothing specific, any other element only
/// where it agrees with the selector.
pub open spec fn element_found_spec(s: Selector, info: ElementInfo) -> bool {
    if is_likely_root_spec(info) {
        !has_specific_selector_spec(s)
    } else {
        agrees_with_selector_spec(s, info)
    }
}

fn same_text(a: &String, b: &String) -> (r: bool)
    ensures
        r == (a@ == b@),
{
    let av = chars_of(a.as_str());
    let bv = chars_of(b.as_str());
    chars_eq(&av, &bv)
}

/// Whether the element that the service returned for `selector` counts as
/// found; where it does not, the element is reported as not found.
pub fn element_matches_selector(selector: &Selector, info: &ElementInfo) -> (r: bool)
    ensures
        r == element_found_spec(*selector, *info),
{
    let class_v = chars_of(info.class_name.as_str());
    let is_root = contains_str(&class_v, "FrameLayout") && info.bounds.left == 0
        && info.bounds.top == 0 && info.text.as_str().unicode_len() == 0
        && info.resource_id.as_str().unicode_len() == 0;
    if is_root {
        let class_specific = match &selector.class_name {
            Some(c) => {
                let cv = chars_of(c.as_str());
                !contains_str(&cv, "FrameLayout")
            },
            None => false,
        };
        let specific = selector.text.is_some() || selector.text_contains.is_some()
            || selector.resource_id.is_some() || class_specific;
        return !specific;
    }
    match &selector.text {
        Some(t) => {
            if !same_text(&info.text, t) {
                return false;
            }
        },
        None => {},
    }
    match &selector.text_contains {
        Some(t) => {
            let hay = chars_of(info.text.as_str());
            let needle = chars_of(t.as_str());
            if !contains_chars(&hay, &needle) {
                return false;
            }
        },
        None => {},
    }
    match &selector.resource_id {
        Some(t) => {
            if !same_text(&info.resource_id, t) {
                return false;
            }
        },
        None => {},
    }
    match &selector.class_name {
        Some(t) => {
            if !same_text(&info.class_name, t) {
                return false;
            }
        },
        None => {},
    }
    true
}

/// Which elements the service's answer may be taken for, condition by
/// condition. An element other than a bare `FrameLayout` at the top left
/// (the window root the service falls back to) is found exactly when it
/// has the selector's text, contains its text part, and has its resource id
/// and its class name, each where the selector gives one; a differing class
/// name alone makes it not found. Such a window root is found only for a
/// selector that names no text, text part, resource id or non-`FrameLayout`
/// class.
pub proof fn lemma_element_lookup_conditions(s: Selector, info: ElementInfo)
    ensures
        ({
            let root = seq_contains(info.class_name@, "FrameLayout"@) && info.bounds.left == 0
                && info.bounds.top == 0 && info.text@.len() == 0 && info.resource_id@.len() == 0;
            &&& !root ==> (element_found_spec(s, info) <==> {
                &&& (s.text matches Some(t) ==> info.text@ == t@)
                &&& (s.text_contains matches Some(t) ==> seq_contains(info.text@, t@))
                &&& (s.resource_id matches Some(t) ==> info.resource_id@ == t@)
                &&& (s.class_name matches Some(t) ==> info.class_name@ == t@)
            })
            &&& !root && (s.class_name matches Some(c) && info.class_name@ != c@) ==> !element_found_spec(s, info)
            &&& !root && (s.text matches Some(t) && info.text@ != t@) ==> !element_found_spec(s, info)
            &&& !root && (s.resource_id matches Some(t) && info.resource_id@ != t@) ==> !element_found_spec(s, info)
            &&& root ==> (element_found_spec(s, info) <==> (s.text is None && s.text_contains is None
                && s.resource_id is None && !(s.class_name matches Some(c) && !seq_contains(c@, "FrameLayout"@))))
        }),
{
}

/// What a polling loop does after a probe.
#[derive(Debug, Clone, Copy, PartialEq, Eq, Structural)]
pub enum PollStep {
    /// The condition holds: stop.
    Done,
    /// The condition does not hold and the timeout is reached: give up.
    TimedOut,
    /// Wait one polling interval and probe again.
    Wait,
}

/// The step after a probe of an element: done where the condition held
/// (`met`), else timed out once `elapsed` reaches `timeout`, else wait.
pub fn poll_step(met: bool, elapsed: Duration, timeout: Duration) -> (r: PollStep)
    ensures
        met ==> r == PollStep::Done,
        !met && duration_nanos(elapsed) >= duration_nanos(timeout) ==> r == PollStep::TimedOut,
        !met && duration_nanos(elapsed) < duration_nanos(timeout) ==> r == PollStep::Wait,
{
    if met {
        PollStep::Done
    } else if duration_as_nanos(&elapsed) >= duration_as_nanos(&timeout) {
        PollStep::TimedOut
    } else {
        PollStep::Wait
    }
}

} // verus!
