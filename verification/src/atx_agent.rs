//! The ATX-Agent daemon: what its answers mean, which of the bundled
//! binaries suit a device, and how the results of its installation
//! commands are read.
use vstd::prelude::*;

use crate::error::Error;
use crate::text::{
    chars_eq, chars_eq_str, chars_of, contains_str, first_word, first_word_chars, lower_chars,
    push_chars, push_str, seq_contains, slice_chars, string_of, trim, trim_chars,
    unicode_lowercase,
};

verus! {

/// What the daemon reports about the device.
#[derive(Debug, Clone)]
pub struct AtxDeviceInfo {
    /// Unique device id.
    pub udid: String,
    /// ADB serial.
    pub serial: String,
    /// Brand.
    pub brand: String,
    /// Model.
    pub model: String,
    /// Hardware address.
    pub hwaddr: String,
    /// Version of the daemon.
    pub agent_version: String,
}

/// Whether the UiAutomator service behind the daemon runs.
#[derive(Debug, Clone)]
pub struct UiAutomatorStatus {
    /// The service runs.
    pub running: bool,
}

/// The text without its leading `v`s (`str::trim_start_matches('v')`).
pub open spec fn strip_leading_v(s: Seq<char>) -> Seq<char>
    decreases s.len(),
{
    if s.len() > 0 && s[0] == 'v' {
        strip_leading_v(s.drop_first())
    } else {
        s
    }
}

/// A character allowed in a version: a digit, `.`, `-`, `+`, `_` or an
/// ASCII letter.
pub open spec fn is_version_char(c: char) -> bool {
    ('0' <= c <= '9') || c == '.' || c == '-' || c == '+' || c == '_' || ('a' <= c <= 'z') || (
    'A' <= c <= 'Z')
}

/// A plausible version: after trimming and dropping leading `v`s, a
/// non-empty text of version characters with a digit and a dot.
pub open spec fn is_plausible_version_spec(version: Seq<char>) -> bool {
    let c = strip_leading_v(trim(version));
    &&& c.len() > 0
    &&& forall|i: int| 0 <= i < c.len() ==> is_version_char(#[trigger] c[i])
    &&& exists|i: int| 0 <= i < c.len() && '0' <= #[trigger] c[i] <= '9'
    &&& exists|i: int| 0 <= i < c.len() && #[trigger] c[i] == '.'
}

/// Whether the text looks like a version number such as `0.10.0`.
pub fn is_plausible_version(version: &str) -> (r: bool)
    ensures
        r == is_plausible_version_spec(version@),
{
    let v = chars_of(version);
    let t = trim_chars(&v);
    let mut start: usize = 0;
    assert(t@.skip(0) =~= t@);
    while start < t.len() && t[start] == 'v'
        invariant
            start <= t@.len(),
            strip_leading_v(t@) == strip_leading_v(t@.skip(start as int)),
        decreases t@.len() - start,
    {
        assert(t@.skip(start as int).drop_first() =~= t@.skip(start + 1));
        start = start + 1;
    }
    let c = slice_chars(&t, start, t.len());
    assert(c@ =~= t@.skip(start as int));
    assert(strip_leading_v(c@) == c@);
    assert(strip_leading_v(trim(version@)) == c@);
    if c.len() == 0 {
        return false;
    }
    let mut has_digit = false;
    let mut has_dot = false;
    let mut i: usize = 0;
    while i < c.len()
        invariant
            i <= c@.len(),
            strip_leading_v(trim(version@)) == c@,
            forall|j: int| 0 <= j < i ==> is_version_char(#[trigger] c@[j]),
            has_digit == (exists|j: int| 0 <= j < i && '0' <= #[trigger] c@[j] <= '9'),
            has_dot == (exists|j: int| 0 <= j < i && #[trigger] c@[j] == '.'),
        decreases c@.len() - i,
    {
        let ch = c[i];
        if '0' <= ch && ch <= '9' {
            has_digit = true;
        } else if ch == '.' {
            has_dot = true;
        } else if ch == '-' || ch == '+' || ch == '_' || ('a' <= ch && ch <= 'z') || ('A' <= ch
            && ch <= 'Z') {
        } else {
            assert(!is_version_char(c@[i as int]));
            return false;
        }
        i = i + 1;
    }
    has_digit && has_dot
}

/// What `serde_json::from_str::<serde_json::Value>` reads of a text,
/// `None` where it is no JSON: its `"version"` member where that is a
/// string, and the whole value where that is a string.
pub uninterp spec fn json_string_parts(text: Seq<char>) -> Option<
    (Option<Seq<char>>, Option<Seq<char>>),
>;

/// The version string that a JSON text yields: its `"version"` member
/// where that is a string, else the whole value where that is a string;
/// `None` for text that is not JSON or yields neither.
pub open spec fn json_version_string(text: Seq<char>) -> Option<Seq<char>> {
    match json_string_parts(text) {
        None => None,
        Some((Some(v), _)) => Some(v),
        Some((None, w)) => w,
    }
}

/// Parses the text with `serde_json::from_str::<serde_json::Value>`, then
/// reads `get("version")` with `as_str`, and `as_str` of the whole value.
///
/// Trusted: the result is what `json_string_parts` names for the text.
#[verifier::external_body]
fn json_string_parts_of(text: &str) -> (r: Option<(Option<String>, Option<String>)>)
    ensures
        crate::device::groups_view(r) == json_string_parts(text@),
{
    let json: serde_json::Value = serde_json::from_str(text).ok()?;
    let member = json.get("version").and_then(|v| v.as_str()).map(|s| s.to_string());
    let whole = json.as_str().map(|s| s.to_string());
    Some((member, whole))
}

/// The version string a JSON text yields, as `json_version_string` says.
fn json_version_of(text: &str) -> (r: Option<String>)
    ensures
        match r {
            Some(s) => json_version_string(text@) == Some(s@),
            None => json_version_string(text@) is None,
        },
{
    match json_string_parts_of(text) {
        None => None,
        Some((Some(v), _)) => Some(v),
        Some((None, w)) => w,
    }
}

/// The message of a refused version answer.
pub open spec fn invalid_version_message(trimmed: Seq<char>) -> Seq<char> {
    "版本响应格式无效: "@ + trimmed
}

/// The version in a trimmed, non-empty `/version` answer, given what its
/// JSON reading yielded (`probe`): that string where there is one, else the
/// plain text; either must look like a version.
pub fn version_from_probe(trimmed: &str, probe: Option<String>) -> (r: Result<String, Error>)
    ensures
        match probe {
            Some(v) => if is_plausible_version_spec(v@) {
                r matches Ok(x) && x@ == v@
            } else {
                r matches Err(e) && e matches Error::JsonRpc(m) && m@ == invalid_version_message(
                    trimmed@,
                )
            },
            None => if is_plausible_version_spec(trimmed@) {
                r matches Ok(x) && x@ == trimmed@
            } else {
                r matches Err(e) && e matches Error::JsonRpc(m) && m@ == invalid_version_message(
                    trimmed@,
                )
            },
        },
{
    let candidate = match probe {
        Some(v) => v,
        None => {
            let mut s = String::new();
            push_str(&mut s, trimmed);
            s
        },
    };
    if is_plausible_version(candidate.as_str()) {
        return Ok(candidate);
    }
    let mut m = String::new();
    push_str(&mut m, "版本响应格式无效: ");
    push_str(&mut m, trimmed);
    Err(Error::JsonRpc(m))
}

/// Reads the body of a `/version` answer: JSON with a version string, or
/// the version as plain text.
pub fn parse_version_response(body: &str) -> (r: Result<String, Error>)
    ensures
        ({
            let t = trim(body@);
            if t.len() == 0 {
                r matches Err(e) && e matches Error::JsonRpc(m) && m@ == "版本响应为空"@
            } else {
                let candidate = match json_version_string(t) {
                    Some(v) => v,
                    None => t,
                };
                if is_plausible_version_spec(candidate) {
                    r matches Ok(x) && x@ == candidate
                } else {
                    r matches Err(e) && e matches Error::JsonRpc(m) && m@
                        == invalid_version_message(t)
                }
            }
        }),
{
    let v = chars_of(body);
    let tv = trim_chars(&v);
    if tv.len() == 0 {
        let mut m = String::new();
        push_str(&mut m, "版本响应为空");
        return Err(Error::JsonRpc(m));
    }
    let t = string_of(&tv);
    let probe = json_version_of(t.as_str());
    version_from_probe(t.as_str(), probe)
}

/// The binaries, by label, to try for an ABI, in order of preference.
pub open spec fn abi_labels_spec(abi: Seq<char>) -> Seq<Seq<char>> {
    if abi == "arm64-v8a"@ || abi == "arm64"@ {
        seq!["arm64"@, "legacy"@]
    } else if abi == "armeabi-v7a"@ || abi == "armeabi"@ || abi == "arm"@ {
        seq!["armv7"@, "legacy"@]
    } else if abi == "x86_64"@ || abi == "amd64"@ {
        seq!["amd64"@, "386"@, "legacy"@]
    } else if abi == "x86"@ || abi == "386"@ || abi == "i686"@ {
        seq!["386"@, "legacy"@]
    } else {
        Seq::empty()
    }
}

/// The views of a vector of strings.
pub open spec fn views(v: Seq<String>) -> Seq<Seq<char>> {
    v.map_values(|s: String| s@)
}

fn labels(ls: &[&str]) -> (r: Vec<String>)
    ensures
        views(r@) == ls@.map_values(|s: &str| s@),
{
    let mut r: Vec<String> = Vec::new();
    let mut i: usize = 0;
    while i < ls.len()
        invariant
            i <= ls@.len(),
            views(r@) == ls@.take(i as int).map_values(|s: &str| s@),
        decreases ls@.len() - i,
    {
        let mut s = String::new();
        push_str(&mut s, ls[i]);
        assert(s@ =~= ls@[i as int]@);
        let ghost before = views(r@);
        r.push(s);
        assert(views(r@) =~= before.push(ls@[i as int]@));
        assert(ls@.take(i + 1) =~= ls@.take(i as int).push(ls@[i as int]));
        assert(ls@.take(i + 1).map_values(|s: &str| s@) =~= ls@.take(i as int).map_values(
            |s: &str| s@,
        ).push(ls@[i as int]@));
        i = i + 1;
    }
    assert(ls@.take(ls@.len() as int) =~= ls@);
    r
}

/// The labels of the bundled binaries that suit `abi`, most suitable
/// first.
pub fn candidate_labels_for_abi(abi: &str) -> (r: Vec<String>)
    ensures
        views(r@) == abi_labels_spec(abi@),
{
    let a = chars_of(abi);
    if chars_eq_str(&a, "arm64-v8a") || chars_eq_str(&a, "arm64") {
        let r = labels(&["arm64", "legacy"]);
        assert(views(r@) =~= abi_labels_spec(abi@));
        r
    } else if chars_eq_str(&a, "armeabi-v7a") || chars_eq_str(&a, "armeabi") || chars_eq_str(
        &a,
        "arm",
    ) {
        let r = labels(&["armv7", "legacy"]);
        assert(views(r@) =~= abi_labels_spec(abi@));
        r
    } else if chars_eq_str(&a, "x86_64") || chars_eq_str(&a, "amd64") {
        let r = labels(&["amd64", "386", "legacy"]);
        assert(views(r@) =~= abi_labels_spec(abi@));
        r
    } else if chars_eq_str(&a, "x86") || chars_eq_str(&a, "386") || chars_eq_str(&a, "i686") {
        let r = labels(&["386", "legacy"]);
        assert(views(r@) =~= abi_labels_spec(abi@));
        r
    } else {
        let r: Vec<String> = Vec::new();
        assert(views(r@) =~= abi_labels_spec(abi@));
        r
    }
}

/// A bundled binary can be used: it has bytes and a real checksum.
pub open spec fn is_usable_binary_spec(len: nat, md5: Seq<char>) -> bool {
    len > 0 && md5 != "placeholder"@
}

/// Whether a bundled binary of `len` bytes with this checksum can be used.
pub fn is_usable_binary(len: usize, md5: &str) -> (r: bool)
    ensures
        r == is_usable_binary_spec(len as nat, md5@),
{
    let m = chars_of(md5);
    len > 0 && !chars_eq_str(&m, "placeholder")
}

/// `sel` with `label` added at the end, where it is usable and not there
/// yet.
pub open spec fn add_label(sel: Seq<Seq<char>>, label: Seq<char>, usable: Seq<Seq<char>>) -> Seq<
    Seq<char>,
> {
    if usable.contains(label) && !sel.contains(label) {
        sel.push(label)
    } else {
        sel
    }
}

/// `sel` with each of `ls` added in turn.
pub open spec fn add_labels(sel: Seq<Seq<char>>, ls: Seq<Seq<char>>, usable: Seq<Seq<char>>) -> Seq<
    Seq<char>,
>
    decreases ls.len(),
{
    if ls.len() == 0 {
        sel
    } else {
        add_labels(add_label(sel, ls[0], usable), ls.drop_first(), usable)
    }
}

/// The labels chosen for the ABIs, ABI after ABI, before `legacy` is added.
pub open spec fn labels_for_abis(abis: Seq<Seq<char>>, usable: Seq<Seq<char>>) -> Seq<Seq<char>>
    decreases abis.len(),
{
    if abis.len() == 0 {
        Seq::empty()
    } else {
        add_labels(labels_for_abis(abis.drop_last(), usable), abi_labels_spec(abis.last()), usable)
    }
}

/// The binaries to try, in order: for each ABI its suitable usable
/// binaries, each once, then `legacy` where it is usable and not chosen yet.
pub open spec fn select_labels_spec(abis: Seq<Seq<char>>, usable: Seq<Seq<char>>) -> Seq<
    Seq<char>,
> {
    add_label(labels_for_abis(abis, usable), "legacy"@, usable)
}

fn seq_has(v: &Vec<String>, s: &String) -> (r: bool)
    ensures
        r == views(v@).contains(s@),
{
    let mut i: usize = 0;
    while i < v.len()
        invariant
            i <= v@.len(),
            forall|j: int| 0 <= j < i ==> v@[j]@ != s@,
        decreases v@.len() - i,
    {
        let a = chars_of(v[i].as_str());
        let b = chars_of(s.as_str());
        if chars_eq(&a, &b) {
            assert(views(v@)[i as int] == s@);
            return true;
        }
        i = i + 1;
    }
    assert forall|j: int| 0 <= j < views(v@).len() implies views(v@)[j] != s@ by {
        assert(views(v@)[j] == v@[j]@);
    }
    false
}

fn add_label_exec(sel: &mut Vec<String>, label: &String, usable: &Vec<String>)
    ensures
        views(final(sel)@) == add_label(views(old(sel)@), label@, views(usable@)),
{
    if seq_has(usable, label) && !seq_has(sel, label) {
        let mut s = String::new();
        push_str(&mut s, label.as_str());
        let ghost before = views(sel@);
        sel.push(s);
        assert(views(sel@) =~= before.push(label@));
    }
}

/// The labels of the binaries to try for a device with these ABIs, given
/// the labels of the usable bundled binaries.
pub fn select_binaries_for_abis(abis: &Vec<String>, usable: &Vec<String>) -> (r: Vec<String>)
    ensures
        views(r@) == select_labels_spec(views(abis@), views(usable@)),
{
    let mut sel: Vec<String> = Vec::new();
    let mut i: usize = 0;
    while i < abis.len()
        invariant
            i <= abis@.len(),
            views(sel@) == labels_for_abis(views(abis@).take(i as int), views(usable@)),
        decreases abis@.len() - i,
    {
        let cands = candidate_labels_for_abi(abis[i].as_str());
        let ghost start = views(sel@);
        assert(views(cands@).skip(0) =~= views(cands@));
        let mut k: usize = 0;
        while k < cands.len()
            invariant
                k <= cands@.len(),
                add_labels(start, views(cands@), views(usable@)) == add_labels(
                    views(sel@),
                    views(cands@).skip(k as int),
                    views(usable@),
                ),
            decreases cands@.len() - k,
        {
            assert(views(cands@).skip(k as int)[0] == views(cands@)[k as int]);
            assert(views(cands@).skip(k as int).drop_first() =~= views(cands@).skip(k + 1));
            add_label_exec(&mut sel, &cands[k], usable);
            k = k + 1;
        }
        assert(views(cands@).skip(k as int) =~= Seq::<Seq<char>>::empty());
        assert(views(abis@).take(i + 1).drop_last() =~= views(abis@).take(i as int));
        assert(views(abis@).take(i + 1).last() == abis@[i as int]@);
        i = i + 1;
    }
    assert(views(abis@).take(abis@.len() as int) =~= views(abis@));
    let legacy = string_of(&chars_of("legacy"));
    add_label_exec(&mut sel, &legacy, usable);
    sel
}

proof fn lemma_add_labels_keeps(sel: Seq<Seq<char>>, ls: Seq<Seq<char>>, usable: Seq<Seq<char>>)
    requires
        sel.no_duplicates(),
        forall|j: int| 0 <= j < sel.len() ==> usable.contains(#[trigger] sel[j]),
    ensures
        add_labels(sel, ls, usable).no_duplicates(),
        forall|j: int|
            0 <= j < add_labels(sel, ls, usable).len() ==> usable.contains(
                #[trigger] add_labels(sel, ls, usable)[j],
            ),
        forall|j: int| 0 <= j < sel.len() ==> add_labels(sel, ls, usable).contains(#[trigger] sel[j]),
    decreases ls.len(),
{
    if ls.len() > 0 {
        let next = add_label(sel, ls[0], usable);
        if usable.contains(ls[0]) && !sel.contains(ls[0]) {
            assert forall|a: int, b: int| 0 <= a < b < next.len() implies next[a] != next[b] by {
                if b == sel.len() {
                    assert(sel.contains(next[a]));
                }
            }
            assert forall|j: int| 0 <= j < sel.len() implies next.contains(#[trigger] sel[j]) by {
                assert(next[j] == sel[j]);
            }
        }
        lemma_add_labels_keeps(next, ls.drop_first(), usable);
        assert forall|j: int| 0 <= j < sel.len() implies add_labels(sel, ls, usable).contains(
            #[trigger] sel[j],
        ) by {
            assert(next.contains(sel[j]));
            let k = choose|k: int| 0 <= k < next.len() && next[k] == sel[j];
            assert(add_labels(next, ls.drop_first(), usable).contains(next[k]));
        }
    }
}

proof fn lemma_labels_for_abis_valid(abis: Seq<Seq<char>>, usable: Seq<Seq<char>>)
    ensures
        labels_for_abis(abis, usable).no_duplicates(),
        forall|j: int|
            0 <= j < labels_for_abis(abis, usable).len() ==> usable.contains(
                #[trigger] labels_for_abis(abis, usable)[j],
            ),
    decreases abis.len(),
{
    if abis.len() > 0 {
        lemma_labels_for_abis_valid(abis.drop_last(), usable);
        lemma_add_labels_keeps(
            labels_for_abis(abis.drop_last(), usable),
            abi_labels_spec(abis.last()),
            usable,
        );
    }
}

/// Every binary chosen is usable, none is chosen twice, and `legacy` is
/// chosen whenever it is usable.
pub proof fn lemma_selected_binaries_valid(abis: Seq<Seq<char>>, usable: Seq<Seq<char>>)
    ensures
        select_labels_spec(abis, usable).no_duplicates(),
        forall|j: int|
            0 <= j < select_labels_spec(abis, usable).len() ==> usable.contains(
                #[trigger] select_labels_spec(abis, usable)[j],
            ),
        usable.contains("legacy"@) ==> select_labels_spec(abis, usable).contains("legacy"@),
{
    lemma_labels_for_abis_valid(abis, usable);
    let sel = labels_for_abis(abis, usable);
    let r = select_labels_spec(abis, usable);
    if usable.contains("legacy"@) && !sel.contains("legacy"@) {
        assert forall|a: int, b: int| 0 <= a < b < r.len() implies r[a] != r[b] by {
            if b == sel.len() {
                assert(sel.contains(r[a]));
            }
        }
        assert(r[sel.len() as int] == "legacy"@);
    }
}

/// The ABI names the table knows are pairwise different.
proof fn lemma_abi_names_distinct()
    ensures
        "arm64-v8a"@ != "arm64"@,
        "arm64-v8a"@ != "armeabi-v7a"@,
        "arm64-v8a"@ != "armeabi"@,
        "arm64-v8a"@ != "arm"@,
        "arm64-v8a"@ != "x86_64"@,
        "arm64-v8a"@ != "amd64"@,
        "arm64-v8a"@ != "x86"@,
        "arm64-v8a"@ != "386"@,
        "arm64-v8a"@ != "i686"@,
        "arm64"@ != "armeabi-v7a"@,
        "arm64"@ != "armeabi"@,
        "arm64"@ != "arm"@,
        "arm64"@ != "x86_64"@,
        "arm64"@ != "amd64"@,
        "arm64"@ != "x86"@,
        "arm64"@ != "386"@,
        "arm64"@ != "i686"@,
        "armeabi-v7a"@ != "armeabi"@,
        "armeabi-v7a"@ != "arm"@,
        "armeabi-v7a"@ != "x86_64"@,
        "armeabi-v7a"@ != "amd64"@,
        "armeabi-v7a"@ != "x86"@,
        "armeabi-v7a"@ != "386"@,
        "armeabi-v7a"@ != "i686"@,
        "armeabi"@ != "arm"@,
        "armeabi"@ != "x86_64"@,
        "armeabi"@ != "amd64"@,
        "armeabi"@ != "x86"@,
        "armeabi"@ != "386"@,
        "armeabi"@ != "i686"@,
        "arm"@ != "x86_64"@,
        "arm"@ != "amd64"@,
        "arm"@ != "x86"@,
        "arm"@ != "386"@,
        "arm"@ != "i686"@,
        "x86_64"@ != "amd64"@,
        "x86_64"@ != "x86"@,
        "x86_64"@ != "386"@,
        "x86_64"@ != "i686"@,
        "amd64"@ != "x86"@,
        "amd64"@ != "386"@,
        "amd64"@ != "i686"@,
        "x86"@ != "386"@,
        "x86"@ != "i686"@,
        "386"@ != "i686"@,
{
    reveal_strlit("arm64-v8a");
    reveal_strlit("arm64");
    reveal_strlit("armeabi-v7a");
    reveal_strlit("armeabi");
    reveal_strlit("arm");
    reveal_strlit("x86_64");
    reveal_strlit("amd64");
    reveal_strlit("x86");
    reveal_strlit("386");
    reveal_strlit("i686");
    assert("arm64-v8a"@.len() != "arm64"@.len());
    assert("arm64-v8a"@.len() != "armeabi-v7a"@.len());
    assert("arm64-v8a"@.len() != "armeabi"@.len());
    assert("arm64-v8a"@.len() != "arm"@.len());
    assert("arm64-v8a"@.len() != "x86_64"@.len());
    assert("arm64-v8a"@.len() != "amd64"@.len());
    assert("arm64-v8a"@.len() != "x86"@.len());
    assert("arm64-v8a"@.len() != "386"@.len());
    assert("arm64-v8a"@.len() != "i686"@.len());
    assert("arm64"@.len() != "armeabi-v7a"@.len());
    assert("arm64"@.len() != "armeabi"@.len());
    assert("arm64"@.len() != "arm"@.len());
    assert("arm64"@.len() != "x86_64"@.len());
    assert("arm64"@[1] != "amd64"@[1]);
    assert("arm64"@.len() != "x86"@.len());
    assert("arm64"@.len() != "386"@.len());
    assert("arm64"@.len() != "i686"@.len());
    assert("armeabi-v7a"@.len() != "armeabi"@.len());
    assert("armeabi-v7a"@.len() != "arm"@.len());
    assert("armeabi-v7a"@.len() != "x86_64"@.len());
    assert("armeabi-v7a"@.len() != "amd64"@.len());
    assert("armeabi-v7a"@.len() != "x86"@.len());
    assert("armeabi-v7a"@.len() != "386"@.len());
    assert("armeabi-v7a"@.len() != "i686"@.len());
    assert("armeabi"@.len() != "arm"@.len());
    assert("armeabi"@.len() != "x86_64"@.len());
    assert("armeabi"@.len() != "amd64"@.len());
    assert("armeabi"@.len() != "x86"@.len());
    assert("armeabi"@.len() != "386"@.len());
    assert("armeabi"@.len() != "i686"@.len());
    assert("arm"@.len() != "x86_64"@.len());
    assert("arm"@.len() != "amd64"@.len());
    assert("arm"@[0] != "x86"@[0]);
    assert("arm"@[0] != "386"@[0]);
    assert("arm"@.len() != "i686"@.len());
    assert("x86_64"@.len() != "amd64"@.len());
    assert("x86_64"@.len() != "x86"@.len());
    assert("x86_64"@.len() != "386"@.len());
    assert("x86_64"@.len() != "i686"@.len());
    assert("amd64"@.len() != "x86"@.len());
    assert("amd64"@.len() != "386"@.len());
    assert("amd64"@.len() != "i686"@.len());
    assert("x86"@[0] != "386"@[0]);
    assert("x86"@.len() != "i686"@.len());
    assert("386"@.len() != "i686"@.len());
}

/// The binary labels are pairwise different.
proof fn lemma_binary_labels_distinct()
    ensures
        "arm64"@ != "armv7"@,
        "arm64"@ != "amd64"@,
        "arm64"@ != "386"@,
        "arm64"@ != "legacy"@,
        "armv7"@ != "amd64"@,
        "armv7"@ != "386"@,
        "armv7"@ != "legacy"@,
        "amd64"@ != "386"@,
        "amd64"@ != "legacy"@,
        "386"@ != "legacy"@,
{
    reveal_strlit("arm64");
    reveal_strlit("armv7");
    reveal_strlit("amd64");
    reveal_strlit("386");
    reveal_strlit("legacy");
    assert("arm64"@[3] != "armv7"@[3]);
    assert("arm64"@[1] != "amd64"@[1]);
    assert("arm64"@.len() != "386"@.len());
    assert("arm64"@.len() != "legacy"@.len());
    assert("armv7"@[1] != "amd64"@[1]);
    assert("armv7"@.len() != "386"@.len());
    assert("armv7"@.len() != "legacy"@.len());
    assert("amd64"@.len() != "386"@.len());
    assert("amd64"@.len() != "legacy"@.len());
    assert("386"@.len() != "legacy"@.len());
}

/// The bundled binaries suited to each known ABI, most suitable first:
/// 64-bit ARM gets `arm64`, 32-bit ARM gets `armv7`, x86-64 gets `amd64`
/// and then `386`, 32-bit x86 gets `386`; each list ends with `legacy`.
pub proof fn lemma_abi_table()
    ensures
        abi_labels_spec("arm64-v8a"@) == seq!["arm64"@, "legacy"@],
        abi_labels_spec("arm64"@) == seq!["arm64"@, "legacy"@],
        abi_labels_spec("armeabi-v7a"@) == seq!["armv7"@, "legacy"@],
        abi_labels_spec("armeabi"@) == seq!["armv7"@, "legacy"@],
        abi_labels_spec("arm"@) == seq!["armv7"@, "legacy"@],
        abi_labels_spec("x86_64"@) == seq!["amd64"@, "386"@, "legacy"@],
        abi_labels_spec("amd64"@) == seq!["amd64"@, "386"@, "legacy"@],
        abi_labels_spec("x86"@) == seq!["386"@, "legacy"@],
        abi_labels_spec("386"@) == seq!["386"@, "legacy"@],
        abi_labels_spec("i686"@) == seq!["386"@, "legacy"@],
{
    lemma_abi_names_distinct();
}

/// A binary is offered only for the ABIs it was built for: `arm64` only to
/// 64-bit ARM ABIs, `armv7` only to 32-bit ARM ABIs, `amd64` only to
/// x86-64 ABIs; and `legacy` closes every non-empty list.
pub proof fn lemma_abi_binaries_match_width(abi: Seq<char>)
    ensures
        abi_labels_spec(abi).contains("arm64"@) ==> abi == "arm64-v8a"@ || abi == "arm64"@,
        abi_labels_spec(abi).contains("armv7"@) ==> abi == "armeabi-v7a"@ || abi == "armeabi"@
            || abi == "arm"@,
        abi_labels_spec(abi).contains("amd64"@) ==> abi == "x86_64"@ || abi == "amd64"@,
        abi_labels_spec(abi).len() > 0 ==> abi_labels_spec(abi).last() == "legacy"@,
{
    lemma_binary_labels_distinct();
    let l = abi_labels_spec(abi);
    if l.contains("arm64"@) {
        let i = choose|i: int| 0 <= i < l.len() && l[i] == "arm64"@;
        assert(l[i] == "arm64"@);
    }
    if l.contains("armv7"@) {
        let i = choose|i: int| 0 <= i < l.len() && l[i] == "armv7"@;
        assert(l[i] == "armv7"@);
    }
    if l.contains("amd64"@) {
        let i = choose|i: int| 0 <= i < l.len() && l[i] == "amd64"@;
        assert(l[i] == "amd64"@);
    }
}

proof fn lemma_add_labels_from(sel: Seq<Seq<char>>, ls: Seq<Seq<char>>, usable: Seq<Seq<char>>, x: Seq<char>)
    ensures
        add_labels(sel, ls, usable).contains(x) ==> sel.contains(x) || ls.contains(x),
    decreases ls.len(),
{
    if ls.len() > 0 {
        let sel1 = add_label(sel, ls[0], usable);
        lemma_add_labels_from(sel1, ls.drop_first(), usable, x);
        if sel1.contains(x) && !sel.contains(x) {
            let i = choose|i: int| 0 <= i < sel1.len() && sel1[i] == x;
            assert(x == ls[0]);
            assert(ls.contains(x));
        }
        if ls.drop_first().contains(x) {
            let i = choose|i: int| 0 <= i < ls.drop_first().len() && ls.drop_first()[i] == x;
            assert(ls[i + 1] == x);
        }
    }
}

proof fn lemma_labels_for_abis_from(abis: Seq<Seq<char>>, usable: Seq<Seq<char>>, x: Seq<char>)
    ensures
        labels_for_abis(abis, usable).contains(x) ==> exists|i: int|
            0 <= i < abis.len() && #[trigger] abi_labels_spec(abis[i]).contains(x),
    decreases abis.len(),
{
    if abis.len() > 0 {
        lemma_labels_for_abis_from(abis.drop_last(), usable, x);
        lemma_add_labels_from(labels_for_abis(abis.drop_last(), usable), abi_labels_spec(abis.last()), usable, x);
        if labels_for_abis(abis.drop_last(), usable).contains(x) {
            let i = choose|i: int| 0 <= i < abis.drop_last().len() && #[trigger] abi_labels_spec(abis.drop_last()[i]).contains(x);
            assert(abis[i] == abis.drop_last()[i]);
            assert(abi_labels_spec(abis[i]).contains(x));
        } else if abi_labels_spec(abis.last()).contains(x) {
            assert(abi_labels_spec(abis[abis.len() - 1]).contains(x));
        }
    }
}

/// A device is offered the `arm64` binary only when one of its ABIs is a
/// 64-bit ARM ABI, and the `armv7` binary only when one is a 32-bit ARM
/// ABI; every binary offered other than `legacy` suits one of its ABIs.
pub proof fn lemma_selected_binaries_suit_device(abis: Seq<Seq<char>>, usable: Seq<Seq<char>>)
    ensures
        select_labels_spec(abis, usable).contains("arm64"@) ==> exists|i: int|
            0 <= i < abis.len() && (#[trigger] abis[i] == "arm64-v8a"@ || abis[i] == "arm64"@),
        select_labels_spec(abis, usable).contains("armv7"@) ==> exists|i: int|
            0 <= i < abis.len() && (#[trigger] abis[i] == "armeabi-v7a"@ || abis[i] == "armeabi"@
                || abis[i] == "arm"@),
        forall|x: Seq<char>|
            #[trigger] select_labels_spec(abis, usable).contains(x) && x != "legacy"@ ==> exists|i: int|
                0 <= i < abis.len() && #[trigger] abi_labels_spec(abis[i]).contains(x),
{
    lemma_binary_labels_distinct();
    let sel = labels_for_abis(abis, usable);
    assert forall|x: Seq<char>|
        #[trigger] select_labels_spec(abis, usable).contains(x) && x != "legacy"@ implies exists|i: int|
            0 <= i < abis.len() && #[trigger] abi_labels_spec(abis[i]).contains(x) by {
        lemma_labels_for_abis_from(abis, usable, x);
        let r = select_labels_spec(abis, usable);
        if !sel.contains(x) {
            let j = choose|j: int| 0 <= j < r.len() && r[j] == x;
            assert(j < sel.len() ==> sel[j] == x);
        }
    }
    if select_labels_spec(abis, usable).contains("arm64"@) {
        let i = choose|i: int| 0 <= i < abis.len() && #[trigger] abi_labels_spec(abis[i]).contains("arm64"@);
        lemma_abi_binaries_match_width(abis[i]);
    }
    if select_labels_spec(abis, usable).contains("armv7"@) {
        let i = choose|i: int| 0 <= i < abis.len() && #[trigger] abi_labels_spec(abis[i]).contains("armv7"@);
        lemma_abi_binaries_match_width(abis[i]);
    }
}

/// The separators of `str::split(',')` on the text: the pieces between
/// commas, from position `from` on.
pub open spec fn comma_pieces_from(s: Seq<char>, from: int) -> Seq<Seq<char>>
    decreases s.len() - from,
{
    if from < 0 || from > s.len() {
        Seq::empty()
    } else {
        proof {
            lemma_next_comma(s, from);
        }
        let end = next_comma(s, from);
        if end < s.len() {
            seq![s.subrange(from, end)] + comma_pieces_from(s, end + 1)
        } else {
            seq![s.subrange(from, s.len() as int)]
        }
    }
}

/// Position of the first `,` at or after `from`, or `s.len()`.
pub open spec fn next_comma(s: Seq<char>, from: int) -> int
    decreases s.len() - from,
{
    if from >= s.len() {
        s.len() as int
    } else if s[from] == ',' {
        from
    } else {
        next_comma(s, from + 1)
    }
}

pub proof fn lemma_next_comma(s: Seq<char>, from: int)
    requires
        0 <= from <= s.len(),
    ensures
        from <= next_comma(s, from) <= s.len(),
        next_comma(s, from) < s.len() ==> s[next_comma(s, from)] == ',',
    decreases s.len() - from,
{
    if from < s.len() && s[from] != ',' {
        lemma_next_comma(s, from + 1);
    }
}

/// The non-empty trimmed pieces among `ps`, in order.
pub open spec fn nonempty_trimmed(ps: Seq<Seq<char>>) -> Seq<Seq<char>>
    decreases ps.len(),
{
    if ps.len() == 0 {
        Seq::empty()
    } else {
        let rest = nonempty_trimmed(ps.drop_last());
        if trim(ps.last()).len() > 0 {
            rest.push(trim(ps.last()))
        } else {
            rest
        }
    }
}

/// The ABIs in the output of `getprop ro.product.cpu.abilist`: the trimmed
/// output split at commas, each piece trimmed, empty pieces dropped.
pub open spec fn abi_list_spec(output: Seq<char>) -> Seq<Seq<char>> {
    nonempty_trimmed(comma_pieces_from(trim(output), 0))
}

/// Reads the ABI list of `getprop ro.product.cpu.abilist`.
pub fn parse_abi_list(output: &str) -> (r: Vec<String>)
    ensures
        views(r@) == abi_list_spec(output@),
{
    let v = chars_of(output);
    let t = trim_chars(&v);
    let mut r: Vec<String> = Vec::new();
    let mut from: usize = 0;
    let ghost s = t@;
    let ghost mut done: Seq<Seq<char>> = Seq::empty();
    loop
        invariant
            s == t@,
            t@ == trim(output@),
            from <= t@.len(),
            comma_pieces_from(s, 0) == done + comma_pieces_from(s, from as int),
            views(r@) == nonempty_trimmed(done),
        decreases t@.len() - from,
    {
        let mut end = from;
        while end < t.len() && t[end] != ','
            invariant
                s == t@,
                from <= end <= t@.len(),
                next_comma(s, from as int) == next_comma(s, end as int),
            decreases t@.len() - end,
        {
            assert(next_comma(s, end as int) == next_comma(s, end + 1));
            end = end + 1;
        }
        proof {
            lemma_next_comma(s, end as int);
            assert(next_comma(s, end as int) == end as int);
        }
        let piece = slice_chars(&t, from, end);
        let pt = trim_chars(&piece);
        let ghost before = views(r@);
        if pt.len() > 0 {
            r.push(string_of(&pt));
            assert(views(r@) =~= before.push(pt@));
        }
        proof {
            let p = s.subrange(from as int, end as int);
            assert(piece@ == p);
            assert(nonempty_trimmed(done.push(p)) == if trim(p).len() > 0 {
                nonempty_trimmed(done).push(trim(p))
            } else {
                nonempty_trimmed(done)
            }) by {
                assert(done.push(p).drop_last() =~= done);
            }
            done = done.push(p);
        }
        if end >= t.len() {
            assert(comma_pieces_from(s, from as int) =~= seq![s.subrange(from as int, end as int)]);
            assert(comma_pieces_from(s, 0) =~= done);
            return r;
        }
        assert(comma_pieces_from(s, from as int) =~= seq![s.subrange(from as int, end as int)]
            + comma_pieces_from(s, end + 1));
        assert(comma_pieces_from(s, 0) =~= done + comma_pieces_from(s, end + 1));
        from = end + 1;
    }
}

/// Reads the output of `getprop ro.product.cpu.abi`: the trimmed value,
/// where it is not empty.
pub fn single_abi(output: &str) -> (r: Option<String>)
    ensures
        trim(output@).len() == 0 ==> r is None,
        trim(output@).len() > 0 ==> (r matches Some(x) && x@ == trim(output@)),
{
    let v = chars_of(output);
    let t = trim_chars(&v);
    if t.len() == 0 {
        None
    } else {
        Some(string_of(&t))
    }
}

/// Reads the output of `md5sum`: its first word.
pub fn md5_from_output(output: &str) -> (r: Result<String, Error>)
    ensures
        match first_word(output@) {
            Some(w) => r matches Ok(x) && x@ == w,
            None => r matches Err(e) && e matches Error::Adb(m) && m@ == "无法解析 MD5 输出"@,
        },
{
    let v = chars_of(output);
    match first_word_chars(&v) {
        Some(w) => Ok(string_of(&w)),
        None => {
            let mut m = String::new();
            push_str(&mut m, "无法解析 MD5 输出");
            Err(Error::Adb(m))
        },
    }
}

/// Whether the output of the `test -f` probe says that the file exists.
pub fn file_exists_from_output(output: &str) -> (r: bool)
    ensures
        r == (trim(output@) == "exists"@),
{
    let v = chars_of(output);
    let t = trim_chars(&v);
    chars_eq_str(&t, "exists")
}

/// Whether the device binary's checksum is that of one of the candidates.
pub fn checksum_matches(candidate_md5s: &Vec<String>, device_md5: &str) -> (r: bool)
    ensures
        r == views(candidate_md5s@).contains(device_md5@),
{
    let d = string_of(&chars_of(device_md5));
    seq_has(candidate_md5s, &d)
}

/// The output of `atx-agent version` shows an error, or shows no version.
pub open spec fn version_output_invalid(output: Seq<char>) -> bool {
    let t = trim(output);
    let l = unicode_lowercase(t);
    ||| t.len() == 0
    ||| seq_contains(l, "no such file"@)
    ||| seq_contains(l, "not found"@)
    ||| seq_contains(l, "permission denied"@)
    ||| seq_contains(l, "exec format error"@)
    ||| seq_contains(l, "syntax error"@)
    ||| seq_contains(l, "error"@)
    ||| !(exists|i: int| 0 <= i < t.len() && '0' <= #[trigger] t[i] <= '9')
}

/// Checks what a freshly pushed binary printed for `version`: it must show
/// a digit and no error, else the binary is refused with the first 200
/// characters of its output.
pub fn verify_version_output(label: &str, output: &str) -> (r: Result<(), Error>)
    ensures
        r is Ok <==> !version_output_invalid(output@),
        r matches Err(e) ==> e matches Error::Adb(m) && m@ == "binary '"@ + label@
            + "' verification output is invalid: "@ + trim(output@).take(
            if trim(output@).len() < 200 {
                trim(output@).len() as int
            } else {
                200
            },
        ),
{
    let v = chars_of(output);
    let t = trim_chars(&v);
    let l = lower_chars(&t);
    let has_error = contains_str(&l, "no such file") || contains_str(&l, "not found")
        || contains_str(&l, "permission denied") || contains_str(&l, "exec format error")
        || contains_str(&l, "syntax error") || contains_str(&l, "error");
    let mut has_digit = false;
    let mut i: usize = 0;
    while i < t.len()
        invariant
            i <= t@.len(),
            has_digit == (exists|j: int| 0 <= j < i && '0' <= #[trigger] t@[j] <= '9'),
        decreases t@.len() - i,
    {
        if '0' <= t[i] && t[i] <= '9' {
            has_digit = true;
        }
        i = i + 1;
    }
    if t.len() == 0 || has_error || !has_digit {
        let n = if t.len() < 200 {
            t.len()
        } else {
            200
        };
        let short = slice_chars(&t, 0, n);
        let mut m = String::new();
        push_str(&mut m, "binary '");
        push_str(&mut m, label);
        push_str(&mut m, "' verification output is invalid: ");
        push_chars(&mut m, &short);
        assert(short@ =~= t@.take(n as int));
        return Err(Error::Adb(m));
    }
    Ok(())
}

/// Reads the output of `pm install`: it must say `Success`.
pub fn apk_install_outcome(name: &str, output: &str) -> (r: Result<(), Error>)
    ensures
        r is Ok <==> seq_contains(output@, "Success"@),
        r matches Err(e) ==> e matches Error::Adb(m) && m@ == "安装 "@ + name@ + " 失败: "@
            + output@,
{
    let v = chars_of(output);
    if contains_str(&v, "Success") {
        return Ok(());
    }
    let mut m = String::new();
    push_str(&mut m, "安装 ");
    push_str(&mut m, name);
    push_str(&mut m, " 失败: ");
    push_str(&mut m, output);
    Err(Error::Adb(m))
}

/// Every ABI read from the list is non-empty and already trimmed.
pub proof fn lemma_abi_list_entries_trimmed(output: Seq<char>)
    ensures
        forall|i: int|
            0 <= i < abi_list_spec(output).len() ==> (#[trigger] abi_list_spec(output)[i]).len()
                > 0 && trim(abi_list_spec(output)[i]) == abi_list_spec(output)[i],
{
    lemma_nonempty_trimmed_entries(comma_pieces_from(trim(output), 0));
}

proof fn lemma_nonempty_trimmed_entries(ps: Seq<Seq<char>>)
    ensures
        forall|i: int|
            0 <= i < nonempty_trimmed(ps).len() ==> (#[trigger] nonempty_trimmed(ps)[i]).len() > 0
                && trim(nonempty_trimmed(ps)[i]) == nonempty_trimmed(ps)[i],
    decreases ps.len(),
{
    if ps.len() > 0 {
        lemma_nonempty_trimmed_entries(ps.drop_last());
        crate::text::lemma_trim_idempotent(ps.last());
        let rest = nonempty_trimmed(ps.drop_last());
        let r = nonempty_trimmed(ps);
        assert forall|i: int| 0 <= i < r.len() implies (#[trigger] r[i]).len() > 0 && trim(r[i])
            == r[i] by {
            if i < rest.len() {
                assert(r[i] == rest[i]);
            }
        }
    }
}

} // verus!
