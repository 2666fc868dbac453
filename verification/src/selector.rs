//! Selectors: the conditions that pick a UI element.
//!
//! A selector is sent to the device as a JSON object with one member per
//! condition that is set and a `mask` whose bits say which conditions are
//! set; child and sibling selectors follow in `childOrSibling` and
//! `childOrSiblingSelector`.
use vstd::prelude::*;

use crate::json::{json_bool, json_quote, json_u32, push_json_bool, push_json_quoted, push_json_u32};
use crate::text::{occurs_at, push_str, seq_contains};

verus! {

/// Mask bit of the `text` condition.
pub const MASK_TEXT: u32 = 0x1;

/// Mask bit of the `textContains` condition.
pub const MASK_TEXT_CONTAINS: u32 = 0x2;

/// Mask bit of the `textStartsWith` condition.
pub const MASK_TEXT_STARTS_WITH: u32 = 0x8;

/// Mask bit of the `textMatches` condition.
pub const MASK_TEXT_MATCHES: u32 = 0x4;

/// Mask bit of the `resourceId` condition.
pub const MASK_RESOURCE_ID: u32 = 0x200000;

/// Mask bit of the `className` condition.
pub const MASK_CLASS_NAME: u32 = 0x10;

/// Mask bit of the `description` condition.
pub const MASK_DESCRIPTION: u32 = 0x40;

/// Mask bit of the `descriptionContains` condition.
pub const MASK_DESCRIPTION_CONTAINS: u32 = 0x80;

/// Mask bit of the `packageName` condition.
pub const MASK_PACKAGE_NAME: u32 = 0x80000;

/// Mask bit of the `clickable` condition.
pub const MASK_CLICKABLE: u32 = 0x1000;

/// Mask bit of the `enabled` condition.
pub const MASK_ENABLED: u32 = 0x8000;

/// Mask bit of the `focusable` condition.
pub const MASK_FOCUSABLE: u32 = 0x10000;

/// Mask bit of the `scrollable` condition.
pub const MASK_SCROLLABLE: u32 = 0x4000;

/// Mask bit of the `instance` condition.
pub const MASK_INSTANCE: u32 = 0x1000000;

/// Mask bit of the `checkable` condition.
pub const MASK_CHECKABLE: u32 = 0x400;

/// Mask bit of the `checked` condition.
pub const MASK_CHECKED: u32 = 0x800;

/// Mask bit of the `longClickable` condition.
pub const MASK_LONG_CLICKABLE: u32 = 0x2000;

/// Mask bit of the `focused` condition.
pub const MASK_FOCUSED: u32 = 0x20000;

/// Mask bit of the `selected` condition.
pub const MASK_SELECTED: u32 = 0x40000;

/// Mask bit of the `classNameMatches` condition.
pub const MASK_CLASS_NAME_MATCHES: u32 = 0x20;

/// Mask bit of the `descriptionMatches` condition.
pub const MASK_DESCRIPTION_MATCHES: u32 = 0x100;

/// Mask bit of the `descriptionStartsWith` condition.
pub const MASK_DESCRIPTION_STARTS_WITH: u32 = 0x200;

/// Mask bit of the `packageNameMatches` condition.
pub const MASK_PACKAGE_NAME_MATCHES: u32 = 0x100000;

/// Mask bit of the `resourceIdMatches` condition.
pub const MASK_RESOURCE_ID_MATCHES: u32 = 0x400000;

/// Mask bit of the `index` condition.
pub const MASK_INDEX: u32 = 0x800000;

/// Conditions that pick a UI element; built by chaining its methods.
#[derive(Debug, PartialEq)]
pub struct Selector {
    /// Exact text.
    pub text: Option<String>,
    /// Text containing a substring.
    pub text_contains: Option<String>,
    /// Text starting with a prefix.
    pub text_starts_with: Option<String>,
    /// Text matching a regular expression.
    pub text_matches: Option<String>,
    /// Resource id, such as `com.example:id/button`.
    pub resource_id: Option<String>,
    /// Class name, such as `android.widget.TextView`.
    pub class_name: Option<String>,
    /// Exact content description.
    pub description: Option<String>,
    /// Content description containing a substring.
    pub description_contains: Option<String>,
    /// Package name.
    pub package_name: Option<String>,
    /// Whether the element can be clicked.
    pub clickable: Option<bool>,
    /// Whether the element is enabled.
    pub enabled: Option<bool>,
    /// Whether the element can take focus.
    pub focusable: Option<bool>,
    /// Whether the element scrolls.
    pub scrollable: Option<bool>,
    /// Which of several matching elements (from 0).
    pub instance: Option<u32>,
    /// Whether the element can be checked.
    pub checkable: Option<bool>,
    /// Whether the element is checked.
    pub checked: Option<bool>,
    /// Whether the element can be long-clicked.
    pub long_clickable: Option<bool>,
    /// Whether the element has focus.
    pub focused: Option<bool>,
    /// Whether the element is selected.
    pub selected: Option<bool>,
    /// Class name matching a regular expression.
    pub class_name_matches: Option<String>,
    /// Content description matching a regular expression.
    pub description_matches: Option<String>,
    /// Content description starting with a prefix.
    pub description_starts_with: Option<String>,
    /// Package name matching a regular expression.
    pub package_name_matches: Option<String>,
    /// Resource id matching a regular expression.
    pub resource_id_matches: Option<String>,
    /// Position of the element in its parent (from 0).
    pub index: Option<u32>,
    /// Relation of each nested selector to this one: `"child"` or `"sibling"`.
    pub child_or_sibling: Vec<String>,
    /// The nested selectors, one per entry of `child_or_sibling`.
    pub child_or_sibling_selector: Vec<Selector>,
}

/// The conditions of a selector as mathematical values.
pub struct SelectorView {
    pub text: Option<Seq<char>>,
    pub text_contains: Option<Seq<char>>,
    pub text_starts_with: Option<Seq<char>>,
    pub text_matches: Option<Seq<char>>,
    pub resource_id: Option<Seq<char>>,
    pub class_name: Option<Seq<char>>,
    pub description: Option<Seq<char>>,
    pub description_contains: Option<Seq<char>>,
    pub package_name: Option<Seq<char>>,
    pub clickable: Option<bool>,
    pub enabled: Option<bool>,
    pub focusable: Option<bool>,
    pub scrollable: Option<bool>,
    pub instance: Option<u32>,
    pub checkable: Option<bool>,
    pub checked: Option<bool>,
    pub long_clickable: Option<bool>,
    pub focused: Option<bool>,
    pub selected: Option<bool>,
    pub class_name_matches: Option<Seq<char>>,
    pub description_matches: Option<Seq<char>>,
    pub description_starts_with: Option<Seq<char>>,
    pub package_name_matches: Option<Seq<char>>,
    pub resource_id_matches: Option<Seq<char>>,
    pub index: Option<u32>,
    pub child_or_sibling: Seq<Seq<char>>,
    pub child_or_sibling_selector: Seq<Selector>,
}

/// A string option as an option of characters.
pub open spec fn opt_str_view(o: Option<String>) -> Option<Seq<char>> {
    match o {
        Some(s) => Some(s@),
        None => None,
    }
}

impl View for Selector {
    type V = SelectorView;

    open spec fn view(&self) -> SelectorView {
        SelectorView {
            text: opt_str_view(self.text),
            text_contains: opt_str_view(self.text_contains),
            text_starts_with: opt_str_view(self.text_starts_with),
            text_matches: opt_str_view(self.text_matches),
            resource_id: opt_str_view(self.resource_id),
            class_name: opt_str_view(self.class_name),
            description: opt_str_view(self.description),
            description_contains: opt_str_view(self.description_contains),
            package_name: opt_str_view(self.package_name),
            clickable: self.clickable,
            enabled: self.enabled,
            focusable: self.focusable,
            scrollable: self.scrollable,
            instance: self.instance,
            checkable: self.checkable,
            checked: self.checked,
            long_clickable: self.long_clickable,
            focused: self.focused,
            selected: self.selected,
            class_name_matches: opt_str_view(self.class_name_matches),
            description_matches: opt_str_view(self.description_matches),
            description_starts_with: opt_str_view(self.description_starts_with),
            package_name_matches: opt_str_view(self.package_name_matches),
            resource_id_matches: opt_str_view(self.resource_id_matches),
            index: self.index,
            child_or_sibling: self.child_or_sibling@.map_values(|s: String| s@),
            child_or_sibling_selector: self.child_or_sibling_selector@,
        }
    }
}

/// The view of a selector with no condition.
pub open spec fn empty_selector_view() -> SelectorView {
    SelectorView {
        text: None,
        text_contains: None,
        text_starts_with: None,
        text_matches: None,
        resource_id: None,
        class_name: None,
        description: None,
        description_contains: None,
        package_name: None,
        clickable: None,
        enabled: None,
        focusable: None,
        scrollable: None,
        instance: None,
        checkable: None,
        checked: None,
        long_clickable: None,
        focused: None,
        selected: None,
        class_name_matches: None,
        description_matches: None,
        description_starts_with: None,
        package_name_matches: None,
        resource_id_matches: None,
        index: None,
        child_or_sibling: Seq::empty(),
        child_or_sibling_selector: Seq::empty(),
    }
}

/// `m` when `b` holds, else 0.
pub open spec fn bit_if(b: bool, m: u32) -> u32 {
    if b {
        m
    } else {
        0
    }
}

/// `m` when `b` holds, else 0.
pub fn bit_if_exec(b: bool, m: u32) -> (r: u32)
    ensures
        r == bit_if(b, m),
{
    if b {
        m
    } else {
        0
    }
}

/// The mask for the given set/unset flags of the conditions, in the order
/// the conditions are declared.
#[verifier::opaque]
pub open spec fn mask_of_flags(b0: bool, b1: bool, b2: bool, b3: bool, b4: bool, b5: bool, b6: bool, b7: bool, b8: bool, b9: bool, b10: bool, b11: bool, b12: bool, b13: bool, b14: bool, b15: bool, b16: bool, b17: bool, b18: bool, b19: bool, b20: bool, b21: bool, b22: bool, b23: bool, b24: bool) -> u32 {
    0u32 | bit_if(b0, MASK_TEXT) | bit_if(b1, MASK_TEXT_CONTAINS) | bit_if(b2, MASK_TEXT_STARTS_WITH) | bit_if(b3, MASK_TEXT_MATCHES) | bit_if(b4, MASK_RESOURCE_ID) | bit_if(b5, MASK_CLASS_NAME) | bit_if(b6, MASK_DESCRIPTION) | bit_if(b7, MASK_DESCRIPTION_CONTAINS) | bit_if(b8, MASK_PACKAGE_NAME) | bit_if(b9, MASK_CLICKABLE) | bit_if(b10, MASK_ENABLED) | bit_if(b11, MASK_FOCUSABLE) | bit_if(b12, MASK_SCROLLABLE) | bit_if(b13, MASK_INSTANCE) | bit_if(b14, MASK_CHECKABLE) | bit_if(b15, MASK_CHECKED) | bit_if(b16, MASK_LONG_CLICKABLE) | bit_if(b17, MASK_FOCUSED) | bit_if(b18, MASK_SELECTED) | bit_if(b19, MASK_CLASS_NAME_MATCHES) | bit_if(b20, MASK_DESCRIPTION_MATCHES) | bit_if(b21, MASK_DESCRIPTION_STARTS_WITH) | bit_if(b22, MASK_PACKAGE_NAME_MATCHES) | bit_if(b23, MASK_RESOURCE_ID_MATCHES) | bit_if(b24, MASK_INDEX)
}

/// The mask of a selector: the bits of the conditions that are set.
pub open spec fn selector_mask(v: SelectorView) -> u32 {
    mask_of_flags(v.text is Some, v.text_contains is Some, v.text_starts_with is Some, v.text_matches is Some, v.resource_id is Some, v.class_name is Some, v.description is Some, v.description_contains is Some, v.package_name is Some, v.clickable is Some, v.enabled is Some, v.focusable is Some, v.scrollable is Some, v.instance is Some, v.checkable is Some, v.checked is Some, v.long_clickable is Some, v.focused is Some, v.selected is Some, v.class_name_matches is Some, v.description_matches is Some, v.description_starts_with is Some, v.package_name_matches is Some, v.resource_id_matches is Some, v.index is Some)
}

/// A member `"key":"value",` when a string condition is set.
pub open spec fn str_member(key: Seq<char>, o: Option<Seq<char>>) -> Seq<char> {
    match o {
        Some(x) => json_quote(key) + ":"@ + json_quote(x) + ","@,
        None => Seq::empty(),
    }
}

/// A member `"key":true,` or `"key":false,` when a flag condition is set.
pub open spec fn bool_member(key: Seq<char>, o: Option<bool>) -> Seq<char> {
    match o {
        Some(x) => json_quote(key) + ":"@ + json_bool(x) + ","@,
        None => Seq::empty(),
    }
}

/// A member `"key":n,` when a number condition is set.
pub open spec fn u32_member(key: Seq<char>, o: Option<u32>) -> Seq<char> {
    match o {
        Some(x) => json_quote(key) + ":"@ + json_u32(x as nat) + ","@,
        None => Seq::empty(),
    }
}

/// Appends the member of a string condition, when it is set.
fn push_str_member(out: &mut String, key: &str, o: &Option<String>)
    ensures
        final(out)@ == old(out)@ + str_member(key@, opt_str_view(*o)),
{
    let ghost start = out@;
    if let Some(x) = o {
        push_json_quoted(out, key);
        push_str(out, ":");
        push_json_quoted(out, x.as_str());
        push_str(out, ",");
        assert(out@ =~= start + str_member(key@, opt_str_view(*o)));
    } else {
        assert(out@ =~= start + str_member(key@, opt_str_view(*o)));
    }
}

/// Appends the member of a flag condition, when it is set.
fn push_bool_member(out: &mut String, key: &str, o: Option<bool>)
    ensures
        final(out)@ == old(out)@ + bool_member(key@, o),
{
    let ghost start = out@;
    if let Some(x) = o {
        push_json_quoted(out, key);
        push_str(out, ":");
        push_json_bool(out, x);
        push_str(out, ",");
        assert(out@ =~= start + bool_member(key@, o));
    } else {
        assert(out@ =~= start + bool_member(key@, o));
    }
}

/// Appends the member of a number condition, when it is set.
fn push_u32_member(out: &mut String, key: &str, o: Option<u32>)
    ensures
        final(out)@ == old(out)@ + u32_member(key@, o),
{
    let ghost start = out@;
    if let Some(x) = o {
        push_json_quoted(out, key);
        push_str(out, ":");
        push_json_u32(out, x);
        push_str(out, ",");
        assert(out@ =~= start + u32_member(key@, o));
    } else {
        assert(out@ =~= start + u32_member(key@, o));
    }
}

/// The `text` member followed by a comma, when that condition is set.
pub open spec fn text_member(v: SelectorView) -> Seq<char> {
    str_member("text"@, v.text)
}

/// The `textContains` member followed by a comma, when that condition is set.
pub open spec fn text_contains_member(v: SelectorView) -> Seq<char> {
    str_member("textContains"@, v.text_contains)
}

/// The `textStartsWith` member followed by a comma, when that condition is set.
pub open spec fn text_starts_with_member(v: SelectorView) -> Seq<char> {
    str_member("textStartsWith"@, v.text_starts_with)
}

/// The `textMatches` member followed by a comma, when that condition is set.
pub open spec fn text_matches_member(v: SelectorView) -> Seq<char> {
    str_member("textMatches"@, v.text_matches)
}

/// The `resourceId` member followed by a comma, when that condition is set.
pub open spec fn resource_id_member(v: SelectorView) -> Seq<char> {
    str_member("resourceId"@, v.resource_id)
}

/// The `className` member followed by a comma, when that condition is set.
pub open spec fn class_name_member(v: SelectorView) -> Seq<char> {
    str_member("className"@, v.class_name)
}

/// The `description` member followed by a comma, when that condition is set.
pub open spec fn description_member(v: SelectorView) -> Seq<char> {
    str_member("description"@, v.description)
}

/// The `descriptionContains` member followed by a comma, when that condition is set.
pub open spec fn description_contains_member(v: SelectorView) -> Seq<char> {
    str_member("descriptionContains"@, v.description_contains)
}

/// The `packageName` member followed by a comma, when that condition is set.
pub open spec fn package_name_member(v: SelectorView) -> Seq<char> {
    str_member("packageName"@, v.package_name)
}

/// The `clickable` member followed by a comma, when that condition is set.
pub open spec fn clickable_member(v: SelectorView) -> Seq<char> {
    bool_member("clickable"@, v.clickable)
}

/// The `enabled` member followed by a comma, when that condition is set.
pub open spec fn enabled_member(v: SelectorView) -> Seq<char> {
    bool_member("enabled"@, v.enabled)
}

/// The `focusable` member followed by a comma, when that condition is set.
pub open spec fn focusable_member(v: SelectorView) -> Seq<char> {
    bool_member("focusable"@, v.focusable)
}

/// The `scrollable` member followed by a comma, when that condition is set.
pub open spec fn scrollable_member(v: SelectorView) -> Seq<char> {
    bool_member("scrollable"@, v.scrollable)
}

/// The `instance` member followed by a comma, when that condition is set.
pub open spec fn instance_member(v: SelectorView) -> Seq<char> {
    u32_member("instance"@, v.instance)
}

/// The `checkable` member followed by a comma, when that condition is set.
pub open spec fn checkable_member(v: SelectorView) -> Seq<char> {
    bool_member("checkable"@, v.checkable)
}

/// The `checked` member followed by a comma, when that condition is set.
pub open spec fn checked_member(v: SelectorView) -> Seq<char> {
    bool_member("checked"@, v.checked)
}

/// The `longClickable` member followed by a comma, when that condition is set.
pub open spec fn long_clickable_member(v: SelectorView) -> Seq<char> {
    bool_member("longClickable"@, v.long_clickable)
}

/// The `focused` member followed by a comma, when that condition is set.
pub open spec fn focused_member(v: SelectorView) -> Seq<char> {
    bool_member("focused"@, v.focused)
}

/// The `selected` member followed by a comma, when that condition is set.
pub open spec fn selected_member(v: SelectorView) -> Seq<char> {
    bool_member("selected"@, v.selected)
}

/// The `classNameMatches` member followed by a comma, when that condition is set.
pub open spec fn class_name_matches_member(v: SelectorView) -> Seq<char> {
    str_member("classNameMatches"@, v.class_name_matches)
}

/// The `descriptionMatches` member followed by a comma, when that condition is set.
pub open spec fn description_matches_member(v: SelectorView) -> Seq<char> {
    str_member("descriptionMatches"@, v.description_matches)
}

/// The `descriptionStartsWith` member followed by a comma, when that condition is set.
pub open spec fn description_starts_with_member(v: SelectorView) -> Seq<char> {
    str_member("descriptionStartsWith"@, v.description_starts_with)
}

/// The `packageNameMatches` member followed by a comma, when that condition is set.
pub open spec fn package_name_matches_member(v: SelectorView) -> Seq<char> {
    str_member("packageNameMatches"@, v.package_name_matches)
}

/// The `resourceIdMatches` member followed by a comma, when that condition is set.
pub open spec fn resource_id_matches_member(v: SelectorView) -> Seq<char> {
    str_member("resourceIdMatches"@, v.resource_id_matches)
}

/// The `index` member followed by a comma, when that condition is set.
pub open spec fn index_member(v: SelectorView) -> Seq<char> {
    u32_member("index"@, v.index)
}

/// `start` followed by the members of the conditions that are set, each
/// followed by a comma.
#[verifier::opaque]
pub open spec fn members_after(start: Seq<char>, v: SelectorView) -> Seq<char> {
    (((((((((((((((((((((((((start)
        + text_member(v))
        + text_contains_member(v))
        + text_starts_with_member(v))
        + text_matches_member(v))
        + resource_id_member(v))
        + class_name_member(v))
        + description_member(v))
        + description_contains_member(v))
        + package_name_member(v))
        + clickable_member(v))
        + enabled_member(v))
        + focusable_member(v))
        + scrollable_member(v))
        + instance_member(v))
        + checkable_member(v))
        + checked_member(v))
        + long_clickable_member(v))
        + focused_member(v))
        + selected_member(v))
        + class_name_matches_member(v))
        + description_matches_member(v))
        + description_starts_with_member(v))
        + package_name_matches_member(v))
        + resource_id_matches_member(v))
        + index_member(v)
}

/// `"item0","item1",...` for a list of JSON texts, comma separated.
pub open spec fn json_list(items: Seq<Seq<char>>) -> Seq<char>
    decreases items.len(),
{
    if items.len() == 0 {
        Seq::empty()
    } else if items.len() == 1 {
        items[0]
    } else {
        json_list(items.drop_last()) + ","@ + items.last()
    }
}

/// The JSON text of a selector, as `to_params` writes it.
pub open spec fn selector_json(s: Selector) -> Seq<char>
    decreases s,
{
    let v = s@;
    members_after("{"@, v) + "\"mask\":"@ + json_u32(selector_mask(v) as nat) + (if s.child_or_sibling@.len() == 0 {
        Seq::empty()
    } else {
        ",\"childOrSibling\":["@ + relations_json(s.child_or_sibling@) + "],\"childOrSiblingSelector\":["@
            + selectors_json(s.child_or_sibling_selector@) + "]"@
    }) + "}"@
}

/// The relations of nested selectors as comma-separated JSON strings.
pub open spec fn relations_json(rs: Seq<String>) -> Seq<char>
    decreases rs.len(),
{
    if rs.len() == 0 {
        Seq::empty()
    } else if rs.len() == 1 {
        json_quote(rs[0]@)
    } else {
        relations_json(rs.drop_last()) + ","@ + json_quote(rs.last()@)
    }
}

/// The JSON texts of nested selectors, comma separated.
pub open spec fn selectors_json(cs: Seq<Selector>) -> Seq<char>
    decreases cs,
{
    if cs.len() == 0 {
        Seq::empty()
    } else if cs.len() == 1 {
        selector_json(cs[0])
    } else {
        selectors_json(cs.subrange(0, cs.len() - 1)) + ","@ + selector_json(cs[cs.len() - 1])
    }
}

/// Appends the members of the conditions that `sel` sets.
fn push_condition_members(out: &mut String, sel: &Selector)
    ensures
        final(out)@ == members_after(old(out)@, sel@),
{
    reveal(members_after);
    push_str_member(out, "text", &sel.text);
    push_str_member(out, "textContains", &sel.text_contains);
    push_str_member(out, "textStartsWith", &sel.text_starts_with);
    push_str_member(out, "textMatches", &sel.text_matches);
    push_str_member(out, "resourceId", &sel.resource_id);
    push_str_member(out, "className", &sel.class_name);
    push_str_member(out, "description", &sel.description);
    push_str_member(out, "descriptionContains", &sel.description_contains);
    push_str_member(out, "packageName", &sel.package_name);
    push_bool_member(out, "clickable", sel.clickable);
    push_bool_member(out, "enabled", sel.enabled);
    push_bool_member(out, "focusable", sel.focusable);
    push_bool_member(out, "scrollable", sel.scrollable);
    push_u32_member(out, "instance", sel.instance);
    push_bool_member(out, "checkable", sel.checkable);
    push_bool_member(out, "checked", sel.checked);
    push_bool_member(out, "longClickable", sel.long_clickable);
    push_bool_member(out, "focused", sel.focused);
    push_bool_member(out, "selected", sel.selected);
    push_str_member(out, "classNameMatches", &sel.class_name_matches);
    push_str_member(out, "descriptionMatches", &sel.description_matches);
    push_str_member(out, "descriptionStartsWith", &sel.description_starts_with);
    push_str_member(out, "packageNameMatches", &sel.package_name_matches);
    push_str_member(out, "resourceIdMatches", &sel.resource_id_matches);
    push_u32_member(out, "index", sel.index);
}

impl Selector {
    /// A selector with no condition.
    pub fn new() -> (r: Self)
        ensures
            r@ == empty_selector_view(),
    {
        let r = Selector {
            text: None,
            text_contains: None,
            text_starts_with: None,
            text_matches: None,
            resource_id: None,
            class_name: None,
            description: None,
            description_contains: None,
            package_name: None,
            clickable: None,
            enabled: None,
            focusable: None,
            scrollable: None,
            instance: None,
            checkable: None,
            checked: None,
            long_clickable: None,
            focused: None,
            selected: None,
            class_name_matches: None,
            description_matches: None,
            description_starts_with: None,
            package_name_matches: None,
            resource_id_matches: None,
            index: None,
            child_or_sibling: Vec::new(),
            child_or_sibling_selector: Vec::new(),
        };
        assert(r@.child_or_sibling =~= Seq::<Seq<char>>::empty());
        assert(r@.child_or_sibling_selector =~= Seq::<Selector>::empty());
        r
    }

    /// Adds the condition: exact text.
    pub fn text(self, text: &str) -> (r: Self)
        ensures
            r@ == (SelectorView { text: Some(text@), ..self@ }),
    {
        let mut s = self;
        s.text = Some(text.to_owned());
        s
    }

    /// Adds the condition: text containing a substring.
    pub fn text_contains(self, text: &str) -> (r: Self)
        ensures
            r@ == (SelectorView { text_contains: Some(text@), ..self@ }),
    {
        let mut s = self;
        s.text_contains = Some(text.to_owned());
        s
    }

    /// Adds the condition: text starting with a prefix.
    pub fn text_starts_with(self, text: &str) -> (r: Self)
        ensures
            r@ == (SelectorView { text_starts_with: Some(text@), ..self@ }),
    {
        let mut s = self;
        s.text_starts_with = Some(text.to_owned());
        s
    }

    /// Adds the condition: text matching a regular expression.
    pub fn text_matches(self, text: &str) -> (r: Self)
        ensures
            r@ == (SelectorView { text_matches: Some(text@), ..self@ }),
    {
        let mut s = self;
        s.text_matches = Some(text.to_owned());
        s
    }

    /// Adds the condition: resource id, such as `com.example:id/button`.
    pub fn resource_id(self, text: &str) -> (r: Self)
        ensures
            r@ == (SelectorView { resource_id: Some(text@), ..self@ }),
    {
        let mut s = self;
        s.resource_id = Some(text.to_owned());
        s
    }

    /// Adds the condition: class name, such as `android.widget.TextView`.
    pub fn class_name(self, text: &str) -> (r: Self)
        ensures
            r@ == (SelectorView { class_name: Some(text@), ..self@ }),
    {
        let mut s = self;
        s.class_name = Some(text.to_owned());
        s
    }

    /// Adds the condition: exact content description.
    pub fn description(self, text: &str) -> (r: Self)
        ensures
            r@ == (SelectorView { description: Some(text@), ..self@ }),
    {
        let mut s = self;
        s.description = Some(text.to_owned());
        s
    }

    /// Adds the condition: content description containing a substring.
    pub fn description_contains(self, text: &str) -> (r: Self)
        ensures
            r@ == (SelectorView { description_contains: Some(text@), ..self@ }),
    {
        let mut s = self;
        s.description_contains = Some(text.to_owned());
        s
    }

    /// Adds the condition: package name.
    pub fn package_name(self, text: &str) -> (r: Self)
        ensures
            r@ == (SelectorView { package_name: Some(text@), ..self@ }),
    {
        let mut s = self;
        s.package_name = Some(text.to_owned());
        s
    }

    /// Adds the condition: whether the element can be clicked.
    pub fn clickable(self, value: bool) -> (r: Self)
        ensures
            r@ == (SelectorView { clickable: Some(value), ..self@ }),
    {
        let mut s = self;
        s.clickable = Some(value);
        s
    }

    /// Adds the condition: whether the element is enabled.
    pub fn enabled(self, value: bool) -> (r: Self)
        ensures
            r@ == (SelectorView { enabled: Some(value), ..self@ }),
    {
        let mut s = self;
        s.enabled = Some(value);
        s
    }

    /// Adds the condition: whether the element can take focus.
    pub fn focusable(self, value: bool) -> (r: Self)
        ensures
            r@ == (SelectorView { focusable: Some(value), ..self@ }),
    {
        let mut s = self;
        s.focusable = Some(value);
        s
    }

    /// Adds the condition: whether the element scrolls.
    pub fn scrollable(self, value: bool) -> (r: Self)
        ensures
            r@ == (SelectorView { scrollable: Some(value), ..self@ }),
    {
        let mut s = self;
        s.scrollable = Some(value);
        s
    }

    /// Adds the condition: which of several matching elements (from 0).
    pub fn instance(self, value: u32) -> (r: Self)
        ensures
            r@ == (SelectorView { instance: Some(value), ..self@ }),
    {
        let mut s = self;
        s.instance = Some(value);
        s
    }

    /// Adds the condition: whether the element can be checked.
    pub fn checkable(self, value: bool) -> (r: Self)
        ensures
            r@ == (SelectorView { checkable: Some(value), ..self@ }),
    {
        let mut s = self;
        s.checkable = Some(value);
        s
    }

    /// Adds the condition: whether the element is checked.
    pub fn checked(self, value: bool) -> (r: Self)
        ensures
            r@ == (SelectorView { checked: Some(value), ..self@ }),
    {
        let mut s = self;
        s.checked = Some(value);
        s
    }

    /// Adds the condition: whether the element can be long-clicked.
    pub fn long_clickable(self, value: bool) -> (r: Self)
        ensures
            r@ == (SelectorView { long_clickable: Some(value), ..self@ }),
    {
        let mut s = self;
        s.long_clickable = Some(value);
        s
    }

    /// Adds the condition: whether the element has focus.
    pub fn focused(self, value: bool) -> (r: Self)
        ensures
            r@ == (SelectorView { focused: Some(value), ..self@ }),
    {
        let mut s = self;
        s.focused = Some(value);
        s
    }

    /// Adds the condition: whether the element is selected.
    pub fn selected(self, value: bool) -> (r: Self)
        ensures
            r@ == (SelectorView { selected: Some(value), ..self@ }),
    {
        let mut s = self;
        s.selected = Some(value);
        s
    }

    /// Adds the condition: class name matching a regular expression.
    pub fn class_name_matches(self, text: &str) -> (r: Self)
        ensures
            r@ == (SelectorView { class_name_matches: Some(text@), ..self@ }),
    {
        let mut s = self;
        s.class_name_matches = Some(text.to_owned());
        s
    }

    /// Adds the condition: content description matching a regular expression.
    pub fn description_matches(self, text: &str) -> (r: Self)
        ensures
            r@ == (SelectorView { description_matches: Some(text@), ..self@ }),
    {
        let mut s = self;
        s.description_matches = Some(text.to_owned());
        s
    }

    /// Adds the condition: content description starting with a prefix.
    pub fn description_starts_with(self, text: &str) -> (r: Self)
        ensures
            r@ == (SelectorView { description_starts_with: Some(text@), ..self@ }),
    {
        let mut s = self;
        s.description_starts_with = Some(text.to_owned());
        s
    }

    /// Adds the condition: package name matching a regular expression.
    pub fn package_name_matches(self, text: &str) -> (r: Self)
        ensures
            r@ == (SelectorView { package_name_matches: Some(text@), ..self@ }),
    {
        let mut s = self;
        s.package_name_matches = Some(text.to_owned());
        s
    }

    /// Adds the condition: resource id matching a regular expression.
    pub fn resource_id_matches(self, text: &str) -> (r: Self)
        ensures
            r@ == (SelectorView { resource_id_matches: Some(text@), ..self@ }),
    {
        let mut s = self;
        s.resource_id_matches = Some(text.to_owned());
        s
    }

    /// Adds the condition: position of the element in its parent (from 0).
    pub fn index(self, value: u32) -> (r: Self)
        ensures
            r@ == (SelectorView { index: Some(value), ..self@ }),
    {
        let mut s = self;
        s.index = Some(value);
        s
    }

    /// Adds a nested selector for a child of the element.
    pub fn child(self, child_selector: Selector) -> (r: Self)
        ensures
            r@ == (SelectorView {
                child_or_sibling: self@.child_or_sibling.push("child"@),
                child_or_sibling_selector: self@.child_or_sibling_selector.push(child_selector),
                ..self@
            }),
    {
        let mut s = self;
        s.child_or_sibling.push("child".to_owned());
        s.child_or_sibling_selector.push(child_selector);
        proof {
            assert(s.child_or_sibling@.map_values(|x: String| x@) =~= self.child_or_sibling@.map_values(|x: String| x@).push("child"@));
        }
        s
    }

    /// Adds a nested selector for a sibling of the element.
    pub fn sibling(self, sibling_selector: Selector) -> (r: Self)
        ensures
            r@ == (SelectorView {
                child_or_sibling: self@.child_or_sibling.push("sibling"@),
                child_or_sibling_selector: self@.child_or_sibling_selector.push(sibling_selector),
                ..self@
            }),
    {
        let mut s = self;
        s.child_or_sibling.push("sibling".to_owned());
        s.child_or_sibling_selector.push(sibling_selector);
        proof {
            assert(s.child_or_sibling@.map_values(|x: String| x@) =~= self.child_or_sibling@.map_values(|x: String| x@).push("sibling"@));
        }
        s
    }

    /// The mask of the conditions that are set.
    pub fn mask(&self) -> (m: u32)
        ensures
            m == selector_mask(self@),
    {
        reveal(mask_of_flags);
        0u32 | bit_if_exec(self.text.is_some(), MASK_TEXT) | bit_if_exec(self.text_contains.is_some(), MASK_TEXT_CONTAINS) | bit_if_exec(self.text_starts_with.is_some(), MASK_TEXT_STARTS_WITH) | bit_if_exec(self.text_matches.is_some(), MASK_TEXT_MATCHES) | bit_if_exec(self.resource_id.is_some(), MASK_RESOURCE_ID) | bit_if_exec(self.class_name.is_some(), MASK_CLASS_NAME) | bit_if_exec(self.description.is_some(), MASK_DESCRIPTION) | bit_if_exec(self.description_contains.is_some(), MASK_DESCRIPTION_CONTAINS) | bit_if_exec(self.package_name.is_some(), MASK_PACKAGE_NAME) | bit_if_exec(self.clickable.is_some(), MASK_CLICKABLE) | bit_if_exec(self.enabled.is_some(), MASK_ENABLED) | bit_if_exec(self.focusable.is_some(), MASK_FOCUSABLE) | bit_if_exec(self.scrollable.is_some(), MASK_SCROLLABLE) | bit_if_exec(self.instance.is_some(), MASK_INSTANCE) | bit_if_exec(self.checkable.is_some(), MASK_CHECKABLE) | bit_if_exec(self.checked.is_some(), MASK_CHECKED) | bit_if_exec(self.long_clickable.is_some(), MASK_LONG_CLICKABLE) | bit_if_exec(self.focused.is_some(), MASK_FOCUSED) | bit_if_exec(self.selected.is_some(), MASK_SELECTED) | bit_if_exec(self.class_name_matches.is_some(), MASK_CLASS_NAME_MATCHES) | bit_if_exec(self.description_matches.is_some(), MASK_DESCRIPTION_MATCHES) | bit_if_exec(self.description_starts_with.is_some(), MASK_DESCRIPTION_STARTS_WITH) | bit_if_exec(self.package_name_matches.is_some(), MASK_PACKAGE_NAME_MATCHES) | bit_if_exec(self.resource_id_matches.is_some(), MASK_RESOURCE_ID_MATCHES) | bit_if_exec(self.index.is_some(), MASK_INDEX)
    }

    /// The JSON object sent to the device for this selector: one member per
    /// condition that is set, the `mask`, and the nested selectors.
    pub fn to_params(&self) -> (r: String)
        ensures
            r@ == selector_json(*self),
        decreases *self,
    {
        let mut out = String::new();
        push_str(&mut out, "{");
        assert(out@ =~= "{"@);
        push_condition_members(&mut out, self);

        push_str(&mut out, "\"mask\":");
        push_json_u32(&mut out, self.mask());
        let ghost before_children = out@;
        if self.child_or_sibling.len() > 0 {
            push_str(&mut out, ",\"childOrSibling\":[");
            let mut i: usize = 0;
            let ghost list_start = out@;
            while i < self.child_or_sibling.len()
                invariant
                    i <= self.child_or_sibling.len(),
                    out@ == list_start + relations_json(self.child_or_sibling@.take(i as int)),
                decreases self.child_or_sibling.len() - i,
            {
                if i > 0 {
                    push_str(&mut out, ",");
                }
                push_json_quoted(&mut out, self.child_or_sibling[i].as_str());
                proof {
                    let t = self.child_or_sibling@.take(i + 1);
                    assert(t.drop_last() =~= self.child_or_sibling@.take(i as int));
                    assert(t.last() == self.child_or_sibling@[i as int]);
                    if i == 0 {
                        assert(relations_json(self.child_or_sibling@.take(0)) =~= Seq::<char>::empty());
                    }
                }
                i = i + 1;
            }
            assert(self.child_or_sibling@.take(self.child_or_sibling.len() as int) =~= self.child_or_sibling@);
            push_str(&mut out, "],\"childOrSiblingSelector\":[");
            let mut j: usize = 0;
            let ghost sel_start = out@;
            while j < self.child_or_sibling_selector.len()
                invariant
                    j <= self.child_or_sibling_selector.len(),
                    out@ == sel_start + selectors_json(self.child_or_sibling_selector@.take(j as int)),
                decreases self.child_or_sibling_selector.len() - j,
            {
                if j > 0 {
                    push_str(&mut out, ",");
                }
                let child_json = self.child_or_sibling_selector[j].to_params();
                push_str(&mut out, child_json.as_str());
                proof {
                    let t = self.child_or_sibling_selector@.take(j + 1);
                    assert(t.subrange(0, t.len() - 1) =~= self.child_or_sibling_selector@.take(j as int));
                    assert(t[t.len() - 1] == self.child_or_sibling_selector@[j as int]);
                    if j == 0 {
                        assert(selectors_json(self.child_or_sibling_selector@.take(0)) =~= Seq::<char>::empty());
                    }
                }
                j = j + 1;
            }
            assert(self.child_or_sibling_selector@.take(self.child_or_sibling_selector.len() as int) =~= self.child_or_sibling_selector@);
            push_str(&mut out, "]");
        }
        push_str(&mut out, "}");
        assert(out@ =~= selector_json(*self));
        out
    }
}


/// `a` and `b` set the same conditions, have the same relations, and their
/// nested selectors are pairwise the same in this sense.
pub open spec fn same_selector(a: Selector, b: Selector) -> bool
    decreases a,
{
    &&& a@.child_or_sibling == b@.child_or_sibling
    &&& a@.text == b@.text
    &&& a@.text_contains == b@.text_contains
    &&& a@.text_starts_with == b@.text_starts_with
    &&& a@.text_matches == b@.text_matches
    &&& a@.resource_id == b@.resource_id
    &&& a@.class_name == b@.class_name
    &&& a@.description == b@.description
    &&& a@.description_contains == b@.description_contains
    &&& a@.package_name == b@.package_name
    &&& a@.clickable == b@.clickable
    &&& a@.enabled == b@.enabled
    &&& a@.focusable == b@.focusable
    &&& a@.scrollable == b@.scrollable
    &&& a@.instance == b@.instance
    &&& a@.checkable == b@.checkable
    &&& a@.checked == b@.checked
    &&& a@.long_clickable == b@.long_clickable
    &&& a@.focused == b@.focused
    &&& a@.selected == b@.selected
    &&& a@.class_name_matches == b@.class_name_matches
    &&& a@.description_matches == b@.description_matches
    &&& a@.description_starts_with == b@.description_starts_with
    &&& a@.package_name_matches == b@.package_name_matches
    &&& a@.resource_id_matches == b@.resource_id_matches
    &&& a@.index == b@.index
    &&& a.child_or_sibling_selector@.len() == b.child_or_sibling_selector@.len()
    &&& forall|i: int|
        0 <= i < a.child_or_sibling_selector@.len() ==> same_selector(
            #[trigger] a.child_or_sibling_selector@[i],
            b.child_or_sibling_selector@[i],
        )
}

/// A copy of an optional string.
fn clone_opt_string(o: &Option<String>) -> (r: Option<String>)
    ensures
        opt_str_view(r) == opt_str_view(*o),
{
    match o {
        Some(s) => Some(s.clone()),
        None => None,
    }
}

impl Clone for Selector {
    /// A deep copy: same conditions, same relations, copies of the nested
    /// selectors.
    fn clone(&self) -> (r: Self)
        ensures
            same_selector(r, *self),
        decreases *self,
    {
        let mut relations: Vec<String> = Vec::new();
        let mut i: usize = 0;
        while i < self.child_or_sibling.len()
            invariant
                i <= self.child_or_sibling.len(),
                relations@.map_values(|x: String| x@) == self.child_or_sibling@.take(i as int).map_values(|x: String| x@),
            decreases self.child_or_sibling.len() - i,
        {
            relations.push(self.child_or_sibling[i].clone());
            proof {
                assert(self.child_or_sibling@.take(i + 1).map_values(|x: String| x@) =~= self.child_or_sibling@.take(i as int).map_values(|x: String| x@).push(self.child_or_sibling@[i as int]@));
            }
            i = i + 1;
        }
        assert(self.child_or_sibling@.take(self.child_or_sibling.len() as int) =~= self.child_or_sibling@);
        let mut children: Vec<Selector> = Vec::new();
        let mut j: usize = 0;
        while j < self.child_or_sibling_selector.len()
            invariant
                j <= self.child_or_sibling_selector.len(),
                children@.len() == j,
                forall|k: int| 0 <= k < j ==> same_selector(#[trigger] children@[k], self.child_or_sibling_selector@[k]),
            decreases self.child_or_sibling_selector.len() - j,
        {
            let c = self.child_or_sibling_selector[j].clone();
            children.push(c);
            j = j + 1;
        }
        let r = Selector {
            text: clone_opt_string(&self.text),
            text_contains: clone_opt_string(&self.text_contains),
            text_starts_with: clone_opt_string(&self.text_starts_with),
            text_matches: clone_opt_string(&self.text_matches),
            resource_id: clone_opt_string(&self.resource_id),
            class_name: clone_opt_string(&self.class_name),
            description: clone_opt_string(&self.description),
            description_contains: clone_opt_string(&self.description_contains),
            package_name: clone_opt_string(&self.package_name),
            clickable: self.clickable,
            enabled: self.enabled,
            focusable: self.focusable,
            scrollable: self.scrollable,
            instance: self.instance,
            checkable: self.checkable,
            checked: self.checked,
            long_clickable: self.long_clickable,
            focused: self.focused,
            selected: self.selected,
            class_name_matches: clone_opt_string(&self.class_name_matches),
            description_matches: clone_opt_string(&self.description_matches),
            description_starts_with: clone_opt_string(&self.description_starts_with),
            package_name_matches: clone_opt_string(&self.package_name_matches),
            resource_id_matches: clone_opt_string(&self.resource_id_matches),
            index: self.index,
            child_or_sibling: relations,
            child_or_sibling_selector: children,
        };
        assert(r@.child_or_sibling =~= self@.child_or_sibling);
        r
    }
}

impl Default for Selector {
    /// A selector with no condition.
    fn default() -> (r: Self)
        ensures
            r@ == empty_selector_view(),
    {
        Selector::new()
    }
}

/// The mask has the bit of a condition exactly when that condition is set:
/// the device can tell from the mask alone which members to read.
pub proof fn lemma_mask_bits(v: SelectorView)
    ensures
        (mask_of_flags(v.text is Some, v.text_contains is Some, v.text_starts_with is Some, v.text_matches is Some, v.resource_id is Some, v.class_name is Some, v.description is Some, v.description_contains is Some, v.package_name is Some, v.clickable is Some, v.enabled is Some, v.focusable is Some, v.scrollable is Some, v.instance is Some, v.checkable is Some, v.checked is Some, v.long_clickable is Some, v.focused is Some, v.selected is Some, v.class_name_matches is Some, v.description_matches is Some, v.description_starts_with is Some, v.package_name_matches is Some, v.resource_id_matches is Some, v.index is Some) & MASK_TEXT != 0) <==> v.text is Some,
        (mask_of_flags(v.text is Some, v.text_contains is Some, v.text_starts_with is Some, v.text_matches is Some, v.resource_id is Some, v.class_name is Some, v.description is Some, v.description_contains is Some, v.package_name is Some, v.clickable is Some, v.enabled is Some, v.focusable is Some, v.scrollable is Some, v.instance is Some, v.checkable is Some, v.checked is Some, v.long_clickable is Some, v.focused is Some, v.selected is Some, v.class_name_matches is Some, v.description_matches is Some, v.description_starts_with is Some, v.package_name_matches is Some, v.resource_id_matches is Some, v.index is Some) & MASK_TEXT_CONTAINS != 0) <==> v.text_contains is Some,
        (mask_of_flags(v.text is Some, v.text_contains is Some, v.text_starts_with is Some, v.text_matches is Some, v.resource_id is Some, v.class_name is Some, v.description is Some, v.description_contains is Some, v.package_name is Some, v.clickable is Some, v.enabled is Some, v.focusable is Some, v.scrollable is Some, v.instance is Some, v.checkable is Some, v.checked is Some, v.long_clickable is Some, v.focused is Some, v.selected is Some, v.class_name_matches is Some, v.description_matches is Some, v.description_starts_with is Some, v.package_name_matches is Some, v.resource_id_matches is Some, v.index is Some) & MASK_TEXT_STARTS_WITH != 0) <==> v.text_starts_with is Some,
        (mask_of_flags(v.text is Some, v.text_contains is Some, v.text_starts_with is Some, v.text_matches is Some, v.resource_id is Some, v.class_name is Some, v.description is Some, v.description_contains is Some, v.package_name is Some, v.clickable is Some, v.enabled is Some, v.focusable is Some, v.scrollable is Some, v.instance is Some, v.checkable is Some, v.checked is Some, v.long_clickable is Some, v.focused is Some, v.selected is Some, v.class_name_matches is Some, v.description_matches is Some, v.description_starts_with is Some, v.package_name_matches is Some, v.resource_id_matches is Some, v.index is Some) & MASK_TEXT_MATCHES != 0) <==> v.text_matches is Some,
        (mask_of_flags(v.text is Some, v.text_contains is Some, v.text_starts_with is Some, v.text_matches is Some, v.resource_id is Some, v.class_name is Some, v.description is Some, v.description_contains is Some, v.package_name is Some, v.clickable is Some, v.enabled is Some, v.focusable is Some, v.scrollable is Some, v.instance is Some, v.checkable is Some, v.checked is Some, v.long_clickable is Some, v.focused is Some, v.selected is Some, v.class_name_matches is Some, v.description_matches is Some, v.description_starts_with is Some, v.package_name_matches is Some, v.resource_id_matches is Some, v.index is Some) & MASK_RESOURCE_ID != 0) <==> v.resource_id is Some,
        (mask_of_flags(v.text is Some, v.text_contains is Some, v.text_starts_with is Some, v.text_matches is Some, v.resource_id is Some, v.class_name is Some, v.description is Some, v.description_contains is Some, v.package_name is Some, v.clickable is Some, v.enabled is Some, v.focusable is Some, v.scrollable is Some, v.instance is Some, v.checkable is Some, v.checked is Some, v.long_clickable is Some, v.focused is Some, v.selected is Some, v.class_name_matches is Some, v.description_matches is Some, v.description_starts_with is Some, v.package_name_matches is Some, v.resource_id_matches is Some, v.index is Some) & MASK_CLASS_NAME != 0) <==> v.class_name is Some,
        (mask_of_flags(v.text is Some, v.text_contains is Some, v.text_starts_with is Some, v.text_matches is Some, v.resource_id is Some, v.class_name is Some, v.description is Some, v.description_contains is Some, v.package_name is Some, v.clickable is Some, v.enabled is Some, v.focusable is Some, v.scrollable is Some, v.instance is Some, v.checkable is Some, v.checked is Some, v.long_clickable is Some, v.focused is Some, v.selected is Some, v.class_name_matches is Some, v.description_matches is Some, v.description_starts_with is Some, v.package_name_matches is Some, v.resource_id_matches is Some, v.index is Some) & MASK_DESCRIPTION != 0) <==> v.description is Some,
        (mask_of_flags(v.text is Some, v.text_contains is Some, v.text_starts_with is Some, v.text_matches is Some, v.resource_id is Some, v.class_name is Some, v.description is Some, v.description_contains is Some, v.package_name is Some, v.clickable is Some, v.enabled is Some, v.focusable is Some, v.scrollable is Some, v.instance is Some, v.checkable is Some, v.checked is Some, v.long_clickable is Some, v.focused is Some, v.selected is Some, v.class_name_matches is Some, v.description_matches is Some, v.description_starts_with is Some, v.package_name_matches is Some, v.resource_id_matches is Some, v.index is Some) & MASK_DESCRIPTION_CONTAINS != 0) <==> v.description_contains is Some,
        (mask_of_flags(v.text is Some, v.text_contains is Some, v.text_starts_with is Some, v.text_matches is Some, v.resource_id is Some, v.class_name is Some, v.description is Some, v.description_contains is Some, v.package_name is Some, v.clickable is Some, v.enabled is Some, v.focusable is Some, v.scrollable is Some, v.instance is Some, v.checkable is Some, v.checked is Some, v.long_clickable is Some, v.focused is Some, v.selected is Some, v.class_name_matches is Some, v.description_matches is Some, v.description_starts_with is Some, v.package_name_matches is Some, v.resource_id_matches is Some, v.index is Some) & MASK_PACKAGE_NAME != 0) <==> v.package_name is Some,
        (mask_of_flags(v.text is Some, v.text_contains is Some, v.text_starts_with is Some, v.text_matches is Some, v.resource_id is Some, v.class_name is Some, v.description is Some, v.description_contains is Some, v.package_name is Some, v.clickable is Some, v.enabled is Some, v.focusable is Some, v.scrollable is Some, v.instance is Some, v.checkable is Some, v.checked is Some, v.long_clickable is Some, v.focused is Some, v.selected is Some, v.class_name_matches is Some, v.description_matches is Some, v.description_starts_with is Some, v.package_name_matches is Some, v.resource_id_matches is Some, v.index is Some) & MASK_CLICKABLE != 0) <==> v.clickable is Some,
        (mask_of_flags(v.text is Some, v.text_contains is Some, v.text_starts_with is Some, v.text_matches is Some, v.resource_id is Some, v.class_name is Some, v.description is Some, v.description_contains is Some, v.package_name is Some, v.clickable is Some, v.enabled is Some, v.focusable is Some, v.scrollable is Some, v.instance is Some, v.checkable is Some, v.checked is Some, v.long_clickable is Some, v.focused is Some, v.selected is Some, v.class_name_matches is Some, v.description_matches is Some, v.description_starts_with is Some, v.package_name_matches is Some, v.resource_id_matches is Some, v.index is Some) & MASK_ENABLED != 0) <==> v.enabled is Some,
        (mask_of_flags(v.text is Some, v.text_contains is Some, v.text_starts_with is Some, v.text_matches is Some, v.resource_id is Some, v.class_name is Some, v.description is Some, v.description_contains is Some, v.package_name is Some, v.clickable is Some, v.enabled is Some, v.focusable is Some, v.scrollable is Some, v.instance is Some, v.checkable is Some, v.checked is Some, v.long_clickable is Some, v.focused is Some, v.selected is Some, v.class_name_matches is Some, v.description_matches is Some, v.description_starts_with is Some, v.package_name_matches is Some, v.resource_id_matches is Some, v.index is Some) & MASK_FOCUSABLE != 0) <==> v.focusable is Some,
        (mask_of_flags(v.text is Some, v.text_contains is Some, v.text_starts_with is Some, v.text_matches is Some, v.resource_id is Some, v.class_name is Some, v.description is Some, v.description_contains is Some, v.package_name is Some, v.clickable is Some, v.enabled is Some, v.focusable is Some, v.scrollable is Some, v.instance is Some, v.checkable is Some, v.checked is Some, v.long_clickable is Some, v.focused is Some, v.selected is Some, v.class_name_matches is Some, v.description_matches is Some, v.description_starts_with is Some, v.package_name_matches is Some, v.resource_id_matches is Some, v.index is Some) & MASK_SCROLLABLE != 0) <==> v.scrollable is Some,
        (mask_of_flags(v.text is Some, v.text_contains is Some, v.text_starts_with is Some, v.text_matches is Some, v.resource_id is Some, v.class_name is Some, v.description is Some, v.description_contains is Some, v.package_name is Some, v.clickable is Some, v.enabled is Some, v.focusable is Some, v.scrollable is Some, v.instance is Some, v.checkable is Some, v.checked is Some, v.long_clickable is Some, v.focused is Some, v.selected is Some, v.class_name_matches is Some, v.description_matches is Some, v.description_starts_with is Some, v.package_name_matches is Some, v.resource_id_matches is Some, v.index is Some) & MASK_INSTANCE != 0) <==> v.instance is Some,
        (mask_of_flags(v.text is Some, v.text_contains is Some, v.text_starts_with is Some, v.text_matches is Some, v.resource_id is Some, v.class_name is Some, v.description is Some, v.description_contains is Some, v.package_name is Some, v.clickable is Some, v.enabled is Some, v.focusable is Some, v.scrollable is Some, v.instance is Some, v.checkable is Some, v.checked is Some, v.long_clickable is Some, v.focused is Some, v.selected is Some, v.class_name_matches is Some, v.description_matches is Some, v.description_starts_with is Some, v.package_name_matches is Some, v.resource_id_matches is Some, v.index is Some) & MASK_CHECKABLE != 0) <==> v.checkable is Some,
        (mask_of_flags(v.text is Some, v.text_contains is Some, v.text_starts_with is Some, v.text_matches is Some, v.resource_id is Some, v.class_name is Some, v.description is Some, v.description_contains is Some, v.package_name is Some, v.clickable is Some, v.enabled is Some, v.focusable is Some, v.scrollable is Some, v.instance is Some, v.checkable is Some, v.checked is Some, v.long_clickable is Some, v.focused is Some, v.selected is Some, v.class_name_matches is Some, v.description_matches is Some, v.description_starts_with is Some, v.package_name_matches is Some, v.resource_id_matches is Some, v.index is Some) & MASK_CHECKED != 0) <==> v.checked is Some,
        (mask_of_flags(v.text is Some, v.text_contains is Some, v.text_starts_with is Some, v.text_matches is Some, v.resource_id is Some, v.class_name is Some, v.description is Some, v.description_contains is Some, v.package_name is Some, v.clickable is Some, v.enabled is Some, v.focusable is Some, v.scrollable is Some, v.instance is Some, v.checkable is Some, v.checked is Some, v.long_clickable is Some, v.focused is Some, v.selected is Some, v.class_name_matches is Some, v.description_matches is Some, v.description_starts_with is Some, v.package_name_matches is Some, v.resource_id_matches is Some, v.index is Some) & MASK_LONG_CLICKABLE != 0) <==> v.long_clickable is Some,
        (mask_of_flags(v.text is Some, v.text_contains is Some, v.text_starts_with is Some, v.text_matches is Some, v.resource_id is Some, v.class_name is Some, v.description is Some, v.description_contains is Some, v.package_name is Some, v.clickable is Some, v.enabled is Some, v.focusable is Some, v.scrollable is Some, v.instance is Some, v.checkable is Some, v.checked is Some, v.long_clickable is Some, v.focused is Some, v.selected is Some, v.class_name_matches is Some, v.description_matches is Some, v.description_starts_with is Some, v.package_name_matches is Some, v.resource_id_matches is Some, v.index is Some) & MASK_FOCUSED != 0) <==> v.focused is Some,
        (mask_of_flags(v.text is Some, v.text_contains is Some, v.text_starts_with is Some, v.text_matches is Some, v.resource_id is Some, v.class_name is Some, v.description is Some, v.description_contains is Some, v.package_name is Some, v.clickable is Some, v.enabled is Some, v.focusable is Some, v.scrollable is Some, v.instance is Some, v.checkable is Some, v.checked is Some, v.long_clickable is Some, v.focused is Some, v.selected is Some, v.class_name_matches is Some, v.description_matches is Some, v.description_starts_with is Some, v.package_name_matches is Some, v.resource_id_matches is Some, v.index is Some) & MASK_SELECTED != 0) <==> v.selected is Some,
        (mask_of_flags(v.text is Some, v.text_contains is Some, v.text_starts_with is Some, v.text_matches is Some, v.resource_id is Some, v.class_name is Some, v.description is Some, v.description_contains is Some, v.package_name is Some, v.clickable is Some, v.enabled is Some, v.focusable is Some, v.scrollable is Some, v.instance is Some, v.checkable is Some, v.checked is Some, v.long_clickable is Some, v.focused is Some, v.selected is Some, v.class_name_matches is Some, v.description_matches is Some, v.description_starts_with is Some, v.package_name_matches is Some, v.resource_id_matches is Some, v.index is Some) & MASK_CLASS_NAME_MATCHES != 0) <==> v.class_name_matches is Some,
        (mask_of_flags(v.text is Some, v.text_contains is Some, v.text_starts_with is Some, v.text_matches is Some, v.resource_id is Some, v.class_name is Some, v.description is Some, v.description_contains is Some, v.package_name is Some, v.clickable is Some, v.enabled is Some, v.focusable is Some, v.scrollable is Some, v.instance is Some, v.checkable is Some, v.checked is Some, v.long_clickable is Some, v.focused is Some, v.selected is Some, v.class_name_matches is Some, v.description_matches is Some, v.description_starts_with is Some, v.package_name_matches is Some, v.resource_id_matches is Some, v.index is Some) & MASK_DESCRIPTION_MATCHES != 0) <==> v.description_matches is Some,
        (mask_of_flags(v.text is Some, v.text_contains is Some, v.text_starts_with is Some, v.text_matches is Some, v.resource_id is Some, v.class_name is Some, v.description is Some, v.description_contains is Some, v.package_name is Some, v.clickable is Some, v.enabled is Some, v.focusable is Some, v.scrollable is Some, v.instance is Some, v.checkable is Some, v.checked is Some, v.long_clickable is Some, v.focused is Some, v.selected is Some, v.class_name_matches is Some, v.description_matches is Some, v.description_starts_with is Some, v.package_name_matches is Some, v.resource_id_matches is Some, v.index is Some) & MASK_DESCRIPTION_STARTS_WITH != 0) <==> v.description_starts_with is Some,
        (mask_of_flags(v.text is Some, v.text_contains is Some, v.text_starts_with is Some, v.text_matches is Some, v.resource_id is Some, v.class_name is Some, v.description is Some, v.description_contains is Some, v.package_name is Some, v.clickable is Some, v.enabled is Some, v.focusable is Some, v.scrollable is Some, v.instance is Some, v.checkable is Some, v.checked is Some, v.long_clickable is Some, v.focused is Some, v.selected is Some, v.class_name_matches is Some, v.description_matches is Some, v.description_starts_with is Some, v.package_name_matches is Some, v.resource_id_matches is Some, v.index is Some) & MASK_PACKAGE_NAME_MATCHES != 0) <==> v.package_name_matches is Some,
        (mask_of_flags(v.text is Some, v.text_contains is Some, v.text_starts_with is Some, v.text_matches is Some, v.resource_id is Some, v.class_name is Some, v.description is Some, v.description_contains is Some, v.package_name is Some, v.clickable is Some, v.enabled is Some, v.focusable is Some, v.scrollable is Some, v.instance is Some, v.checkable is Some, v.checked is Some, v.long_clickable is Some, v.focused is Some, v.selected is Some, v.class_name_matches is Some, v.description_matches is Some, v.description_starts_with is Some, v.package_name_matches is Some, v.resource_id_matches is Some, v.index is Some) & MASK_RESOURCE_ID_MATCHES != 0) <==> v.resource_id_matches is Some,
        (mask_of_flags(v.text is Some, v.text_contains is Some, v.text_starts_with is Some, v.text_matches is Some, v.resource_id is Some, v.class_name is Some, v.description is Some, v.description_contains is Some, v.package_name is Some, v.clickable is Some, v.enabled is Some, v.focusable is Some, v.scrollable is Some, v.instance is Some, v.checkable is Some, v.checked is Some, v.long_clickable is Some, v.focused is Some, v.selected is Some, v.class_name_matches is Some, v.description_matches is Some, v.description_starts_with is Some, v.package_name_matches is Some, v.resource_id_matches is Some, v.index is Some) & MASK_INDEX != 0) <==> v.index is Some,
{
    lemma_mask_bits_of(v.text is Some, v.text_contains is Some, v.text_starts_with is Some, v.text_matches is Some, v.resource_id is Some, v.class_name is Some, v.description is Some, v.description_contains is Some, v.package_name is Some, v.clickable is Some, v.enabled is Some, v.focusable is Some, v.scrollable is Some, v.instance is Some, v.checkable is Some, v.checked is Some, v.long_clickable is Some, v.focused is Some, v.selected is Some, v.class_name_matches is Some, v.description_matches is Some, v.description_starts_with is Some, v.package_name_matches is Some, v.resource_id_matches is Some, v.index is Some);
}

proof fn lemma_mask_bits_of(b0: bool, b1: bool, b2: bool, b3: bool, b4: bool, b5: bool, b6: bool, b7: bool, b8: bool, b9: bool, b10: bool, b11: bool, b12: bool, b13: bool, b14: bool, b15: bool, b16: bool, b17: bool, b18: bool, b19: bool, b20: bool, b21: bool, b22: bool, b23: bool, b24: bool)
    by (bit_vector)
    ensures
        (mask_of_flags(b0, b1, b2, b3, b4, b5, b6, b7, b8, b9, b10, b11, b12, b13, b14, b15, b16, b17, b18, b19, b20, b21, b22, b23, b24) & MASK_TEXT != 0) <==> b0,
        (mask_of_flags(b0, b1, b2, b3, b4, b5, b6, b7, b8, b9, b10, b11, b12, b13, b14, b15, b16, b17, b18, b19, b20, b21, b22, b23, b24) & MASK_TEXT_CONTAINS != 0) <==> b1,
        (mask_of_flags(b0, b1, b2, b3, b4, b5, b6, b7, b8, b9, b10, b11, b12, b13, b14, b15, b16, b17, b18, b19, b20, b21, b22, b23, b24) & MASK_TEXT_STARTS_WITH != 0) <==> b2,
        (mask_of_flags(b0, b1, b2, b3, b4, b5, b6, b7, b8, b9, b10, b11, b12, b13, b14, b15, b16, b17, b18, b19, b20, b21, b22, b23, b24) & MASK_TEXT_MATCHES != 0) <==> b3,
        (mask_of_flags(b0, b1, b2, b3, b4, b5, b6, b7, b8, b9, b10, b11, b12, b13, b14, b15, b16, b17, b18, b19, b20, b21, b22, b23, b24) & MASK_RESOURCE_ID != 0) <==> b4,
        (mask_of_flags(b0, b1, b2, b3, b4, b5, b6, b7, b8, b9, b10, b11, b12, b13, b14, b15, b16, b17, b18, b19, b20, b21, b22, b23, b24) & MASK_CLASS_NAME != 0) <==> b5,
        (mask_of_flags(b0, b1, b2, b3, b4, b5, b6, b7, b8, b9, b10, b11, b12, b13, b14, b15, b16, b17, b18, b19, b20, b21, b22, b23, b24) & MASK_DESCRIPTION != 0) <==> b6,
        (mask_of_flags(b0, b1, b2, b3, b4, b5, b6, b7, b8, b9, b10, b11, b12, b13, b14, b15, b16, b17, b18, b19, b20, b21, b22, b23, b24) & MASK_DESCRIPTION_CONTAINS != 0) <==> b7,
        (mask_of_flags(b0, b1, b2, b3, b4, b5, b6, b7, b8, b9, b10, b11, b12, b13, b14, b15, b16, b17, b18, b19, b20, b21, b22, b23, b24) & MASK_PACKAGE_NAME != 0) <==> b8,
        (mask_of_flags(b0, b1, b2, b3, b4, b5, b6, b7, b8, b9, b10, b11, b12, b13, b14, b15, b16, b17, b18, b19, b20, b21, b22, b23, b24) & MASK_CLICKABLE != 0) <==> b9,
        (mask_of_flags(b0, b1, b2, b3, b4, b5, b6, b7, b8, b9, b10, b11, b12, b13, b14, b15, b16, b17, b18, b19, b20, b21, b22, b23, b24) & MASK_ENABLED != 0) <==> b10,
        (mask_of_flags(b0, b1, b2, b3, b4, b5, b6, b7, b8, b9, b10, b11, b12, b13, b14, b15, b16, b17, b18, b19, b20, b21, b22, b23, b24) & MASK_FOCUSABLE != 0) <==> b11,
        (mask_of_flags(b0, b1, b2, b3, b4, b5, b6, b7, b8, b9, b10, b11, b12, b13, b14, b15, b16, b17, b18, b19, b20, b21, b22, b23, b24) & MASK_SCROLLABLE != 0) <==> b12,
        (mask_of_flags(b0, b1, b2, b3, b4, b5, b6, b7, b8, b9, b10, b11, b12, b13, b14, b15, b16, b17, b18, b19, b20, b21, b22, b23, b24) & MASK_INSTANCE != 0) <==> b13,
        (mask_of_flags(b0, b1, b2, b3, b4, b5, b6, b7, b8, b9, b10, b11, b12, b13, b14, b15, b16, b17, b18, b19, b20, b21, b22, b23, b24) & MASK_CHECKABLE != 0) <==> b14,
        (mask_of_flags(b0, b1, b2, b3, b4, b5, b6, b7, b8, b9, b10, b11, b12, b13, b14, b15, b16, b17, b18, b19, b20, b21, b22, b23, b24) & MASK_CHECKED != 0) <==> b15,
        (mask_of_flags(b0, b1, b2, b3, b4, b5, b6, b7, b8, b9, b10, b11, b12, b13, b14, b15, b16, b17, b18, b19, b20, b21, b22, b23, b24) & MASK_LONG_CLICKABLE != 0) <==> b16,
        (mask_of_flags(b0, b1, b2, b3, b4, b5, b6, b7, b8, b9, b10, b11, b12, b13, b14, b15, b16, b17, b18, b19, b20, b21, b22, b23, b24) & MASK_FOCUSED != 0) <==> b17,
        (mask_of_flags(b0, b1, b2, b3, b4, b5, b6, b7, b8, b9, b10, b11, b12, b13, b14, b15, b16, b17, b18, b19, b20, b21, b22, b23, b24) & MASK_SELECTED != 0) <==> b18,
        (mask_of_flags(b0, b1, b2, b3, b4, b5, b6, b7, b8, b9, b10, b11, b12, b13, b14, b15, b16, b17, b18, b19, b20, b21, b22, b23, b24) & MASK_CLASS_NAME_MATCHES != 0) <==> b19,
        (mask_of_flags(b0, b1, b2, b3, b4, b5, b6, b7, b8, b9, b10, b11, b12, b13, b14, b15, b16, b17, b18, b19, b20, b21, b22, b23, b24) & MASK_DESCRIPTION_MATCHES != 0) <==> b20,
        (mask_of_flags(b0, b1, b2, b3, b4, b5, b6, b7, b8, b9, b10, b11, b12, b13, b14, b15, b16, b17, b18, b19, b20, b21, b22, b23, b24) & MASK_DESCRIPTION_STARTS_WITH != 0) <==> b21,
        (mask_of_flags(b0, b1, b2, b3, b4, b5, b6, b7, b8, b9, b10, b11, b12, b13, b14, b15, b16, b17, b18, b19, b20, b21, b22, b23, b24) & MASK_PACKAGE_NAME_MATCHES != 0) <==> b22,
        (mask_of_flags(b0, b1, b2, b3, b4, b5, b6, b7, b8, b9, b10, b11, b12, b13, b14, b15, b16, b17, b18, b19, b20, b21, b22, b23, b24) & MASK_RESOURCE_ID_MATCHES != 0) <==> b23,
        (mask_of_flags(b0, b1, b2, b3, b4, b5, b6, b7, b8, b9, b10, b11, b12, b13, b14, b15, b16, b17, b18, b19, b20, b21, b22, b23, b24) & MASK_INDEX != 0) <==> b24,
{
}

/// A selector with no condition has mask 0 and no nested selectors.
pub proof fn lemma_empty_selector_mask()
    ensures
        selector_mask(empty_selector_view()) == 0,
{
    reveal(mask_of_flags);
    assert(selector_mask(empty_selector_view()) == 0) by (bit_vector);
}

/// What occurs in the middle part of a text occurs in the whole.
proof fn lemma_contains_in_middle(a: Seq<char>, b: Seq<char>, c: Seq<char>, n: Seq<char>)
    requires
        seq_contains(b, n),
    ensures
        seq_contains(a + b + c, n),
{
    let i = choose|i: int| occurs_at(b, n, i);
    assert((a + b + c).subrange(a.len() + i, a.len() + i + n.len()) =~= b.subrange(i, i + n.len()));
    assert(occurs_at(a + b + c, n, a.len() + i));
}

/// Each item of a comma-separated list occurs in the list's text.
proof fn lemma_json_list_contains_item(items: Seq<Seq<char>>, i: int)
    requires
        0 <= i < items.len(),
    ensures
        seq_contains(json_list(items), items[i]),
    decreases items.len(),
{
    if items.len() == 1 {
        assert(json_list(items).subrange(0, items[0].len() as int) =~= items[0]);
        assert(occurs_at(json_list(items), items[i], 0));
    } else if i == items.len() - 1 {
        assert(seq_contains(items.last(), items[i])) by {
            assert(items.last().subrange(0, items[i].len() as int) =~= items[i]);
            assert(occurs_at(items.last(), items[i], 0));
        }
        lemma_contains_in_middle(json_list(items.drop_last()) + ","@, items.last(), Seq::empty(), items[i]);
        assert(json_list(items.drop_last()) + ","@ + items.last() + Seq::<char>::empty() =~= json_list(items));
    } else {
        lemma_json_list_contains_item(items.drop_last(), i);
        lemma_contains_in_middle(Seq::empty(), json_list(items.drop_last()), ","@ + items.last(), items[i]);
        assert(Seq::<char>::empty() + json_list(items.drop_last()) + (","@ + items.last()) =~= json_list(items));
    }
}

/// The nested selectors' part of a selector's JSON is the comma-separated
/// list of their own JSON texts, in order.
pub proof fn lemma_selectors_json_lists_each(cs: Seq<Selector>)
    ensures
        selectors_json(cs) == json_list(cs.map_values(|c: Selector| selector_json(c))),
    decreases cs.len(),
{
    let f = |c: Selector| selector_json(c);
    if cs.len() >= 2 {
        let init = cs.subrange(0, cs.len() - 1);
        lemma_selectors_json_lists_each(init);
        assert(cs.map_values(f).drop_last() =~= init.map_values(f));
    }
}

/// The relations' part of a selector's JSON is the comma-separated list of
/// the relations as JSON strings, in order.
pub proof fn lemma_relations_json_lists_each(rs: Seq<String>)
    ensures
        relations_json(rs) == json_list(rs.map_values(|r: String| json_quote(r@))),
    decreases rs.len(),
{
    let f = |r: String| json_quote(r@);
    if rs.len() >= 2 {
        lemma_relations_json_lists_each(rs.drop_last());
        assert(rs.map_values(f).drop_last() =~= rs.drop_last().map_values(f));
    }
}

/// The part of a selector's JSON text that lists its nested selectors.
pub open spec fn nested_json(rs: Seq<String>, cs: Seq<Selector>) -> Seq<char> {
    ",\"childOrSibling\":["@ + relations_json(rs) + "],\"childOrSiblingSelector\":["@ + selectors_json(cs)
        + "]"@
}

/// The members before the nested part of a selector's JSON text.
pub open spec fn head_json(s: Selector) -> Seq<char> {
    members_after("{"@, s@) + "\"mask\":"@ + json_u32(selector_mask(s@) as nat)
}

proof fn lemma_selector_json_split(s: Selector)
    requires
        s.child_or_sibling@.len() > 0,
    ensures
        selector_json(s) == head_json(s) + nested_json(s.child_or_sibling@, s.child_or_sibling_selector@)
            + "}"@,
{
}

proof fn lemma_nested_json_has_selector(rs: Seq<String>, cs: Seq<Selector>, i: int)
    requires
        0 <= i < cs.len(),
    ensures
        seq_contains(nested_json(rs, cs), selector_json(cs[i])),
{
    lemma_selectors_json_lists_each(cs);
    let items = cs.map_values(|c: Selector| selector_json(c));
    lemma_json_list_contains_item(items, i);
    assert(items[i] == selector_json(cs[i]));
    lemma_contains_in_middle(
        ",\"childOrSibling\":["@ + relations_json(rs) + "],\"childOrSiblingSelector\":["@,
        selectors_json(cs),
        "]"@,
        selector_json(cs[i]),
    );
}

proof fn lemma_nested_json_has_relation(rs: Seq<String>, cs: Seq<Selector>, i: int)
    requires
        0 <= i < rs.len(),
    ensures
        seq_contains(nested_json(rs, cs), json_quote(rs[i]@)),
{
    let n = json_quote(rs[i]@);
    lemma_relations_json_lists_each(rs);
    let items = rs.map_values(|r: String| json_quote(r@));
    lemma_json_list_contains_item(items, i);
    assert(items[i] == n);
    lemma_contains_in_middle(",\"childOrSibling\":["@, relations_json(rs), "],\"childOrSiblingSelector\":["@, n);
    lemma_contains_in_middle(
        Seq::empty(),
        ",\"childOrSibling\":["@ + relations_json(rs) + "],\"childOrSiblingSelector\":["@,
        selectors_json(cs) + "]"@,
        n,
    );
    assert(Seq::<char>::empty() + (",\"childOrSibling\":["@ + relations_json(rs)
        + "],\"childOrSiblingSelector\":["@) + (selectors_json(cs) + "]"@) =~= nested_json(rs, cs));
}

/// A selector with nested selectors carries, in its JSON text, the list of
/// its relations and nested selectors, and within it the JSON text of each
/// nested selector and each relation as a JSON string.
pub proof fn lemma_nested_selectors_in_json(s: Selector)
    requires
        s.child_or_sibling@.len() > 0,
    ensures
        seq_contains(selector_json(s), nested_json(s.child_or_sibling@, s.child_or_sibling_selector@)),
        forall|i: int|
            0 <= i < s.child_or_sibling_selector@.len() ==> seq_contains(
                selector_json(s),
                #[trigger] selector_json(s.child_or_sibling_selector@[i]),
            ),
        forall|i: int|
            0 <= i < s.child_or_sibling@.len() ==> seq_contains(
                selector_json(s),
                #[trigger] json_quote(s.child_or_sibling@[i]@),
            ),
{
    let rs = s.child_or_sibling@;
    let cs = s.child_or_sibling_selector@;
    let nested = nested_json(rs, cs);
    lemma_selector_json_split(s);
    assert(seq_contains(nested, nested)) by {
        assert(nested.subrange(0, nested.len() as int) =~= nested);
        assert(occurs_at(nested, nested, 0));
    }
    lemma_contains_in_middle(head_json(s), nested, "}"@, nested);
    assert forall|i: int| 0 <= i < cs.len() implies seq_contains(
        selector_json(s),
        #[trigger] selector_json(cs[i]),
    ) by {
        lemma_nested_json_has_selector(rs, cs, i);
        lemma_contains_in_middle(head_json(s), nested, "}"@, selector_json(cs[i]));
    }
    assert forall|i: int| 0 <= i < rs.len() implies seq_contains(
        selector_json(s),
        #[trigger] json_quote(rs[i]@),
    ) by {
        lemma_nested_json_has_relation(rs, cs, i);
        lemma_contains_in_middle(head_json(s), nested, "}"@, json_quote(rs[i]@));
    }
}

} // verus!
