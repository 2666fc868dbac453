//! Device, element and application records, and screen rectangles.
use vstd::prelude::*;

verus! {

/// Basic facts about the device: screen size, rotation, foreground package.
#[derive(Debug, Clone)]
pub struct DeviceInfo {
    /// Screen width in pixels.
    pub display_width: u32,
    /// Screen height in pixels.
    pub display_height: u32,
    /// Screen rotation in degrees (0, 90, 180 or 270).
    pub display_rotation: u32,
    /// Package of the foreground application.
    pub current_package_name: String,
    /// Android SDK level.
    pub sdk_int: u32,
    /// Whether the screen is on.
    pub screen_on: bool,
    /// Whether the device is in its natural orientation.
    pub natural_orientation: bool,
}

/// The attributes of one UI element.
#[derive(Debug, Clone)]
pub struct ElementInfo {
    /// Text shown by the element.
    pub text: String,
    /// Content description (accessibility label).
    pub content_description: String,
    /// Class name of the element.
    pub class_name: String,
    /// Package the element belongs to.
    pub package_name: String,
    /// Resource id of the element.
    pub resource_id: String,
    /// Bounds of the element.
    pub bounds: Rect,
    /// Visible bounds of the element.
    pub visible_bounds: Rect,
    /// Whether it can be clicked.
    pub clickable: bool,
    /// Whether it is enabled.
    pub enabled: bool,
    /// Whether it can take focus.
    pub focusable: bool,
    /// Whether it has focus.
    pub focused: bool,
    /// Whether it scrolls.
    pub scrollable: bool,
    /// Whether it can be long-clicked.
    pub long_clickable: bool,
    /// Whether it can be checked.
    pub checkable: bool,
    /// Whether it is checked.
    pub checked: bool,
    /// Whether it is selected.
    pub selected: bool,
    /// Number of children.
    pub child_count: u32,
}

/// A screen rectangle given by its top-left and bottom-right corners.
#[derive(Debug, Clone, Copy, PartialEq, Eq, Structural)]
pub struct Rect {
    /// x of the left edge.
    pub left: u32,
    /// y of the top edge.
    pub top: u32,
    /// x of the right edge.
    pub right: u32,
    /// y of the bottom edge.
    pub bottom: u32,
}

/// `high - low`, or 0 when `high < low`.
pub open spec fn span(low: u32, high: u32) -> u32 {
    if high >= low {
        (high - low) as u32
    } else {
        0
    }
}

/// Width of a rectangle, never negative.
pub open spec fn rect_width(r: Rect) -> u32 {
    span(r.left, r.right)
}

/// Height of a rectangle, never negative.
pub open spec fn rect_height(r: Rect) -> u32 {
    span(r.top, r.bottom)
}

/// Center of a rectangle, rounded towards the top-left corner.
pub open spec fn rect_center(r: Rect) -> (u32, u32) {
    ((r.left + rect_width(r) / 2) as u32, (r.top + rect_height(r) / 2) as u32)
}

impl Rect {
    /// A rectangle with the given edges.
    pub fn new(left: u32, top: u32, right: u32, bottom: u32) -> (r: Self)
        ensures
            r == (Rect { left, top, right, bottom }),
    {
        Rect { left, top, right, bottom }
    }

    /// Width in pixels; 0 when the right edge lies left of the left edge.
    pub fn width(&self) -> (w: u32)
        ensures
            w == rect_width(*self),
            self.left <= self.right ==> self.left + w == self.right,
    {
        self.right.saturating_sub(self.left)
    }

    /// Height in pixels; 0 when the bottom edge lies above the top edge.
    pub fn height(&self) -> (h: u32)
        ensures
            h == rect_height(*self),
            self.top <= self.bottom ==> self.top + h == self.bottom,
    {
        self.bottom.saturating_sub(self.top)
    }

    /// The center point `(x, y)`, rounded towards the top-left corner.
    pub fn center(&self) -> (c: (u32, u32))
        ensures
            c == rect_center(*self),
            self.left <= c.0,
            self.top <= c.1,
            self.left <= self.right ==> c.0 <= self.right,
            self.top <= self.bottom ==> c.1 <= self.bottom,
            self.left > self.right ==> c.0 == self.left,
            self.top > self.bottom ==> c.1 == self.top,
    {
        let x = self.left + self.width() / 2;
        let y = self.top + self.height() / 2;
        (x, y)
    }
}

/// The center of a rectangle is as far from its left edge as from its
/// right edge, up to one pixel, and likewise vertically.
pub proof fn lemma_center_is_midpoint(r: Rect)
    requires
        r.left <= r.right,
        r.top <= r.bottom,
    ensures
        0 <= (r.right - rect_center(r).0) - (rect_center(r).0 - r.left) <= 1,
        0 <= (r.bottom - rect_center(r).1) - (rect_center(r).1 - r.top) <= 1,
{
}

/// The running application: package, activity and process id.
#[derive(Debug, Clone)]
pub struct AppInfo {
    /// Package name.
    pub package: String,
    /// Activity name.
    pub activity: String,
    /// Process id, when one was found.
    pub pid: Option<u32>,
}

/// The rotation in degrees for a raw rotation value: surface rotation
/// indices 0..3 become 0, 90, 180, 270; other values are taken as degrees.
pub open spec fn display_rotation_degrees(raw: u32) -> u32 {
    if raw == 0 {
        0
    } else if raw == 1 {
        90
    } else if raw == 2 {
        180
    } else if raw == 3 {
        270
    } else {
        raw
    }
}

/// Turns the `displayRotation` a device reports into degrees.
///
/// Devices report either a surface rotation index (0..3) or degrees.
pub fn normalize_display_rotation(raw: u32) -> (r: u32)
    ensures
        r == display_rotation_degrees(raw),
{
    match raw {
        0 => 0,
        1 => 90,
        2 => 180,
        3 => 270,
        _ => raw,
    }
}

/// Normalizing a rotation twice is the same as normalizing it once, and a
/// rotation index always becomes a multiple of 90 degrees below 360.
pub proof fn lemma_display_rotation_idempotent(raw: u32)
    ensures
        display_rotation_degrees(display_rotation_degrees(raw)) == display_rotation_degrees(raw),
        raw <= 3 ==> display_rotation_degrees(raw) % 90 == 0 && display_rotation_degrees(raw)
            < 360,
{
}

} // verus!
