//! Android keys and their KeyEvent codes.
use vstd::prelude::*;

use crate::text::{
    all_ascii, ascii_lower, chars_eq_str, chars_of, to_lowercase,
    unicode_lowercase,
};

verus! {

/// An Android key, each with its `KeyEvent` code.
#[derive(Debug, Clone, Copy, PartialEq, Eq, Hash, Structural)]
pub enum Key {
    /// Home key: back to the home screen.
    Home,
    /// Back key.
    Back,
    /// Power key.
    Power,
    /// Volume up.
    VolumeUp,
    /// Volume down.
    VolumeDown,
    /// Mute.
    VolumeMute,
    /// Menu key.
    Menu,
    /// Search key.
    Search,
    /// Enter / confirm.
    Enter,
    /// Delete (backspace).
    Delete,
    /// Recent apps.
    Recent,
    /// Camera key.
    Camera,
    /// D-pad up.
    Up,
    /// D-pad down.
    Down,
    /// D-pad left.
    Left,
    /// D-pad right.
    Right,
    /// D-pad center.
    Center,
    /// Tab.
    Tab,
    /// Space.
    Space,
    /// Escape.
    Escape,
    /// Media play/pause.
    MediaPlayPause,
    /// Media stop.
    MediaStop,
    /// Next track.
    MediaNext,
    /// Previous track.
    MediaPrevious,
    /// Fast forward.
    MediaFastForward,
    /// Rewind.
    MediaRewind,
    /// Call.
    Call,
    /// End call.
    EndCall,
}

/// The Android `KeyEvent` code of a key.
pub open spec fn key_code(k: Key) -> u32 {
    match k {
        Key::Home => 3,
        Key::Back => 4,
        Key::Power => 26,
        Key::VolumeUp => 24,
        Key::VolumeDown => 25,
        Key::VolumeMute => 164,
        Key::Menu => 82,
        Key::Search => 84,
        Key::Enter => 66,
        Key::Delete => 67,
        Key::Recent => 187,
        Key::Camera => 27,
        Key::Up => 19,
        Key::Down => 20,
        Key::Left => 21,
        Key::Right => 22,
        Key::Center => 23,
        Key::Tab => 61,
        Key::Space => 62,
        Key::Escape => 111,
        Key::MediaPlayPause => 85,
        Key::MediaStop => 86,
        Key::MediaNext => 87,
        Key::MediaPrevious => 88,
        Key::MediaFastForward => 90,
        Key::MediaRewind => 89,
        Key::Call => 5,
        Key::EndCall => 6,
    }
}

/// Each key sends the Android `KeyEvent` code of the key it names:
/// KEYCODE_HOME 3, KEYCODE_BACK 4, KEYCODE_POWER 26, KEYCODE_VOLUME_UP 24,
/// KEYCODE_VOLUME_DOWN 25, KEYCODE_VOLUME_MUTE 164, KEYCODE_MENU 82, KEYCODE_SEARCH 84,
/// KEYCODE_ENTER 66, KEYCODE_DEL 67, KEYCODE_APP_SWITCH 187, KEYCODE_CAMERA 27,
/// KEYCODE_DPAD_UP 19, KEYCODE_DPAD_DOWN 20, KEYCODE_DPAD_LEFT 21, KEYCODE_DPAD_RIGHT 22,
/// KEYCODE_DPAD_CENTER 23, KEYCODE_TAB 61, KEYCODE_SPACE 62, KEYCODE_ESCAPE 111,
/// KEYCODE_MEDIA_PLAY_PAUSE 85, KEYCODE_MEDIA_STOP 86, KEYCODE_MEDIA_NEXT 87,
/// KEYCODE_MEDIA_PREVIOUS 88, KEYCODE_MEDIA_FAST_FORWARD 90, KEYCODE_MEDIA_REWIND 89,
/// KEYCODE_CALL 5, KEYCODE_ENDCALL 6.
pub proof fn lemma_key_codes_are_android_keycodes()
    ensures
        key_code(Key::Home) == 3,
        key_code(Key::Back) == 4,
        key_code(Key::Power) == 26,
        key_code(Key::VolumeUp) == 24,
        key_code(Key::VolumeDown) == 25,
        key_code(Key::VolumeMute) == 164,
        key_code(Key::Menu) == 82,
        key_code(Key::Search) == 84,
        key_code(Key::Enter) == 66,
        key_code(Key::Delete) == 67,
        key_code(Key::Recent) == 187,
        key_code(Key::Camera) == 27,
        key_code(Key::Up) == 19,
        key_code(Key::Down) == 20,
        key_code(Key::Left) == 21,
        key_code(Key::Right) == 22,
        key_code(Key::Center) == 23,
        key_code(Key::Tab) == 61,
        key_code(Key::Space) == 62,
        key_code(Key::Escape) == 111,
        key_code(Key::MediaPlayPause) == 85,
        key_code(Key::MediaStop) == 86,
        key_code(Key::MediaNext) == 87,
        key_code(Key::MediaPrevious) == 88,
        key_code(Key::MediaFastForward) == 90,
        key_code(Key::MediaRewind) == 89,
        key_code(Key::Call) == 5,
        key_code(Key::EndCall) == 6,
{
}

/// The name of a key: lower case, words joined by `_`.
pub open spec fn key_name(k: Key) -> Seq<char> {
    match k {
        Key::Home => "home"@,
        Key::Back => "back"@,
        Key::Power => "power"@,
        Key::VolumeUp => "volume_up"@,
        Key::VolumeDown => "volume_down"@,
        Key::VolumeMute => "volume_mute"@,
        Key::Menu => "menu"@,
        Key::Search => "search"@,
        Key::Enter => "enter"@,
        Key::Delete => "delete"@,
        Key::Recent => "recent"@,
        Key::Camera => "camera"@,
        Key::Up => "up"@,
        Key::Down => "down"@,
        Key::Left => "left"@,
        Key::Right => "right"@,
        Key::Center => "center"@,
        Key::Tab => "tab"@,
        Key::Space => "space"@,
        Key::Escape => "escape"@,
        Key::MediaPlayPause => "media_play_pause"@,
        Key::MediaStop => "media_stop"@,
        Key::MediaNext => "media_next"@,
        Key::MediaPrevious => "media_previous"@,
        Key::MediaFastForward => "media_fast_forward"@,
        Key::MediaRewind => "media_rewind"@,
        Key::Call => "call"@,
        Key::EndCall => "end_call"@,
    }
}

/// The key whose name is exactly `s`.
pub open spec fn key_of_name(s: Seq<char>) -> Option<Key> {
    if s == "home"@ {
        Some(Key::Home)
    } else if s == "back"@ {
        Some(Key::Back)
    } else if s == "power"@ {
        Some(Key::Power)
    } else if s == "volume_up"@ {
        Some(Key::VolumeUp)
    } else if s == "volume_down"@ {
        Some(Key::VolumeDown)
    } else if s == "volume_mute"@ {
        Some(Key::VolumeMute)
    } else if s == "menu"@ {
        Some(Key::Menu)
    } else if s == "search"@ {
        Some(Key::Search)
    } else if s == "enter"@ {
        Some(Key::Enter)
    } else if s == "delete"@ {
        Some(Key::Delete)
    } else if s == "recent"@ {
        Some(Key::Recent)
    } else if s == "camera"@ {
        Some(Key::Camera)
    } else if s == "up"@ {
        Some(Key::Up)
    } else if s == "down"@ {
        Some(Key::Down)
    } else if s == "left"@ {
        Some(Key::Left)
    } else if s == "right"@ {
        Some(Key::Right)
    } else if s == "center"@ {
        Some(Key::Center)
    } else if s == "tab"@ {
        Some(Key::Tab)
    } else if s == "space"@ {
        Some(Key::Space)
    } else if s == "escape"@ {
        Some(Key::Escape)
    } else if s == "media_play_pause"@ {
        Some(Key::MediaPlayPause)
    } else if s == "media_stop"@ {
        Some(Key::MediaStop)
    } else if s == "media_next"@ {
        Some(Key::MediaNext)
    } else if s == "media_previous"@ {
        Some(Key::MediaPrevious)
    } else if s == "media_fast_forward"@ {
        Some(Key::MediaFastForward)
    } else if s == "media_rewind"@ {
        Some(Key::MediaRewind)
    } else if s == "call"@ {
        Some(Key::Call)
    } else if s == "end_call"@ {
        Some(Key::EndCall)
    } else {
        None
    }
}

/// Every key, in declaration order.
pub open spec fn all_keys() -> Seq<Key> {
    seq![Key::Home, Key::Back, Key::Power, Key::VolumeUp, Key::VolumeDown, Key::VolumeMute, Key::Menu, Key::Search, Key::Enter, Key::Delete, Key::Recent, Key::Camera, Key::Up, Key::Down, Key::Left, Key::Right, Key::Center, Key::Tab, Key::Space, Key::Escape, Key::MediaPlayPause, Key::MediaStop, Key::MediaNext, Key::MediaPrevious, Key::MediaFastForward, Key::MediaRewind, Key::Call, Key::EndCall]
}

impl Key {
    /// The Android `KeyEvent` code of this key.
    pub fn to_keycode(&self) -> (r: u32)
        ensures
            r == key_code(*self),
    {
        match self {
            Key::Home => 3,
            Key::Back => 4,
            Key::Power => 26,
            Key::VolumeUp => 24,
            Key::VolumeDown => 25,
            Key::VolumeMute => 164,
            Key::Menu => 82,
            Key::Search => 84,
            Key::Enter => 66,
            Key::Delete => 67,
            Key::Recent => 187,
            Key::Camera => 27,
            Key::Up => 19,
            Key::Down => 20,
            Key::Left => 21,
            Key::Right => 22,
            Key::Center => 23,
            Key::Tab => 61,
            Key::Space => 62,
            Key::Escape => 111,
            Key::MediaPlayPause => 85,
            Key::MediaStop => 86,
            Key::MediaNext => 87,
            Key::MediaPrevious => 88,
            Key::MediaFastForward => 90,
            Key::MediaRewind => 89,
            Key::Call => 5,
            Key::EndCall => 6,
        }
    }

    /// The name of this key (lower case, words joined by `_`).
    pub fn to_name(&self) -> (r: &'static str)
        ensures
            r@ == key_name(*self),
    {
        match self {
            Key::Home => "home",
            Key::Back => "back",
            Key::Power => "power",
            Key::VolumeUp => "volume_up",
            Key::VolumeDown => "volume_down",
            Key::VolumeMute => "volume_mute",
            Key::Menu => "menu",
            Key::Search => "search",
            Key::Enter => "enter",
            Key::Delete => "delete",
            Key::Recent => "recent",
            Key::Camera => "camera",
            Key::Up => "up",
            Key::Down => "down",
            Key::Left => "left",
            Key::Right => "right",
            Key::Center => "center",
            Key::Tab => "tab",
            Key::Space => "space",
            Key::Escape => "escape",
            Key::MediaPlayPause => "media_play_pause",
            Key::MediaStop => "media_stop",
            Key::MediaNext => "media_next",
            Key::MediaPrevious => "media_previous",
            Key::MediaFastForward => "media_fast_forward",
            Key::MediaRewind => "media_rewind",
            Key::Call => "call",
            Key::EndCall => "end_call",
        }
    }

    /// The key with the given name, compared without regard to case.
    pub fn from_name(name: &str) -> (r: Option<Key>)
        ensures
            r == key_of_name(unicode_lowercase(name@)),
            all_ascii(name@) ==> r == key_of_name(ascii_lower(name@)),
    {
        let lower = to_lowercase(name);
        let v = chars_of(lower.as_str());
        if chars_eq_str(&v, "home") {
            return Some(Key::Home);
        }
        if chars_eq_str(&v, "back") {
            return Some(Key::Back);
        }
        if chars_eq_str(&v, "power") {
            return Some(Key::Power);
        }
        if chars_eq_str(&v, "volume_up") {
            return Some(Key::VolumeUp);
        }
        if chars_eq_str(&v, "volume_down") {
            return Some(Key::VolumeDown);
        }
        if chars_eq_str(&v, "volume_mute") {
            return Some(Key::VolumeMute);
        }
        if chars_eq_str(&v, "menu") {
            return Some(Key::Menu);
        }
        if chars_eq_str(&v, "search") {
            return Some(Key::Search);
        }
        if chars_eq_str(&v, "enter") {
            return Some(Key::Enter);
        }
        if chars_eq_str(&v, "delete") {
            return Some(Key::Delete);
        }
        if chars_eq_str(&v, "recent") {
            return Some(Key::Recent);
        }
        if chars_eq_str(&v, "camera") {
            return Some(Key::Camera);
        }
        if chars_eq_str(&v, "up") {
            return Some(Key::Up);
        }
        if chars_eq_str(&v, "down") {
            return Some(Key::Down);
        }
        if chars_eq_str(&v, "left") {
            return Some(Key::Left);
        }
        if chars_eq_str(&v, "right") {
            return Some(Key::Right);
        }
        if chars_eq_str(&v, "center") {
            return Some(Key::Center);
        }
        if chars_eq_str(&v, "tab") {
            return Some(Key::Tab);
        }
        if chars_eq_str(&v, "space") {
            return Some(Key::Space);
        }
        if chars_eq_str(&v, "escape") {
            return Some(Key::Escape);
        }
        if chars_eq_str(&v, "media_play_pause") {
            return Some(Key::MediaPlayPause);
        }
        if chars_eq_str(&v, "media_stop") {
            return Some(Key::MediaStop);
        }
        if chars_eq_str(&v, "media_next") {
            return Some(Key::MediaNext);
        }
        if chars_eq_str(&v, "media_previous") {
            return Some(Key::MediaPrevious);
        }
        if chars_eq_str(&v, "media_fast_forward") {
            return Some(Key::MediaFastForward);
        }
        if chars_eq_str(&v, "media_rewind") {
            return Some(Key::MediaRewind);
        }
        if chars_eq_str(&v, "call") {
            return Some(Key::Call);
        }
        if chars_eq_str(&v, "end_call") {
            return Some(Key::EndCall);
        }
        None
    }
}

/// Every key's name is ASCII text that lower-casing leaves unchanged.
pub proof fn lemma_key_name_is_lower_ascii(k: Key)
    ensures
        all_ascii(key_name(k)),
        ascii_lower(key_name(k)) == key_name(k),
{
    reveal_strlit("home");
    reveal_strlit("back");
    reveal_strlit("power");
    reveal_strlit("volume_up");
    reveal_strlit("volume_down");
    reveal_strlit("volume_mute");
    reveal_strlit("menu");
    reveal_strlit("search");
    reveal_strlit("enter");
    reveal_strlit("delete");
    reveal_strlit("recent");
    reveal_strlit("camera");
    reveal_strlit("up");
    reveal_strlit("down");
    reveal_strlit("left");
    reveal_strlit("right");
    reveal_strlit("center");
    reveal_strlit("tab");
    reveal_strlit("space");
    reveal_strlit("escape");
    reveal_strlit("media_play_pause");
    reveal_strlit("media_stop");
    reveal_strlit("media_next");
    reveal_strlit("media_previous");
    reveal_strlit("media_fast_forward");
    reveal_strlit("media_rewind");
    reveal_strlit("call");
    reveal_strlit("end_call");
    let s = key_name(k);
    assert(forall|i: int| 0 <= i < s.len() ==> 'a' <= #[trigger] s[i] <= 'z' || s[i] == '_');
    assert(ascii_lower(s) =~= s);
}

/// Looking a key up by its own name gives that key back.
pub proof fn lemma_key_name_round_trip(k: Key)
    ensures
        key_of_name(key_name(k)) == Some(k),
        key_of_name(ascii_lower(key_name(k))) == Some(k),
{
    reveal_strlit("home");
    reveal_strlit("back");
    reveal_strlit("power");
    reveal_strlit("volume_up");
    reveal_strlit("volume_down");
    reveal_strlit("volume_mute");
    reveal_strlit("menu");
    reveal_strlit("search");
    reveal_strlit("enter");
    reveal_strlit("delete");
    reveal_strlit("recent");
    reveal_strlit("camera");
    reveal_strlit("up");
    reveal_strlit("down");
    reveal_strlit("left");
    reveal_strlit("right");
    reveal_strlit("center");
    reveal_strlit("tab");
    reveal_strlit("space");
    reveal_strlit("escape");
    reveal_strlit("media_play_pause");
    reveal_strlit("media_stop");
    reveal_strlit("media_next");
    reveal_strlit("media_previous");
    reveal_strlit("media_fast_forward");
    reveal_strlit("media_rewind");
    reveal_strlit("call");
    reveal_strlit("end_call");
    lemma_key_name_is_lower_ascii(k);
    match k {
        Key::Home => {

        },
        Key::Back => {
            assert("back"@[0] != "home"@[0]);
            assert("back"@ != "home"@);
        },
        Key::Power => {
            assert("power"@ != "home"@);
            assert("power"@ != "back"@);
        },
        Key::VolumeUp => {
            assert("volume_up"@ != "home"@);
            assert("volume_up"@ != "back"@);
            assert("volume_up"@ != "power"@);
        },
        Key::VolumeDown => {
            assert("volume_down"@ != "home"@);
            assert("volume_down"@ != "back"@);
            assert("volume_down"@ != "power"@);
            assert("volume_down"@ != "volume_up"@);
        },
        Key::VolumeMute => {
            assert("volume_mute"@ != "home"@);
            assert("volume_mute"@ != "back"@);
            assert("volume_mute"@ != "power"@);
            assert("volume_mute"@ != "volume_up"@);
            assert("volume_mute"@[7] != "volume_down"@[7]);
            assert("volume_mute"@ != "volume_down"@);
        },
        Key::Menu => {
            assert("menu"@[0] != "home"@[0]);
            assert("menu"@ != "home"@);
            assert("menu"@[0] != "back"@[0]);
            assert("menu"@ != "back"@);
            assert("menu"@ != "power"@);
            assert("menu"@ != "volume_up"@);
            assert("menu"@ != "volume_down"@);
            assert("menu"@ != "volume_mute"@);
        },
        Key::Search => {
            assert("search"@ != "home"@);
            assert("search"@ != "back"@);
            assert("search"@ != "power"@);
            assert("search"@ != "volume_up"@);
            assert("search"@ != "volume_down"@);
            assert("search"@ != "volume_mute"@);
            assert("search"@ != "menu"@);
        },
        Key::Enter => {
            assert("enter"@ != "home"@);
            assert("enter"@ != "back"@);
            assert("enter"@[0] != "power"@[0]);
            assert("enter"@ != "power"@);
            assert("enter"@ != "volume_up"@);
            assert("enter"@ != "volume_down"@);
            assert("enter"@ != "volume_mute"@);
            assert("enter"@ != "menu"@);
            assert("enter"@ != "search"@);
        },
        Key::Delete => {
            assert("delete"@ != "home"@);
            assert("delete"@ != "back"@);
            assert("delete"@ != "power"@);
            assert("delete"@ != "volume_up"@);
            assert("delete"@ != "volume_down"@);
            assert("delete"@ != "volume_mute"@);
            assert("delete"@ != "menu"@);
            assert("delete"@[0] != "search"@[0]);
            assert("delete"@ != "search"@);
            assert("delete"@ != "enter"@);
        },
        Key::Recent => {
            assert("recent"@ != "home"@);
            assert("recent"@ != "back"@);
            assert("recent"@ != "power"@);
            assert("recent"@ != "volume_up"@);
            assert("recent"@ != "volume_down"@);
            assert("recent"@ != "volume_mute"@);
            assert("recent"@ != "menu"@);
            assert("recent"@[0] != "search"@[0]);
            assert("recent"@ != "search"@);
            assert("recent"@ != "enter"@);
            assert("recent"@[0] != "delete"@[0]);
            assert("recent"@ != "delete"@);
        },
        Key::Camera => {
            assert("camera"@ != "home"@);
            assert("camera"@ != "back"@);
            assert("camera"@ != "power"@);
            assert("camera"@ != "volume_up"@);
            assert("camera"@ != "volume_down"@);
            assert("camera"@ != "volume_mute"@);
            assert("camera"@ != "menu"@);
            assert("camera"@[0] != "search"@[0]);
            assert("camera"@ != "search"@);
            assert("camera"@ != "enter"@);
            assert("camera"@[0] != "delete"@[0]);
            assert("camera"@ != "delete"@);
            assert("camera"@[0] != "recent"@[0]);
            assert("camera"@ != "recent"@);
        },
        Key::Up => {
            assert("up"@ != "home"@);
            assert("up"@ != "back"@);
            assert("up"@ != "power"@);
            assert("up"@ != "volume_up"@);
            assert("up"@ != "volume_down"@);
            assert("up"@ != "volume_mute"@);
            assert("up"@ != "menu"@);
            assert("up"@ != "search"@);
            assert("up"@ != "enter"@);
            assert("up"@ != "delete"@);
            assert("up"@ != "recent"@);
            assert("up"@ != "camera"@);
        },
        Key::Down => {
            assert("down"@[0] != "home"@[0]);
            assert("down"@ != "home"@);
            assert("down"@[0] != "back"@[0]);
            assert("down"@ != "back"@);
            assert("down"@ != "power"@);
            assert("down"@ != "volume_up"@);
            assert("down"@ != "volume_down"@);
            assert("down"@ != "volume_mute"@);
            assert("down"@[0] != "menu"@[0]);
            assert("down"@ != "menu"@);
            assert("down"@ != "search"@);
            assert("down"@ != "enter"@);
            assert("down"@ != "delete"@);
            assert("down"@ != "recent"@);
            assert("down"@ != "camera"@);
            assert("down"@ != "up"@);
        },
        Key::Left => {
            assert("left"@[0] != "home"@[0]);
            assert("left"@ != "home"@);
            assert("left"@[0] != "back"@[0]);
            assert("left"@ != "back"@);
            assert("left"@ != "power"@);
            assert("left"@ != "volume_up"@);
            assert("left"@ != "volume_down"@);
            assert("left"@ != "volume_mute"@);
            assert("left"@[0] != "menu"@[0]);
            assert("left"@ != "menu"@);
            assert("left"@ != "search"@);
            assert("left"@ != "enter"@);
            assert("left"@ != "delete"@);
            assert("left"@ != "recent"@);
            assert("left"@ != "camera"@);
            assert("left"@ != "up"@);
            assert("left"@[0] != "down"@[0]);
            assert("left"@ != "down"@);
        },
        Key::Right => {
            assert("right"@ != "home"@);
            assert("right"@ != "back"@);
            assert("right"@[0] != "power"@[0]);
            assert("right"@ != "power"@);
            assert("right"@ != "volume_up"@);
            assert("right"@ != "volume_down"@);
            assert("right"@ != "volume_mute"@);
            assert("right"@ != "menu"@);
            assert("right"@ != "search"@);
            assert("right"@[0] != "enter"@[0]);
            assert("right"@ != "enter"@);
            assert("right"@ != "delete"@);
            assert("right"@ != "recent"@);
            assert("right"@ != "camera"@);
            assert("right"@ != "up"@);
            assert("right"@ != "down"@);
            assert("right"@ != "left"@);
        },
        Key::Center => {
            assert("center"@ != "home"@);
            assert("center"@ != "back"@);
            assert("center"@ != "power"@);
            assert("center"@ != "volume_up"@);
            assert("center"@ != "volume_down"@);
            assert("center"@ != "volume_mute"@);
            assert("center"@ != "menu"@);
            assert("center"@[0] != "search"@[0]);
            assert("center"@ != "search"@);
            assert("center"@ != "enter"@);
            assert("center"@[0] != "delete"@[0]);
            assert("center"@ != "delete"@);
            assert("center"@[0] != "recent"@[0]);
            assert("center"@ != "recent"@);
            assert("center"@[1] != "camera"@[1]);
            assert("center"@ != "camera"@);
            assert("center"@ != "up"@);
            assert("center"@ != "down"@);
            assert("center"@ != "left"@);
            assert("center"@ != "right"@);
        },
        Key::Tab => {
            assert("tab"@ != "home"@);
            assert("tab"@ != "back"@);
            assert("tab"@ != "power"@);
            assert("tab"@ != "volume_up"@);
            assert("tab"@ != "volume_down"@);
            assert("tab"@ != "volume_mute"@);
            assert("tab"@ != "menu"@);
            assert("tab"@ != "search"@);
            assert("tab"@ != "enter"@);
            assert("tab"@ != "delete"@);
            assert("tab"@ != "recent"@);
            assert("tab"@ != "camera"@);
            assert("tab"@ != "up"@);
            assert("tab"@ != "down"@);
            assert("tab"@ != "left"@);
            assert("tab"@ != "right"@);
            assert("tab"@ != "center"@);
        },
        Key::Space => {
            assert("space"@ != "home"@);
            assert("space"@ != "back"@);
            assert("space"@[0] != "power"@[0]);
            assert("space"@ != "power"@);
            assert("space"@ != "volume_up"@);
            assert("space"@ != "volume_down"@);
            assert("space"@ != "volume_mute"@);
            assert("space"@ != "menu"@);
            assert("space"@ != "search"@);
            assert("space"@[0] != "enter"@[0]);
            assert("space"@ != "enter"@);
            assert("space"@ != "delete"@);
            assert("space"@ != "recent"@);
            assert("space"@ != "camera"@);
            assert("space"@ != "up"@);
            assert("space"@ != "down"@);
            assert("space"@ != "left"@);
            assert("space"@[0] != "right"@[0]);
            assert("space"@ != "right"@);
            assert("space"@ != "center"@);
            assert("space"@ != "tab"@);
        },
        Key::Escape => {
            assert("escape"@ != "home"@);
            assert("escape"@ != "back"@);
            assert("escape"@ != "power"@);
            assert("escape"@ != "volume_up"@);
            assert("escape"@ != "volume_down"@);
            assert("escape"@ != "volume_mute"@);
            assert("escape"@ != "menu"@);
            assert("escape"@[0] != "search"@[0]);
            assert("escape"@ != "search"@);
            assert("escape"@ != "enter"@);
            assert("escape"@[0] != "delete"@[0]);
            assert("escape"@ != "delete"@);
            assert("escape"@[0] != "recent"@[0]);
            assert("escape"@ != "recent"@);
            assert("escape"@[0] != "camera"@[0]);
            assert("escape"@ != "camera"@);
            assert("escape"@ != "up"@);
            assert("escape"@ != "down"@);
            assert("escape"@ != "left"@);
            assert("escape"@ != "right"@);
            assert("escape"@[0] != "center"@[0]);
            assert("escape"@ != "center"@);
            assert("escape"@ != "tab"@);
            assert("escape"@ != "space"@);
        },
        Key::MediaPlayPause => {
            assert("media_play_pause"@ != "home"@);
            assert("media_play_pause"@ != "back"@);
            assert("media_play_pause"@ != "power"@);
            assert("media_play_pause"@ != "volume_up"@);
            assert("media_play_pause"@ != "volume_down"@);
            assert("media_play_pause"@ != "volume_mute"@);
            assert("media_play_pause"@ != "menu"@);
            assert("media_play_pause"@ != "search"@);
            assert("media_play_pause"@ != "enter"@);
            assert("media_play_pause"@ != "delete"@);
            assert("media_play_pause"@ != "recent"@);
            assert("media_play_pause"@ != "camera"@);
            assert("media_play_pause"@ != "up"@);
            assert("media_play_pause"@ != "down"@);
            assert("media_play_pause"@ != "left"@);
            assert("media_play_pause"@ != "right"@);
            assert("media_play_pause"@ != "center"@);
            assert("media_play_pause"@ != "tab"@);
            assert("media_play_pause"@ != "space"@);
            assert("media_play_pause"@ != "escape"@);
        },
        Key::MediaStop => {
            assert("media_stop"@ != "home"@);
            assert("media_stop"@ != "back"@);
            assert("media_stop"@ != "power"@);
            assert("media_stop"@ != "volume_up"@);
            assert("media_stop"@ != "volume_down"@);
            assert("media_stop"@ != "volume_mute"@);
            assert("media_stop"@ != "menu"@);
            assert("media_stop"@ != "search"@);
            assert("media_stop"@ != "enter"@);
            assert("media_stop"@ != "delete"@);
            assert("media_stop"@ != "recent"@);
            assert("media_stop"@ != "camera"@);
            assert("media_stop"@ != "up"@);
            assert("media_stop"@ != "down"@);
            assert("media_stop"@ != "left"@);
            assert("media_stop"@ != "right"@);
            assert("media_stop"@ != "center"@);
            assert("media_stop"@ != "tab"@);
            assert("media_stop"@ != "space"@);
            assert("media_stop"@ != "escape"@);
            assert("media_stop"@ != "media_play_pause"@);
        },
        Key::MediaNext => {
            assert("media_next"@ != "home"@);
            assert("media_next"@ != "back"@);
            assert("media_next"@ != "power"@);
            assert("media_next"@ != "volume_up"@);
            assert("media_next"@ != "volume_down"@);
            assert("media_next"@ != "volume_mute"@);
            assert("media_next"@ != "menu"@);
            assert("media_next"@ != "search"@);
            assert("media_next"@ != "enter"@);
            assert("media_next"@ != "delete"@);
            assert("media_next"@ != "recent"@);
            assert("media_next"@ != "camera"@);
            assert("media_next"@ != "up"@);
            assert("media_next"@ != "down"@);
            assert("media_next"@ != "left"@);
            assert("media_next"@ != "right"@);
            assert("media_next"@ != "center"@);
            assert("media_next"@ != "tab"@);
            assert("media_next"@ != "space"@);
            assert("media_next"@ != "escape"@);
            assert("media_next"@ != "media_play_pause"@);
            assert("media_next"@[6] != "media_stop"@[6]);
            assert("media_next"@ != "media_stop"@);
        },
        Key::MediaPrevious => {
            assert("media_previous"@ != "home"@);
            assert("media_previous"@ != "back"@);
            assert("media_previous"@ != "power"@);
            assert("media_previous"@ != "volume_up"@);
            assert("media_previous"@ != "volume_down"@);
            assert("media_previous"@ != "volume_mute"@);
            assert("media_previous"@ != "menu"@);
            assert("media_previous"@ != "search"@);
            assert("media_previous"@ != "enter"@);
            assert("media_previous"@ != "delete"@);
            assert("media_previous"@ != "recent"@);
            assert("media_previous"@ != "camera"@);
            assert("media_previous"@ != "up"@);
            assert("media_previous"@ != "down"@);
            assert("media_previous"@ != "left"@);
            assert("media_previous"@ != "right"@);
            assert("media_previous"@ != "center"@);
            assert("media_previous"@ != "tab"@);
            assert("media_previous"@ != "space"@);
            assert("media_previous"@ != "escape"@);
            assert("media_previous"@ != "media_play_pause"@);
            assert("media_previous"@ != "media_stop"@);
            assert("media_previous"@ != "media_next"@);
        },
        Key::MediaFastForward => {
            assert("media_fast_forward"@ != "home"@);
            assert("media_fast_forward"@ != "back"@);
            assert("media_fast_forward"@ != "power"@);
            assert("media_fast_forward"@ != "volume_up"@);
            assert("media_fast_forward"@ != "volume_down"@);
            assert("media_fast_forward"@ != "volume_mute"@);
            assert("media_fast_forward"@ != "menu"@);
            assert("media_fast_forward"@ != "search"@);
            assert("media_fast_forward"@ != "enter"@);
            assert("media_fast_forward"@ != "delete"@);
            assert("media_fast_forward"@ != "recent"@);
            assert("media_fast_forward"@ != "camera"@);
            assert("media_fast_forward"@ != "up"@);
            assert("media_fast_forward"@ != "down"@);
            assert("media_fast_forward"@ != "left"@);
            assert("media_fast_forward"@ != "right"@);
            assert("media_fast_forward"@ != "center"@);
            assert("media_fast_forward"@ != "tab"@);
            assert("media_fast_forward"@ != "space"@);
            assert("media_fast_forward"@ != "escape"@);
            assert("media_fast_forward"@ != "media_play_pause"@);
            assert("media_fast_forward"@ != "media_stop"@);
            assert("media_fast_forward"@ != "media_next"@);
            assert("media_fast_forward"@ != "media_previous"@);
        },
        Key::MediaRewind => {
            assert("media_rewind"@ != "home"@);
            assert("media_rewind"@ != "back"@);
            assert("media_rewind"@ != "power"@);
            assert("media_rewind"@ != "volume_up"@);
            assert("media_rewind"@ != "volume_down"@);
            assert("media_rewind"@ != "volume_mute"@);
            assert("media_rewind"@ != "menu"@);
            assert("media_rewind"@ != "search"@);
            assert("media_rewind"@ != "enter"@);
            assert("media_rewind"@ != "delete"@);
            assert("media_rewind"@ != "recent"@);
            assert("media_rewind"@ != "camera"@);
            assert("media_rewind"@ != "up"@);
            assert("media_rewind"@ != "down"@);
            assert("media_rewind"@ != "left"@);
            assert("media_rewind"@ != "right"@);
            assert("media_rewind"@ != "center"@);
            assert("media_rewind"@ != "tab"@);
            assert("media_rewind"@ != "space"@);
            assert("media_rewind"@ != "escape"@);
            assert("media_rewind"@ != "media_play_pause"@);
            assert("media_rewind"@ != "media_stop"@);
            assert("media_rewind"@ != "media_next"@);
            assert("media_rewind"@ != "media_previous"@);
            assert("media_rewind"@ != "media_fast_forward"@);
        },
        Key::Call => {
            assert("call"@[0] != "home"@[0]);
            assert("call"@ != "home"@);
            assert("call"@[0] != "back"@[0]);
            assert("call"@ != "back"@);
            assert("call"@ != "power"@);
            assert("call"@ != "volume_up"@);
            assert("call"@ != "volume_down"@);
            assert("call"@ != "volume_mute"@);
            assert("call"@[0] != "menu"@[0]);
            assert("call"@ != "menu"@);
            assert("call"@ != "search"@);
            assert("call"@ != "enter"@);
            assert("call"@ != "delete"@);
            assert("call"@ != "recent"@);
            assert("call"@ != "camera"@);
            assert("call"@ != "up"@);
            assert("call"@[0] != "down"@[0]);
            assert("call"@ != "down"@);
            assert("call"@[0] != "left"@[0]);
            assert("call"@ != "left"@);
            assert("call"@ != "right"@);
            assert("call"@ != "center"@);
            assert("call"@ != "tab"@);
            assert("call"@ != "space"@);
            assert("call"@ != "escape"@);
            assert("call"@ != "media_play_pause"@);
            assert("call"@ != "media_stop"@);
            assert("call"@ != "media_next"@);
            assert("call"@ != "media_previous"@);
            assert("call"@ != "media_fast_forward"@);
            assert("call"@ != "media_rewind"@);
        },
        Key::EndCall => {
            assert("end_call"@ != "home"@);
            assert("end_call"@ != "back"@);
            assert("end_call"@ != "power"@);
            assert("end_call"@ != "volume_up"@);
            assert("end_call"@ != "volume_down"@);
            assert("end_call"@ != "volume_mute"@);
            assert("end_call"@ != "menu"@);
            assert("end_call"@ != "search"@);
            assert("end_call"@ != "enter"@);
            assert("end_call"@ != "delete"@);
            assert("end_call"@ != "recent"@);
            assert("end_call"@ != "camera"@);
            assert("end_call"@ != "up"@);
            assert("end_call"@ != "down"@);
            assert("end_call"@ != "left"@);
            assert("end_call"@ != "right"@);
            assert("end_call"@ != "center"@);
            assert("end_call"@ != "tab"@);
            assert("end_call"@ != "space"@);
            assert("end_call"@ != "escape"@);
            assert("end_call"@ != "media_play_pause"@);
            assert("end_call"@ != "media_stop"@);
            assert("end_call"@ != "media_next"@);
            assert("end_call"@ != "media_previous"@);
            assert("end_call"@ != "media_fast_forward"@);
            assert("end_call"@ != "media_rewind"@);
            assert("end_call"@ != "call"@);
        },
    }
}

/// No two keys share a `KeyEvent` code.
pub proof fn lemma_key_codes_unique(k1: Key, k2: Key)
    ensures
        key_code(k1) == key_code(k2) ==> k1 == k2,
{
}

/// No two keys share a name.
pub proof fn lemma_key_names_unique(k1: Key, k2: Key)
    ensures
        key_name(k1) == key_name(k2) ==> k1 == k2,
{
    lemma_key_name_round_trip(k1);
    lemma_key_name_round_trip(k2);
}

} // verus!
