use uiautomator::key::Key;

#[test]
fn test_key_to_keycode() {
    assert_eq!(Key::Home.to_keycode(), 3);
    assert_eq!(Key::Back.to_keycode(), 4);
    assert_eq!(Key::Power.to_keycode(), 26);
    assert_eq!(Key::VolumeUp.to_keycode(), 24);
    assert_eq!(Key::VolumeDown.to_keycode(), 25);
    assert_eq!(Key::Enter.to_keycode(), 66);
    assert_eq!(Key::Up.to_keycode(), 19);
    assert_eq!(Key::Down.to_keycode(), 20);
    assert_eq!(Key::Left.to_keycode(), 21);
    assert_eq!(Key::Right.to_keycode(), 22);
}

#[test]
fn test_key_to_name() {
    assert_eq!(Key::Home.to_name(), "home");
    assert_eq!(Key::Back.to_name(), "back");
    assert_eq!(Key::VolumeUp.to_name(), "volume_up");
    assert_eq!(Key::MediaPlayPause.to_name(), "media_play_pause");
}

#[test]
fn test_key_from_name() {
    assert_eq!(Key::from_name("home"), Some(Key::Home));
    assert_eq!(Key::from_name("HOME"), Some(Key::Home));
    assert_eq!(Key::from_name("back"), Some(Key::Back));
    assert_eq!(Key::from_name("volume_up"), Some(Key::VolumeUp));
    assert_eq!(Key::from_name("VOLUME_UP"), Some(Key::VolumeUp));
    assert_eq!(Key::from_name("invalid"), None);
}

fn all_keys() -> Vec<Key> {
    vec![
        Key::Home,
        Key::Back,
        Key::Power,
        Key::VolumeUp,
        Key::VolumeDown,
        Key::VolumeMute,
        Key::Menu,
        Key::Search,
        Key::Enter,
        Key::Delete,
        Key::Recent,
        Key::Camera,
        Key::Up,
        Key::Down,
        Key::Left,
        Key::Right,
        Key::Center,
        Key::Tab,
        Key::Space,
        Key::Escape,
        Key::MediaPlayPause,
        Key::MediaStop,
        Key::MediaNext,
        Key::MediaPrevious,
        Key::MediaFastForward,
        Key::MediaRewind,
        Key::Call,
        Key::EndCall,
    ]
}

#[test]
fn test_key_round_trip() {
    for key in all_keys() {
        let name = key.to_name();
        let parsed = Key::from_name(name);
        assert_eq!(parsed, Some(key), "Failed round trip for key: {:?}", key);
    }
}

#[test]
fn test_all_keys_have_unique_keycodes() {
    let keys = all_keys();
    let mut seen: Vec<u32> = Vec::new();
    for key in keys {
        let keycode = key.to_keycode();
        assert!(
            !seen.contains(&keycode),
            "Duplicate keycode {} for key {:?}",
            keycode,
            key
        );
        seen.push(keycode);
    }
}

#[test]
fn key_names_are_lower_case_ascii() {
    for key in all_keys() {
        let name = key.to_name();
        assert!(name
            .chars()
            .all(|c| c.is_ascii_lowercase() || c == '_' || c.is_ascii_digit()));
    }
}

#[test]
fn key_names_are_unique() {
    let mut seen: Vec<&str> = Vec::new();
    for key in all_keys() {
        let name = key.to_name();
        assert!(!seen.contains(&name));
        seen.push(name);
    }
}

#[test]
fn key_from_name_mixed_case_and_empty() {
    assert_eq!(Key::from_name("Media_Play_Pause"), Some(Key::MediaPlayPause));
    assert_eq!(Key::from_name(""), None);
    assert_eq!(Key::from_name("home "), None);
}
