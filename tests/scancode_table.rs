use keym::scancode::ScancodeMap;

const NAMES: [&str; 96] = [
    "0", "1", "2", "3", "4", "5", "6", "7", "8", "9", "a", "b", "c", "d", "e", "f", "g", "h", "i",
    "j", "k", "l", "m", "n", "o", "p", "q", "r", "s", "t", "u", "v", "w", "x", "y", "z", "f1",
    "f2", "f3", "f4", "f5", "f6", "f7", "f8", "f9", "f10", "f11", "f12", "space", "enter", "tab",
    "esc", "backspace", "delete", "insert", "home", "end", "pageup", "pagedown", "up", "down",
    "left", "right", "shift", "ctrl", "alt", "capslock", "numlock", "scrolllock", "-", "=", "[",
    "]", ";", "'", "`", "\\", ",", ".", "/", "num0", "num1", "num2", "num3", "num4", "num5",
    "num6", "num7", "num8", "num9", "num/", "num*", "num-", "num+", "num.", "numenter",
];

#[test]
fn table_maps_letters_and_arrows() {
    let map = ScancodeMap::new();
    assert_eq!(map.lookup("a"), Some((0x1E, false)));
    assert_eq!(map.lookup("up"), Some((0xC8, true)));
    assert_eq!(map.lookup("esc"), Some((0x01, false)));
    assert_eq!(map.lookup("f12"), Some((0x58, false)));
    assert_eq!(map.lookup("numenter"), Some((0x9C, true)));
    assert_eq!(map.lookup("\\"), Some((0x2B, false)));
    assert_eq!(map.lookup("`"), Some((0x29, false)));
}

#[test]
fn table_covers_every_editor_key() {
    let map = ScancodeMap::new();
    for name in NAMES.iter() {
        assert!(map.lookup(name).is_some(), "{} has no scancode", name);
    }
}

#[test]
fn unknown_key_has_no_mapping() {
    let map = ScancodeMap::new();
    assert_eq!(map.lookup("f13"), None);
    assert_eq!(map.lookup(""), None);
    assert_eq!(map.lookup("A"), None);
    assert_eq!(map.get("nosuchkey"), None);
    assert!(!map.is_extended("nosuchkey"));
}

#[test]
fn get_gives_scancode() {
    let map = ScancodeMap::new();
    assert_eq!(map.get("space"), Some(0x39));
    assert_eq!(map.get("delete"), Some(0xD3));
}

#[test]
fn extended_keys_are_the_navigation_cluster() {
    let map = ScancodeMap::new();
    let extended = [
        "up", "down", "left", "right", "delete", "insert", "home", "end", "pageup", "pagedown",
        "num/", "numenter",
    ];
    for name in NAMES.iter() {
        assert_eq!(map.is_extended(name), extended.contains(name), "{}", name);
    }
}

#[test]
fn reverse_lookup_round_trips_every_name() {
    let map = ScancodeMap::new();
    for name in NAMES.iter() {
        let (scancode, extended) = map.lookup(name).unwrap();
        assert_eq!(map.reverse_lookup(scancode, extended), Some(name.to_string()));
    }
}

#[test]
fn reverse_lookup_needs_matching_extended_flag() {
    let map = ScancodeMap::new();
    assert_eq!(map.reverse_lookup(0xC8, false), None);
    assert_eq!(map.reverse_lookup(0x1E, true), None);
    assert_eq!(map.reverse_lookup(0x1E, false), Some("a".to_string()));
}

#[test]
fn reverse_lookup_of_unnamed_code_is_none() {
    let map = ScancodeMap::new();
    assert_eq!(map.reverse_lookup(0x36, false), None);
    assert_eq!(map.reverse_lookup(0x00, false), None);
    assert_eq!(map.reverse_lookup(0xFFFF, true), None);
}
