use winister::action::{Keybind, KeybindAction};
use winister::config::{Config, DEFAULT_WORKSPACES};

fn bind(action: KeybindAction, keycode: u8, modifier: u32) -> Keybind {
    Keybind { action, keycode, modifier }
}

#[test]
fn a_new_table_is_empty() {
    let config = Config::new();
    assert!(config.keybinds().is_empty());
    assert_eq!(config.get_keybind(36, 0x40), None);
}

#[test]
fn the_default_table_holds_the_built_in_bindings() {
    let config = Config::default();
    let keybinds = config.keybinds();
    assert_eq!(keybinds.len(), 23);
    assert_eq!(keybinds[0], bind(KeybindAction::Command("alacritty"), 36, 0x40));
    assert_eq!(keybinds[1], bind(KeybindAction::Command("dmenu_run"), 33, 0x40));
    assert_eq!(keybinds[2], bind(KeybindAction::CloseFocused, 54, 0x41));
    for i in 0..10 {
        assert_eq!(
            keybinds[3 + 2 * i],
            bind(KeybindAction::MoveToWorkspace(i), 10 + i as u8, 0x40)
        );
        assert_eq!(
            keybinds[4 + 2 * i],
            bind(KeybindAction::MoveFocusedToWorkspace(i), 10 + i as u8, 0x41)
        );
    }
    assert_eq!(DEFAULT_WORKSPACES, 10);
}

#[test]
fn the_default_modifiers_are_those_of_the_protocol() {
    let config = Config::default();
    let super_key = xcb::x::ModMask::N4.bits();
    let super_shift = (xcb::x::ModMask::N4 | xcb::x::ModMask::SHIFT).bits();
    assert_eq!(super_key, 0x40);
    assert_eq!(super_shift, 0x41);
    assert_eq!(config.keybinds()[0].modifier, super_key);
    assert_eq!(config.keybinds()[2].modifier, super_shift);
    assert_eq!(config.keybinds()[3].modifier, super_key);
    assert_eq!(config.keybinds()[4].modifier, super_shift);
    assert_eq!(
        config.get_keybind(36, xcb::x::KeyButMask::MOD4.bits()).map(|k| k.action),
        Some(KeybindAction::Command("alacritty"))
    );
}

#[test]
fn the_default_table_has_no_duplicates() {
    let config = Config::default();
    let keybinds = config.keybinds();
    for i in 0..keybinds.len() {
        for j in (i + 1)..keybinds.len() {
            assert!(
                keybinds[i].keycode != keybinds[j].keycode
                    || keybinds[i].modifier != keybinds[j].modifier
            );
        }
    }
    assert!(Config::from_keybinds(keybinds.clone()).is_some());
}

#[test]
fn lookup_finds_the_binding_of_the_pair() {
    let config = Config::default();
    assert_eq!(
        config.get_keybind(36, 0x40),
        Some(&bind(KeybindAction::Command("alacritty"), 36, 0x40))
    );
    assert_eq!(config.get_keybind(54, 0x41), Some(&bind(KeybindAction::CloseFocused, 54, 0x41)));
    assert_eq!(
        config.get_keybind(10, 0x40),
        Some(&bind(KeybindAction::MoveToWorkspace(0), 10, 0x40))
    );
    assert_eq!(
        config.get_keybind(19, 0x41),
        Some(&bind(KeybindAction::MoveFocusedToWorkspace(9), 19, 0x41))
    );
}

#[test]
fn lookup_finds_nothing_for_a_pair_that_is_not_bound() {
    let config = Config::default();
    assert_eq!(config.get_keybind(36, 0x41), None);
    assert_eq!(config.get_keybind(36, 0), None);
    assert_eq!(config.get_keybind(36, 0x50), None);
    assert_eq!(config.get_keybind(54, 0x40), None);
    assert_eq!(config.get_keybind(20, 0x40), None);
    assert_eq!(config.get_keybind(9, 0x41), None);
    assert_eq!(config.get_keybind(0, 0), None);
    assert_eq!(config.get_keybind(255, u32::MAX), None);
}

#[test]
fn lookup_asks_for_every_pair_of_the_default_table() {
    let config = Config::default();
    for keycode in 0..=255u8 {
        for modifier in [0u32, 0x01, 0x40, 0x41, 0x140] {
            let expected = config
                .keybinds()
                .iter()
                .find(|k| k.keycode == keycode && k.modifier == modifier);
            assert_eq!(config.get_keybind(keycode, modifier), expected);
        }
    }
}

#[test]
fn a_table_is_built_from_distinct_bindings() {
    let keybinds = vec![
        bind(KeybindAction::Command("xterm"), 1, 0),
        bind(KeybindAction::CloseFocused, 1, 1),
        bind(KeybindAction::MoveToWorkspace(3), 2, 0),
    ];
    let config = Config::from_keybinds(keybinds.clone()).unwrap();
    assert_eq!(config.keybinds(), &keybinds);
    assert_eq!(config.get_keybind(1, 1), Some(&keybinds[1]));
    assert_eq!(config.get_keybind(2, 1), None);
    assert_eq!(Config::from_keybinds(vec![]), Some(Config::new()));
}

#[test]
fn a_table_with_a_pair_bound_twice_is_rejected() {
    let twice = vec![
        bind(KeybindAction::Command("xterm"), 1, 0),
        bind(KeybindAction::CloseFocused, 2, 0),
        bind(KeybindAction::MoveToWorkspace(3), 1, 0),
    ];
    assert_eq!(Config::from_keybinds(twice), None);
    let same = vec![bind(KeybindAction::CloseFocused, 9, 9), bind(KeybindAction::CloseFocused, 9, 9)];
    assert_eq!(Config::from_keybinds(same), None);
    let last = vec![
        bind(KeybindAction::Command("a"), 1, 0),
        bind(KeybindAction::Command("b"), 2, 0),
        bind(KeybindAction::Command("c"), 3, 0),
        bind(KeybindAction::Command("d"), 3, 0),
    ];
    assert_eq!(Config::from_keybinds(last), None);
}
