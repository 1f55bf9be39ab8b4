use winister::keybind::{Action, Keybind};
use winister::request::Effect;

#[test]
fn a_plain_command_launches_its_program() {
    let keybind = Keybind { action: Action::Command("xterm"), keycode: 36, modifier: 0x40 };
    assert_eq!(keybind.exec(), vec![Effect::Spawn("xterm")]);
}

#[test]
fn a_plain_workspace_binding_does_nothing() {
    let switch = Keybind { action: Action::MoveToWorkspace(2), keycode: 12, modifier: 0x40 };
    assert_eq!(switch.exec(), vec![]);
    let carry = Keybind { action: Action::MoveFocusedToWorkspace(2), keycode: 12, modifier: 0x41 };
    assert_eq!(carry.exec(), vec![]);
}
