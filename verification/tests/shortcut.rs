use macopy::shortcut::Modifiers;
use macopy::ShortcutBinding;

#[test]
fn the_three_bindings_in_menu_order() {
    assert_eq!(
        ShortcutBinding::all(),
        [ShortcutBinding::AltV, ShortcutBinding::CommandShiftV, ShortcutBinding::ControlAltV]
    );
}

#[test]
fn binding_names() {
    assert_eq!(ShortcutBinding::AltV.name(), "Alt+V");
    assert_eq!(ShortcutBinding::CommandShiftV.name(), "CommandOrControl+Shift+V");
    assert_eq!(ShortcutBinding::ControlAltV.name(), "Control+Alt+V");
}

#[test]
fn bindings_are_found_by_their_names() {
    for binding in ShortcutBinding::all() {
        assert_eq!(ShortcutBinding::from_name(binding.name()), Some(binding));
        assert_eq!(ShortcutBinding::resolve(binding.name()), binding);
    }
}

#[test]
fn other_names_name_no_binding() {
    for name in ["", "alt+v", "Alt+V ", "Alt + V", "Shift+V", "CommandOrControl+Shift+v"] {
        assert_eq!(ShortcutBinding::from_name(name), None);
        assert_eq!(ShortcutBinding::resolve(name), ShortcutBinding::AltV);
    }
}

#[test]
fn binding_modifiers() {
    assert_eq!(
        ShortcutBinding::AltV.modifiers(),
        Modifiers { alt: true, control: false, shift: false, command: false }
    );
    assert_eq!(
        ShortcutBinding::CommandShiftV.modifiers(),
        Modifiers { alt: false, control: false, shift: true, command: true }
    );
    assert_eq!(
        ShortcutBinding::ControlAltV.modifiers(),
        Modifiers { alt: true, control: true, shift: false, command: false }
    );
}
