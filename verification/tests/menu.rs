use macopy::menu::{build_history_row, build_shortcut_row, item_label};
use macopy::{
    build_tray_menu, parse_menu_event, AppState, HistoryItem, MenuAction, ShortcutBinding,
    TrayEntry, TrayItem,
};

fn text(content: &str) -> HistoryItem {
    HistoryItem::Text(content.to_string())
}

fn image(payload: &str) -> HistoryItem {
    HistoryItem::Image(payload.to_string())
}

fn item(id: &str, label: &str, accelerator: Option<&str>) -> TrayItem {
    TrayItem {
        id: id.to_string(),
        label: label.to_string(),
        accelerator: accelerator.map(|keys| keys.to_string()),
    }
}

fn row(id: &str, label: &str, accelerator: Option<&str>) -> TrayEntry {
    TrayEntry::Item(item(id, label, accelerator))
}

#[test]
fn short_text_is_shown_whole() {
    assert_eq!(item_label(&text("hello")), "hello");
    assert_eq!(item_label(&text("")), "");
    let thirty = "123456789012345678901234567890";
    assert_eq!(item_label(&text(thirty)), thirty);
}

#[test]
fn long_text_is_cut_to_thirty_characters_and_an_ellipsis() {
    let thirty_one = "1234567890123456789012345678901";
    assert_eq!(item_label(&text(thirty_one)), "123456789012345678901234567890...");
    let long = "x".repeat(1000);
    assert_eq!(item_label(&text(&long)), format!("{}...", "x".repeat(30)));
}

#[test]
fn the_budget_counts_characters() {
    let thirty = "日".repeat(30);
    assert_eq!(item_label(&text(&thirty)), thirty);
    let thirty_one = "日".repeat(31);
    assert_eq!(item_label(&text(&thirty_one)), format!("{}...", thirty));
    assert_eq!(item_label(&text("こんにちは世界、元気ですか")), "こんにちは世界、元気ですか");
}

#[test]
fn image_is_shown_as_a_placeholder() {
    assert_eq!(item_label(&image("data:image/png;base64,aW1nMQ==")), "[Image]");
    assert_eq!(item_label(&image("")), "[Image]");
}

#[test]
fn history_rows_are_numbered_from_zero_and_keyed_from_one() {
    assert_eq!(build_history_row(0, &text("a")), row("history_0", "a", Some("1")));
    assert_eq!(build_history_row(8, &text("a")), row("history_8", "a", Some("9")));
    assert_eq!(build_history_row(9, &text("a")), row("history_9", "a", Some("0")));
    assert_eq!(build_history_row(3, &image("x")), row("history_3", "[Image]", Some("4")));
}

#[test]
fn shortcut_rows() {
    let current = ShortcutBinding::CommandShiftV;
    assert_eq!(
        build_shortcut_row(ShortcutBinding::AltV, current),
        item("shortcut_alt_v", "  ⌥ Option + V", None)
    );
    assert_eq!(
        build_shortcut_row(ShortcutBinding::CommandShiftV, current),
        item("shortcut_cmd_shift_v", "✓ ⌘ Shift + V", None)
    );
    assert_eq!(
        build_shortcut_row(ShortcutBinding::ControlAltV, current),
        item("shortcut_ctrl_alt_v", "  ⌃ Ctrl + Option + V", None)
    );
    assert_eq!(
        build_shortcut_row(ShortcutBinding::AltV, ShortcutBinding::AltV).label,
        "✓ ⌥ Option + V"
    );
    assert_eq!(
        build_shortcut_row(ShortcutBinding::CommandShiftV, ShortcutBinding::AltV).label,
        "  ⌘ Shift + V"
    );
    assert_eq!(
        build_shortcut_row(ShortcutBinding::ControlAltV, ShortcutBinding::ControlAltV).label,
        "✓ ⌃ Ctrl + Option + V"
    );
}

#[test]
fn menu_of_a_first_start() {
    let menu = build_tray_menu(&AppState::default(), false);
    assert_eq!(
        menu,
        vec![
            TrayEntry::Submenu {
                label: "Shortcut Settings".to_string(),
                items: vec![
                    item("shortcut_alt_v", "✓ ⌥ Option + V", None),
                    item("shortcut_cmd_shift_v", "  ⌘ Shift + V", None),
                    item("shortcut_ctrl_alt_v", "  ⌃ Ctrl + Option + V", None),
                ],
            },
            row("toggle_login", "Launch at Login", None),
            TrayEntry::Separator,
            row("quit", "Quit Macopy", Some("CmdOrCtrl+Q")),
        ]
    );
}

#[test]
fn menu_with_history_in_english() {
    let mut state = AppState::default();
    state.history.try_capture(text("older"));
    state.history.try_capture(image("data:image/png;base64,aW1nMQ=="));
    state.history.try_capture(text("a text of more than thirty characters"));
    state.toggle_login_item();
    state.change_shortcut(ShortcutBinding::ControlAltV);
    assert_eq!(
        build_tray_menu(&state, false),
        vec![
            row("history_0", "a text of more than thirty cha...", Some("1")),
            row("history_1", "[Image]", Some("2")),
            row("history_2", "older", Some("3")),
            TrayEntry::Separator,
            TrayEntry::Submenu {
                label: "Shortcut Settings".to_string(),
                items: vec![
                    item("shortcut_alt_v", "  ⌥ Option + V", None),
                    item("shortcut_cmd_shift_v", "  ⌘ Shift + V", None),
                    item("shortcut_ctrl_alt_v", "✓ ⌃ Ctrl + Option + V", None),
                ],
            },
            row("toggle_login", "✓ Launch at Login", None),
            TrayEntry::Separator,
            row("quit", "Quit Macopy", Some("CmdOrCtrl+Q")),
        ]
    );
}

#[test]
fn menu_in_japanese() {
    let mut state = AppState::default();
    state.history.try_capture(text("こんにちは"));
    let menu = build_tray_menu(&state, true);
    assert_eq!(
        menu,
        vec![
            row("history_0", "こんにちは", Some("1")),
            TrayEntry::Separator,
            TrayEntry::Submenu {
                label: "ショートカット設定".to_string(),
                items: vec![
                    item("shortcut_alt_v", "✓ ⌥ Option + V", None),
                    item("shortcut_cmd_shift_v", "  ⌘ Shift + V", None),
                    item("shortcut_ctrl_alt_v", "  ⌃ Ctrl + Option + V", None),
                ],
            },
            row("toggle_login", "ログイン時に自動起動", None),
            TrayEntry::Separator,
            row("quit", "Macopy を終了", Some("CmdOrCtrl+Q")),
        ]
    );
    state.toggle_login_item();
    assert_eq!(build_tray_menu(&state, true)[3], row("toggle_login", "✓ ログイン時に自動起動", None));
}

#[test]
fn a_full_history_gets_ten_rows() {
    let mut state = AppState::default();
    for n in 0..10 {
        state.history.try_capture(text(&format!("item {}", n)));
    }
    let menu = build_tray_menu(&state, false);
    assert_eq!(menu.len(), 15);
    for (index, key) in ["1", "2", "3", "4", "5", "6", "7", "8", "9", "0"].iter().enumerate() {
        assert_eq!(
            menu[index],
            row(&format!("history_{}", index), &format!("item {}", 9 - index), Some(key))
        );
    }
    assert_eq!(menu[10], TrayEntry::Separator);
}

#[test]
fn an_overfull_restored_history_still_gets_ten_rows() {
    let mut state = AppState::default();
    state.history.replace_all((0..13).map(|n| text(&format!("{}", n))).collect());
    let menu = build_tray_menu(&state, false);
    assert_eq!(menu.len(), 15);
    assert_eq!(menu[9], row("history_9", "9", Some("0")));
    assert_eq!(menu[10], TrayEntry::Separator);
}

#[test]
fn the_menu_is_rebuilt_from_the_state_alone() {
    let mut state = AppState::default();
    state.history.try_capture(text("a"));
    let first = build_tray_menu(&state, false);
    assert_eq!(build_tray_menu(&state, false), first);
    state.history.try_capture(text("b"));
    let second = build_tray_menu(&state, false);
    assert_ne!(second, first);
    assert_eq!(second[0], row("history_0", "b", Some("1")));
    assert_eq!(second[1], row("history_1", "a", Some("2")));
}

#[test]
fn fixed_identifiers_are_understood() {
    assert_eq!(parse_menu_event("quit"), MenuAction::Quit);
    assert_eq!(parse_menu_event("toggle_login"), MenuAction::ToggleLogin);
    assert_eq!(
        parse_menu_event("shortcut_alt_v"),
        MenuAction::ChangeShortcut(ShortcutBinding::AltV)
    );
    assert_eq!(
        parse_menu_event("shortcut_cmd_shift_v"),
        MenuAction::ChangeShortcut(ShortcutBinding::CommandShiftV)
    );
    assert_eq!(
        parse_menu_event("shortcut_ctrl_alt_v"),
        MenuAction::ChangeShortcut(ShortcutBinding::ControlAltV)
    );
}

#[test]
fn history_identifiers_are_understood() {
    assert_eq!(parse_menu_event("history_0"), MenuAction::Replay(0));
    assert_eq!(parse_menu_event("history_9"), MenuAction::Replay(9));
    assert_eq!(parse_menu_event("history_10"), MenuAction::Replay(10));
    assert_eq!(parse_menu_event("history_007"), MenuAction::Replay(7));
    assert_eq!(parse_menu_event("history_+4"), MenuAction::Replay(4));
    assert_eq!(parse_menu_event("history_history_3"), MenuAction::Replay(3));
    assert_eq!(parse_menu_event("history_1history_2"), MenuAction::Replay(12));
}

#[test]
fn history_identifiers_without_an_index_ask_for_nothing() {
    assert_eq!(parse_menu_event("history_"), MenuAction::Nothing);
    assert_eq!(parse_menu_event("history_x"), MenuAction::Nothing);
    assert_eq!(parse_menu_event("history_-1"), MenuAction::Nothing);
    assert_eq!(parse_menu_event("history_1.5"), MenuAction::Nothing);
    assert_eq!(parse_menu_event("history_ 1"), MenuAction::Nothing);
    assert_eq!(
        parse_menu_event("history_99999999999999999999999999"),
        MenuAction::Nothing
    );
}

#[test]
fn other_identifiers_ask_for_nothing() {
    assert_eq!(parse_menu_event(""), MenuAction::Nothing);
    assert_eq!(parse_menu_event("Quit"), MenuAction::Nothing);
    assert_eq!(parse_menu_event("quit "), MenuAction::Nothing);
    assert_eq!(parse_menu_event("history"), MenuAction::Nothing);
    assert_eq!(parse_menu_event("3"), MenuAction::Nothing);
    assert_eq!(parse_menu_event("xhistory_3"), MenuAction::Nothing);
    assert_eq!(parse_menu_event("shortcut_alt"), MenuAction::Nothing);
}

#[test]
fn every_row_of_the_menu_leads_to_its_item() {
    let mut state = AppState::default();
    for n in 0..10 {
        state.history.try_capture(text(&format!("item {}", n)));
    }
    let menu = build_tray_menu(&state, false);
    for index in 0..10 {
        match &menu[index] {
            TrayEntry::Item(shown) => {
                assert_eq!(parse_menu_event(&shown.id), MenuAction::Replay(index));
                assert_eq!(
                    shown.label,
                    item_label(state.history.get(index).unwrap())
                );
            }
            other => panic!("row {} is {:?}", index, other),
        }
    }
}

#[test]
fn every_binding_row_leads_to_its_binding() {
    for binding in ShortcutBinding::all() {
        let shown = build_shortcut_row(binding, ShortcutBinding::AltV);
        assert_eq!(parse_menu_event(&shown.id), MenuAction::ChangeShortcut(binding));
    }
}
