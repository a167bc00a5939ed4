//! The tray menu as plain values, rebuilt in full from the history and the
//! settings, and the meaning of the identifiers that it hands out.

use vstd::prelude::*;

use crate::history::MAX_HISTORY_ITEMS;
use crate::item::{HistoryItem, ItemView};
use crate::shortcut::ShortcutBinding;
use crate::state::AppState;
use crate::text::{
    chars_of, decimal, decimal_text, digit_char, digit_text, has_prefix,
    lemma_index_is_parsed_back, lemma_prefix_is_taken_off_a_number, parse_index, parsed_index,
    remove_all, same_text, starts_with, without,
};

verus! {

/// How many characters of a text item a menu row shows.
pub const LABEL_BUDGET: usize = 30;

/// What a menu row shows after a text that was cut short.
pub const ELLIPSIS: &'static str = "...";

/// What a menu row shows for an image.
pub const IMAGE_LABEL: &'static str = "[Image]";

/// What the identifier of a history row begins with; the row's index follows.
pub const HISTORY_ID_PREFIX: &'static str = "history_";

/// The identifier of the row that quits.
pub const QUIT_ID: &'static str = "quit";

/// The identifier of the row that turns launch at login on and off.
pub const TOGGLE_LOGIN_ID: &'static str = "toggle_login";

/// A row of a menu, as mathematics.
pub struct TrayItemView {
    pub id: Seq<char>,
    pub label: Seq<char>,
    pub accelerator: Option<Seq<char>>,
}

/// An entry of the tray menu, as mathematics.
pub enum TrayEntryView {
    Item(TrayItemView),
    Separator,
    Submenu { label: Seq<char>, items: Seq<TrayItemView> },
}

/// A row of a menu: it is enabled, and a click on it reports `id`.
#[derive(Debug, PartialEq)]
pub struct TrayItem {
    pub id: String,
    pub label: String,
    pub accelerator: Option<String>,
}

/// An entry of the tray menu.
#[derive(Debug, PartialEq)]
pub enum TrayEntry {
    Item(TrayItem),
    Separator,
    Submenu { label: String, items: Vec<TrayItem> },
}

impl View for TrayItem {
    type V = TrayItemView;

    open spec fn view(&self) -> TrayItemView {
        TrayItemView {
            id: self.id@,
            label: self.label@,
            accelerator: match self.accelerator {
                Some(keys) => Some(keys@),
                None => None,
            },
        }
    }
}

/// The values of a run of rows, in order.
pub open spec fn item_views(items: Seq<TrayItem>) -> Seq<TrayItemView> {
    items.map_values(|item: TrayItem| item@)
}

impl View for TrayEntry {
    type V = TrayEntryView;

    open spec fn view(&self) -> TrayEntryView {
        match self {
            TrayEntry::Item(item) => TrayEntryView::Item(item@),
            TrayEntry::Separator => TrayEntryView::Separator,
            TrayEntry::Submenu { label, items } => TrayEntryView::Submenu {
                label: label@,
                items: item_views(items@),
            },
        }
    }
}

/// The values of a run of entries, in order.
pub open spec fn entry_views(entries: Seq<TrayEntry>) -> Seq<TrayEntryView> {
    entries.map_values(|entry: TrayEntry| entry@)
}

/// What a menu row shows for an item: an image as a fixed label, a text as
/// its first `LABEL_BUDGET` characters, followed by an ellipsis where the text
/// has more.
pub open spec fn label_of(item: ItemView) -> Seq<char> {
    match item {
        ItemView::Text(content) => {
            if content.len() > LABEL_BUDGET {
                content.take(LABEL_BUDGET as int) + ELLIPSIS@
            } else {
                content
            }
        },
        ItemView::Image(_) => IMAGE_LABEL@,
    }
}

/// The identifier of the history row at `index`.
pub open spec fn history_id(index: nat) -> Seq<char> {
    HISTORY_ID_PREFIX@ + decimal(index)
}

/// The key that picks the history row at `index`: 1 to 9 for the first nine
/// rows, 0 for any later one.
pub open spec fn row_key(index: nat) -> Seq<char> {
    if index < 9 {
        seq![digit_char(index + 1)]
    } else {
        seq![digit_char(0)]
    }
}

/// The history row at `index`.
pub open spec fn history_row(index: nat, item: ItemView) -> TrayEntryView {
    TrayEntryView::Item(
        TrayItemView {
            id: history_id(index),
            label: label_of(item),
            accelerator: Some(row_key(index)),
        },
    )
}

/// How many rows a history of `len` items gets.
pub open spec fn row_count(len: nat) -> nat {
    if len > MAX_HISTORY_ITEMS {
        MAX_HISTORY_ITEMS as nat
    } else {
        len
    }
}

/// The rows of the history: one for each of the first `MAX_HISTORY_ITEMS`
/// items, most recent first.
pub open spec fn history_rows(history: Seq<ItemView>) -> Seq<TrayEntryView> {
    Seq::new(row_count(history.len()), |i: int| history_row(i as nat, history[i]))
}

/// The identifier of the row that selects `binding`.
pub open spec fn shortcut_id(binding: ShortcutBinding) -> Seq<char> {
    match binding {
        ShortcutBinding::AltV => "shortcut_alt_v"@,
        ShortcutBinding::CommandShiftV => "shortcut_cmd_shift_v"@,
        ShortcutBinding::ControlAltV => "shortcut_ctrl_alt_v"@,
    }
}

/// What the row that selects `binding` shows: the keys, with a check mark in
/// front where the binding is the active one.
pub open spec fn shortcut_label(binding: ShortcutBinding, active: bool) -> Seq<char> {
    match binding {
        ShortcutBinding::AltV => if active {
            "✓ ⌥ Option + V"@
        } else {
            "  ⌥ Option + V"@
        },
        ShortcutBinding::CommandShiftV => if active {
            "✓ ⌘ Shift + V"@
        } else {
            "  ⌘ Shift + V"@
        },
        ShortcutBinding::ControlAltV => if active {
            "✓ ⌃ Ctrl + Option + V"@
        } else {
            "  ⌃ Ctrl + Option + V"@
        },
    }
}

/// The row that selects `binding`.
pub open spec fn shortcut_row(binding: ShortcutBinding, current: ShortcutBinding) -> TrayItemView {
    TrayItemView {
        id: shortcut_id(binding),
        label: shortcut_label(binding, binding == current),
        accelerator: None,
    }
}

/// The submenu of the three bindings.
pub open spec fn shortcut_submenu(current: ShortcutBinding, japanese: bool) -> TrayEntryView {
    TrayEntryView::Submenu {
        label: if japanese {
            "ショートカット設定"@
        } else {
            "Shortcut Settings"@
        },
        items: seq![
            shortcut_row(ShortcutBinding::AltV, current),
            shortcut_row(ShortcutBinding::CommandShiftV, current),
            shortcut_row(ShortcutBinding::ControlAltV, current),
        ],
    }
}

/// The row that turns launch at login on and off.
pub open spec fn login_row(open_at_login: bool, japanese: bool) -> TrayEntryView {
    TrayEntryView::Item(
        TrayItemView {
            id: TOGGLE_LOGIN_ID@,
            label: if japanese {
                if open_at_login {
                    "✓ ログイン時に自動起動"@
                } else {
                    "ログイン時に自動起動"@
                }
            } else {
                if open_at_login {
                    "✓ Launch at Login"@
                } else {
                    "Launch at Login"@
                }
            },
            accelerator: None,
        },
    )
}

/// The row that quits.
pub open spec fn quit_row(japanese: bool) -> TrayEntryView {
    TrayEntryView::Item(
        TrayItemView {
            id: QUIT_ID@,
            label: if japanese {
                "Macopy を終了"@
            } else {
                "Quit Macopy"@
            },
            accelerator: Some("CmdOrCtrl+Q"@),
        },
    )
}

/// The tray menu: the rows of the history and, if there are any, a separator;
/// the submenu of the bindings; the launch-at-login row; a separator; the row
/// that quits.
pub open spec fn tray_menu(
    history: Seq<ItemView>,
    current: ShortcutBinding,
    open_at_login: bool,
    japanese: bool,
) -> Seq<TrayEntryView> {
    history_rows(history) + (if history.len() > 0 {
        seq![TrayEntryView::Separator]
    } else {
        Seq::empty()
    }) + seq![
        shortcut_submenu(current, japanese),
        login_row(open_at_login, japanese),
        TrayEntryView::Separator,
        quit_row(japanese),
    ]
}

/// What a menu row shows for `item`.
pub fn item_label(item: &HistoryItem) -> (label: String)
    ensures
        label@ == label_of(item@),
{
    match item {
        HistoryItem::Text(content) => {
            let shown = content.as_str();
            if shown.unicode_len() > LABEL_BUDGET {
                let head = shown.substring_char(0, LABEL_BUDGET);
                assert(head@ =~= content@.take(LABEL_BUDGET as int));
                String::from_str(head).concat(ELLIPSIS)
            } else {
                content.clone()
            }
        },
        HistoryItem::Image(_) => String::from_str(IMAGE_LABEL),
    }
}

/// The history row at `index`.
pub fn build_history_row(index: usize, item: &HistoryItem) -> (row: TrayEntry)
    ensures
        row@ == history_row(index as nat, item@),
{
    let key = if index < 9 {
        digit_text(index + 1)
    } else {
        digit_text(0)
    };
    let number = decimal_text(index);
    TrayEntry::Item(
        TrayItem {
            id: String::from_str(HISTORY_ID_PREFIX).concat(number.as_str()),
            label: item_label(item),
            accelerator: Some(String::from_str(key)),
        },
    )
}

/// The row that selects `binding`.
pub fn build_shortcut_row(binding: ShortcutBinding, current: ShortcutBinding) -> (row: TrayItem)
    ensures
        row@ == shortcut_row(binding, current),
{
    let active = binding == current;
    let (id, label) = match binding {
        ShortcutBinding::AltV => (
            "shortcut_alt_v",
            if active {
                "✓ ⌥ Option + V"
            } else {
                "  ⌥ Option + V"
            },
        ),
        ShortcutBinding::CommandShiftV => (
            "shortcut_cmd_shift_v",
            if active {
                "✓ ⌘ Shift + V"
            } else {
                "  ⌘ Shift + V"
            },
        ),
        ShortcutBinding::ControlAltV => (
            "shortcut_ctrl_alt_v",
            if active {
                "✓ ⌃ Ctrl + Option + V"
            } else {
                "  ⌃ Ctrl + Option + V"
            },
        ),
    };
    TrayItem { id: String::from_str(id), label: String::from_str(label), accelerator: None }
}

/// The tray menu for a state, in English or in Japanese.
pub fn build_tray_menu(state: &AppState, japanese: bool) -> (menu: Vec<TrayEntry>)
    ensures
        entry_views(menu@) == tray_menu(
            state.history@,
            state.current_shortcut,
            state.open_at_login,
            japanese,
        ),
{
    let mut menu: Vec<TrayEntry> = Vec::new();
    let len = state.history.len();
    let rows = if len > MAX_HISTORY_ITEMS {
        MAX_HISTORY_ITEMS
    } else {
        len
    };
    let mut i: usize = 0;
    while i < rows
        invariant
            rows == row_count(state.history@.len()),
            i <= rows,
            menu.len() == i,
            forall|k: int| 0 <= k < i ==> menu[k]@ == history_row(k as nat, state.history@[k]),
        decreases rows - i,
    {
        match state.history.get(i) {
            Some(item) => {
                menu.push(build_history_row(i, item));
            },
            None => {},
        }
        i += 1;
    }
    assert(entry_views(menu@) =~= history_rows(state.history@));
    let ghost rows_view = entry_views(menu@);
    if len > 0 {
        menu.push(TrayEntry::Separator);
    }
    let ghost head = entry_views(menu@);
    assert(head =~= rows_view + (if state.history@.len() > 0 {
        seq![TrayEntryView::Separator]
    } else {
        Seq::empty()
    }));
    let mut bindings: Vec<TrayItem> = Vec::new();
    bindings.push(build_shortcut_row(ShortcutBinding::AltV, state.current_shortcut));
    bindings.push(build_shortcut_row(ShortcutBinding::CommandShiftV, state.current_shortcut));
    bindings.push(build_shortcut_row(ShortcutBinding::ControlAltV, state.current_shortcut));
    let submenu = TrayEntry::Submenu {
        label: String::from_str(
            if japanese {
                "ショートカット設定"
            } else {
                "Shortcut Settings"
            },
        ),
        items: bindings,
    };
    assert(submenu@->Submenu_items =~= shortcut_submenu(
        state.current_shortcut,
        japanese,
    )->Submenu_items);
    menu.push(submenu);
    let login_label = if japanese {
        if state.open_at_login {
            "✓ ログイン時に自動起動"
        } else {
            "ログイン時に自動起動"
        }
    } else {
        if state.open_at_login {
            "✓ Launch at Login"
        } else {
            "Launch at Login"
        }
    };
    menu.push(
        TrayEntry::Item(
            TrayItem {
                id: String::from_str(TOGGLE_LOGIN_ID),
                label: String::from_str(login_label),
                accelerator: None,
            },
        ),
    );
    menu.push(TrayEntry::Separator);
    menu.push(
        TrayEntry::Item(
            TrayItem {
                id: String::from_str(QUIT_ID),
                label: String::from_str(
                    if japanese {
                        "Macopy を終了"
                    } else {
                        "Quit Macopy"
                    },
                ),
                accelerator: Some(String::from_str("CmdOrCtrl+Q")),
            },
        ),
    );
    assert(entry_views(menu@) =~= head + seq![
        shortcut_submenu(state.current_shortcut, japanese),
        login_row(state.open_at_login, japanese),
        TrayEntryView::Separator,
        quit_row(japanese),
    ]);
    menu
}

/// What a click on a menu row asks for.
#[derive(Clone, Copy, Debug, PartialEq, Eq, Structural)]
pub enum MenuAction {
    /// Leave the application.
    Quit,
    /// Replay the history item at this index.
    Replay(usize),
    /// Make this binding the active shortcut.
    ChangeShortcut(ShortcutBinding),
    /// Turn launch at login on or off.
    ToggleLogin,
    /// Nothing: the identifier is not one of this menu's.
    Nothing,
}

/// The index that the identifier of a history row holds: what is left of it
/// after every `history_` is taken out, read as an index.
pub open spec fn row_index(id: Seq<char>) -> Option<usize> {
    parsed_index(without(id, HISTORY_ID_PREFIX@))
}

/// What a click on the row with identifier `id` asks for.
pub open spec fn menu_action(id: Seq<char>) -> MenuAction {
    if id == QUIT_ID@ {
        MenuAction::Quit
    } else if has_prefix(id, HISTORY_ID_PREFIX@) {
        match row_index(id) {
            Some(index) => MenuAction::Replay(index),
            None => MenuAction::Nothing,
        }
    } else if id == "shortcut_alt_v"@ {
        MenuAction::ChangeShortcut(ShortcutBinding::AltV)
    } else if id == "shortcut_cmd_shift_v"@ {
        MenuAction::ChangeShortcut(ShortcutBinding::CommandShiftV)
    } else if id == "shortcut_ctrl_alt_v"@ {
        MenuAction::ChangeShortcut(ShortcutBinding::ControlAltV)
    } else if id == TOGGLE_LOGIN_ID@ {
        MenuAction::ToggleLogin
    } else {
        MenuAction::Nothing
    }
}

/// What a click on the row with identifier `id` asks for. An identifier that
/// this menu does not hand out, or a history row whose index cannot be read,
/// asks for nothing.
pub fn parse_menu_event(id: &str) -> (action: MenuAction)
    ensures
        action == menu_action(id@),
{
    if same_text(id, QUIT_ID) {
        MenuAction::Quit
    } else if starts_with(id, HISTORY_ID_PREFIX) {
        let number = remove_all(&chars_of(id), &chars_of(HISTORY_ID_PREFIX));
        match parse_index(&number) {
            Some(index) => MenuAction::Replay(index),
            None => MenuAction::Nothing,
        }
    } else if same_text(id, "shortcut_alt_v") {
        MenuAction::ChangeShortcut(ShortcutBinding::AltV)
    } else if same_text(id, "shortcut_cmd_shift_v") {
        MenuAction::ChangeShortcut(ShortcutBinding::CommandShiftV)
    } else if same_text(id, "shortcut_ctrl_alt_v") {
        MenuAction::ChangeShortcut(ShortcutBinding::ControlAltV)
    } else if same_text(id, TOGGLE_LOGIN_ID) {
        MenuAction::ToggleLogin
    } else {
        MenuAction::Nothing
    }
}

/// The row of the history item at `index` asks for that item: what
/// `history_id` writes, `menu_action` reads back.
pub proof fn lemma_history_row_leads_to_its_item(index: usize)
    ensures
        menu_action(history_id(index as nat)) == MenuAction::Replay(index),
{
    reveal_strlit("history_");
    reveal_strlit("quit");
    let id = history_id(index as nat);
    lemma_prefix_is_taken_off_a_number(HISTORY_ID_PREFIX@, index as nat);
    lemma_index_is_parsed_back(index);
    assert(id[0] == 'h');
    assert(QUIT_ID@[0] == 'q');
}

/// Every history row of the tray menu asks for the item it shows.
pub proof fn lemma_menu_rows_lead_to_their_items(
    history: Seq<ItemView>,
    current: ShortcutBinding,
    open_at_login: bool,
    japanese: bool,
    row: usize,
)
    requires
        row < row_count(history.len()),
    ensures
        tray_menu(history, current, open_at_login, japanese)[row as int] == history_row(
            row as nat,
            history[row as int],
        ),
        menu_action(tray_menu(history, current, open_at_login, japanese)[row as int]->Item_0.id)
            == MenuAction::Replay(row),
{
    lemma_history_row_leads_to_its_item(row);
}

/// The row of a binding asks for that binding.
pub proof fn lemma_shortcut_row_leads_to_its_binding(binding: ShortcutBinding)
    ensures
        menu_action(shortcut_id(binding)) == MenuAction::ChangeShortcut(binding),
{
    reveal_strlit("history_");
    reveal_strlit("quit");
    reveal_strlit("shortcut_alt_v");
    reveal_strlit("shortcut_cmd_shift_v");
    reveal_strlit("shortcut_ctrl_alt_v");
    let id = shortcut_id(binding);
    assert(id[0] == 's');
    assert(QUIT_ID@[0] == 'q');
    assert(HISTORY_ID_PREFIX@[0] == 'h');
    if has_prefix(id, HISTORY_ID_PREFIX@) {
        assert(id.subrange(0, HISTORY_ID_PREFIX@.len() as int)[0] == id[0]);
    }
    assert("shortcut_alt_v"@.len() == 14);
    assert("shortcut_cmd_shift_v"@.len() == 20);
    assert("shortcut_ctrl_alt_v"@.len() == 19);
}

/// The launch-at-login row and the row that quits ask for what they say.
pub proof fn lemma_fixed_rows_lead_to_their_actions()
    ensures
        menu_action(QUIT_ID@) == MenuAction::Quit,
        menu_action(TOGGLE_LOGIN_ID@) == MenuAction::ToggleLogin,
{
    reveal_strlit("history_");
    reveal_strlit("quit");
    reveal_strlit("shortcut_alt_v");
    reveal_strlit("shortcut_cmd_shift_v");
    reveal_strlit("shortcut_ctrl_alt_v");
    reveal_strlit("toggle_login");
    let id = TOGGLE_LOGIN_ID@;
    assert(id[0] == 't');
    assert(QUIT_ID@[0] == 'q');
    assert(HISTORY_ID_PREFIX@[0] == 'h');
    if has_prefix(id, HISTORY_ID_PREFIX@) {
        assert(id.subrange(0, HISTORY_ID_PREFIX@.len() as int)[0] == id[0]);
    }
    assert("shortcut_alt_v"@[0] == 's');
    assert("shortcut_cmd_shift_v"@[0] == 's');
    assert("shortcut_ctrl_alt_v"@[0] == 's');
}

} // verus!
