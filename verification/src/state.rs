//! The application's state and its mirror in the persistent store.

use vstd::prelude::*;

use crate::history::History;
use crate::item::ItemView;
use crate::json::{as_bool, as_str, bool_value, get, json_of, text_value, JsonView};
use crate::shortcut::ShortcutBinding;
use crate::wire::{decoded_history, history_from_json, wire_history};

verus! {

/// The store key under which the history is kept.
pub const HISTORY_KEY: &'static str = "history";

/// The store key under which the tray icon's visibility is kept.
pub const SHOW_TRAY_ICON_KEY: &'static str = "showTrayIcon";

/// The store key under which the active shortcut's name is kept.
pub const SHORTCUT_KEY: &'static str = "shortcut";

/// The store key under which the launch-at-login choice is kept.
pub const OPEN_AT_LOGIN_KEY: &'static str = "openAtLogin";

/// The application's state, as mathematics.
pub struct AppStateView {
    pub history: Seq<ItemView>,
    pub last_active_app: Seq<char>,
    pub show_tray_icon: bool,
    pub current_shortcut: ShortcutBinding,
    pub open_at_login: bool,
}

/// The application's state: the history, the application that had focus when
/// a capture was last triggered by hand, and the settings.
#[derive(Debug)]
pub struct AppState {
    pub history: History,
    pub last_active_app: String,
    pub show_tray_icon: bool,
    pub current_shortcut: ShortcutBinding,
    pub open_at_login: bool,
}

impl View for AppState {
    type V = AppStateView;

    open spec fn view(&self) -> AppStateView {
        AppStateView {
            history: self.history@,
            last_active_app: self.last_active_app@,
            show_tray_icon: self.show_tray_icon,
            current_shortcut: self.current_shortcut,
            open_at_login: self.open_at_login,
        }
    }
}

/// The state of a first start: nothing captured, no application remembered,
/// the tray icon shown, Option + V bound, no launch at login.
pub open spec fn initial_state() -> AppStateView {
    AppStateView {
        history: Seq::empty(),
        last_active_app: Seq::empty(),
        show_tray_icon: true,
        current_shortcut: ShortcutBinding::AltV,
        open_at_login: false,
    }
}

impl Default for AppState {
    fn default() -> (state: AppState)
        ensures
            state@ == initial_state(),
    {
        AppState {
            history: History::new(),
            last_active_app: String::new(),
            show_tray_icon: true,
            current_shortcut: ShortcutBinding::AltV,
            open_at_login: false,
        }
    }
}

/// A value to set in the store under a key, as mathematics.
pub struct StoreWriteView {
    pub key: Seq<char>,
    pub value: JsonView,
}

/// A value to set in the store under a key. The store is saved after it.
#[derive(Debug, PartialEq)]
pub struct StoreWrite {
    pub key: String,
    pub value: serde_json::Value,
}

impl View for StoreWrite {
    type V = StoreWriteView;

    open spec fn view(&self) -> StoreWriteView {
        StoreWriteView { key: self.key@, value: json_of(self.value) }
    }
}

/// The write that mirrors a history.
pub open spec fn history_write(history: Seq<ItemView>) -> StoreWriteView {
    StoreWriteView { key: HISTORY_KEY@, value: wire_history(history) }
}

/// The write that mirrors the tray icon's visibility.
pub open spec fn show_tray_icon_write(shown: bool) -> StoreWriteView {
    StoreWriteView { key: SHOW_TRAY_ICON_KEY@, value: JsonView::Bool(shown) }
}

/// The write that mirrors the active shortcut.
pub open spec fn shortcut_write(binding: ShortcutBinding) -> StoreWriteView {
    StoreWriteView { key: SHORTCUT_KEY@, value: JsonView::Text(binding.spec_name()) }
}

/// The write that mirrors the launch-at-login choice.
pub open spec fn open_at_login_write(enabled: bool) -> StoreWriteView {
    StoreWriteView { key: OPEN_AT_LOGIN_KEY@, value: JsonView::Bool(enabled) }
}

/// The store, an object of keys and values, holds what `write` set.
pub open spec fn holds(store: JsonView, write: StoreWriteView) -> bool {
    store.field(write.key) == Some(write.value)
}

/// The store after `write` was set in it.
pub open spec fn stored(store: JsonView, write: StoreWriteView) -> JsonView {
    store.with_field(write.key, write.value)
}

/// The history that a store gives: the items its `history` array stands for,
/// and `fallback` where it has no such array.
pub open spec fn loaded_history(fallback: Seq<ItemView>, store: JsonView) -> Seq<ItemView> {
    match store.field(HISTORY_KEY@) {
        Some(value) => match decoded_history(value) {
            Some(items) => items,
            None => fallback,
        },
        None => fallback,
    }
}

/// The truth value that a store gives under `key`, and `fallback` where it
/// holds no boolean there.
pub open spec fn loaded_flag(fallback: bool, store: JsonView, key: Seq<char>) -> bool {
    match store.field(key) {
        Some(value) => match value.flag() {
            Some(flag) => flag,
            None => fallback,
        },
        None => fallback,
    }
}

/// The shortcut that a store gives: the binding registered for the text
/// under `shortcut`, and `fallback` where it holds no text there.
pub open spec fn loaded_shortcut(fallback: ShortcutBinding, store: JsonView) -> ShortcutBinding {
    match store.field(SHORTCUT_KEY@) {
        Some(value) => match value.text() {
            Some(name) => ShortcutBinding::spec_resolve(name),
            None => fallback,
        },
        None => fallback,
    }
}

/// The state after the store was read into it. What the store does not hold,
/// or holds in another shape, stays as it was.
pub open spec fn loaded(before: AppStateView, store: JsonView) -> AppStateView {
    AppStateView {
        history: loaded_history(before.history, store),
        last_active_app: before.last_active_app,
        show_tray_icon: loaded_flag(before.show_tray_icon, store, SHOW_TRAY_ICON_KEY@),
        current_shortcut: loaded_shortcut(before.current_shortcut, store),
        open_at_login: loaded_flag(before.open_at_login, store, OPEN_AT_LOGIN_KEY@),
    }
}

/// The write that mirrors `history` in the store.
pub fn write_history(history: &History) -> (write: StoreWrite)
    ensures
        write@ == history_write(history@),
{
    StoreWrite { key: HISTORY_KEY.to_owned(), value: history.to_frontend_format() }
}

/// The write that mirrors the tray icon's visibility in the store.
pub fn write_show_tray_icon(shown: bool) -> (write: StoreWrite)
    ensures
        write@ == show_tray_icon_write(shown),
{
    StoreWrite { key: SHOW_TRAY_ICON_KEY.to_owned(), value: bool_value(shown) }
}

/// The write that mirrors the active shortcut in the store.
pub fn write_shortcut(binding: ShortcutBinding) -> (write: StoreWrite)
    ensures
        write@ == shortcut_write(binding),
{
    StoreWrite { key: SHORTCUT_KEY.to_owned(), value: text_value(binding.name()) }
}

/// The write that mirrors the launch-at-login choice in the store.
pub fn write_open_at_login(enabled: bool) -> (write: StoreWrite)
    ensures
        write@ == open_at_login_write(enabled),
{
    StoreWrite { key: OPEN_AT_LOGIN_KEY.to_owned(), value: bool_value(enabled) }
}

/// Reads the store, an object of keys and values, into the state. A `history`
/// array replaces the history by the items its entries stand for; booleans
/// under `showTrayIcon` and `openAtLogin` and a text under `shortcut` replace
/// the settings. Whatever is missing or has another shape leaves its part of
/// the state as it was.
pub fn load_state_from_store(state: &mut AppState, store: &serde_json::Value)
    ensures
        final(state)@ == loaded(old(state)@, json_of(*store)),
{
    match get(store, HISTORY_KEY) {
        Some(value) => match history_from_json(value) {
            Some(items) => {
                state.history.replace_all(items);
            },
            None => {},
        },
        None => {},
    }
    match get(store, SHOW_TRAY_ICON_KEY) {
        Some(value) => match as_bool(value) {
            Some(shown) => {
                state.show_tray_icon = shown;
            },
            None => {},
        },
        None => {},
    }
    match get(store, SHORTCUT_KEY) {
        Some(value) => match as_str(value) {
            Some(name) => {
                state.current_shortcut = ShortcutBinding::resolve(name);
            },
            None => {},
        },
        None => {},
    }
    match get(store, OPEN_AT_LOGIN_KEY) {
        Some(value) => match as_bool(value) {
            Some(enabled) => {
                state.open_at_login = enabled;
            },
            None => {},
        },
        None => {},
    }
}

} // verus!
