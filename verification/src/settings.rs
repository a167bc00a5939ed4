//! Changes of the settings. Each changes the state and says what the caller
//! has to do for it: what to set in the store, and what to tell the system.

use vstd::prelude::*;

use crate::item::ItemView;
use crate::json::JsonView;
use crate::shortcut::{lemma_binding_is_found_by_its_name, ShortcutBinding};
use crate::state::{
    history_write, holds, loaded, open_at_login_write, shortcut_write, show_tray_icon_write,
    stored, write_open_at_login, write_shortcut, write_show_tray_icon, AppState, AppStateView,
    StoreWrite, StoreWriteView, HISTORY_KEY, OPEN_AT_LOGIN_KEY, SHORTCUT_KEY, SHOW_TRAY_ICON_KEY,
};
use crate::wire::lemma_history_round_trip;

verus! {

/// The script that makes the application a login item.
pub const ADD_LOGIN_ITEM_SCRIPT: &'static str =
    "\ntell application \"System Events\"\n    make login item at end with properties {path:\"/Applications/Macopy.app\", hidden:false}\nend tell\n";

/// The script that removes the application from the login items.
pub const REMOVE_LOGIN_ITEM_SCRIPT: &'static str =
    "\ntell application \"System Events\"\n    delete login item \"Macopy\"\nend tell\n";

/// The script that brings the login items in line with the choice.
pub open spec fn login_item_script(enabled: bool) -> Seq<char> {
    if enabled {
        ADD_LOGIN_ITEM_SCRIPT@
    } else {
        REMOVE_LOGIN_ITEM_SCRIPT@
    }
}

/// What follows from a change of the tray icon's visibility: the icon is
/// shown or hidden, and the store is written.
#[derive(Debug, PartialEq)]
pub struct TrayIconChange {
    pub shown: bool,
    pub persist: StoreWrite,
}

/// What follows from a change of the launch-at-login choice: the store is
/// written, the script is run, and the tray menu is rebuilt.
#[derive(Debug, PartialEq)]
pub struct LoginItemChange {
    pub enabled: bool,
    pub persist: StoreWrite,
    pub script: &'static str,
}

/// What follows from a change of the shortcut: the three bindings are all
/// unregistered, `register` is registered, the store is written, and the tray
/// menu is rebuilt.
#[derive(Debug, PartialEq)]
pub struct ShortcutChange {
    pub register: ShortcutBinding,
    pub persist: StoreWrite,
}

impl AppState {
    /// Whether the tray icon is shown.
    pub fn get_tray_icon_state(&self) -> (shown: bool)
        ensures
            shown == self.show_tray_icon,
    {
        self.show_tray_icon
    }

    /// Shows the tray icon if it was hidden and hides it if it was shown.
    pub fn toggle_tray_icon(&mut self) -> (change: TrayIconChange)
        ensures
            final(self)@ == (AppStateView {
                show_tray_icon: !old(self).show_tray_icon,
                ..old(self)@
            }),
            change.shown == !old(self).show_tray_icon,
            change.persist@ == show_tray_icon_write(!old(self).show_tray_icon),
    {
        let shown = !self.show_tray_icon;
        self.show_tray_icon = shown;
        TrayIconChange { shown, persist: write_show_tray_icon(shown) }
    }

    /// Turns launch at login on if it was off and off if it was on.
    pub fn toggle_login_item(&mut self) -> (change: LoginItemChange)
        ensures
            final(self)@ == (AppStateView {
                open_at_login: !old(self).open_at_login,
                ..old(self)@
            }),
            change.enabled == !old(self).open_at_login,
            change.persist@ == open_at_login_write(!old(self).open_at_login),
            change.script@ == login_item_script(!old(self).open_at_login),
    {
        let enabled = !self.open_at_login;
        self.open_at_login = enabled;
        let script = if enabled {
            ADD_LOGIN_ITEM_SCRIPT
        } else {
            REMOVE_LOGIN_ITEM_SCRIPT
        };
        LoginItemChange { enabled, persist: write_open_at_login(enabled), script }
    }

    /// Makes `binding` the active shortcut.
    pub fn change_shortcut(&mut self, binding: ShortcutBinding) -> (change: ShortcutChange)
        ensures
            final(self)@ == (AppStateView { current_shortcut: binding, ..old(self)@ }),
            change.register == binding,
            change.persist@ == shortcut_write(binding),
    {
        self.current_shortcut = binding;
        ShortcutChange { register: binding, persist: write_shortcut(binding) }
    }
}

/// A store holds what was set in it last, and setting one key leaves what
/// stands under every other key.
pub proof fn lemma_store_holds_what_was_set(store: JsonView, write: StoreWriteView)
    requires
        store is Object,
    ensures
        holds(stored(store, write), write),
        forall|key: Seq<char>|
            key != write.key ==> #[trigger] stored(store, write).field(key) == store.field(key),
{
}

proof fn lemma_store_keys_differ()
    ensures
        HISTORY_KEY@ != SHOW_TRAY_ICON_KEY@,
        HISTORY_KEY@ != SHORTCUT_KEY@,
        HISTORY_KEY@ != OPEN_AT_LOGIN_KEY@,
        SHOW_TRAY_ICON_KEY@ != SHORTCUT_KEY@,
        SHOW_TRAY_ICON_KEY@ != OPEN_AT_LOGIN_KEY@,
        SHORTCUT_KEY@ != OPEN_AT_LOGIN_KEY@,
{
    reveal_strlit("history");
    reveal_strlit("showTrayIcon");
    reveal_strlit("shortcut");
    reveal_strlit("openAtLogin");
    assert(HISTORY_KEY@.len() == 7);
    assert(SHOW_TRAY_ICON_KEY@.len() == 12);
    assert(SHORTCUT_KEY@.len() == 8);
    assert(OPEN_AT_LOGIN_KEY@.len() == 11);
}

/// The tray icon's visibility survives a restart. A store that holds what
/// was written for it gives it back, whatever state it is read into; and
/// setting it in a store changes nothing else of what the store gives.
pub proof fn lemma_tray_icon_choice_survives_restart(
    shown: bool,
    store: JsonView,
    fresh: AppStateView,
)
    ensures
        holds(store, show_tray_icon_write(shown)) ==> loaded(fresh, store).show_tray_icon
            == shown,
        store is Object ==> loaded(fresh, stored(store, show_tray_icon_write(shown)))
            == (AppStateView { show_tray_icon: shown, ..loaded(fresh, store) }),
{
    lemma_store_keys_differ();
}

/// The launch-at-login choice survives a restart. A store that holds what
/// was written for it gives it back, whatever state it is read into; and
/// setting it in a store changes nothing else of what the store gives.
pub proof fn lemma_login_choice_survives_restart(
    enabled: bool,
    store: JsonView,
    fresh: AppStateView,
)
    ensures
        holds(store, open_at_login_write(enabled)) ==> loaded(fresh, store).open_at_login
            == enabled,
        store is Object ==> loaded(fresh, stored(store, open_at_login_write(enabled)))
            == (AppStateView { open_at_login: enabled, ..loaded(fresh, store) }),
{
    lemma_store_keys_differ();
}

/// The shortcut survives a restart. A store that holds what was written for
/// it gives it back, whatever state it is read into; and setting it in a
/// store changes nothing else of what the store gives.
pub proof fn lemma_shortcut_survives_restart(
    binding: ShortcutBinding,
    store: JsonView,
    fresh: AppStateView,
)
    ensures
        holds(store, shortcut_write(binding)) ==> loaded(fresh, store).current_shortcut
            == binding,
        store is Object ==> loaded(fresh, stored(store, shortcut_write(binding)))
            == (AppStateView { current_shortcut: binding, ..loaded(fresh, store) }),
{
    lemma_store_keys_differ();
    lemma_binding_is_found_by_its_name(binding);
}

/// The history survives a restart. A store that holds what was written for
/// it gives back the same items in the same order, whatever state it is read
/// into; and setting it in a store changes nothing else of what the store
/// gives.
pub proof fn lemma_history_survives_restart(
    history: Seq<ItemView>,
    store: JsonView,
    fresh: AppStateView,
)
    ensures
        holds(store, history_write(history)) ==> loaded(fresh, store).history == history,
        store is Object ==> loaded(fresh, stored(store, history_write(history)))
            == (AppStateView { history: history, ..loaded(fresh, store) }),
{
    lemma_store_keys_differ();
    lemma_history_round_trip(history);
}

/// Saving and reloading gives the same state: a store that holds the four
/// writes of a state gives back its history and its settings. The remembered
/// application is not stored and stays what it was in the state read into.
pub proof fn lemma_saved_state_is_loaded_back(
    state: AppStateView,
    store: JsonView,
    fresh: AppStateView,
)
    requires
        holds(store, history_write(state.history)),
        holds(store, show_tray_icon_write(state.show_tray_icon)),
        holds(store, shortcut_write(state.current_shortcut)),
        holds(store, open_at_login_write(state.open_at_login)),
    ensures
        loaded(fresh, store) == (AppStateView {
            last_active_app: fresh.last_active_app,
            ..state
        }),
{
    lemma_history_round_trip(state.history);
    lemma_binding_is_found_by_its_name(state.current_shortcut);
}

} // verus!
