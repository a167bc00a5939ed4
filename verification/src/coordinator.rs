//! The capture-and-refresh unit of work. Whatever triggers it, one call reads
//! nothing and writes nothing outside the state: it takes what was read from
//! the clipboard, changes the state, and says what the caller has to refresh.

use vstd::prelude::*;

use crate::clipboard::{after_reading, option_text, reading_is_new, update_clipboard};
use crate::history::within_capacity;
use crate::json::json_of;
use crate::state::{history_write, write_history, AppState, AppStateView, StoreWrite};
use crate::wire::wire_history;

verus! {

/// What set a capture off.
#[derive(Debug)]
pub enum Trigger {
    /// The watcher saw a new change count.
    Poll,
    /// The global hotkey was pressed while `frontmost` had focus.
    Hotkey { frontmost: String },
    /// The tray icon was clicked while `frontmost` had focus.
    TrayClick { frontmost: String },
}

impl Trigger {
    /// The application that had focus, for a trigger that the user set off.
    pub open spec fn frontmost(self) -> Option<Seq<char>> {
        match self {
            Trigger::Poll => None,
            Trigger::Hotkey { frontmost } => Some(frontmost@),
            Trigger::TrayClick { frontmost } => Some(frontmost@),
        }
    }

    /// Whether the user set the trigger off.
    pub open spec fn by_hand(self) -> bool {
        self.frontmost().is_some()
    }
}

/// What the caller does after a capture, in this order: write the store,
/// push the history to the popup window, rebuild the tray menu, and show the
/// popup (or hide it, if it is showing).
#[derive(Debug, PartialEq)]
pub struct Refresh {
    pub persist: Option<StoreWrite>,
    pub push_history: Option<serde_json::Value>,
    pub rebuild_tray_menu: bool,
    pub toggle_popup: bool,
}

/// The state after a capture.
pub open spec fn after_capture(
    before: AppStateView,
    trigger: Trigger,
    image: Option<Seq<char>>,
    text: Option<Seq<char>>,
) -> AppStateView {
    AppStateView {
        history: after_reading(before.history, image, text),
        last_active_app: match trigger.frontmost() {
            Some(name) => name,
            None => before.last_active_app,
        },
        ..before
    }
}

/// One capture: a trigger that the user set off first records the
/// application that had focus, whether or not anything new is on the
/// clipboard; then the reading is offered to the history.
///
/// When the history changed, it is written to the store, pushed to the popup
/// window, and the tray menu is rebuilt. A trigger that the user set off has
/// the history pushed and the menu rebuilt in any case, and toggles the popup.
pub fn capture_and_refresh(
    state: &mut AppState,
    trigger: Trigger,
    image: Option<String>,
    text: Option<String>,
) -> (refresh: Refresh)
    ensures
        final(state)@ == after_capture(old(state)@, trigger, option_text(image), option_text(text)),
        refresh.persist.is_some() == reading_is_new(
            old(state).history@,
            option_text(image),
            option_text(text),
        ),
        refresh.persist.is_some() ==> refresh.persist.unwrap()@ == history_write(
            final(state).history@,
        ),
        refresh.push_history.is_some() == (refresh.persist.is_some() || trigger.by_hand()),
        refresh.push_history.is_some() ==> json_of(refresh.push_history.unwrap())
            == wire_history(final(state).history@),
        refresh.rebuild_tray_menu == (refresh.persist.is_some() || trigger.by_hand()),
        refresh.toggle_popup == trigger.by_hand(),
        within_capacity(old(state).history@) ==> within_capacity(final(state).history@),
{
    let by_hand = match trigger {
        Trigger::Poll => false,
        Trigger::Hotkey { frontmost } => {
            state.last_active_app = frontmost;
            true
        },
        Trigger::TrayClick { frontmost } => {
            state.last_active_app = frontmost;
            true
        },
    };
    let changed = update_clipboard(&mut state.history, image, text);
    let persist = if changed {
        Some(write_history(&state.history))
    } else {
        None
    };
    let push_history = if changed || by_hand {
        Some(state.history.to_frontend_format())
    } else {
        None
    };
    Refresh { persist, push_history, rebuild_tray_menu: changed || by_hand, toggle_popup: by_hand }
}

} // verus!
