//! Clipboard history for a menu-bar utility: a bounded history of what was
//! copied, most recent first, that never takes the same content twice in a
//! row, and the decisions around it. Reading and writing the clipboard, the
//! store, the tray and the popup window are the caller's; this library says
//! what is to be captured, kept, shown, stored and replayed.

pub mod clipboard;
pub mod codec;
pub mod coordinator;
pub mod history;
pub mod item;
pub mod json;
pub mod locale;
pub mod menu;
pub mod replay;
pub mod settings;
pub mod shortcut;
pub mod state;
pub mod text;
pub mod watcher;
pub mod wire;

pub use clipboard::{
    get_clipboard_change_count, read_image_from_clipboard, update_clipboard,
    write_image_to_clipboard,
};
pub use coordinator::{capture_and_refresh, Refresh, Trigger};
pub use history::{History, MAX_HISTORY_ITEMS};
pub use item::{HistoryItem, ItemView};
pub use menu::{build_tray_menu, parse_menu_event, MenuAction, TrayEntry, TrayItem};
pub use replay::{handle_history_click, paste_script, ClipboardWrite, Replay};
pub use shortcut::ShortcutBinding;
pub use state::{load_state_from_store, AppState, StoreWrite};
pub use watcher::{ChangeWatcher, CLIPBOARD_POLL_INTERVAL_MS};
