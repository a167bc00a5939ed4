//! Replaying a history item: what goes back onto the clipboard, and the
//! script that pastes it into the application that had focus.

use vstd::prelude::*;

use crate::clipboard::write_image_to_clipboard;
use crate::codec::data_uri_bytes;
use crate::item::{HistoryItem, ItemView};
use crate::state::AppState;

verus! {

/// The script that pastes into whatever application has focus.
pub const PASTE_INTO_FRONTMOST_SCRIPT: &'static str =
    "\ndelay 0.1\ntell application \"System Events\"\n  keystroke \"v\" using {command down}\nend tell\n";

/// What stands before the application's name in the script that pastes into
/// a named application.
pub const ACTIVATE_SCRIPT_HEAD: &'static str = "\ntell application \"";

/// What stands after the application's name in the script that pastes into a
/// named application: the application is activated and, after a short delay
/// in which it regains focus, the keystroke is sent.
pub const ACTIVATE_SCRIPT_TAIL: &'static str =
    "\"\n  activate\nend tell\ndelay 0.1\ntell application \"System Events\"\n  keystroke \"v\" using {command down}\nend tell\n";

/// A character as it stands inside a quoted script string: a backslash and a
/// double quote each get a backslash in front.
pub open spec fn escaped_char(c: char) -> Seq<char> {
    if c == '\\' {
        seq!['\\', '\\']
    } else if c == '"' {
        seq!['\\', '"']
    } else {
        seq![c]
    }
}

/// A name as it stands inside a quoted script string.
pub open spec fn escaped(name: Seq<char>) -> Seq<char>
    decreases name.len(),
{
    if name.len() == 0 {
        Seq::empty()
    } else {
        escaped(name.drop_last()) + escaped_char(name.last())
    }
}

/// The script that pastes into `app_name`, or into whatever application has
/// focus where the name is empty.
pub open spec fn paste_script_text(app_name: Seq<char>) -> Seq<char> {
    if app_name.len() == 0 {
        PASTE_INTO_FRONTMOST_SCRIPT@
    } else {
        ACTIVATE_SCRIPT_HEAD@ + escaped(app_name) + ACTIVATE_SCRIPT_TAIL@
    }
}

/// `name` as it stands inside a quoted script string.
pub fn escape_for_script(name: &str) -> (quoted: String)
    ensures
        quoted@ == escaped(name@),
{
    let n = name.unicode_len();
    let mut quoted = String::new();
    let mut i: usize = 0;
    assert(name@.take(0) =~= Seq::<char>::empty());
    while i < n
        invariant
            n == name@.len(),
            i <= n,
            quoted@ == escaped(name@.take(i as int)),
        decreases n - i,
    {
        let c = name.get_char(i);
        proof {
            reveal_strlit("\\\\");
            reveal_strlit("\\\"");
            assert(name@.take(i + 1).drop_last() =~= name@.take(i as int));
            assert(name@.take(i + 1).last() == c);
        }
        if c == '\\' {
            quoted.append("\\\\");
            assert("\\\\"@ =~= escaped_char(c));
        } else if c == '"' {
            quoted.append("\\\"");
            assert("\\\""@ =~= escaped_char(c));
        } else {
            let piece = name.substring_char(i, i + 1);
            assert(piece@ =~= escaped_char(c));
            quoted.append(piece);
        }
        i += 1;
    }
    assert(name@.take(n as int) =~= name@);
    quoted
}

/// The script that pastes into `app_name`. An empty name pastes into whatever
/// application has focus; any other name has that application activated
/// first.
pub fn paste_script(app_name: &str) -> (script: String)
    ensures
        script@ == paste_script_text(app_name@),
{
    if app_name.is_empty() {
        String::from_str(PASTE_INTO_FRONTMOST_SCRIPT)
    } else {
        let quoted = escape_for_script(app_name);
        String::from_str(ACTIVATE_SCRIPT_HEAD).concat(quoted.as_str()).concat(ACTIVATE_SCRIPT_TAIL)
    }
}

/// What a replay writes onto the clipboard, as mathematics.
pub enum ClipboardWriteView {
    Text(Seq<char>),
    Image(Seq<u8>),
    Nothing,
}

/// What a replay writes onto the clipboard.
#[derive(Debug, PartialEq)]
pub enum ClipboardWrite {
    /// Plain text.
    Text(String),
    /// The bytes of a PNG image.
    Image(Vec<u8>),
    /// Nothing: the item is an image whose payload holds no image.
    Nothing,
}

impl View for ClipboardWrite {
    type V = ClipboardWriteView;

    open spec fn view(&self) -> ClipboardWriteView {
        match self {
            ClipboardWrite::Text(content) => ClipboardWriteView::Text(content@),
            ClipboardWrite::Image(png) => ClipboardWriteView::Image(png@),
            ClipboardWrite::Nothing => ClipboardWriteView::Nothing,
        }
    }
}

/// What the replay of `item` writes onto the clipboard: a text as it is, an
/// image as the bytes its payload holds.
pub open spec fn replay_write(item: ItemView) -> ClipboardWriteView {
    match item {
        ItemView::Text(content) => ClipboardWriteView::Text(content),
        ItemView::Image(data_url) => match data_uri_bytes(data_url) {
            Some(png) => ClipboardWriteView::Image(png),
            None => ClipboardWriteView::Nothing,
        },
    }
}

/// The clipboard write for an image whose payload was decoded to `png`, or
/// could not be decoded.
pub fn image_write(png: Option<Vec<u8>>) -> (write: ClipboardWrite)
    ensures
        write@ == (match png {
            Some(bytes) => ClipboardWriteView::Image(bytes@),
            None => ClipboardWriteView::Nothing,
        }),
{
    match png {
        Some(bytes) => ClipboardWrite::Image(bytes),
        None => ClipboardWrite::Nothing,
    }
}

/// What the replay of `item` writes onto the clipboard.
pub fn clipboard_write(item: &HistoryItem) -> (write: ClipboardWrite)
    ensures
        write@ == replay_write(item@),
{
    match item {
        HistoryItem::Text(content) => ClipboardWrite::Text(content.clone()),
        HistoryItem::Image(data_url) => image_write(write_image_to_clipboard(data_url.as_str())),
    }
}

/// A replay under way: first `write` goes onto the clipboard, then, without
/// holding up the caller, `paste_script` is run. A script that fails is
/// logged and forgotten: the clipboard holds the item by then.
#[derive(Debug, PartialEq)]
pub struct Replay {
    pub write: ClipboardWrite,
    pub paste_script: String,
}

/// The script that pastes whatever the clipboard holds into the application
/// that was remembered at the last capture by hand.
pub fn paste_from_clipboard(state: &AppState) -> (script: String)
    ensures
        script@ == paste_script_text(state.last_active_app@),
{
    paste_script(state.last_active_app.as_str())
}

/// The replay of the history item at `index`, counted from the most recent.
/// An index past the end, as a stale menu may send, starts nothing: no write,
/// no paste. Any other index has the item written to the clipboard and pasted
/// into the application that was remembered at the last capture by hand.
pub fn handle_history_click(state: &AppState, index: usize) -> (replay: Option<Replay>)
    ensures
        replay.is_some() == (index < state.history@.len()),
        replay.is_some() ==> {
            &&& replay.unwrap().write@ == replay_write(state.history@[index as int])
            &&& replay.unwrap().paste_script@ == paste_script_text(state.last_active_app@)
        },
{
    match state.history.get(index) {
        Some(item) => Some(
            Replay {
                write: clipboard_write(item),
                paste_script: paste_script(state.last_active_app.as_str()),
            },
        ),
        None => None,
    }
}

/// A quoted script string as the script reads it: a backslash makes the
/// character behind it stand for itself.
pub open spec fn unescaped(quoted: Seq<char>) -> Seq<char>
    decreases quoted.len(),
{
    if quoted.len() == 0 {
        Seq::empty()
    } else if quoted[0] == '\\' && quoted.len() >= 2 {
        seq![quoted[1]] + unescaped(quoted.skip(2))
    } else {
        seq![quoted[0]] + unescaped(quoted.skip(1))
    }
}

/// Whether a quoted script string holds a double quote that no backslash
/// stands in front of: such a quote would end the string.
pub open spec fn has_bare_quote(quoted: Seq<char>) -> bool
    decreases quoted.len(),
{
    if quoted.len() == 0 {
        false
    } else if quoted[0] == '\\' && quoted.len() >= 2 {
        has_bare_quote(quoted.skip(2))
    } else {
        quoted[0] == '"' || has_bare_quote(quoted.skip(1))
    }
}

/// Escaping goes character by character: a name made of two parts is escaped
/// as the first part escaped, followed by the second part escaped.
pub proof fn lemma_escaped_in_parts(first: Seq<char>, second: Seq<char>)
    ensures
        escaped(first + second) == escaped(first) + escaped(second),
    decreases second.len(),
{
    if second.len() == 0 {
        assert(first + second =~= first);
        assert(escaped(first) + escaped(second) =~= escaped(first));
    } else {
        let whole = first + second;
        assert(whole.drop_last() =~= first + second.drop_last());
        assert(whole.last() == second.last());
        lemma_escaped_in_parts(first, second.drop_last());
        assert(escaped(whole) =~= escaped(first) + escaped(second));
    }
}

/// An escaped name cannot end the quoted string it stands in, and the script
/// reads it back as the name it was made from: no application name, whatever
/// it holds, changes what the paste script does.
pub proof fn lemma_escaped_name_is_read_back(name: Seq<char>)
    ensures
        unescaped(escaped(name)) == name,
        !has_bare_quote(escaped(name)),
    decreases name.len(),
{
    if name.len() == 0 {
        assert(unescaped(escaped(name)) =~= name);
    } else {
        let c = name[0];
        let rest = name.skip(1);
        assert(name =~= seq![c] + rest);
        lemma_escaped_in_parts(seq![c], rest);
        assert(seq![c].drop_last() =~= Seq::<char>::empty());
        assert(escaped(seq![c].drop_last()) =~= Seq::<char>::empty());
        assert(seq![c].last() == c);
        assert(escaped(seq![c]) =~= escaped_char(c));
        lemma_escaped_name_is_read_back(rest);
        let quoted = escaped(name);
        assert(quoted =~= escaped_char(c) + escaped(rest));
        if c == '\\' || c == '"' {
            assert(quoted[0] == '\\');
            assert(quoted[1] == c);
            assert(quoted.skip(2) =~= escaped(rest));
        } else {
            assert(quoted[0] == c);
            assert(quoted.skip(1) =~= escaped(rest));
        }
        assert(unescaped(quoted) =~= name);
    }
}

} // verus!
