//! What is read from the system clipboard and what is written back to it, as
//! plain values: the reading and writing themselves are the caller's.

use vstd::prelude::*;

use crate::codec::{data_uri, data_uri_bytes, decode_data_uri, encodable, encode_data_uri};
use crate::history::{captured, is_new, within_capacity, History};
use crate::item::{HistoryItem, ItemView};

verus! {

/// The clipboard's change count as the watcher uses it: the count that the
/// pasteboard reports, and 0 where the platform has no pasteboard to ask.
pub fn get_clipboard_change_count(pasteboard_count: Option<i64>) -> (count: i64)
    ensures
        count == (match pasteboard_count {
            Some(reported) => reported,
            None => 0,
        }),
{
    match pasteboard_count {
        Some(reported) => reported,
        None => 0,
    }
}

/// The image payload for what the pasteboard holds. PNG data is taken as it
/// is; without PNG data, TIFF data that was converted to PNG is taken; with
/// neither there is no image.
pub open spec fn clipboard_image(png: Option<Seq<u8>>, converted_tiff: Option<Seq<u8>>) -> Option<
    Seq<char>,
> {
    let chosen = match png {
        Some(bytes) => Some(bytes),
        None => converted_tiff,
    };
    match chosen {
        Some(bytes) => if encodable(bytes.len()) {
            Some(data_uri(bytes))
        } else {
            None
        },
        None => None,
    }
}

/// The image on the clipboard as a PNG data URI, if there is one. `png` is
/// the pasteboard's PNG data, `converted_tiff` its TIFF data after conversion
/// to PNG; each is absent where the pasteboard has none. PNG data comes first.
/// An image too large to encode counts as no image.
pub fn read_image_from_clipboard(png: Option<&[u8]>, converted_tiff: Option<&[u8]>) -> (image:
    Option<String>)
    ensures
        image.is_some() == clipboard_image(
            option_bytes(png),
            option_bytes(converted_tiff),
        ).is_some(),
        image.is_some() ==> image.unwrap()@ == clipboard_image(
            option_bytes(png),
            option_bytes(converted_tiff),
        ).unwrap(),
{
    match png {
        Some(bytes) => encode_data_uri(bytes),
        None => match converted_tiff {
            Some(bytes) => encode_data_uri(bytes),
            None => None,
        },
    }
}

/// The bytes of an optional slice.
pub open spec fn option_bytes(data: Option<&[u8]>) -> Option<Seq<u8>> {
    match data {
        Some(bytes) => Some(bytes@),
        None => None,
    }
}

/// The PNG bytes to put on the pasteboard for an image payload: what the data
/// URI holds. Where `data_url` lacks the PNG prefix or its payload does not
/// decode, there is nothing to write.
pub fn write_image_to_clipboard(data_url: &str) -> (png: Option<Vec<u8>>)
    ensures
        png.is_some() == data_uri_bytes(data_url@).is_some(),
        png.is_some() ==> png.unwrap()@ == data_uri_bytes(data_url@).unwrap(),
{
    decode_data_uri(data_url)
}

/// The item that a reading of the clipboard offers to the history. An image
/// comes before text; text counts only when it is not empty.
pub open spec fn candidate_of(image: Option<Seq<char>>, text: Option<Seq<char>>) -> Option<
    ItemView,
> {
    match image {
        Some(data_url) => Some(ItemView::Image(data_url)),
        None => match text {
            Some(content) => if content.len() > 0 {
                Some(ItemView::Text(content))
            } else {
                None
            },
            None => None,
        },
    }
}

/// The text of an optional string.
pub open spec fn option_text(text: Option<String>) -> Option<Seq<char>> {
    match text {
        Some(content) => Some(content@),
        None => None,
    }
}

/// The item that a reading of the clipboard offers to the history: the image
/// if one was read, else the text if some was read and it is not empty.
/// `image` and `text` are absent where the clipboard holds none or could not
/// be read.
pub fn clipboard_candidate(image: Option<String>, text: Option<String>) -> (candidate: Option<
    HistoryItem,
>)
    ensures
        candidate.is_some() == candidate_of(option_text(image), option_text(text)).is_some(),
        candidate.is_some() ==> candidate.unwrap()@ == candidate_of(
            option_text(image),
            option_text(text),
        ).unwrap(),
{
    match image {
        Some(data_url) => Some(HistoryItem::Image(data_url)),
        None => match text {
            Some(content) => {
                if !content.as_str().is_empty() {
                    Some(HistoryItem::Text(content))
                } else {
                    None
                }
            },
            None => None,
        },
    }
}

/// The history after a reading of the clipboard was offered to it.
pub open spec fn after_reading(
    history: Seq<ItemView>,
    image: Option<Seq<char>>,
    text: Option<Seq<char>>,
) -> Seq<ItemView> {
    match candidate_of(image, text) {
        Some(candidate) => captured(history, candidate),
        None => history,
    }
}

/// Whether a reading of the clipboard changes the history.
pub open spec fn reading_is_new(
    history: Seq<ItemView>,
    image: Option<Seq<char>>,
    text: Option<Seq<char>>,
) -> bool {
    match candidate_of(image, text) {
        Some(candidate) => is_new(history, candidate),
        None => false,
    }
}

/// Offers a reading of the clipboard to the history and says whether the
/// history changed. A reading without image and without text, or with empty
/// text only, changes nothing.
pub fn update_clipboard(history: &mut History, image: Option<String>, text: Option<String>) -> (
    changed: bool
)
    ensures
        changed == reading_is_new(old(history)@, option_text(image), option_text(text)),
        final(history)@ == after_reading(old(history)@, option_text(image), option_text(text)),
        !changed ==> final(history)@ == old(history)@,
        within_capacity(old(history)@) ==> within_capacity(final(history)@),
{
    match clipboard_candidate(image, text) {
        Some(candidate) => history.try_capture(candidate),
        None => false,
    }
}

/// The same reading offered twice in a row changes the history once at
/// most: the second time it is not new, and the history stays what the first
/// left.
pub proof fn lemma_same_reading_twice_changes_nothing(
    history: Seq<ItemView>,
    image: Option<Seq<char>>,
    text: Option<Seq<char>>,
)
    ensures
        !reading_is_new(after_reading(history, image, text), image, text),
        after_reading(after_reading(history, image, text), image, text) == after_reading(
            history,
            image,
            text,
        ),
{
}

/// An image on the clipboard decides alone: whatever text stands beside it,
/// the history after the reading is the same.
pub proof fn lemma_text_beside_an_image_is_ignored(
    history: Seq<ItemView>,
    image: Seq<char>,
    text: Option<Seq<char>>,
)
    ensures
        after_reading(history, Some(image), text) == after_reading(history, Some(image), None),
        reading_is_new(history, Some(image), text) == reading_is_new(history, Some(image), None),
{
}

} // verus!
