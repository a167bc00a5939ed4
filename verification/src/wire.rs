//! The wire shape of the history: each item is an object
//! `{"type": "text" | "image", "content": <text>}`, the history an array of
//! them, most recent first.

use vstd::prelude::*;

use crate::history::{views, History};
use crate::item::{HistoryItem, ItemView};
use crate::json::{
    array_value, as_array, empty_object, insert_field, json_of, json_views, text_field,
    text_value, JsonView,
};
use crate::text::same_text;

verus! {

/// The field that names an item's variant.
pub const TYPE_FIELD: &'static str = "type";

/// The field that holds an item's payload.
pub const CONTENT_FIELD: &'static str = "content";

/// The tag of a text item.
pub const TEXT_TAG: &'static str = "text";

/// The tag of an image item.
pub const IMAGE_TAG: &'static str = "image";

/// The tag that names an item's variant on the wire.
pub open spec fn type_tag(item: ItemView) -> Seq<char> {
    match item {
        ItemView::Text(_) => TEXT_TAG@,
        ItemView::Image(_) => IMAGE_TAG@,
    }
}

/// An item's payload.
pub open spec fn payload(item: ItemView) -> Seq<char> {
    match item {
        ItemView::Text(content) => content,
        ItemView::Image(content) => content,
    }
}

/// An item on the wire.
pub open spec fn wire_entry(item: ItemView) -> JsonView {
    JsonView::Object(
        Map::empty().insert(TYPE_FIELD@, JsonView::Text(type_tag(item))).insert(
            CONTENT_FIELD@,
            JsonView::Text(payload(item)),
        ),
    )
}

/// The item that a wire entry stands for. An entry stands for an item when it
/// is an object whose `type` is the text `text` or `image` and whose `content`
/// is text.
pub open spec fn decoded_entry(entry: JsonView) -> Option<ItemView> {
    match (entry.text_field(TYPE_FIELD@), entry.text_field(CONTENT_FIELD@)) {
        (Some(tag), Some(content)) => {
            if tag == TEXT_TAG@ {
                Some(ItemView::Text(content))
            } else if tag == IMAGE_TAG@ {
                Some(ItemView::Image(content))
            } else {
                None
            }
        },
        _ => None,
    }
}

/// A history on the wire.
pub open spec fn wire_history(items: Seq<ItemView>) -> JsonView {
    JsonView::Array(items.map_values(|item: ItemView| wire_entry(item)))
}

/// The items that a run of wire entries stands for, in order. Entries that
/// stand for no item are passed over.
pub open spec fn decoded_entries(entries: Seq<JsonView>) -> Seq<ItemView>
    decreases entries.len(),
{
    if entries.len() == 0 {
        Seq::empty()
    } else {
        let earlier = decoded_entries(entries.drop_last());
        match decoded_entry(entries.last()) {
            Some(item) => earlier.push(item),
            None => earlier,
        }
    }
}

/// The history that a stored value stands for: the items of an array, and
/// nothing for any other value.
pub open spec fn decoded_history(value: JsonView) -> Option<Seq<ItemView>> {
    match value {
        JsonView::Array(entries) => Some(decoded_entries(entries)),
        _ => None,
    }
}

impl HistoryItem {
    /// The item in its wire shape.
    pub fn to_frontend_format(&self) -> (entry: serde_json::Value)
        ensures
            json_of(entry) == wire_entry(self@),
    {
        let (tag, content) = match self {
            HistoryItem::Text(content) => (TEXT_TAG, content),
            HistoryItem::Image(content) => (IMAGE_TAG, content),
        };
        let mut entry = empty_object();
        insert_field(&mut entry, TYPE_FIELD, text_value(tag));
        insert_field(&mut entry, CONTENT_FIELD, text_value(content.as_str()));
        entry
    }

    /// The item that a wire entry stands for, if it stands for one.
    pub fn from_frontend_format(entry: &serde_json::Value) -> (item: Option<HistoryItem>)
        ensures
            item.is_some() == decoded_entry(json_of(*entry)).is_some(),
            item.is_some() ==> item.unwrap()@ == decoded_entry(json_of(*entry)).unwrap(),
    {
        match (text_field(entry, TYPE_FIELD), text_field(entry, CONTENT_FIELD)) {
            (Some(tag), Some(content)) => {
                if same_text(tag, TEXT_TAG) {
                    Some(HistoryItem::Text(content.to_owned()))
                } else if same_text(tag, IMAGE_TAG) {
                    Some(HistoryItem::Image(content.to_owned()))
                } else {
                    None
                }
            },
            _ => None,
        }
    }
}

/// The wire shape of a run of items.
pub fn history_to_json(items: &Vec<HistoryItem>) -> (value: serde_json::Value)
    ensures
        json_of(value) == wire_history(views(items@)),
{
    let mut entries: Vec<serde_json::Value> = Vec::new();
    let mut i: usize = 0;
    while i < items.len()
        invariant
            i <= items.len(),
            entries.len() == i,
            forall|k: int| 0 <= k < i ==> json_of(entries[k]) == wire_entry(items[k]@),
        decreases items.len() - i,
    {
        entries.push(items[i].to_frontend_format());
        i += 1;
    }
    assert(json_views(entries@) =~= wire_history(views(items@))->Array_0);
    array_value(entries)
}

/// The items that a stored value stands for: those of its entries that stand
/// for an item, in order, if the value is an array, and nothing if it is not.
pub fn history_from_json(value: &serde_json::Value) -> (items: Option<Vec<HistoryItem>>)
    ensures
        items.is_some() == decoded_history(json_of(*value)).is_some(),
        items.is_some() ==> views(items.unwrap()@) == decoded_history(json_of(*value)).unwrap(),
{
    match as_array(value) {
        Some(entries) => {
            let mut items: Vec<HistoryItem> = Vec::new();
            let mut i: usize = 0;
            assert(json_views(entries@).take(0) =~= Seq::<JsonView>::empty());
            while i < entries.len()
                invariant
                    i <= entries.len(),
                    views(items@) == decoded_entries(json_views(entries@).take(i as int)),
                decreases entries.len() - i,
            {
                let ghost before = json_views(entries@).take(i as int);
                let ghost after = json_views(entries@).take(i + 1);
                assert(after.drop_last() =~= before);
                assert(after.last() == json_of(entries[i as int]));
                let ghost earlier = views(items@);
                match HistoryItem::from_frontend_format(&entries[i]) {
                    Some(item) => {
                        items.push(item);
                        assert(views(items@) =~= earlier.push(item@));
                    },
                    None => {},
                }
                i += 1;
            }
            assert(json_views(entries@).take(i as int) =~= json_views(entries@));
            Some(items)
        },
        None => None,
    }
}

impl History {
    /// The history in its wire shape, as it is persisted and as it is pushed
    /// to the popup window.
    pub fn to_frontend_format(&self) -> (value: serde_json::Value)
        ensures
            json_of(value) == wire_history(self@),
    {
        let items = self.snapshot();
        history_to_json(&items)
    }
}

/// An item is read back from its wire shape as it was.
pub proof fn lemma_entry_round_trip(item: ItemView)
    ensures
        decoded_entry(wire_entry(item)) == Some(item),
{
    reveal_strlit("type");
    reveal_strlit("content");
    reveal_strlit("text");
    reveal_strlit("image");
    assert(TYPE_FIELD@.len() != CONTENT_FIELD@.len());
    assert(TEXT_TAG@.len() != IMAGE_TAG@.len());
}

/// A history is read back from its wire shape as it was: no item is lost,
/// changed or moved.
pub proof fn lemma_history_round_trip(items: Seq<ItemView>)
    ensures
        decoded_history(wire_history(items)) == Some(items),
    decreases items.len(),
{
    let entries = items.map_values(|item: ItemView| wire_entry(item));
    if items.len() == 0 {
        assert(decoded_entries(entries) =~= items);
    } else {
        lemma_history_round_trip(items.drop_last());
        lemma_entry_round_trip(items.last());
        assert(entries.drop_last() =~= items.drop_last().map_values(
            |item: ItemView| wire_entry(item),
        ));
        assert(decoded_entries(entries) =~= items);
    }
}

} // verus!
