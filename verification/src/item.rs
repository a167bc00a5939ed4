//! One captured clipboard entry.

use vstd::prelude::*;
use vstd::std_specs::cmp::PartialEqSpecImpl;

verus! {

/// What a history entry is, as a value: its variant and its payload.
pub enum ItemView {
    Text(Seq<char>),
    Image(Seq<char>),
}

/// A captured clipboard entry: plain text, or an image held as a
/// `data:image/png;base64,...` URI. Two entries are equal when variant and
/// payload are.
#[derive(Debug)]
pub enum HistoryItem {
    Text(String),
    Image(String),
}

impl View for HistoryItem {
    type V = ItemView;

    open spec fn view(&self) -> ItemView {
        match self {
            HistoryItem::Text(content) => ItemView::Text(content@),
            HistoryItem::Image(content) => ItemView::Image(content@),
        }
    }
}

impl PartialEq for HistoryItem {
    fn eq(&self, other: &Self) -> (equal: bool) {
        match (self, other) {
            (HistoryItem::Text(a), HistoryItem::Text(b)) => *a == *b,
            (HistoryItem::Image(a), HistoryItem::Image(b)) => *a == *b,
            _ => false,
        }
    }
}

impl PartialEqSpecImpl for HistoryItem {
    open spec fn obeys_eq_spec() -> bool {
        true
    }

    open spec fn eq_spec(&self, other: &Self) -> bool {
        self@ == other@
    }
}

impl Clone for HistoryItem {
    fn clone(&self) -> (copy: Self)
        ensures
            copy@ == self@,
    {
        match self {
            HistoryItem::Text(content) => HistoryItem::Text(content.clone()),
            HistoryItem::Image(content) => HistoryItem::Image(content.clone()),
        }
    }
}

} // verus!
