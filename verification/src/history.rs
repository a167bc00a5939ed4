//! The history store: an ordered, bounded list of captured items, most
//! recent first, that never takes the same content twice in a row.

use vstd::prelude::*;

use crate::item::{HistoryItem, ItemView};

verus! {

/// The most items a history keeps once it has been filled by captures.
pub const MAX_HISTORY_ITEMS: usize = 10;

/// The values of a run of items, in order.
pub open spec fn views(items: Seq<HistoryItem>) -> Seq<ItemView> {
    items.map_values(|item: HistoryItem| item@)
}

/// A candidate is new to a history when it differs from the head, or when
/// there is no head.
pub open spec fn is_new(history: Seq<ItemView>, candidate: ItemView) -> bool {
    history.len() == 0 || history[0] != candidate
}

/// The history after one capture attempt. A new candidate goes to the front
/// and, where that overfills the history, the oldest item leaves the tail;
/// any other candidate changes nothing.
pub open spec fn captured(history: Seq<ItemView>, candidate: ItemView) -> Seq<ItemView> {
    if is_new(history, candidate) {
        let grown = seq![candidate] + history;
        if grown.len() > MAX_HISTORY_ITEMS {
            grown.drop_last()
        } else {
            grown
        }
    } else {
        history
    }
}

/// A history is within capacity when it holds at most `MAX_HISTORY_ITEMS`.
pub open spec fn within_capacity(history: Seq<ItemView>) -> bool {
    history.len() <= MAX_HISTORY_ITEMS
}

/// The history after offering each of `candidates` in turn, first to last.
pub open spec fn captured_all(history: Seq<ItemView>, candidates: Seq<ItemView>) -> Seq<ItemView>
    decreases candidates.len(),
{
    if candidates.len() == 0 {
        history
    } else {
        captured(captured_all(history, candidates.drop_last()), candidates.last())
    }
}

/// No item is followed directly by an equal one.
pub open spec fn no_adjacent_repeat(items: Seq<ItemView>) -> bool {
    forall|i: int| 0 <= i < items.len() - 1 ==> #[trigger] items[i] != items[i + 1]
}

/// The last `MAX_HISTORY_ITEMS` of `candidates`, latest first.
pub open spec fn most_recent(candidates: Seq<ItemView>) -> Seq<ItemView> {
    let latest_first = candidates.reverse();
    if latest_first.len() > MAX_HISTORY_ITEMS {
        latest_first.take(MAX_HISTORY_ITEMS as int)
    } else {
        latest_first
    }
}

/// The recently captured items, most recent first.
#[derive(Debug)]
pub struct History {
    items: Vec<HistoryItem>,
}

impl View for History {
    type V = Seq<ItemView>;

    closed spec fn view(&self) -> Seq<ItemView> {
        views(self.items@)
    }
}

impl History {
    /// An empty history.
    pub fn new() -> (history: History)
        ensures
            history@ == Seq::<ItemView>::empty(),
    {
        History { items: Vec::new() }
    }

    /// How many items the history holds.
    pub fn len(&self) -> (n: usize)
        ensures
            n == self@.len(),
    {
        self.items.len()
    }

    /// Whether the history holds nothing.
    pub fn is_empty(&self) -> (empty: bool)
        ensures
            empty == (self@.len() == 0),
    {
        self.items.len() == 0
    }

    /// The item at `index`, counted from the most recent, if there is one.
    pub fn get(&self, index: usize) -> (found: Option<&HistoryItem>)
        ensures
            index < self@.len() ==> found.is_some() && found.unwrap()@ == self@[index as int],
            index >= self@.len() ==> found.is_none(),
    {
        if index < self.items.len() {
            Some(&self.items[index])
        } else {
            None
        }
    }

    /// A copy of the history, most recent first, for presentation or
    /// persistence. Later captures do not reach the copy.
    pub fn snapshot(&self) -> (copy: Vec<HistoryItem>)
        ensures
            views(copy@) == self@,
    {
        let mut copy: Vec<HistoryItem> = Vec::new();
        let mut i: usize = 0;
        while i < self.items.len()
            invariant
                i <= self.items.len(),
                copy.len() == i,
                forall|k: int| 0 <= k < i ==> copy[k]@ == self.items[k]@,
            decreases self.items.len() - i,
        {
            copy.push(self.items[i].clone());
            i += 1;
        }
        assert(views(copy@) =~= views(self.items@));
        copy
    }

    /// Installs `items` as the whole history, as when a persisted history is
    /// restored at startup. Nothing is deduplicated and nothing is dropped:
    /// the new history is within capacity exactly when `items` is.
    pub fn replace_all(&mut self, items: Vec<HistoryItem>)
        ensures
            final(self)@ == views(items@),
            within_capacity(final(self)@) == (items@.len() <= MAX_HISTORY_ITEMS),
    {
        self.items = items;
    }

    /// Offers `candidate` to the history and says whether it was taken. It is
    /// taken when it differs from the current head: it then becomes the head,
    /// and the oldest item is dropped if the history has outgrown its
    /// capacity. Otherwise the history stays as it was.
    pub fn try_capture(&mut self, candidate: HistoryItem) -> (taken: bool)
        ensures
            taken == is_new(old(self)@, candidate@),
            final(self)@ == captured(old(self)@, candidate@),
            taken ==> final(self)@.len() > 0 && final(self)@[0] == candidate@,
            !taken ==> final(self)@ == old(self)@,
            within_capacity(old(self)@) ==> within_capacity(final(self)@),
    {
        let fresh = if self.items.len() == 0 {
            true
        } else {
            !(self.items[0] == candidate)
        };
        if fresh {
            self.items.insert(0, candidate);
            if self.items.len() > MAX_HISTORY_ITEMS {
                self.items.pop();
            }
            assert(views(self.items@) =~= captured(old(self)@, candidate@));
        }
        fresh
    }
}

/// A history within capacity stays within capacity, whatever is offered to it
/// and however often: the bound holds after every capture attempt.
pub proof fn lemma_capacity_holds_after_every_capture(
    history: Seq<ItemView>,
    candidates: Seq<ItemView>,
)
    requires
        within_capacity(history),
    ensures
        within_capacity(captured_all(history, candidates)),
    decreases candidates.len(),
{
    if candidates.len() > 0 {
        lemma_capacity_holds_after_every_capture(history, candidates.drop_last());
    }
}

/// Offering the same content twice in a row changes nothing the second time:
/// the second attempt is refused and the history is what the first left.
pub proof fn lemma_same_content_twice_is_refused(history: Seq<ItemView>, candidate: ItemView)
    ensures
        !is_new(captured(history, candidate), candidate),
        captured(captured(history, candidate), candidate) == captured(history, candidate),
{
}

/// Only the head is compared. Content that was displaced from the head by
/// something else is taken again: offering `b` and then `a` to a history whose
/// head is `a` puts `a` in front of `b`, in front of the earlier `a`.
pub proof fn lemma_displaced_content_is_taken_again(
    history: Seq<ItemView>,
    a: ItemView,
    b: ItemView,
)
    requires
        a != b,
        history.len() > 0,
        history[0] == a,
        history.len() + 2 <= MAX_HISTORY_ITEMS,
    ensures
        captured_all(history, seq![b, a]) == seq![a, b] + history,
{
    let offered = seq![b, a];
    assert(offered.drop_last() =~= seq![b]);
    assert(offered.drop_last().drop_last() =~= Seq::<ItemView>::empty());
    reveal_with_fuel(captured_all, 3);
    assert(captured_all(history, offered) =~= seq![a, b] + history);
}

/// Starting from nothing, offering `a`, `b` and `a` again keeps all three,
/// latest first.
pub proof fn lemma_alternating_contents_are_all_kept(a: ItemView, b: ItemView)
    requires
        a != b,
    ensures
        captured_all(Seq::<ItemView>::empty(), seq![a, b, a]) == seq![a, b, a],
{
    let offered = seq![a, b, a];
    assert(no_adjacent_repeat(offered));
    lemma_captures_without_repeat_keep_the_most_recent(offered);
    assert(offered.reverse() =~= offered);
}

/// Offering items of which no two in a row are equal, to an empty history,
/// leaves exactly the last `MAX_HISTORY_ITEMS` of them, latest first: the
/// oldest leave first.
pub proof fn lemma_captures_without_repeat_keep_the_most_recent(candidates: Seq<ItemView>)
    requires
        no_adjacent_repeat(candidates),
    ensures
        captured_all(Seq::<ItemView>::empty(), candidates) == most_recent(candidates),
    decreases candidates.len(),
{
    if candidates.len() > 0 {
        let earlier = candidates.drop_last();
        let latest = candidates.last();
        assert(no_adjacent_repeat(earlier)) by {
            assert forall|i: int| 0 <= i < earlier.len() - 1 implies #[trigger] earlier[i]
                != earlier[i + 1] by {
                assert(candidates[i] != candidates[i + 1]);
            }
        }
        lemma_captures_without_repeat_keep_the_most_recent(earlier);
        let before = most_recent(earlier);
        if earlier.len() > 0 {
            assert(earlier.reverse()[0] == earlier[earlier.len() - 1]);
            assert(candidates[earlier.len() - 1] != candidates[earlier.len() - 1 + 1]);
            assert(before[0] != latest);
        }
        assert(is_new(before, latest));
        assert(candidates.reverse() =~= seq![latest] + earlier.reverse());
        assert(captured(before, latest) =~= most_recent(candidates));
    } else {
        assert(candidates.reverse() =~= Seq::<ItemView>::empty());
    }
}

/// A history in which no item is followed directly by an equal one keeps that
/// property through every capture attempt.
pub proof fn lemma_capture_keeps_no_adjacent_repeat(history: Seq<ItemView>, candidate: ItemView)
    requires
        no_adjacent_repeat(history),
    ensures
        no_adjacent_repeat(captured(history, candidate)),
{
    let after = captured(history, candidate);
    if is_new(history, candidate) {
        let grown = seq![candidate] + history;
        assert forall|i: int| 0 <= i < grown.len() - 1 implies #[trigger] grown[i] != grown[i
            + 1] by {
            if i > 0 {
                assert(history[i - 1] != history[i - 1 + 1]);
            }
        }
        assert forall|i: int| 0 <= i < after.len() - 1 implies #[trigger] after[i] != after[i
            + 1] by {
            assert(grown[i] != grown[i + 1]);
        }
    }
}

} // verus!
