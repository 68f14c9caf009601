//! Walking the registry's lists.
//!
//! The registry hands out its lists as chains of nodes: each node has a name,
//! may have a value, and leads to the next node or to nothing. Here a chain is
//! the slice of the nodes that are still ahead, so the empty slice is the end
//! of every list and also the empty list.

use vstd::prelude::*;
use vstd::slice::*;

verus! {

/// One node of a list: a name and, where the list has one, a value.
#[derive(Debug, PartialEq, Eq)]
pub struct ListEntry {
    pub name: String,
    pub value: Option<String>,
}

/// What a node holds, as text.
pub type Item = (Seq<char>, Option<Seq<char>>);

impl View for ListEntry {
    type V = Item;

    open spec fn view(&self) -> Item {
        (self.name@, text(self.value))
    }
}

/// The text of an owned value that may be absent.
pub open spec fn text(value: Option<String>) -> Option<Seq<char>> {
    match value {
        Some(value) => Some(value@),
        None => None,
    }
}

/// The text of a borrowed value that may be absent.
pub open spec fn text_of(value: Option<&str>) -> Option<Seq<char>> {
    match value {
        Some(value) => Some(value@),
        None => None,
    }
}

/// Borrows a value that may be absent.
pub fn as_text<'a>(value: &'a Option<String>) -> (borrowed: Option<&'a str>)
    ensures
        text_of(borrowed) == text(*value),
{
    match value {
        Some(value) => Some(value.as_str()),
        None => None,
    }
}

/// The items of a list, head first.
pub open spec fn items(list: Seq<ListEntry>) -> Seq<Item> {
    list.map_values(|entry: ListEntry| entry@)
}

/// One step of a walk over the items that are still ahead: the item that is
/// handed out, if there is one, and the items that are ahead afterwards.
pub open spec fn step(ahead: Seq<Item>) -> (Option<Item>, Seq<Item>) {
    if ahead.len() == 0 {
        (None, ahead)
    } else {
        (Some(ahead[0]), ahead.drop_first())
    }
}

/// The items that are still ahead after `n` steps.
pub open spec fn ahead_after(ahead: Seq<Item>, n: nat) -> Seq<Item>
    decreases n,
{
    if n == 0 {
        ahead
    } else {
        ahead_after(step(ahead).1, (n - 1) as nat)
    }
}

/// A single forward pass over one list.
///
/// The iterator borrows the list together with `parent`, the value that owns
/// it, and every item it hands out carries that borrow. It never changes the
/// list. To walk the list again, ask the owner for a new iterator.
pub struct UdevIterator<'p, T: ?Sized> {
    parent: &'p T,
    entry: &'p [ListEntry],
}

impl<'p, T: ?Sized> UdevIterator<'p, T> {
    /// The value that owns the list.
    pub closed spec fn parent(&self) -> &'p T {
        self.parent
    }

    /// The items that have not been handed out yet, in order.
    pub closed spec fn remaining(&self) -> Seq<Item> {
        items(self.entry@)
    }

    /// Hands out the item at the front, or nothing once the list is
    /// exhausted.
    pub fn next(&mut self) -> (item: Option<(&'p T, &'p str, Option<&'p str>)>)
        ensures
            final(self).parent() == old(self).parent(),
            final(self).remaining() == step(old(self).remaining()).1,
            match item {
                Some((parent, name, value)) => parent == old(self).parent() && step(
                    old(self).remaining(),
                ).0 == Some((name@, text_of(value))),
                None => step(old(self).remaining()).0 is None,
            },
    {
        let entry: &'p [ListEntry] = self.entry;
        if entry.len() == 0 {
            None
        } else {
            let node = &entry[0];
            let value: Option<&'p str> = as_text(&node.value);
            let rest = slice_subrange(entry, 1, entry.len());
            self.entry = rest;
            Some((self.parent, node.name.as_str(), value))
        }
    }
}

/// An iterator over the list that starts at `entry` and belongs to `parent`.
pub fn iterator<'a, T: ?Sized>(parent: &'a T, entry: &'a [ListEntry]) -> (fresh: UdevIterator<'a, T>)
    ensures
        fresh.parent() == parent,
        fresh.remaining() == items(entry@),
{
    UdevIterator { parent, entry }
}

/// A walk hands out the items of its list one by one, head first, and then
/// nothing: step `n` yields item `n` while there is one, and no step after
/// the last item yields anything.
pub proof fn lemma_walk_in_order(list: Seq<Item>, n: nat)
    ensures
        n < list.len() ==> step(ahead_after(list, n)).0 == Some(list[n as int]),
        n >= list.len() ==> step(ahead_after(list, n)).0 is None,
        ahead_after(list, n) == list.skip(if n < list.len() { n as int } else { list.len() as int }),
    decreases n,
{
    if n > 0 {
        lemma_walk_in_order(step(list).1, (n - 1) as nat);
    }
}

} // verus!
