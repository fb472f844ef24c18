//! Reordering a keyed list: the computation a list-reordering drop handler
//! performs when one item is dropped onto another.

use vstd::prelude::*;

verus! {

/// One entry of a reorderable list: a numeric key and a displayed name.
#[derive(Debug, PartialEq, Eq, Hash)]
pub struct ContentItem {
    pub id: i32,
    pub name: String,
}

impl Clone for ContentItem {
    /// The copy carries the same key and name.
    fn clone(&self) -> (r: Self)
        ensures
            r == *self,
    {
        ContentItem { id: self.id, name: self.name.clone() }
    }
}

/// Whether some item of `s` carries the key `id`.
pub open spec fn has_id(s: Seq<ContentItem>, id: i32) -> bool {
    exists|i: int| #![trigger s[i]] 0 <= i < s.len() && s[i].id == id
}

/// The first position of `s` whose item carries `id`; meaningful only where
/// [`has_id`] holds.
pub open spec fn first_index(s: Seq<ContentItem>, id: i32) -> int {
    choose|i: int|
        0 <= i < s.len() && s[i].id == id && (forall|j: int|
            #![trigger s[j]]
            0 <= j < i ==> s[j].id != id)
}

proof fn lemma_first_index_is(s: Seq<ContentItem>, id: i32, i: int)
    requires
        0 <= i < s.len(),
        s[i].id == id,
        forall|j: int| #![trigger s[j]] 0 <= j < i ==> s[j].id != id,
    ensures
        first_index(s, id) == i,
{
    let c = first_index(s, id);
    assert(0 <= c < s.len() && s[c].id == id && (forall|j: int|
        #![trigger s[j]]
        0 <= j < c ==> s[j].id != id));
    if c < i {
        assert(s[c].id != id);
    }
    if c > i {
        assert(s[i].id != id);
    }
}

/// The first position holding an item with key `id`, or `None` when no item
/// carries it.
pub fn position_of_id(items: &Vec<ContentItem>, id: i32) -> (r: Option<usize>)
    ensures
        match r {
            Some(i) => i < items@.len() && items@[i as int].id == id && (forall|j: int|
                #![trigger items@[j]]
                0 <= j < i ==> items@[j].id != id),
            None => !has_id(items@, id),
        },
{
    let n = items.len();
    for i in 0..n
        invariant
            n == items@.len(),
            forall|j: int| #![trigger items@[j]] 0 <= j < i ==> items@[j].id != id,
    {
        if items[i].id == id {
            return Some(i);
        }
    }
    None
}

/// Swaps the items carrying `dragged_id` and `target_id` (their first
/// occurrences, where a key repeats).  Returns `false` and leaves the list
/// unchanged when either key is absent.
pub fn swap_by_id(items: &mut Vec<ContentItem>, dragged_id: i32, target_id: i32) -> (r: bool)
    ensures
        r == (has_id(old(items)@, dragged_id) && has_id(old(items)@, target_id)),
        !r ==> final(items)@ == old(items)@,
        r ==> ({
            let s = old(items)@;
            let di = first_index(s, dragged_id);
            let ti = first_index(s, target_id);
            final(items)@ == s.update(di, s[ti]).update(ti, s[di])
        }),
{
    let di_found = position_of_id(items, dragged_id);
    let ti_found = position_of_id(items, target_id);
    match (di_found, ti_found) {
        (Some(di), Some(ti)) => {
            proof {
                lemma_first_index_is(items@, dragged_id, di as int);
                lemma_first_index_is(items@, target_id, ti as int);
            }
            let dragged = items[di].clone();
            let target = items[ti].clone();
            items[di] = target;
            items[ti] = dragged;
            true
        },
        _ => {
            false
        },
    }
}

} // verus!
