//! A small string-to-string map with insert-or-replace semantics.
//!
//! Both the browser's transfer object (format → data) and an element's
//! attribute list (name → value) behave as such maps, so this module backs
//! the models of both.  Entries are held in a list whose keys stay pairwise
//! distinct; the abstract value of the map is a [`Map`] from key characters
//! to value characters.

use crate::text::str_eq;
use vstd::prelude::*;

verus! {

/// Holds whenever the keys of `s` are pairwise distinct.
spec fn keys_unique(s: Seq<(String, String)>) -> bool {
    forall|i: int, j: int| 0 <= i < j < s.len() ==> s[i].0@ != s[j].0@
}

/// Whether some entry of `s` carries the key `k`.
spec fn has_key(s: Seq<(String, String)>, k: Seq<char>) -> bool {
    exists|i: int| #![trigger s[i]] 0 <= i < s.len() && s[i].0@ == k
}

/// The map an entry list stands for; a later entry wins over an earlier
/// one with the same key.
spec fn map_of(s: Seq<(String, String)>) -> Map<Seq<char>, Seq<char>>
    decreases s.len(),
{
    if s.len() == 0 {
        Map::empty()
    } else {
        map_of(s.drop_last()).insert(s.last().0@, s.last().1@)
    }
}

proof fn lemma_map_of_absent(s: Seq<(String, String)>, k: Seq<char>)
    requires
        forall|i: int| #![trigger s[i]] 0 <= i < s.len() ==> s[i].0@ != k,
    ensures
        !map_of(s).contains_key(k),
    decreases s.len(),
{
    if s.len() > 0 {
        assert(forall|i: int|
            #![trigger s.drop_last()[i]]
            0 <= i < s.len() - 1 ==> s.drop_last()[i] == s[i]);
        lemma_map_of_absent(s.drop_last(), k);
    }
}

proof fn lemma_map_of_found(s: Seq<(String, String)>, i: int)
    requires
        keys_unique(s),
        0 <= i < s.len(),
    ensures
        map_of(s).contains_key(s[i].0@),
        map_of(s)[s[i].0@] == s[i].1@,
    decreases s.len(),
{
    if i < s.len() - 1 {
        let dl = s.drop_last();
        assert(forall|j: int| #![trigger dl[j]] 0 <= j < dl.len() ==> dl[j] == s[j]);
        lemma_map_of_found(dl, i);
        assert(s.last().0@ != s[i].0@);
    }
}

proof fn lemma_map_of_push(s: Seq<(String, String)>, e: (String, String))
    requires
        keys_unique(s),
        !has_key(s, e.0@),
    ensures
        keys_unique(s.push(e)),
        map_of(s.push(e)) == map_of(s).insert(e.0@, e.1@),
{
    let t = s.push(e);
    assert(t.drop_last() =~= s);
    assert(t.last() == e);
    assert forall|i: int, j: int| 0 <= i < j < t.len() implies t[i].0@ != t[j].0@ by {
        if j < s.len() {
            assert(t[i] == s[i] && t[j] == s[j]);
        } else {
            assert(t[i] == s[i] && t[j] == e);
        }
    }
}

proof fn lemma_map_of_removed(s: Seq<(String, String)>, i: int)
    requires
        keys_unique(s),
        0 <= i < s.len(),
    ensures
        keys_unique(s.remove(i)),
        map_of(s.remove(i)) == map_of(s).remove(s[i].0@),
    decreases s.len(),
{
    let t = s.remove(i);
    let k = s[i].0@;
    s.remove_ensures(i);
    assert forall|a: int, b: int| 0 <= a < b < t.len() implies t[a].0@ != t[b].0@ by {
        let a0 = if a < i { a } else { a + 1 };
        let b0 = if b < i { b } else { b + 1 };
        assert(t[a] == s[a0] && t[b] == s[b0]);
    }
    if i == s.len() - 1 {
        let dl = s.drop_last();
        assert(t =~= dl);
        assert(forall|j: int| #![trigger dl[j]] 0 <= j < dl.len() ==> dl[j] == s[j]);
        lemma_map_of_absent(dl, k);
        assert(map_of(t) =~~= map_of(s).remove(k));
    } else {
        let dl = s.drop_last();
        assert(forall|j: int| #![trigger dl[j]] 0 <= j < dl.len() ==> dl[j] == s[j]);
        assert(t.drop_last() =~= dl.remove(i));
        assert(t.last() == s.last());
        lemma_map_of_removed(dl, i);
        assert(s.last().0@ != k);
        assert(map_of(dl).remove(k).insert(s.last().0@, s.last().1@) =~~= map_of(dl).insert(
            s.last().0@,
            s.last().1@,
        ).remove(k));
    }
}

/// A map from strings to strings: the shape shared by the transfer object's
/// format/data store and an element's attribute list.
pub struct StrMap {
    entries: Vec<(String, String)>,
}

impl View for StrMap {
    type V = Map<Seq<char>, Seq<char>>;

    closed spec fn view(&self) -> Map<Seq<char>, Seq<char>> {
        map_of(self.entries@)
    }
}

impl StrMap {
    /// The keys held inside stay pairwise distinct.
    pub closed spec fn wf(&self) -> bool {
        keys_unique(self.entries@)
    }

    /// An empty map.
    pub fn new() -> (r: Self)
        ensures
            r.wf(),
            r@ == Map::<Seq<char>, Seq<char>>::empty(),
    {
        StrMap { entries: Vec::new() }
    }

    /// Looks `key` up; returns its value, or `None` when the key is absent.
    pub fn get(&self, key: &str) -> (r: Option<String>)
        requires
            self.wf(),
        ensures
            match r {
                Some(v) => self@.contains_key(key@) && v@ == self@[key@],
                None => !self@.contains_key(key@),
            },
    {
        let n = self.entries.len();
        for i in 0..n
            invariant
                n == self.entries@.len(),
                self.wf(),
                forall|j: int| #![trigger self.entries@[j]] 0 <= j < i ==> self.entries@[j].0@ != key@,
        {
            if str_eq(self.entries[i].0.as_str(), key) {
                proof {
                    lemma_map_of_found(self.entries@, i as int);
                }
                return Some(self.entries[i].1.clone());
            }
        }
        proof {
            lemma_map_of_absent(self.entries@, key@);
        }
        None
    }

    /// Takes `key` out; the map is unchanged when the key is absent.
    pub fn remove(&mut self, key: &str)
        requires
            old(self).wf(),
        ensures
            final(self).wf(),
            final(self)@ == old(self)@.remove(key@),
    {
        let n = self.entries.len();
        for i in 0..n
            invariant
                n == self.entries@.len(),
                self.entries@ == old(self).entries@,
                self.wf(),
                forall|j: int| #![trigger self.entries@[j]] 0 <= j < i ==> self.entries@[j].0@ != key@,
        {
            if str_eq(self.entries[i].0.as_str(), key) {
                proof {
                    lemma_map_of_removed(self.entries@, i as int);
                }
                self.entries.remove(i);
                return ;
            }
        }
        proof {
            lemma_map_of_absent(self.entries@, key@);
            assert(old(self)@.remove(key@) =~~= old(self)@);
        }
    }

    /// Binds `key` to `value`, replacing any earlier binding.
    pub fn set(&mut self, key: &str, value: &str)
        requires
            old(self).wf(),
        ensures
            final(self).wf(),
            final(self)@ == old(self)@.insert(key@, value@),
    {
        self.remove(key);
        let new_key = key.to_owned();
        let new_value = value.to_owned();
        proof {
            if has_key(self.entries@, key@) {
                let i = choose|i: int|
                    #![trigger self.entries@[i]]
                    0 <= i < self.entries@.len() && self.entries@[i].0@ == key@;
                lemma_map_of_found(self.entries@, i);
            }
            lemma_map_of_push(self.entries@, (new_key, new_value));
        }
        self.entries.push((new_key, new_value));
        proof {
            assert(old(self)@.remove(key@).insert(key@, value@) =~~= old(self)@.insert(
                key@,
                value@,
            ));
        }
    }
}

impl Clone for StrMap {
    /// The copy stands for the same map.
    fn clone(&self) -> (r: Self)
        ensures
            r@ == self@,
            r.wf() <==> self.wf(),
    {
        let mut entries: Vec<(String, String)> = Vec::new();
        let n = self.entries.len();
        proof {
            assert(entries@ =~= self.entries@.subrange(0, 0));
        }
        for i in 0..n
            invariant
                n == self.entries@.len(),
                entries@ == self.entries@.subrange(0, i as int),
        {
            let key = self.entries[i].0.clone();
            let value = self.entries[i].1.clone();
            entries.push((key, value));
            proof {
                assert(entries@ =~= self.entries@.subrange(0, i as int + 1));
            }
        }
        proof {
            assert(self.entries@.subrange(0, n as int) =~= self.entries@);
        }
        StrMap { entries }
    }
}

} // verus!
