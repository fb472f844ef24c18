//! A model of the parts of a DOM element this library touches: its class
//! list and its attribute map.

use crate::strmap::StrMap;
use crate::text::str_eq;
use vstd::prelude::*;

verus! {

/// Holds whenever the classes of `s` are pairwise distinct.
spec fn classes_unique(s: Seq<String>) -> bool {
    forall|i: int, j: int| 0 <= i < j < s.len() ==> s[i]@ != s[j]@
}

/// The set of classes a class list stands for.
spec fn class_set(s: Seq<String>) -> Set<Seq<char>> {
    Set::new(|c: Seq<char>| exists|i: int| #![trigger s[i]] 0 <= i < s.len() && s[i]@ == c)
}

proof fn lemma_class_set_push(s: Seq<String>, x: String)
    requires
        classes_unique(s),
        !class_set(s).contains(x@),
    ensures
        classes_unique(s.push(x)),
        class_set(s.push(x)) == class_set(s).insert(x@),
{
    let t = s.push(x);
    assert forall|a: int, b: int| 0 <= a < b < t.len() implies t[a]@ != t[b]@ by {
        if b < s.len() {
            assert(t[a] == s[a] && t[b] == s[b]);
        } else {
            assert(t[a] == s[a] && t[b] == x);
        }
    }
    assert forall|c: Seq<char>| #[trigger] class_set(t).contains(c) implies class_set(s).insert(
        x@,
    ).contains(c) by {
        let j = choose|j: int| #![trigger t[j]] 0 <= j < t.len() && t[j]@ == c;
        if j < s.len() {
            assert(s[j]@ == c);
        }
    }
    assert forall|c: Seq<char>| #[trigger] class_set(s).insert(x@).contains(c) implies class_set(
        t,
    ).contains(c) by {
        if class_set(s).contains(c) {
            let j = choose|j: int| #![trigger s[j]] 0 <= j < s.len() && s[j]@ == c;
            assert(t[j] == s[j]);
        } else {
            assert(t[s.len() as int] == x);
        }
    }
    assert(class_set(t) =~= class_set(s).insert(x@));
}

proof fn lemma_class_set_removed(s: Seq<String>, i: int)
    requires
        classes_unique(s),
        0 <= i < s.len(),
    ensures
        classes_unique(s.remove(i)),
        class_set(s.remove(i)) == class_set(s).remove(s[i]@),
{
    s.remove_ensures(i);
    let t = s.remove(i);
    assert forall|a: int, b: int| 0 <= a < b < t.len() implies t[a]@ != t[b]@ by {
        let a0 = if a < i { a } else { a + 1 };
        let b0 = if b < i { b } else { b + 1 };
        assert(t[a] == s[a0] && t[b] == s[b0]);
    }
    assert forall|c: Seq<char>| #[trigger] class_set(t).contains(c) implies class_set(s).remove(
        s[i]@,
    ).contains(c) by {
        let j = choose|j: int| #![trigger t[j]] 0 <= j < t.len() && t[j]@ == c;
        let j0 = if j < i { j } else { j + 1 };
        assert(t[j] == s[j0]);
        assert(s[j0]@ == c);
    }
    assert forall|c: Seq<char>| #[trigger] class_set(s).remove(s[i]@).contains(c) implies class_set(
        t,
    ).contains(c) by {
        let j0 = choose|j: int| #![trigger s[j]] 0 <= j < s.len() && s[j]@ == c;
        let j = if j0 < i { j0 } else { j0 - 1 };
        assert(t[j] == s[j0]);
    }
    assert(class_set(t) =~= class_set(s).remove(s[i]@));
}

/// What an element looks like to this library: which classes it carries and
/// what its attributes are bound to.
pub struct ElementView {
    pub classes: Set<Seq<char>>,
    pub attributes: Map<Seq<char>, Seq<char>>,
}

/// The class list and attribute map of one element.
pub struct ElementState {
    classes: Vec<String>,
    attributes: StrMap,
}

impl View for ElementState {
    type V = ElementView;

    closed spec fn view(&self) -> ElementView {
        ElementView { classes: class_set(self.classes@), attributes: self.attributes@ }
    }
}

impl ElementState {
    /// Classes stay pairwise distinct and the attribute store well formed.
    pub closed spec fn wf(&self) -> bool {
        classes_unique(self.classes@) && self.attributes.wf()
    }

    /// An element with no classes and no attributes.
    pub fn new() -> (r: Self)
        ensures
            r.wf(),
            r@.classes == Set::<Seq<char>>::empty(),
            r@.attributes == Map::<Seq<char>, Seq<char>>::empty(),
    {
        let r = ElementState { classes: Vec::new(), attributes: StrMap::new() };
        proof {
            assert(class_set(r.classes@) =~= Set::<Seq<char>>::empty());
        }
        r
    }

    /// Whether the element carries `class`.
    pub fn has_class(&self, class: &str) -> (r: bool)
        ensures
            r == self@.classes.contains(class@),
    {
        let n = self.classes.len();
        for i in 0..n
            invariant
                n == self.classes@.len(),
                forall|j: int| #![trigger self.classes@[j]] 0 <= j < i ==> self.classes@[j]@ != class@,
        {
            if str_eq(self.classes[i].as_str(), class) {
                return true;
            }
        }
        false
    }

    /// Puts `class` onto the element; nothing changes when it is already
    /// there.
    pub fn add_class(&mut self, class: &str)
        requires
            old(self).wf(),
        ensures
            final(self).wf(),
            final(self)@.classes == old(self)@.classes.insert(class@),
            final(self)@.attributes == old(self)@.attributes,
    {
        if !self.has_class(class) {
            let c = class.to_owned();
            proof {
                lemma_class_set_push(self.classes@, c);
            }
            self.classes.push(c);
        } else {
            proof {
                assert(old(self)@.classes.insert(class@) =~= old(self)@.classes);
            }
        }
    }

    /// Takes `class` off the element; nothing changes when it is absent.
    pub fn remove_class(&mut self, class: &str)
        requires
            old(self).wf(),
        ensures
            final(self).wf(),
            final(self)@.classes == old(self)@.classes.remove(class@),
            final(self)@.attributes == old(self)@.attributes,
    {
        let n = self.classes.len();
        for i in 0..n
            invariant
                n == self.classes@.len(),
                self.classes@ == old(self).classes@,
                self.attributes == old(self).attributes,
                self.wf(),
                forall|j: int| #![trigger self.classes@[j]] 0 <= j < i ==> self.classes@[j]@ != class@,
        {
            if str_eq(self.classes[i].as_str(), class) {
                proof {
                    lemma_class_set_removed(self.classes@, i as int);
                }
                self.classes.remove(i);
                return ;
            }
        }
        proof {
            assert(old(self)@.classes.remove(class@) =~= old(self)@.classes);
        }
    }

    /// Binds attribute `name` to `value`, replacing any earlier binding.
    pub fn set_attribute(&mut self, name: &str, value: &str)
        requires
            old(self).wf(),
        ensures
            final(self).wf(),
            final(self)@.classes == old(self)@.classes,
            final(self)@.attributes == old(self)@.attributes.insert(name@, value@),
    {
        self.attributes.set(name, value);
    }

    /// Drops attribute `name`; nothing changes when it is absent.
    pub fn remove_attribute(&mut self, name: &str)
        requires
            old(self).wf(),
        ensures
            final(self).wf(),
            final(self)@.classes == old(self)@.classes,
            final(self)@.attributes == old(self)@.attributes.remove(name@),
    {
        self.attributes.remove(name);
    }

    /// The value attribute `name` is bound to, or `None`.
    pub fn get_attribute(&self, name: &str) -> (r: Option<String>)
        requires
            self.wf(),
        ensures
            match r {
                Some(v) => self@.attributes.contains_key(name@) && v@ == self@.attributes[name@],
                None => !self@.attributes.contains_key(name@),
            },
    {
        self.attributes.get(name)
    }
}

} // verus!
