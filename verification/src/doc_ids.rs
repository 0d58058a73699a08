//! The ids of the documents that a store knows.

use vstd::prelude::*;
use vstd::hash_set::StringHashSet;

verus! {

/// The strings of a sequence, as sequences of characters.
pub open spec fn texts(strings: Seq<String>) -> Seq<Seq<char>> {
    strings.map_values(|s: String| s@)
}

/// A set of document ids: a hash set that answers whether an id is known, and
/// the ids themselves, each once, for listing.
pub struct DocIds {
    known: StringHashSet,
    listed: Vec<String>,
}

impl View for DocIds {
    type V = Set<Seq<char>>;

    closed spec fn view(&self) -> Set<Seq<char>> {
        self.known@
    }
}

impl DocIds {
    #[verifier::type_invariant]
    closed spec fn well_formed(self) -> bool {
        &&& texts(self.listed@).no_duplicates()
        &&& texts(self.listed@).to_set() == self.known@
    }

    /// The empty set.
    pub fn new() -> (ids: DocIds)
        ensures
            ids@ == Set::<Seq<char>>::empty(),
    {
        let known = StringHashSet::new();
        let listed: Vec<String> = Vec::new();
        proof {
            assert(texts(listed@) =~= Seq::<Seq<char>>::empty());
            assert(texts(listed@).to_set() =~= Set::<Seq<char>>::empty());
        }
        DocIds { known, listed }
    }

    /// Whether `id` is in the set.
    pub fn contains(&self, id: &str) -> (found: bool)
        ensures
            found == self@.contains(id@),
    {
        self.known.contains(id)
    }

    /// Adds `id`; a set that has it already stays as it is.
    pub fn insert(&mut self, id: String)
        ensures
            final(self)@ == old(self)@.insert(id@),
    {
        let mut taken = DocIds::new();
        std::mem::swap(&mut taken, self);
        proof {
            use_type_invariant(&taken);
        }
        let DocIds { mut known, mut listed } = taken;
        if !known.contains(id.as_str()) {
            let ghost before = listed@;
            known.insert(id.clone());
            listed.push(id);
            proof {
                let t = texts(before);
                assert(texts(listed@) =~= t.push(id@));
                assert(!t.contains(id@)) by {
                    assert(!t.to_set().contains(id@));
                }
                assert(t.push(id@).no_duplicates());
                assert(t.push(id@).to_set() =~= t.to_set().insert(id@)) by {
                    assert forall|x: Seq<char>| t.to_set().insert(id@).contains(x) implies t.push(
                        id@,
                    ).contains(x) by {
                        if x == id@ {
                            assert(t.push(id@)[t.len() as int] == x);
                        } else {
                            let i = choose|i: int| 0 <= i < t.len() && t[i] == x;
                            assert(t.push(id@)[i] == x);
                        }
                    }
                }
            }
        }
        *self = DocIds { known, listed };
    }

    /// Takes `id` out; a set without it stays as it is.
    pub fn remove(&mut self, id: &String)
        ensures
            final(self)@ == old(self)@.remove(id@),
    {
        let mut taken = DocIds::new();
        std::mem::swap(&mut taken, self);
        proof {
            use_type_invariant(&taken);
        }
        let DocIds { mut known, mut listed } = taken;
        let ghost before = texts(listed@);
        let mut i: usize = 0;
        while i < listed.len() && listed[i] != *id
            invariant
                i <= listed@.len(),
                before == texts(listed@),
                forall|j: int| 0 <= j < i ==> #[trigger] before[j] != id@,
            decreases listed@.len() - i,
        {
            i += 1;
        }
        if i < listed.len() {
            listed.remove(i);
            proof {
                assert(before[i as int] == id@);
                lemma_removed(before, i as int);
                assert(texts(listed@) =~= before.remove(i as int));
            }
        } else {
            proof {
                assert(!before.to_set().contains(id@));
                assert(before.to_set() =~= before.to_set().remove(id@));
            }
        }
        known.remove(id.as_str());
        *self = DocIds { known, listed };
    }

    /// Every id of the set, once; in no order that callers may rely on.
    pub fn list(&self) -> (ids: Vec<String>)
        ensures
            texts(ids@).no_duplicates(),
            texts(ids@).to_set() == self@,
    {
        proof {
            use_type_invariant(self);
        }
        let mut ids: Vec<String> = Vec::new();
        let mut i: usize = 0;
        while i < self.listed.len()
            invariant
                i <= self.listed@.len(),
                texts(ids@) == texts(self.listed@).take(i as int),
            decreases self.listed@.len() - i,
        {
            let ghost before = ids@;
            let id = self.listed[i].clone();
            ids.push(id);
            assert(texts(ids@) =~= texts(before).push(id@));
            assert(texts(self.listed@).take(i + 1) =~= texts(self.listed@).take(i as int).push(
                texts(self.listed@)[i as int],
            ));
            i += 1;
        }
        assert(texts(self.listed@).take(i as int) =~= texts(self.listed@));
        ids
    }
}

/// Without the element at `i`, a sequence of distinct elements is still one of
/// distinct elements, and has exactly the others.
proof fn lemma_removed(s: Seq<Seq<char>>, i: int)
    requires
        s.no_duplicates(),
        0 <= i < s.len(),
    ensures
        s.remove(i).no_duplicates(),
        s.remove(i).to_set() == s.to_set().remove(s[i]),
{
    let r = s.remove(i);
    assert forall|x: Seq<char>| r.contains(x) <==> s.contains(x) && x != s[i] by {
        if s.contains(x) && x != s[i] {
            let j = choose|j: int| 0 <= j < s.len() && s[j] == x;
            assert(r[if j < i { j } else { j - 1 }] == x);
        }
        if r.contains(x) {
            let j = choose|j: int| 0 <= j < r.len() && r[j] == x;
            assert(s[if j < i { j } else { j + 1 }] == x);
        }
    }
    assert(r.to_set() =~= s.to_set().remove(s[i]));
}

/// The texts of a sequence of strings are theirs, one by one and whole.
pub proof fn law_texts_are_those_of_strings(strings: Seq<String>, i: int)
    ensures
        texts(strings).len() == strings.len(),
        0 <= i < strings.len() ==> texts(strings)[i] == strings[i]@,
{
}

} // verus!
