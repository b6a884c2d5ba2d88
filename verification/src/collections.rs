//! A small association map keyed by strings, used as the in-memory backing
//! structure of the stores. Viewed as a `Map<Seq<char>, V::V>`.

use vstd::prelude::*;

verus! {

/// The map described by an entry list, later entries winning.
pub open spec fn entries_to_map<V: View>(s: Seq<(String, V)>) -> Map<Seq<char>, V::V>
    decreases s.len(),
{
    if s.len() == 0 {
        Map::empty()
    } else {
        entries_to_map(s.drop_last()).insert(s.last().0@, s.last().1@)
    }
}

/// No two entries share a key.
pub open spec fn unique_keys<V>(s: Seq<(String, V)>) -> bool {
    forall|i: int, j: int| 0 <= i < j < s.len() ==> s[i].0@ != s[j].0@
}

/// Compares two string slices character by character.
pub fn str_eq(a: &str, b: &str) -> (r: bool)
    ensures
        r == (a@ == b@),
{
    let a_len: usize = a.unicode_len();
    let b_len: usize = b.unicode_len();
    if a_len != b_len {
        return false;
    }
    let mut i: usize = 0;
    while i < a_len
        invariant
            0 <= i <= a_len,
            a_len == a@.len(),
            a_len == b@.len(),
            forall|j: int| 0 <= j < i ==> a@[j] == b@[j],
        decreases a_len - i,
    {
        if a.get_char(i) != b.get_char(i) {
            return false;
        }
        i = i + 1;
    }
    proof {
        assert(a@ =~= b@);
    }
    true
}

/// An association map keyed by strings; every key occurs at most once.
#[derive(Debug)]
pub struct StringMap<V> {
    entries: Vec<(String, V)>,
}

proof fn lemma_absent_key<V: View>(s: Seq<(String, V)>, k: Seq<char>)
    requires
        forall|i: int| 0 <= i < s.len() ==> s[i].0@ != k,
    ensures
        !entries_to_map(s).contains_key(k),
    decreases s.len(),
{
    if s.len() > 0 {
        lemma_absent_key(s.drop_last(), k);
    }
}

proof fn lemma_present_key<V: View>(s: Seq<(String, V)>, i: int)
    requires
        unique_keys(s),
        0 <= i < s.len(),
    ensures
        entries_to_map(s).contains_key(s[i].0@),
        entries_to_map(s)[s[i].0@] == s[i].1@,
    decreases s.len(),
{
    if i < s.len() - 1 {
        lemma_present_key(s.drop_last(), i);
        assert(s.drop_last()[i] == s[i]);
        assert(s[i].0@ != s.last().0@);
    }
}

proof fn lemma_remove_entry<V: View>(s: Seq<(String, V)>, i: int)
    requires
        unique_keys(s),
        0 <= i < s.len(),
    ensures
        entries_to_map(s.remove(i)) =~= entries_to_map(s).remove(s[i].0@),
    decreases s.len(),
{
    let k = s[i].0@;
    if i == s.len() - 1 {
        assert(s.remove(i) =~= s.drop_last());
        assert(forall|j: int| 0 <= j < s.drop_last().len() ==> s.drop_last()[j].0@ != k);
        lemma_absent_key(s.drop_last(), k);
    } else {
        assert(s.remove(i).last() == s.last());
        assert(s.remove(i).drop_last() =~= s.drop_last().remove(i));
        lemma_remove_entry(s.drop_last(), i);
        assert(s.drop_last()[i] == s[i]);
        assert(k != s.last().0@);
        assert(entries_to_map(s.remove(i)) == entries_to_map(s.drop_last().remove(i)).insert(
            s.last().0@,
            s.last().1@,
        ));
    }
}

impl<V: View> View for StringMap<V> {
    type V = Map<Seq<char>, V::V>;

    closed spec fn view(&self) -> Map<Seq<char>, V::V> {
        entries_to_map(self.entries@)
    }
}

impl<V> StringMap<V> {
    #[verifier::type_invariant]
    spec fn wf(&self) -> bool {
        unique_keys(self.entries@)
    }
}

impl<V: View> StringMap<V> {
    /// An empty map.
    pub fn new() -> (r: Self)
        ensures
            r@ == Map::<Seq<char>, V::V>::empty(),
    {
        StringMap { entries: Vec::new() }
    }

    /// The index of the entry holding `key`, if one does.
    fn find_index(&self, key: &str) -> (r: Option<usize>)
        ensures
            match r {
                Some(i) => i < self.entries@.len() && self.entries@[i as int].0@ == key@,
                None => forall|j: int| 0 <= j < self.entries@.len() ==> self.entries@[j].0@ != key@,
            },
    {
        let len: usize = self.entries.len();
        let mut i: usize = 0;
        while i < len
            invariant
                0 <= i <= len,
                len == self.entries@.len(),
                forall|j: int| 0 <= j < i ==> self.entries@[j].0@ != key@,
            decreases len - i,
        {
            if str_eq(self.entries[i].0.as_str(), key) {
                return Some(i);
            }
            i = i + 1;
        }

        None
    }

    /// Whether `key` is present.
    pub fn contains_key(&self, key: &str) -> (r: bool)
        ensures
            r == self@.contains_key(key@),
    {
        proof {
            use_type_invariant(&*self);
        }
        let found = self.find_index(key);
        proof {
            match found {
                Some(i) => lemma_present_key(self.entries@, i as int),
                None => lemma_absent_key(self.entries@, key@),
            }
        }
        found.is_some()
    }

    /// The value stored under `key`, if any.
    pub fn get(&self, key: &str) -> (r: Option<&V>)
        ensures
            match r {
                Some(v) => self@.contains_key(key@) && v@ == self@[key@],
                None => !self@.contains_key(key@),
            },
    {
        proof {
            use_type_invariant(&*self);
        }
        let found = self.find_index(key);
        proof {
            match found {
                Some(i) => lemma_present_key(self.entries@, i as int),
                None => lemma_absent_key(self.entries@, key@),
            }
        }
        match found {
            Some(i) => Some(&self.entries[i].1),
            None => None,
        }
    }

    /// Stores `value` under `key`, replacing any previous value.
    pub fn insert(&mut self, key: &str, value: V)
        ensures
            final(self)@ == old(self)@.insert(key@, value@),
    {
        proof {
            use_type_invariant(&*self);
        }
        let found = self.find_index(key);
        let mut entries: Vec<(String, V)> = Vec::new();
        core::mem::swap(&mut entries, &mut self.entries);
        let ghost before = entries@;
        if let Some(i) = found {
            proof {
                lemma_remove_entry(before, i as int);
                before.remove_ensures(i as int);
            }
            entries.remove(i);
            proof {
                assert(forall|j: int|
                    0 <= j < entries@.len() ==> #[trigger] entries@[j].0@ != key@);
            }
        }
        let ghost pruned = entries@;
        entries.push((String::from_str(key), value));
        proof {
            assert(entries@.drop_last() =~= pruned);
            assert(entries_to_map(entries@) == entries_to_map(pruned).insert(key@, value@));
            if found is Some {
                assert(entries_to_map(pruned) =~= entries_to_map(before).remove(key@));
                assert(entries_to_map(before).remove(key@).insert(key@, value@)
                    =~= entries_to_map(before).insert(key@, value@));
            }
        }
        self.entries = entries;
    }

    /// Removes and returns the value stored under `key`, if any.
    pub fn remove(&mut self, key: &str) -> (r: Option<V>)
        ensures
            final(self)@ == old(self)@.remove(key@),
            r is Some <==> old(self)@.contains_key(key@),
            r is Some ==> r.unwrap()@ == old(self)@[key@],
    {
        proof {
            use_type_invariant(&*self);
        }
        let found = self.find_index(key);
        match found {
            Some(i) => {
                proof {
                    lemma_present_key(self.entries@, i as int);
                    lemma_remove_entry(self.entries@, i as int);
                    self.entries@.remove_ensures(i as int);
                }
                let mut entries: Vec<(String, V)> = Vec::new();
                core::mem::swap(&mut entries, &mut self.entries);
                let entry = entries.remove(i);
                self.entries = entries;
                Some(entry.1)
            },
            None => {
                proof {
                    lemma_absent_key(self.entries@, key@);
                    assert(entries_to_map(self.entries@).remove(key@) =~= entries_to_map(
                        self.entries@,
                    ));
                }
                None
            },
        }
    }
}

} // verus!
