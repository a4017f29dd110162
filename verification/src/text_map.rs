//! A small mapping from text to text.

use vstd::prelude::*;

verus! {

/// A mapping from text to text, kept as the list of its entries.
#[derive(Debug)]
pub struct TextMap {
    entries: Vec<(String, String)>,
}

/// The mapping that a list of entries stands for: a later entry replaces an
/// earlier one with the same key.
pub open spec fn entries_map(s: Seq<(String, String)>) -> Map<Seq<char>, Seq<char>>
    decreases s.len(),
{
    if s.len() == 0 {
        Map::empty()
    } else {
        entries_map(s.drop_last()).insert(s.last().0@, s.last().1@)
    }
}

impl View for TextMap {
    type V = Map<Seq<char>, Seq<char>>;

    closed spec fn view(&self) -> Map<Seq<char>, Seq<char>> {
        entries_map(self.entries@)
    }
}

impl TextMap {
    /// The empty mapping.
    pub fn new() -> (r: TextMap)
        ensures
            r@ == Map::<Seq<char>, Seq<char>>::empty(),
    {
        TextMap { entries: Vec::new() }
    }

    /// Sets the value of `key`.
    pub fn insert(&mut self, key: String, value: String)
        ensures
            final(self)@ == old(self)@.insert(key@, value@),
    {
        let ghost before = self.entries@;
        self.entries.push((key, value));
        assert(self.entries@.drop_last() =~= before);
    }

    /// The value of `key`, where the mapping has one.
    pub fn get(&self, key: &str) -> (r: Option<&String>)
        ensures
            match r {
                Some(v) => self@.dom().contains(key@) && self@[key@] == v@,
                None => !self@.dom().contains(key@),
            },
    {
        let wanted = String::from_str(key);
        let mut i: usize = self.entries.len();
        assert(self.entries@.take(i as int) =~= self.entries@);
        while i > 0
            invariant
                i <= self.entries.len(),
                wanted@ == key@,
                entries_map(self.entries@).dom().contains(key@) == entries_map(
                    self.entries@.take(i as int),
                ).dom().contains(key@),
                entries_map(self.entries@).dom().contains(key@) ==> entries_map(
                    self.entries@,
                )[key@] == entries_map(self.entries@.take(i as int))[key@],
            decreases i,
        {
            let ghost head = self.entries@.take(i as int);
            assert(head.drop_last() =~= self.entries@.take(i - 1));
            assert(head.last() == self.entries@[i - 1]);
            i = i - 1;
            if self.entries[i].0 == wanted {
                return Some(&self.entries[i].1);
            }
        }
        None
    }

    /// Takes `key` and its value out of the mapping.
    pub fn remove(&mut self, key: &str)
        ensures
            final(self)@ == old(self)@.remove(key@),
    {
        let wanted = String::from_str(key);
        let mut kept: Vec<(String, String)> = Vec::new();
        let n: usize = self.entries.len();
        let mut i: usize = 0;
        assert(entries_map(kept@) =~= entries_map(self.entries@.take(0)).remove(key@));
        while i < n
            invariant
                n == self.entries@.len(),
                i <= n,
                wanted@ == key@,
                entries_map(kept@) == entries_map(self.entries@.take(i as int)).remove(key@),
            decreases n - i,
        {
            let ghost head = self.entries@.take(i + 1);
            assert(head.drop_last() =~= self.entries@.take(i as int));
            assert(head.last() == self.entries@[i as int]);
            if self.entries[i].0 == wanted {
                assert(entries_map(head).remove(key@) =~= entries_map(
                    self.entries@.take(i as int),
                ).remove(key@));
            } else {
                let ghost before = kept@;
                kept.push((self.entries[i].0.clone(), self.entries[i].1.clone()));
                assert(kept@.drop_last() =~= before);
                assert(entries_map(kept@) =~= entries_map(head).remove(key@));
            }
            i = i + 1;
        }
        assert(self.entries@.take(n as int) =~= self.entries@);
        self.entries = kept;
    }

    /// Adds the entries of `other`; where both have a key, the value of
    /// `other` stands.
    pub fn extend(&mut self, other: &TextMap)
        ensures
            final(self)@ == old(self)@.union_prefer_right(other@),
    {
        let n: usize = other.entries.len();
        let mut i: usize = 0;
        assert(self@ =~= old(self)@.union_prefer_right(entries_map(other.entries@.take(0))));
        while i < n
            invariant
                n == other.entries@.len(),
                i <= n,
                self@ == old(self)@.union_prefer_right(entries_map(other.entries@.take(i as int))),
            decreases n - i,
        {
            let ghost head = other.entries@.take(i + 1);
            assert(head.drop_last() =~= other.entries@.take(i as int));
            assert(head.last() == other.entries@[i as int]);
            let ghost before = self@;
            self.insert(other.entries[i].0.clone(), other.entries[i].1.clone());
            assert(self@ =~= old(self)@.union_prefer_right(entries_map(head)));
            i = i + 1;
        }
        assert(other.entries@.take(n as int) =~= other.entries@);
    }
}

} // verus!
