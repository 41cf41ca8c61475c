use vstd::prelude::*;

verus! {

/// Every entry agrees with `ids`, every code of `ids` has an entry, and no code has two.
spec fn entries_match(entries: Seq<(u16, usize)>, ids: Map<u16, usize>) -> bool {
    &&& forall|i: int|
        0 <= i < entries.len() ==> #[trigger] ids.contains_key(entries[i].0) && ids[entries[i].0]
            == entries[i].1
    &&& forall|c: u16|
        #[trigger] ids.contains_key(c) ==> exists|i: int| 0 <= i < entries.len() && entries[i].0 == c
    &&& forall|i: int, j: int|
        0 <= i < j < entries.len() ==> #[trigger] entries[i].0 != #[trigger] entries[j].0
}

/// A marker dictionary: which marker id a 16-bit code stands for.
pub struct Dictionary {
    entries: Vec<(u16, usize)>,
    ids: Ghost<Map<u16, usize>>,
}

impl Dictionary {
    #[verifier::type_invariant]
    spec fn well_formed(self) -> bool {
        entries_match(self.entries@, self.ids@)
    }

    /// The dictionary with no code.
    pub fn new() -> (d: Dictionary)
        ensures
            d@ == Map::<u16, usize>::empty(),
    {
        Dictionary { entries: Vec::new(), ids: Ghost(Map::empty()) }
    }

    /// The position of `code` among the entries, if it is there.
    fn position(&self, code: u16) -> (r: Option<usize>)
        ensures
            match r {
                Some(i) => i < self.entries@.len() && self.entries@[i as int].0 == code,
                None => !self@.contains_key(code),
            },
    {
        proof {
            use_type_invariant(self);
        }
        let n: usize = self.entries.len();
        let mut i: usize = 0;
        while i < n
            invariant
                n == self.entries@.len(),
                i <= n,
                forall|j: int| 0 <= j < i ==> self.entries@[j].0 != code,
            decreases n - i,
        {
            if self.entries[i].0 == code {
                return Some(i);
            }
            i = i + 1;
        }
        None
    }

    /// The id that `code` stands for, if any.
    pub fn get(&self, code: u16) -> (r: Option<usize>)
        ensures
            r == (if self@.contains_key(code) {
                Some(self@[code])
            } else {
                None
            }),
    {
        proof {
            use_type_invariant(self);
        }
        match self.position(code) {
            Some(i) => Some(self.entries[i].1),
            None => None,
        }
    }

    /// Makes `code` stand for `id`, replacing what it stood for before.
    pub fn insert(&mut self, code: u16, id: usize)
        ensures
            final(self)@ == old(self)@.insert(code, id),
    {
        proof {
            use_type_invariant(&*self);
        }
        let ghost old_entries = self.entries@;
        let ghost old_ids = self.ids@;
        let ghost new_ids = old_ids.insert(code, id);
        let found = self.position(code);
        let mut taken = Dictionary::new();
        std::mem::swap(&mut taken, self);
        let Dictionary { mut entries, ids: _ } = taken;
        assert(entries@ == old_entries);
        match found {
            Some(i) => {
                entries.set(i, (code, id));
                assert forall|c: u16| #[trigger] new_ids.contains_key(c) implies exists|j: int|
                    0 <= j < entries@.len() && #[trigger] entries@[j].0 == c by {
                    if c != code {
                        let j = choose|j: int| 0 <= j < old_entries.len() && old_entries[j].0 == c;
                        assert(entries@[j].0 == c);
                    } else {
                        assert(entries@[i as int].0 == c);
                    }
                }
            },
            None => {
                entries.push((code, id));
                assert forall|c: u16| #[trigger] new_ids.contains_key(c) implies exists|j: int|
                    0 <= j < entries@.len() && #[trigger] entries@[j].0 == c by {
                    if c != code {
                        let j = choose|j: int| 0 <= j < old_entries.len() && old_entries[j].0 == c;
                        assert(entries@[j].0 == c);
                    } else {
                        assert(entries@[old_entries.len() as int].0 == c);
                    }
                }
            },
        }
        assert(entries_match(entries@, new_ids));
        *self = Dictionary { entries, ids: Ghost(new_ids) };
    }
}

impl View for Dictionary {
    type V = Map<u16, usize>;

    closed spec fn view(&self) -> Map<u16, usize> {
        self.ids@
    }
}

} // verus!
