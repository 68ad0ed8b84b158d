//! The pending-request table: correlation id to reply slot.

use vstd::prelude::*;

verus! {

struct PendingRequest<S> {
    id: String,
    slot: S,
}

spec fn ids_distinct<S>(s: Seq<PendingRequest<S>>) -> bool {
    forall|i: int, j: int| 0 <= i < j < s.len() ==> s[i].id@ != s[j].id@
}

spec fn table_of<S>(s: Seq<PendingRequest<S>>) -> Map<Seq<char>, S>
    decreases s.len(),
{
    if s.len() == 0 {
        Map::empty()
    } else {
        table_of(s.drop_last()).insert(s.last().id@, s.last().slot)
    }
}

proof fn lemma_table_keys<S>(s: Seq<PendingRequest<S>>, id: Seq<char>)
    ensures
        table_of(s).contains_key(id) <==> exists|i: int| 0 <= i < s.len() && s[i].id@ == id,
    decreases s.len(),
{
    if s.len() > 0 {
        lemma_table_keys(s.drop_last(), id);
        if table_of(s).contains_key(id) {
            if s.last().id@ == id {
                assert(s[s.len() - 1].id@ == id);
            } else {
                let i = choose|i: int| 0 <= i < s.drop_last().len() && s.drop_last()[i].id@ == id;
                assert(s[i].id@ == id);
            }
        }
        if exists|i: int| 0 <= i < s.len() && s[i].id@ == id {
            let i = choose|i: int| 0 <= i < s.len() && s[i].id@ == id;
            if i < s.len() - 1 {
                assert(s.drop_last()[i].id@ == id);
            }
        }
    }
}

proof fn lemma_table_value<S>(s: Seq<PendingRequest<S>>, i: int)
    requires
        ids_distinct(s),
        0 <= i < s.len(),
    ensures
        table_of(s).contains_key(s[i].id@),
        table_of(s)[s[i].id@] == s[i].slot,
    decreases s.len(),
{
    if i < s.len() - 1 {
        assert(ids_distinct(s.drop_last()));
        lemma_table_value(s.drop_last(), i);
        assert(s.drop_last()[i] == s[i]);
    }
}

proof fn lemma_table_remove<S>(s: Seq<PendingRequest<S>>, i: int)
    requires
        ids_distinct(s),
        0 <= i < s.len(),
    ensures
        ids_distinct(s.remove(i)),
        table_of(s.remove(i)) == table_of(s).remove(s[i].id@),
    decreases s.len(),
{
    let r = s.remove(i);
    assert(ids_distinct(r)) by {
        assert forall|a: int, b: int| 0 <= a < b < r.len() implies r[a].id@ != r[b].id@ by {
            let a2 = if a < i { a } else { a + 1 };
            let b2 = if b < i { b } else { b + 1 };
            assert(r[a] == s[a2] && r[b] == s[b2]);
        }
    }
    if i == s.len() - 1 {
        assert(r =~= s.drop_last());
        lemma_table_keys(s.drop_last(), s[i].id@);
        assert(!table_of(s.drop_last()).contains_key(s[i].id@)) by {
            if table_of(s.drop_last()).contains_key(s[i].id@) {
                let k = choose|k: int|
                    0 <= k < s.drop_last().len() && s.drop_last()[k].id@ == s[i].id@;
                assert(s[k].id@ == s[i].id@);
            }
        }
        assert(table_of(r) =~= table_of(s).remove(s[i].id@));
    } else {
        assert(ids_distinct(s.drop_last()));
        lemma_table_remove(s.drop_last(), i);
        assert(r.drop_last() =~= s.drop_last().remove(i));
        assert(r.last() == s.last());
        assert(s.drop_last()[i] == s[i]);
        assert(s[i].id@ != s.last().id@);
        assert(table_of(r) =~= table_of(s).remove(s[i].id@));
    }
}

/// Map from correlation id to reply slot. An id occurs at most once.
pub struct PendingTable<S> {
    entries: Vec<PendingRequest<S>>,
}

impl<S> View for PendingTable<S> {
    type V = Map<Seq<char>, S>;

    closed spec fn view(&self) -> Map<Seq<char>, S> {
        table_of(self.entries@)
    }
}

impl<S> PendingTable<S> {
    #[verifier::type_invariant]
    spec fn well_formed(&self) -> bool {
        ids_distinct(self.entries@)
    }

    /// The empty table.
    pub fn new() -> (t: Self)
        ensures
            t@ == Map::<Seq<char>, S>::empty(),
    {
        PendingTable { entries: Vec::new() }
    }

    fn position(&self, id: &String) -> (r: Option<usize>)
        ensures
            match r {
                Some(i) => i < self.entries@.len() && self.entries@[i as int].id@ == id@,
                None => forall|i: int| 0 <= i < self.entries@.len() ==> self.entries@[i].id@ != id@,
            },
    {
        let mut i: usize = 0;
        while i < self.entries.len()
            invariant
                i <= self.entries@.len(),
                forall|k: int| 0 <= k < i ==> self.entries@[k].id@ != id@,
            decreases self.entries@.len() - i,
        {
            if self.entries[i].id == *id {
                return Some(i);
            }
            i += 1;
        }
        None
    }

    /// Whether a slot waits under `id`.
    pub fn contains(&self, id: &String) -> (r: bool)
        ensures
            r == self@.contains_key(id@),
    {
        proof {
            lemma_table_keys(self.entries@, id@);
        }
        self.position(id).is_some()
    }

    /// Whether no slot waits.
    pub fn is_empty(&self) -> (r: bool)
        ensures
            r == (self@ == Map::<Seq<char>, S>::empty()),
    {
        proof {
            if self.entries@.len() > 0 {
                assert(self@.contains_key(self.entries@.last().id@));
            }
        }
        self.entries.len() == 0
    }

    /// Drops every slot.
    pub fn clear(&mut self)
        ensures
            final(self)@ == Map::<Seq<char>, S>::empty(),
    {
        self.entries = Vec::new();
    }

    /// Takes the slot that waits under `id` out of the table.
    pub fn remove(&mut self, id: &String) -> (r: Option<S>)
        ensures
            match r {
                Some(slot) => {
                    &&& old(self)@.contains_key(id@)
                    &&& slot == old(self)@[id@]
                    &&& final(self)@ == old(self)@.remove(id@)
                },
                None => !old(self)@.contains_key(id@) && final(self)@ == old(self)@,
            },
    {
        proof {
            use_type_invariant(&*self);
            lemma_table_keys(self.entries@, id@);
        }
        match self.position(id) {
            Some(i) => {
                proof {
                    lemma_table_value(self.entries@, i as int);
                    lemma_table_remove(self.entries@, i as int);
                }
                let mut entries: Vec<PendingRequest<S>> = Vec::new();
                std::mem::swap(&mut self.entries, &mut entries);
                let entry = entries.remove(i);
                self.entries = entries;
                Some(entry.slot)
            },
            None => None,
        }
    }

    /// Puts `slot` under `id`. A slot that waited under the same id is
    /// displaced and returned.
    pub fn insert(&mut self, id: String, slot: S) -> (displaced: Option<S>)
        ensures
            final(self)@ == old(self)@.insert(id@, slot),
            match displaced {
                Some(prev) => old(self)@.contains_key(id@) && prev == old(self)@[id@],
                None => !old(self)@.contains_key(id@),
            },
    {
        let displaced = self.remove(&id);
        proof {
            use_type_invariant(&*self);
            lemma_table_keys(self.entries@, id@);
        }
        let ghost before = self.entries@;
        let ghost key = id@;
        let mut entries: Vec<PendingRequest<S>> = Vec::new();
        std::mem::swap(&mut self.entries, &mut entries);
        entries.push(PendingRequest { id, slot });
        proof {
            assert forall|i: int, j: int| 0 <= i < j < entries@.len() implies entries@[i].id@
                != entries@[j].id@ by {
                if j == entries@.len() - 1 {
                    assert(before[i].id@ != key);
                } else {
                    assert(before[i].id@ != before[j].id@);
                }
            }
        }
        self.entries = entries;
        proof {
            assert(self.entries@.drop_last() =~= before);
            assert(self@ =~= old(self)@.insert(key, slot));
        }
        displaced
    }
}

} // verus!
