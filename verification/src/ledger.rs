//! A named table of amounts, as a contract dictionary holds them: an entry that
//! was never written reads as zero.
use vstd::prelude::*;
use crate::u256::U256;

verus! {

/// The amount that a table gives a name: the stored amount, or zero where
/// nothing was stored.
pub open spec fn amount_at(m: Map<Seq<char>, nat>, name: Seq<char>) -> nat {
    if m.contains_key(name) {
        m[name]
    } else {
        0
    }
}

/// The sum of the amounts of a sequence of entries.
pub open spec fn seq_total(s: Seq<(String, U256)>) -> nat
    decreases s.len(),
{
    if s.len() == 0 {
        0
    } else {
        seq_total(s.drop_last()) + s.last().1.value()
    }
}

/// Replacing one entry changes the sum by the difference of the amounts.
proof fn lemma_seq_total_update(s: Seq<(String, U256)>, i: int, e: (String, U256))
    requires
        0 <= i < s.len(),
    ensures
        seq_total(s.update(i, e)) + s[i].1.value() == seq_total(s) + e.1.value(),
    decreases s.len(),
{
    if i < s.len() - 1 {
        lemma_seq_total_update(s.drop_last(), i, e);
        assert(s.update(i, e).drop_last() =~= s.drop_last().update(i, e));
    } else {
        assert(s.update(i, e).drop_last() =~= s.drop_last());
    }
}

/// Entries of a dictionary, each name at most once.
pub struct Ledger {
    entries: Vec<(String, U256)>,
    model: Ghost<Map<Seq<char>, nat>>,
}

impl View for Ledger {
    type V = Map<Seq<char>, nat>;

    closed spec fn view(&self) -> Map<Seq<char>, nat> {
        self.model@
    }
}

impl Ledger {
    /// The entries and the map they stand for agree, and no name occurs twice.
    pub closed spec fn wf(&self) -> bool {
        &&& forall|i: int|
            0 <= i < self.entries@.len() ==> {
                &&& self.model@.contains_key(#[trigger] self.entries@[i].0@)
                &&& self.model@[self.entries@[i].0@] == self.entries@[i].1.value()
            }
        &&& forall|k: Seq<char>|
            #[trigger] self.model@.contains_key(k) ==> exists|i: int|
                0 <= i < self.entries@.len() && #[trigger] self.entries@[i].0@ == k
        &&& forall|i: int, j: int|
            0 <= i < self.entries@.len() && 0 <= j < self.entries@.len() && i != j
                ==> #[trigger] self.entries@[i].0@ != #[trigger] self.entries@[j].0@
    }

    /// The sum of all stored amounts.
    pub closed spec fn total(&self) -> nat {
        seq_total(self.entries@)
    }

    /// The entries in the order they were first written.
    pub closed spec fn entry_seq(&self) -> Seq<(String, U256)> {
        self.entries@
    }

    /// An empty table.
    pub fn new() -> (r: Ledger)
        ensures
            r.wf(),
            r@ == Map::<Seq<char>, nat>::empty(),
            r.total() == 0,
    {
        Ledger { entries: Vec::new(), model: Ghost(Map::empty()) }
    }

    /// The number of names stored.
    pub fn len(&self) -> (r: usize)
        requires
            self.wf(),
        ensures
            r == self.entry_seq().len(),
            r == self@.dom().len(),
    {
        proof {
            self.lemma_dom_len();
        }
        self.entries.len()
    }

    /// The `i`-th stored entry.
    pub fn entry(&self, i: usize) -> (r: (&String, U256))
        requires
            self.wf(),
            i < self.entry_seq().len(),
        ensures
            self@.contains_key(r.0@),
            self@[r.0@] == r.1.value(),
            *r.0 == self.entry_seq()[i as int].0,
            r.1 == self.entry_seq()[i as int].1,
    {
        (&self.entries[i].0, self.entries[i].1)
    }

    /// The position of a name among the entries, if it is stored.
    fn find(&self, name: &String) -> (r: Option<usize>)
        requires
            self.wf(),
        ensures
            r matches Some(i) ==> i < self.entries@.len() && self.entries@[i as int].0@ == name@,
            r is None ==> !self@.contains_key(name@),
    {
        let mut i: usize = 0;
        while i < self.entries.len()
            invariant
                self.wf(),
                0 <= i <= self.entries@.len(),
                forall|j: int| 0 <= j < i ==> self.entries@[j].0@ != name@,
            decreases self.entries@.len() - i,
        {
            if self.entries[i].0 == *name {
                return Some(i);
            }
            i = i + 1;
        }
        None
    }

    /// The amount stored under a name, zero when there is none.
    pub fn get(&self, name: &String) -> (r: U256)
        requires
            self.wf(),
        ensures
            r.value() == amount_at(self@, name@),
    {
        match self.find(name) {
            Some(i) => self.entries[i].1,
            None => U256::zero(),
        }
    }

    /// Store an amount under a name, replacing what was there.
    pub fn set(&mut self, name: String, amount: U256)
        requires
            old(self).wf(),
        ensures
            final(self).wf(),
            final(self)@ == old(self)@.insert(name@, amount.value()),
            final(self).total() + amount_at(old(self)@, name@) == old(self).total() + amount.value(),
    {
        let ghost m = self.model@.insert(name@, amount.value());
        match self.find(&name) {
            Some(i) => {
                let ghost old_entries = self.entries@;
                self.entries.set(i, (name, amount));
                self.model = Ghost(m);
                proof {
                    lemma_seq_total_update(old_entries, i as int, self.entries@[i as int]);
                }
                assert forall|k: Seq<char>| #[trigger] self.model@.contains_key(k) implies exists|j: int|
                    0 <= j < self.entries@.len() && #[trigger] self.entries@[j].0@ == k by {
                    if k != self.entries@[i as int].0@ {
                        let j = choose|j: int| 0 <= j < old_entries.len() && #[trigger] old_entries[j].0@ == k;
                        assert(self.entries@[j].0@ == k);
                    }
                }
            },
            None => {
                let ghost old_entries = self.entries@;
                self.entries.push((name, amount));
                self.model = Ghost(m);
                assert(self.entries@.drop_last() =~= old_entries);
                assert forall|k: Seq<char>| #[trigger] self.model@.contains_key(k) implies exists|j: int|
                    0 <= j < self.entries@.len() && #[trigger] self.entries@[j].0@ == k by {
                    if k != self.entries@[old_entries.len() as int].0@ {
                        let j = choose|j: int| 0 <= j < old_entries.len() && #[trigger] old_entries[j].0@ == k;
                        assert(self.entries@[j].0@ == k);
                    }
                }
            },
        }
    }

    /// Every amount in the table is below 2^256.
    pub proof fn lemma_amounts_fit(&self)
        requires
            self.wf(),
        ensures
            forall|name: Seq<char>| amount_at(self@, name) < crate::u256::u256_modulus(),
    {
        assert forall|name: Seq<char>| amount_at(self@, name) < crate::u256::u256_modulus() by {
            if self.model@.contains_key(name) {
                let i = choose|i: int| 0 <= i < self.entries@.len() && #[trigger] self.entries@[i].0@ == name;
                crate::u256::lemma_value_bound(self.entries@[i].1);
            }
        }
    }

    /// The number of entries is the size of the map's domain.
    proof fn lemma_dom_len(&self)
        requires
            self.wf(),
        ensures
            self.entries@.len() == self@.dom().len(),
    {
        let names = self.entries@.map_values(|e: (String, U256)| e.0@);
        assert(names.no_duplicates()) by {
            assert forall|i: int, j: int| 0 <= i < names.len() && 0 <= j < names.len() && i != j
                implies names[i] != names[j] by {
                assert(self.entries@[i].0@ != self.entries@[j].0@);
            }
        }
        assert(names.to_set() =~= self@.dom()) by {
            assert forall|k: Seq<char>| names.to_set().contains(k) implies self@.dom().contains(k) by {
                let i = choose|i: int| 0 <= i < names.len() && names[i] == k;
                assert(self.model@.contains_key(self.entries@[i].0@));
            }
            assert forall|k: Seq<char>| self@.dom().contains(k) implies names.to_set().contains(k) by {
                assert(self.model@.contains_key(k));
                let i = choose|i: int| 0 <= i < self.entries@.len() && #[trigger] self.entries@[i].0@ == k;
                assert(names[i] == k);
            }
        }
        names.unique_seq_to_set();
    }
}

} // verus!
