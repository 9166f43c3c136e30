//! A table from socket addresses to values.
use vstd::prelude::*;

use crate::address::SocketAddress;

verus! {

/// What stands in a list of entries, as a map. Where an address occurs twice, the later entry
/// counts.
pub open spec fn entries_as_map<V>(entries: Seq<(SocketAddress, V)>) -> Map<SocketAddress, V>
    decreases entries.len(),
{
    if entries.len() == 0 {
        Map::empty()
    } else {
        entries_as_map(entries.drop_last()).insert(entries.last().0, entries.last().1)
    }
}

/// Whether no address occurs twice in a list of entries.
pub open spec fn entries_distinct<V>(entries: Seq<(SocketAddress, V)>) -> bool {
    forall|i: int, j: int|
        0 <= i < j < entries.len() ==> #[trigger] entries[i].0 != #[trigger] entries[j].0
}

/// An address is in the map exactly when some entry has it, and that entry gives its value.
proof fn lemma_map_of_entries<V>(entries: Seq<(SocketAddress, V)>)
    requires
        entries_distinct(entries),
    ensures
        forall|k: SocketAddress| #[trigger]
            entries_as_map(entries).contains_key(k) ==> exists|i: int|
                0 <= i < entries.len() && #[trigger] entries[i].0 == k,
        forall|i: int|
            0 <= i < entries.len() ==> entries_as_map(entries).contains_key(
                #[trigger] entries[i].0,
            ) && entries_as_map(entries)[entries[i].0] == entries[i].1,
    decreases entries.len(),
{
    if entries.len() > 0 {
        let init = entries.drop_last();
        lemma_map_of_entries(init);
        assert forall|k: SocketAddress| #[trigger]
            entries_as_map(entries).contains_key(k) implies exists|i: int|
            0 <= i < entries.len() && #[trigger] entries[i].0 == k by {
            if k == entries.last().0 {
                assert(entries[entries.len() - 1].0 == k);
            } else {
                assert(entries_as_map(init).contains_key(k));
                let i = choose|i: int| 0 <= i < init.len() && #[trigger] init[i].0 == k;
                assert(entries[i].0 == k);
            }
        }
        assert forall|i: int| 0 <= i < entries.len() implies entries_as_map(entries).contains_key(
            #[trigger] entries[i].0,
        ) && entries_as_map(entries)[entries[i].0] == entries[i].1 by {
            if i < init.len() {
                assert(init[i] == entries[i]);
                assert(entries[i].0 != entries[entries.len() - 1].0);
            }
        }
    }
}

/// A table from socket addresses to values, with at most one value for each address.
pub struct AddressTable<V> {
    entries: Vec<(SocketAddress, V)>,
}

impl<V> View for AddressTable<V> {
    type V = Map<SocketAddress, V>;

    closed spec fn view(&self) -> Map<SocketAddress, V> {
        entries_as_map(self.entries@)
    }
}

impl<V> AddressTable<V> {
    #[verifier::type_invariant]
    spec fn distinct(&self) -> bool {
        entries_distinct(self.entries@)
    }

    /// An empty table.
    pub fn new() -> (table: Self)
        ensures
            table@ == Map::<SocketAddress, V>::empty(),
    {
        AddressTable { entries: Vec::new() }
    }

    /// Where the entry with `address` stands.
    fn position(&self, address: &SocketAddress) -> (at: Option<usize>)
        ensures
            match at {
                Some(i) => i < self.entries@.len() && self.entries@[i as int].0 == *address,
                None => forall|j: int|
                    0 <= j < self.entries@.len() ==> #[trigger] self.entries@[j].0 != *address,
            },
    {
        let mut i: usize = 0;
        while i < self.entries.len()
            invariant
                i <= self.entries@.len(),
                forall|j: int| 0 <= j < i ==> #[trigger] self.entries@[j].0 != *address,
            decreases self.entries@.len() - i,
        {
            if self.entries[i].0 == *address {
                return Some(i);
            }
            i = i + 1;
        }
        None
    }

    /// The value for `address`.
    pub fn get(&self, address: &SocketAddress) -> (value: Option<&V>)
        ensures
            match value {
                Some(v) => self@.contains_key(*address) && *v == self@[*address],
                None => !self@.contains_key(*address),
            },
    {
        proof {
            use_type_invariant(self);
            lemma_map_of_entries(self.entries@);
        }
        match self.position(address) {
            Some(i) => Some(&self.entries[i].1),
            None => None,
        }
    }

    /// Makes `value` the value for `address`, in place of any that it had.
    pub fn insert(&mut self, address: SocketAddress, value: V)
        ensures
            final(self)@ == old(self)@.insert(address, value),
    {
        self.remove(&address);
        proof {
            use_type_invariant(&*self);
            lemma_map_of_entries(self.entries@);
        }
        let ghost before = self.entries@;
        let mut entries: Vec<(SocketAddress, V)> = Vec::new();
        std::mem::swap(&mut entries, &mut self.entries);
        entries.push((address, value));
        proof {
            assert(entries@.drop_last() =~= before);
            assert forall|i: int, j: int| 0 <= i < j < entries@.len() implies #[trigger]
                entries@[i].0 != #[trigger] entries@[j].0 by {
                assert(entries@[i] == before[i]);
                if j < before.len() {
                    assert(entries@[j] == before[j]);
                }
            }
            assert(old(self)@.remove(address).insert(address, value) =~= old(self)@.insert(
                address,
                value,
            ));
        }
        self.entries = entries;
    }

    /// Takes the value for `address` out of the table.
    pub fn remove(&mut self, address: &SocketAddress)
        ensures
            final(self)@ == old(self)@.remove(*address),
    {
        proof {
            use_type_invariant(&*self);
            lemma_map_of_entries(self.entries@);
        }
        match self.position(address) {
            Some(i) => {
                let ghost before = self.entries@;
                let mut entries: Vec<(SocketAddress, V)> = Vec::new();
                std::mem::swap(&mut entries, &mut self.entries);
                entries.remove(i);
                proof {
                    lemma_remove_entry(before, i as int);
                }
                self.entries = entries;
            },
            None => {
                assert(!self@.contains_key(*address));
                assert(self@.remove(*address) =~= self@);
            },
        }
    }
}

/// Removing an entry removes its address from the map, and nothing else.
proof fn lemma_remove_entry<V>(entries: Seq<(SocketAddress, V)>, i: int)
    requires
        entries_distinct(entries),
        0 <= i < entries.len(),
    ensures
        entries_distinct(entries.remove(i)),
        entries_as_map(entries.remove(i)) == entries_as_map(entries).remove(entries[i].0),
{
    let rest = entries.remove(i);
    let gone = entries[i].0;
    assert forall|a: int, b: int| 0 <= a < b < rest.len() implies #[trigger] rest[a].0
        != #[trigger] rest[b].0 by {
        let a0 = if a < i { a } else { a + 1 };
        let b0 = if b < i { b } else { b + 1 };
        assert(rest[a] == entries[a0]);
        assert(rest[b] == entries[b0]);
    }
    lemma_map_of_entries(entries);
    lemma_map_of_entries(rest);
    let got = entries_as_map(rest);
    let want = entries_as_map(entries).remove(gone);
    assert forall|k: SocketAddress| got.contains_key(k) implies want.contains_key(k) && got[k]
        == want[k] by {
        let a = choose|a: int| 0 <= a < rest.len() && #[trigger] rest[a].0 == k;
        let a0 = if a < i { a } else { a + 1 };
        assert(rest[a] == entries[a0]);
        assert(entries[a0].0 != entries[i].0);
    }
    assert forall|k: SocketAddress| want.contains_key(k) implies got.contains_key(k) by {
        let a0 = choose|a: int| 0 <= a < entries.len() && #[trigger] entries[a].0 == k;
        let a = if a0 < i { a0 } else { a0 - 1 };
        assert(rest[a] == entries[a0]);
    }
    assert(got =~= want);
}

} // verus!
