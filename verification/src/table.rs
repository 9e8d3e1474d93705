//! Records kept by address: a list of entries in which no address occurs
//! twice, read as a map from address to record.

use crate::address::Address;
use vstd::prelude::*;

verus! {

/// A record together with the address where it is kept.
pub struct Entry<T> {
    pub address: Address,
    pub value: T,
}

/// No address occurs twice among `entries`.
pub open spec fn distinct<T>(entries: Seq<Entry<T>>) -> bool {
    forall|i: int, j: int| 0 <= i < j < entries.len() ==> entries[i].address != entries[j].address
}

/// Some entry is kept at `address`.
pub open spec fn holds<T>(entries: Seq<Entry<T>>, address: Address) -> bool {
    exists|i: int| 0 <= i < entries.len() && entries[i].address == address
}

/// The position of the entry kept at `address`.
pub open spec fn slot<T>(entries: Seq<Entry<T>>, address: Address) -> int {
    choose|i: int| 0 <= i < entries.len() && entries[i].address == address
}

/// The entries as a map from address to the record's value.
pub open spec fn table_view<T: View>(entries: Seq<Entry<T>>) -> Map<Address, T::V> {
    Map::new(|address: Address| holds(entries, address), |address: Address| entries[slot(entries, address)].value@)
}

/// In a list without repeated addresses, the entry at position `i` is the
/// one found under its address.
pub proof fn lemma_slot<T: View>(entries: Seq<Entry<T>>, i: int)
    requires
        distinct(entries),
        0 <= i < entries.len(),
    ensures
        holds(entries, entries[i].address),
        slot(entries, entries[i].address) == i,
        table_view(entries).contains_key(entries[i].address),
        table_view(entries)[entries[i].address] == entries[i].value@,
{
    let address = entries[i].address;
    assert(holds(entries, address));
    let found = slot(entries, address);
    assert(0 <= found < entries.len() && entries[found].address == address);
    if found < i {
        assert(entries[found].address != entries[i].address);
    } else if i < found {
        assert(entries[i].address != entries[found].address);
    }
}

/// Appending an entry at a free address adds it to the map.
pub proof fn lemma_push<T: View>(entries: Seq<Entry<T>>, entry: Entry<T>)
    requires
        distinct(entries),
        !holds(entries, entry.address),
    ensures
        distinct(entries.push(entry)),
        table_view(entries.push(entry)) == table_view(entries).insert(entry.address, entry.value@),
{
    let grown = entries.push(entry);
    assert forall|i: int, j: int| 0 <= i < j < grown.len() implies grown[i].address != grown[j].address by {
        if j == entries.len() {
            assert(entries[i].address == grown[i].address);
        } else {
            assert(entries[i].address != entries[j].address);
        }
    }
    assert forall|address: Address| holds(grown, address) <==> (holds(entries, address) || address
        == entry.address) by {
        if holds(grown, address) {
            let i = slot(grown, address);
            if i < entries.len() {
                assert(entries[i].address == address);
            }
        }
        if holds(entries, address) {
            let i = slot(entries, address);
            assert(grown[i].address == address);
        }
        if address == entry.address {
            assert(grown[entries.len() as int].address == address);
        }
    }
    assert forall|address: Address| holds(grown, address) implies #[trigger] table_view(grown)[address]
        == table_view(entries).insert(entry.address, entry.value@)[address] by {
        if address == entry.address {
            lemma_slot(grown, entries.len() as int);
        } else {
            let i = slot(entries, address);
            assert(grown[i] == entries[i]);
            lemma_slot(grown, i);
        }
    }
    assert(table_view(grown) =~= table_view(entries).insert(entry.address, entry.value@));
}

/// Replacing the record of an entry replaces it in the map.
pub proof fn lemma_update<T: View>(entries: Seq<Entry<T>>, i: int, entry: Entry<T>)
    requires
        distinct(entries),
        0 <= i < entries.len(),
        entry.address == entries[i].address,
    ensures
        distinct(entries.update(i, entry)),
        table_view(entries.update(i, entry)) == table_view(entries).insert(entry.address, entry.value@),
{
    let changed = entries.update(i, entry);
    assert forall|j: int, k: int| 0 <= j < k < changed.len() implies changed[j].address != changed[k].address by {
        assert(entries[j].address != entries[k].address);
    }
    assert forall|address: Address| holds(changed, address) <==> holds(entries, address) by {
        if holds(changed, address) {
            let j = slot(changed, address);
            assert(entries[j].address == address);
        }
        if holds(entries, address) {
            let j = slot(entries, address);
            assert(changed[j].address == address);
        }
    }
    lemma_slot(entries, i);
    assert forall|address: Address| holds(changed, address) implies #[trigger] table_view(changed)[address]
        == table_view(entries).insert(entry.address, entry.value@)[address] by {
        let j = slot(entries, address);
        lemma_slot(entries, j);
        lemma_slot(changed, j);
    }
    assert(table_view(changed) =~= table_view(entries).insert(entry.address, entry.value@));
}

/// A list without repeated addresses has as many entries as its map has keys.
pub proof fn lemma_domain_size<T: View>(entries: Seq<Entry<T>>)
    requires
        distinct(entries),
    ensures
        table_view(entries).dom().finite(),
        table_view(entries).dom().len() == entries.len(),
    decreases entries.len(),
{
    if entries.len() == 0 {
        assert(table_view(entries).dom() =~= Set::<Address>::empty());
    } else {
        let front = entries.drop_last();
        let last = entries.last();
        assert(distinct(front)) by {
            assert forall|i: int, j: int| 0 <= i < j < front.len() implies front[i].address != front[j].address by {
                assert(entries[i].address != entries[j].address);
            }
        }
        assert(!holds(front, last.address)) by {
            if holds(front, last.address) {
                let i = slot(front, last.address);
                assert(entries[i].address != entries[entries.len() - 1].address);
            }
        }
        lemma_domain_size(front);
        lemma_push(front, last);
        assert(front.push(last) =~= entries);
        assert(table_view(entries).dom() =~= table_view(front).dom().insert(last.address));
    }
}

/// Looks for the entry kept at `address`.
pub fn find<T: View>(entries: &Vec<Entry<T>>, address: &Address) -> (found: Option<usize>)
    requires
        distinct(entries@),
    ensures
        match found {
            Some(i) => i < entries.len() && entries[i as int].address == *address && table_view(
                entries@,
            ).contains_key(*address) && table_view(entries@)[*address] == entries[i as int].value@,
            None => !table_view(entries@).contains_key(*address),
        },
{
    let mut i: usize = 0;
    while i < entries.len()
        invariant
            i <= entries.len(),
            distinct(entries@),
            forall|j: int| 0 <= j < i ==> entries[j].address != *address,
        decreases entries.len() - i,
    {
        if entries[i].address.same_as(address) {
            proof {
                lemma_slot(entries@, i as int);
            }
            return Some(i);
        }
        i = i + 1;
    }
    assert(!holds(entries@, *address));
    None
}

} // verus!
