//! The contents of a least-recently-used store as a sequence of entries,
//! the most recently used first, and what reading, writing and removing do
//! to that sequence.

use vstd::prelude::*;

verus! {

/// What a store keeps for a key: a flag and a time in milliseconds.
pub type Slot = (bool, i64);

/// The entries of a store, the most recently used first.
pub type Entries = Seq<(u32, (bool, i64))>;

/// What the store keeps for `key`, if it keeps anything.
pub open spec fn lookup(entries: Entries, key: u32) -> Option<Slot>
    decreases entries.len(),
{
    if entries.len() == 0 {
        None
    } else if entries[0].0 == key {
        Some(entries[0].1)
    } else {
        lookup(entries.drop_first(), key)
    }
}

/// The entries other than that of `key`, in their order.
pub open spec fn without(entries: Entries, key: u32) -> Entries
    decreases entries.len(),
{
    if entries.len() == 0 {
        entries
    } else if entries[0].0 == key {
        without(entries.drop_first(), key)
    } else {
        seq![entries[0]] + without(entries.drop_first(), key)
    }
}

/// Whether no key occurs twice.
pub open spec fn distinct_keys(entries: Entries) -> bool
    decreases entries.len(),
{
    entries.len() == 0 || (lookup(entries.drop_first(), entries[0].0) is None && distinct_keys(
        entries.drop_first(),
    ))
}

/// What a store made for `cap` entries can hold: at most `cap` entries, no
/// key twice.
pub open spec fn well_formed(entries: Entries, cap: nat) -> bool {
    &&& 0 < cap
    &&& entries.len() <= cap
    &&& distinct_keys(entries)
}

/// The entries after `key` is read: its entry, if there is one, has moved to
/// the front.
pub open spec fn touched(entries: Entries, key: u32) -> Entries {
    match lookup(entries, key) {
        Some(slot) => seq![(key, slot)] + without(entries, key),
        None => entries,
    }
}

/// The entries after `slot` is written for `key` into a store made for `cap`
/// entries. The new entry stands at the front. An entry that the key had
/// before is replaced; otherwise, if the store is full, the entry at the
/// back, the least recently used, makes room.
pub open spec fn inserted(entries: Entries, cap: nat, key: u32, slot: Slot) -> Entries {
    if lookup(entries, key) is Some {
        seq![(key, slot)] + without(entries, key)
    } else if entries.len() == cap {
        seq![(key, slot)] + entries.drop_last()
    } else {
        seq![(key, slot)] + entries
    }
}

/// Removing a key leaves every other key as it was.
pub proof fn lemma_without(entries: Entries, key: u32, other: u32)
    ensures
        lookup(without(entries, key), key) is None,
        other != key ==> lookup(without(entries, key), other) == lookup(entries, other),
        without(entries, key).len() <= entries.len(),
        lookup(entries, key) is None ==> without(entries, key) == entries,
        distinct_keys(entries) ==> distinct_keys(without(entries, key)),
        distinct_keys(entries) && lookup(entries, key) is Some ==> without(entries, key).len() + 1
            == entries.len(),
    decreases entries.len(),
{
    if entries.len() > 0 {
        let rest = entries.drop_first();
        lemma_without(rest, key, other);
        lemma_without(rest, key, entries[0].0);
        if entries[0].0 != key {
            let kept = seq![entries[0]] + without(rest, key);
            assert(kept.drop_first() =~= without(rest, key));
            assert(kept[0] == entries[0]);
            if lookup(entries, key) is None {
                assert(kept =~= entries);
            }
        }
    }
}

/// What a key has after an entry is put in front.
pub proof fn lemma_lookup_front(entries: Entries, key: u32, slot: Slot, other: u32)
    ensures
        lookup(seq![(key, slot)] + entries, other) == if other == key {
            Some(slot)
        } else {
            lookup(entries, other)
        },
        lookup(entries, key) is None && distinct_keys(entries) ==> distinct_keys(
            seq![(key, slot)] + entries,
        ),
{
    let whole = seq![(key, slot)] + entries;
    assert(whole.drop_first() =~= entries);
    assert(whole[0] == (key, slot));
}

/// What a key has after the entry at the back is dropped.
pub proof fn lemma_drop_last(entries: Entries, other: u32)
    requires
        entries.len() > 0,
        distinct_keys(entries),
    ensures
        distinct_keys(entries.drop_last()),
        lookup(entries, entries.last().0) == Some(entries.last().1),
        lookup(entries.drop_last(), other) == if other == entries.last().0 {
            None
        } else {
            lookup(entries, other)
        },
    decreases entries.len(),
{
    let front = entries.drop_last();
    if entries.len() > 1 {
        let rest = entries.drop_first();
        lemma_drop_last(rest, other);
        lemma_drop_last(rest, entries[0].0);
        assert(front.drop_first() =~= rest.drop_last());
        assert(rest.last() == entries.last());
        assert(front[0] == entries[0]);
        assert(entries[0].0 != entries.last().0);
        assert(front.len() > 0);
        if entries[0].0 == other {
            assert(lookup(front, other) == Some(entries[0].1));
            assert(lookup(entries, other) == Some(entries[0].1));
        } else {
            assert(lookup(front, other) == lookup(rest.drop_last(), other));
            assert(lookup(entries, other) == lookup(rest, other));
        }
    } else {
        assert(front.len() == 0);
        assert(entries.drop_first().len() == 0);
        assert(entries.last() == entries[0]);
        assert(lookup(front, other) is None);
        assert(lookup(entries.drop_first(), other) is None);
    }
}

/// Reading keeps a store well formed and changes what no key has.
pub proof fn lemma_touched(entries: Entries, cap: nat, key: u32, other: u32)
    requires
        well_formed(entries, cap),
    ensures
        well_formed(touched(entries, key), cap),
        lookup(touched(entries, key), other) == lookup(entries, other),
{
    lemma_without(entries, key, other);
    match lookup(entries, key) {
        Some(slot) => {
            lemma_lookup_front(without(entries, key), key, slot, other);
        },
        None => {},
    }
}

/// Writing keeps a store well formed, gives the key what was written, and
/// takes away at most the least recently used entry.
pub proof fn lemma_inserted(entries: Entries, cap: nat, key: u32, slot: Slot, other: u32)
    requires
        well_formed(entries, cap),
    ensures
        well_formed(inserted(entries, cap, key, slot), cap),
        lookup(inserted(entries, cap, key, slot), key) == Some(slot),
        other != key ==> lookup(inserted(entries, cap, key, slot), other) == if lookup(
            entries,
            key,
        ) is None && entries.len() == cap && other == entries.last().0 {
            None
        } else {
            lookup(entries, other)
        },
{
    lemma_without(entries, key, other);
    if lookup(entries, key) is Some {
        lemma_lookup_front(without(entries, key), key, slot, other);
        lemma_lookup_front(without(entries, key), key, slot, key);
    } else if entries.len() == cap {
        lemma_drop_last(entries, other);
        lemma_drop_last(entries, key);
        lemma_lookup_front(entries.drop_last(), key, slot, other);
        lemma_lookup_front(entries.drop_last(), key, slot, key);
    } else {
        lemma_lookup_front(entries, key, slot, other);
        lemma_lookup_front(entries, key, slot, key);
    }
}

/// Removing keeps a store well formed.
pub proof fn lemma_removed(entries: Entries, cap: nat, key: u32)
    requires
        well_formed(entries, cap),
    ensures
        well_formed(without(entries, key), cap),
{
    lemma_without(entries, key, key);
}

} // verus!
