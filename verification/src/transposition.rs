//! A fixed-capacity, hash-indexed memo of previously searched positions.
//!
//! Each position fingerprint maps to one slot; a slot keeps at most one
//! entry, and an incoming entry replaces a stored one only when its search
//! depth is strictly greater (depth-preferred replacement, ties favor the
//! stored entry). Lookups compare the stored fingerprint, so a colliding
//! unrelated position reads as a miss rather than a false hit.

use vstd::prelude::*;

verus! {

use crate::types::{Move, Score};

/// How many slots every table has.
pub const TABLE_SLOTS: usize = 1_000_000;

/// A score bound recorded for a searched position.
#[derive(Clone, Copy, PartialEq, Eq, Debug)]
pub enum Evaluation {
    Exact(Score),
    Beta(Score),
    Alpha(Score),
}

/// The score carried by a recorded bound.
pub open spec fn eval_score(e: Evaluation) -> int {
    match e {
        Evaluation::Exact(s) => s as int,
        Evaluation::Beta(s) => s as int,
        Evaluation::Alpha(s) => s as int,
    }
}

/// One memoized position.
#[derive(Clone, Copy, PartialEq, Eq, Debug)]
pub struct TableEntry {
    /// Fingerprint (zobrist-style hash) of the position.
    pub hash: u64,
    /// Depth of the search that produced the score.
    pub depth: u8,
    /// The score recorded on a previous search of this position.
    pub eval: Evaluation,
    /// The best move or refutation of this position, when known.
    pub following_move: Option<Move>,
}

/// The slot a fingerprint maps to.
pub open spec fn slot_index(cap: nat, hash: u64) -> int {
    hash as int % cap as int
}

/// The entry that a store writes.
pub open spec fn stored_entry(hash: u64, depth: u8, eval: Evaluation) -> TableEntry {
    TableEntry { hash, depth, eval, following_move: None }
}

/// What the slots look like after a store: the fingerprint's slot takes the
/// new entry if it was empty or held a strictly shallower entry, and keeps
/// what it had otherwise; no other slot changes.
pub open spec fn spec_store(
    slots: Seq<Option<TableEntry>>,
    cap: nat,
    hash: u64,
    depth: u8,
    eval: Evaluation,
) -> Seq<Option<TableEntry>>
    recommends
        cap > 0,
        slots.len() == cap,
{
    let i = slot_index(cap, hash);
    match slots[i] {
        None => slots.update(i, Some(stored_entry(hash, depth, eval))),
        Some(e) => if e.depth < depth {
            slots.update(i, Some(stored_entry(hash, depth, eval)))
        } else {
            slots
        },
    }
}

/// What a lookup returns: the fingerprint's slot entry, and only when the
/// stored fingerprint matches.
pub open spec fn spec_retrieve(slots: Seq<Option<TableEntry>>, cap: nat, hash: u64) -> Option<
    TableEntry,
>
    recommends
        cap > 0,
        slots.len() == cap,
{
    match slots[slot_index(cap, hash)] {
        Some(e) => if e.hash == hash {
            Some(e)
        } else {
            None
        },
        None => None,
    }
}

/// A fixed number of slots, each holding at most one entry.
pub struct TranspositionTable {
    transpositions: Vec<Option<TableEntry>>,
    size: usize,
}

impl TranspositionTable {
    /// The slot contents.
    pub closed spec fn slots(&self) -> Seq<Option<TableEntry>> {
        self.transpositions@
    }

    /// The fixed slot count.
    pub closed spec fn capacity(&self) -> nat {
        self.size as nat
    }

    /// The slot vector matches the declared capacity.
    pub open spec fn wf(&self) -> bool {
        self.slots().len() == self.capacity() && self.capacity() > 0
    }

    /// A fresh table: every slot empty.
    pub fn new() -> (r: TranspositionTable)
        ensures
            r.wf(),
            r.capacity() == TABLE_SLOTS,
            forall|i: int| 0 <= i < r.slots().len() ==> r.slots()[i] is None,
    {
        let mut transpositions: Vec<Option<TableEntry>> = Vec::new();
        while transpositions.len() < TABLE_SLOTS
            invariant
                transpositions@.len() <= TABLE_SLOTS,
                forall|i: int| 0 <= i < transpositions@.len() ==> transpositions@[i] is None,
            decreases TABLE_SLOTS - transpositions@.len(),
        {
            transpositions.push(None);
        }
        TranspositionTable { transpositions, size: TABLE_SLOTS }
    }

    /// How many slots the table has.
    pub fn len(&self) -> (r: usize)
        ensures
            r == self.slots().len(),
    {
        self.transpositions.len()
    }

    /// Whether the table has no slots at all.
    pub fn is_empty(&self) -> (r: bool)
        ensures
            r == (self.slots().len() == 0),
    {
        self.transpositions.is_empty()
    }

    /// Record a searched position, preferring the deeper search: the entry
    /// is written only if the slot is empty or holds a strictly shallower
    /// entry.
    pub fn store(&mut self, hash: u64, depth: u8, eval: Evaluation)
        requires
            old(self).wf(),
        ensures
            final (self).wf(),
            final (self).capacity() == old(self).capacity(),
            final (self).slots() == spec_store(
                old(self).slots(),
                old(self).capacity(),
                hash,
                depth,
                eval,
            ),
    {
        let position = (hash % (self.size as u64)) as usize;
        assert(position == slot_index(self.capacity(), hash));
        let write = match self.transpositions[position] {
            None => true,
            Some(e) => e.depth < depth,
        };
        if write {
            self.transpositions[position] =
                Some(TableEntry { hash, depth, eval, following_move: None });
        }
    }

    /// Look a fingerprint up: the stored entry, or a miss when the slot is
    /// empty or holds a different fingerprint.
    pub fn retrieve(&mut self, hash: u64) -> (r: Option<TableEntry>)
        requires
            old(self).wf(),
        ensures
            *final (self) == *old(self),
            r == spec_retrieve(old(self).slots(), old(self).capacity(), hash),
    {
        let position = (hash % (self.size as u64)) as usize;
        assert(position == slot_index(self.capacity(), hash));
        match self.transpositions[position] {
            None => None,
            Some(e) => if e.hash == hash {
                Some(e)
            } else {
                None
            },
        }
    }
}

/// Law: storing an entry and then retrieving the same fingerprint returns
/// that entry unchanged, whenever the store takes effect (the slot was empty
/// or held a strictly shallower entry).
pub proof fn lemma_store_then_retrieve(
    slots: Seq<Option<TableEntry>>,
    cap: nat,
    hash: u64,
    depth: u8,
    eval: Evaluation,
)
    requires
        cap > 0,
        slots.len() == cap,
        slots[slot_index(cap, hash)] matches Some(e) ==> e.depth < depth,
    ensures
        spec_retrieve(spec_store(slots, cap, hash, depth, eval), cap, hash) == Some(
            stored_entry(hash, depth, eval),
        ),
{
}

/// Law: retrieving a fingerprint that no slot holds is a miss.
pub proof fn lemma_retrieve_unseen(slots: Seq<Option<TableEntry>>, cap: nat, hash: u64)
    requires
        cap > 0,
        slots.len() == cap,
        forall|i: int|
            0 <= i < slots.len() ==> ((#[trigger] slots[i]) matches Some(e) ==> e.hash != hash),
    ensures
        spec_retrieve(slots, cap, hash) is None,
{
}

/// Law: storing at a depth no greater than the stored entry's leaves the
/// table untouched (ties favor the existing entry).
pub proof fn lemma_shallow_store_keeps(
    slots: Seq<Option<TableEntry>>,
    cap: nat,
    hash: u64,
    depth: u8,
    eval: Evaluation,
)
    requires
        cap > 0,
        slots.len() == cap,
        slots[slot_index(cap, hash)] matches Some(e) && depth <= e.depth,
    ensures
        spec_store(slots, cap, hash, depth, eval) == slots,
{
}

/// Law: a different fingerprint mapping to the same slot evicts the stored
/// entry once the depth condition is met; afterwards the old fingerprint
/// misses and the new one hits.
pub proof fn lemma_colliding_store_evicts(
    slots: Seq<Option<TableEntry>>,
    cap: nat,
    old_hash: u64,
    new_hash: u64,
    depth: u8,
    eval: Evaluation,
)
    requires
        cap > 0,
        slots.len() == cap,
        old_hash != new_hash,
        slot_index(cap, old_hash) == slot_index(cap, new_hash),
        slots[slot_index(cap, old_hash)] matches Some(e) && e.depth < depth,
    ensures
        spec_retrieve(spec_store(slots, cap, new_hash, depth, eval), cap, old_hash) is None,
        spec_retrieve(spec_store(slots, cap, new_hash, depth, eval), cap, new_hash) == Some(
            stored_entry(new_hash, depth, eval),
        ),
{
}

impl Default for TranspositionTable {
    /// A fresh table, exactly as `new` builds it.
    fn default() -> (r: TranspositionTable)
        ensures
            r.wf(),
            r.capacity() == TABLE_SLOTS,
            forall|i: int| 0 <= i < r.slots().len() ==> r.slots()[i] is None,
    {
        TranspositionTable::new()
    }
}

} // verus!
