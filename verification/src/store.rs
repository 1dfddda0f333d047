//! The bounded history store: an ordered log of textual entries, capped at
//! [`CAPACITY`] entries, evicting the oldest entry first when full.

use vstd::prelude::*;

verus! {

/// Upper bound on the number of entries the store retains.
pub const CAPACITY: usize = 100;

/// What one bounded append does to the log, as a sequence transformer:
/// the entry goes at the tail, then entries leave the head until at most
/// [`CAPACITY`] remain.
pub open spec fn push_bounded(log: Seq<Seq<char>>, entry: Seq<char>) -> Seq<Seq<char>> {
    let grown = log.push(entry);
    if grown.len() <= CAPACITY {
        grown
    } else {
        grown.skip(grown.len() - CAPACITY)
    }
}

/// The result of clearing a log, whatever it held before: the empty log.
pub open spec fn cleared_log(log: Seq<Seq<char>>) -> Seq<Seq<char>> {
    Seq::empty()
}

/// The log left after appending each entry of `entries` in turn, oldest
/// first, to an initially empty store.
pub open spec fn fold_appends(entries: Seq<Seq<char>>) -> Seq<Seq<char>>
    decreases entries.len(),
{
    if entries.len() == 0 {
        Seq::empty()
    } else {
        push_bounded(fold_appends(entries.drop_last()), entries.last())
    }
}

/// Bounded-log law: after any sequence of appends to an empty store, the
/// store holds `min(N, CAPACITY)` entries, and when more than `CAPACITY`
/// were appended the retained entries are exactly the last `CAPACITY`
/// appended, in append order.
pub proof fn lemma_bounded_log(entries: Seq<Seq<char>>)
    ensures
        entries.len() <= CAPACITY ==> fold_appends(entries) == entries,
        entries.len() > CAPACITY ==> fold_appends(entries) == entries.skip(
            entries.len() - CAPACITY,
        ),
        fold_appends(entries).len() == if entries.len() <= CAPACITY {
            entries.len() as int
        } else {
            CAPACITY as int
        },
    decreases entries.len(),
{
    if entries.len() == 0 {
        assert(fold_appends(entries) =~= entries);
    } else {
        let prefix = entries.drop_last();
        lemma_bounded_log(prefix);
        if prefix.len() < CAPACITY {
            assert(fold_appends(entries) =~= entries);
        } else {
            assert(fold_appends(entries) =~= entries.skip(entries.len() - CAPACITY));
        }
    }
}

/// Clear-idempotence law: clearing an empty log, or clearing twice in a
/// row, leaves the log empty both times; any snapshot taken after a clear
/// sees the empty sequence.
pub proof fn lemma_clear_idempotent(log: Seq<Seq<char>>)
    ensures
        cleared_log(cleared_log(log)) == cleared_log(log),
        cleared_log(log) == Seq::<Seq<char>>::empty(),
        cleared_log(log).len() == 0,
{
}

/// Linearized-append law: appending K entries (K <= CAPACITY) to an empty
/// store retains every entry exactly once, in append order, so the final
/// length is exactly K and no update is lost or duplicated.
pub proof fn lemma_appends_linearized(entries: Seq<Seq<char>>)
    requires
        entries.len() <= CAPACITY,
    ensures
        fold_appends(entries) == entries,
        fold_appends(entries).len() == entries.len(),
        fold_appends(entries).to_multiset() == entries.to_multiset(),
{
    lemma_bounded_log(entries);
}

/// A bounded, order-preserving log of textual entries.
///
/// The view is the sequence of entries, oldest first. The length never
/// exceeds [`CAPACITY`]; appending to a full store evicts the entry at
/// the head (index 0).
pub struct HistoryStore {
    entries: Vec<String>,
}

impl View for HistoryStore {
    type V = Seq<Seq<char>>;

    closed spec fn view(&self) -> Seq<Seq<char>> {
        self.entries.deep_view()
    }
}

impl HistoryStore {
    /// Creates an empty store.
    pub fn new() -> (store: HistoryStore)
        ensures
            store@ == Seq::<Seq<char>>::empty(),
    {
        let store = HistoryStore { entries: Vec::new() };
        proof {
            assert(store@ =~= Seq::<Seq<char>>::empty());
        }
        store
    }

    /// Number of entries currently held.
    pub fn len(&self) -> (n: usize)
        ensures
            n == self@.len(),
    {
        self.entries.len()
    }

    /// Appends `entry` at the tail, then evicts entries at the head
    /// (index 0) until at most [`CAPACITY`] remain.
    pub fn append(&mut self, entry: String)
        ensures
            final(self)@ == push_bounded(old(self)@, entry@),
            final(self)@.len() <= CAPACITY,
    {
        let ghost grown: Seq<Seq<char>> = old(self)@.push(entry@);
        self.entries.push(entry);
        proof {
            assert(self.entries.deep_view() =~= grown);
        }
        while self.entries.len() > CAPACITY
            invariant
                self.entries.deep_view().len() <= grown.len(),
                grown.len() <= CAPACITY ==> self.entries.deep_view().len() == grown.len(),
                grown.len() > CAPACITY ==> self.entries.deep_view().len() >= CAPACITY,
                self.entries.deep_view() =~= grown.skip(
                    grown.len() - self.entries.deep_view().len(),
                ),
            decreases self.entries.deep_view().len(),
        {
            let ghost before: Seq<Seq<char>> = self.entries.deep_view();
            self.entries.remove(0);
            proof {
                assert(self.entries.deep_view() =~= before.skip(1));
                assert(self.entries.deep_view() =~= grown.skip(
                    grown.len() - self.entries.deep_view().len(),
                ));
            }
        }
        proof {
            if grown.len() <= CAPACITY {
                assert(self@ =~= grown);
            }
            assert(self@ =~= push_bounded(old(self)@, entry@));
        }
    }

    /// Empties the store.
    pub fn clear(&mut self)
        ensures
            final(self)@ == cleared_log(old(self)@),
            final(self)@ == Seq::<Seq<char>>::empty(),
    {
        self.entries.clear();
        proof {
            assert(self@ =~= Seq::<Seq<char>>::empty());
        }
    }

    /// Returns a copy of the current contents, oldest first.
    pub fn snapshot(&self) -> (copy: Vec<String>)
        ensures
            copy.deep_view() == self@,
    {
        let mut copy: Vec<String> = Vec::new();
        let mut i: usize = 0;
        while i < self.entries.len()
            invariant
                i <= self.entries.len(),
                copy@.len() == i,
                forall|j: int| 0 <= j < i ==> copy@[j] == self.entries@[j],
            decreases self.entries.len() - i,
        {
            copy.push(self.entries[i].clone());
            i += 1;
        }
        proof {
            assert(copy.deep_view() =~= self@);
        }
        copy
    }
}

} // verus!
