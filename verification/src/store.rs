//! The bounded history store: the most recent records, oldest first.

use vstd::prelude::*;
use crate::record::{MarketData, Tick, ticks};

verus! {

/// The largest number of records that a [`HistoryStore`] holds.
pub const CAPACITY: usize = 1000;

/// What a history holds after one more record has arrived: the record goes
/// to the end, and if that makes the history longer than [`CAPACITY`], the
/// element at index 0 leaves.
pub open spec fn appended(history: Seq<Tick>, record: Tick) -> Seq<Tick> {
    let grown = history.push(record);
    if grown.len() > CAPACITY {
        grown.drop_first()
    } else {
        grown
    }
}

/// What a history holds after the records of `arrivals` have arrived one by
/// one, first to last.
pub open spec fn appended_all(history: Seq<Tick>, arrivals: Seq<Tick>) -> Seq<Tick>
    decreases arrivals.len(),
{
    if arrivals.len() == 0 {
        history
    } else {
        appended(appended_all(history, arrivals.drop_last()), arrivals.last())
    }
}

/// The last [`CAPACITY`] elements of `records`, or all of them if there are
/// fewer.
pub open spec fn most_recent(records: Seq<Tick>) -> Seq<Tick> {
    if records.len() > CAPACITY {
        records.subrange(records.len() - CAPACITY, records.len() as int)
    } else {
        records
    }
}

/// An insertion-ordered container of the most recent records, with
/// first-in-first-out eviction once [`CAPACITY`] is reached.
#[derive(Debug)]
pub struct HistoryStore {
    records: Vec<MarketData>,
}

impl View for HistoryStore {
    type V = Seq<Tick>;

    closed spec fn view(&self) -> Seq<Tick> {
        ticks(self.records@)
    }
}

impl HistoryStore {
    #[verifier::type_invariant]
    spec fn within_capacity(self) -> bool {
        self.records@.len() <= CAPACITY
    }

    /// An empty store.
    pub fn new() -> (store: Self)
        ensures
            store@ == Seq::<Tick>::empty(),
    {
        let store = HistoryStore { records: Vec::new() };
        assert(store@ =~= Seq::<Tick>::empty());
        store
    }

    /// The number of records held.
    pub fn len(&self) -> (n: usize)
        ensures
            n == self@.len(),
            n <= CAPACITY,
    {
        proof {
            use_type_invariant(&*self);
        }
        self.records.len()
    }

    /// Whether the store holds no record.
    pub fn is_empty(&self) -> (empty: bool)
        ensures
            empty == (self@.len() == 0),
    {
        self.records.len() == 0
    }

    /// Inserts `record` at the end; a store that was full loses its oldest
    /// record.
    pub fn append(&mut self, record: MarketData)
        ensures
            final(self)@ == appended(old(self)@, record@),
            final(self)@.len() == if old(self)@.len() < CAPACITY {
                old(self)@.len() + 1
            } else {
                CAPACITY as nat
            },
    {
        proof {
            use_type_invariant(&*self);
        }
        let mut records: Vec<MarketData> = Vec::new();
        std::mem::swap(&mut records, &mut self.records);
        records.push(record);
        if records.len() > CAPACITY {
            let _ = records.remove(0);
        }
        assert(ticks(records@) =~= appended(old(self)@, record@));
        self.records = records;
    }

    /// An independent copy of the records held, oldest first.
    pub fn snapshot(&self) -> (copy: Vec<MarketData>)
        ensures
            ticks(copy@) == self@,
            copy@.len() <= CAPACITY,
    {
        proof {
            use_type_invariant(&*self);
        }
        let mut copy: Vec<MarketData> = Vec::new();
        let mut i: usize = 0;
        while i < self.records.len()
            invariant
                i <= self.records.len(),
                ticks(copy@) == ticks(self.records@.take(i as int)),
            decreases self.records.len() - i,
        {
            let record = self.records[i].clone();
            let ghost before = copy@;
            copy.push(record);
            assert(ticks(copy@) =~= ticks(self.records@.take(i + 1))) by {
                let done = self.records@.take(i as int);
                assert(ticks(before).len() == ticks(done).len());
                assert forall|j: int| 0 <= j < i implies copy@[j]@ == self.records@[j]@ by {
                    assert(ticks(before)[j] == ticks(done)[j]);
                }
            }
            i += 1;
        }
        assert(self.records@.take(i as int) =~= self.records@);
        copy
    }
}

/// One more arrival moves the window of the most recent records along by
/// one: appending to the window of `records` gives the window of `records`
/// with the new record at its end.
pub proof fn lemma_appended_moves_window(records: Seq<Tick>, record: Tick)
    ensures
        appended(most_recent(records), record) == most_recent(records.push(record)),
{
    assert(appended(most_recent(records), record) =~= most_recent(records.push(record)));
}

/// A store that held `history` and then took in `arrivals` holds the most
/// recent records of the two taken together, in arrival order: eviction is
/// first in, first out.
pub proof fn lemma_appended_all_is_most_recent(history: Seq<Tick>, arrivals: Seq<Tick>)
    requires
        history.len() <= CAPACITY,
    ensures
        appended_all(history, arrivals) == most_recent(history + arrivals),
    decreases arrivals.len(),
{
    if arrivals.len() == 0 {
        assert(history + arrivals =~= history);
    } else {
        let earlier = arrivals.drop_last();
        lemma_appended_all_is_most_recent(history, earlier);
        lemma_appended_moves_window(history + earlier, arrivals.last());
        assert((history + earlier).push(arrivals.last()) =~= history + arrivals);
    }
}

/// After any number of appends to an empty store, the store's length is the
/// number of appends so far or [`CAPACITY`], whichever is smaller.
pub proof fn lemma_length_after_appends(arrivals: Seq<Tick>)
    ensures
        appended_all(Seq::empty(), arrivals).len() == if arrivals.len() <= CAPACITY {
            arrivals.len()
        } else {
            CAPACITY as nat
        },
{
    lemma_appended_all_is_most_recent(Seq::empty(), arrivals);
    assert(Seq::<Tick>::empty() + arrivals =~= arrivals);
}

/// After any number of appends to an empty store, the store holds exactly
/// the last [`CAPACITY`] arrivals in arrival order, and every earlier
/// arrival has left.
pub proof fn lemma_oldest_leave_first(arrivals: Seq<Tick>)
    ensures
        appended_all(Seq::empty(), arrivals) == most_recent(arrivals),
        forall|i: int|
            0 <= i < most_recent(arrivals).len() ==> #[trigger] most_recent(arrivals)[i]
                == arrivals[arrivals.len() - most_recent(arrivals).len() + i],
{
    lemma_appended_all_is_most_recent(Seq::empty(), arrivals);
    assert(Seq::<Tick>::empty() + arrivals =~= arrivals);
}

/// Appending `first` and then `later` is appending the two in one go.
pub proof fn lemma_appended_all_composes(history: Seq<Tick>, first: Seq<Tick>, later: Seq<Tick>)
    ensures
        appended_all(history, first + later) == appended_all(appended_all(history, first), later),
    decreases later.len(),
{
    if later.len() == 0 {
        assert(first + later =~= first);
    } else {
        lemma_appended_all_composes(history, first, later.drop_last());
        assert((first + later).drop_last() =~= first + later.drop_last());
    }
}

/// A snapshot read after the records of `taken` were appended to an empty
/// store, and before any further append, holds exactly `taken`, in insertion
/// order, provided that `taken` fits into the store. The store goes on from
/// there with the records of `later`; the snapshot is a value of its own and
/// stays what it was.
pub proof fn lemma_snapshot_after_appends(taken: Seq<Tick>, later: Seq<Tick>)
    requires
        taken.len() <= CAPACITY,
    ensures
        appended_all(Seq::empty(), taken) == taken,
        appended_all(Seq::empty(), taken + later) == appended_all(taken, later),
{
    lemma_appended_all_is_most_recent(Seq::empty(), taken);
    assert(Seq::<Tick>::empty() + taken =~= taken);
    lemma_appended_all_composes(Seq::empty(), taken, later);
}

} // verus!
