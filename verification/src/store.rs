//! The escrow store: one record per swap identifier.

use crate::bytes::same_bytes;
use crate::error::EscrowError;
use crate::htlc::HTLC;
use crate::model::HtlcView;
use vstd::prelude::*;

verus! {

/// The records of all escrows, each under its swap identifier, together with
/// the minimum horizon that the store asks of every timelock.
///
/// A record is created once and never removed. The store is seen in
/// contracts as a map from identifier to record.
pub struct EscrowStore {
    min_horizon: u64,
    records: Vec<HTLC>,
}

/// The position of the record with identifier `id` among `records`, when
/// there is one.
spec fn position_of(records: Seq<HTLC>, id: Seq<u8>) -> int {
    choose|i: int| 0 <= i < records.len() && (#[trigger] records[i]).id@ == id
}

/// Whether a record with identifier `id` is among `records`.
spec fn holds(records: Seq<HTLC>, id: Seq<u8>) -> bool {
    exists|i: int| 0 <= i < records.len() && (#[trigger] records[i]).id@ == id
}

/// No two of `records` share an identifier.
spec fn distinct_ids(records: Seq<HTLC>) -> bool {
    forall|i: int, j: int|
        0 <= i < j < records.len() ==> (#[trigger] records[i]).id@ != (#[trigger] records[j]).id@
}

/// The map that `records` stand for.
spec fn as_map(records: Seq<HTLC>) -> Map<Seq<u8>, HtlcView> {
    Map::new(|id: Seq<u8>| holds(records, id), |id: Seq<u8>| records[position_of(records, id)]@)
}

proof fn lemma_position(records: Seq<HTLC>, i: int)
    requires
        distinct_ids(records),
        0 <= i < records.len(),
    ensures
        holds(records, records[i].id@),
        position_of(records, records[i].id@) == i,
        as_map(records)[records[i].id@] == records[i]@,
{
    let id = records[i].id@;
    let p = position_of(records, id);
    assert(0 <= p < records.len() && records[p].id@ == id);
    if p < i {
        assert(records[p].id@ != records[i].id@);
    } else if i < p {
        assert(records[i].id@ != records[p].id@);
    }
}

proof fn lemma_push(records: Seq<HTLC>, record: HTLC)
    requires
        distinct_ids(records),
        !holds(records, record.id@),
    ensures
        distinct_ids(records.push(record)),
        as_map(records.push(record)) == as_map(records).insert(record.id@, record@),
{
    let grown = records.push(record);
    let last = records.len() as int;
    assert forall|i: int, j: int| 0 <= i < j < grown.len() implies (#[trigger] grown[i]).id@ != (
    #[trigger] grown[j]).id@ by {
        if j == last {
            assert(grown[i] == records[i]);
            assert(records[i].id@ != record.id@);
        } else {
            assert(grown[i] == records[i] && grown[j] == records[j]);
        }
    }
    assert forall|id: Seq<u8>| holds(grown, id) <==> holds(records, id) || id
        == record.id@ by {
        if holds(records, id) {
            let i = position_of(records, id);
            assert(grown[i].id@ == id);
        }
        if id == record.id@ {
            assert(grown[last].id@ == id);
        }
        if holds(grown, id) {
            let i = position_of(grown, id);
            if i != last {
                assert(records[i].id@ == id);
            }
        }
    }
    assert forall|id: Seq<u8>| holds(grown, id) implies #[trigger] as_map(grown)[id] == as_map(
        records,
    ).insert(record.id@, record@)[id] by {
        let i = position_of(grown, id);
        lemma_position(grown, i);
        if i != last {
            assert(records[i].id@ == id);
            lemma_position(records, i);
        }
    }
    assert(as_map(grown) =~= as_map(records).insert(record.id@, record@));
}

proof fn lemma_replace(records: Seq<HTLC>, i: int, record: HTLC)
    requires
        distinct_ids(records),
        0 <= i < records.len(),
        record.id@ == records[i].id@,
    ensures
        distinct_ids(records.update(i, record)),
        as_map(records.update(i, record)) == as_map(records).insert(record.id@, record@),
{
    let changed = records.update(i, record);
    assert forall|a: int, b: int| 0 <= a < b < changed.len() implies (#[trigger] changed[a]).id@
        != (#[trigger] changed[b]).id@ by {
        assert(changed[a].id@ == records[a].id@);
        assert(changed[b].id@ == records[b].id@);
    }
    assert forall|id: Seq<u8>| holds(changed, id) <==> holds(records, id) by {
        if holds(records, id) {
            let p = position_of(records, id);
            assert(changed[p].id@ == id);
        }
        if holds(changed, id) {
            let p = position_of(changed, id);
            assert(records[p].id@ == id);
        }
    }
    lemma_position(records, i);
    assert forall|id: Seq<u8>| holds(changed, id) implies #[trigger] as_map(changed)[id] == as_map(
        records,
    ).insert(record.id@, record@)[id] by {
        let p = position_of(changed, id);
        lemma_position(changed, p);
        assert(records[p].id@ == id);
        lemma_position(records, p);
    }
    assert(as_map(changed) =~= as_map(records).insert(record.id@, record@));
}

impl View for EscrowStore {
    type V = Map<Seq<u8>, HtlcView>;

    closed spec fn view(&self) -> Map<Seq<u8>, HtlcView> {
        as_map(self.records@)
    }
}

impl EscrowStore {
    /// The store's invariant: no identifier has two records, and every
    /// record is well formed.
    pub closed spec fn wf(&self) -> bool {
        &&& distinct_ids(self.records@)
        &&& forall|i: int| 0 <= i < self.records@.len() ==> (#[trigger] self.records@[i]).wf()
    }

    /// The minimum horizon that the store asks of every timelock.
    pub closed spec fn spec_min_horizon(&self) -> u64 {
        self.min_horizon
    }

    /// In a well-formed store every record is well formed and is kept under
    /// its own identifier.
    pub proof fn lemma_records(&self, id: Seq<u8>)
        requires
            self.wf(),
            self@.contains_key(id),
        ensures
            self@[id].wf(),
            self@[id].id == id,
    {
        let i = position_of(self.records@, id);
        assert(self.records@[i].wf());
    }

    /// Makes an empty store that asks `min_horizon` of every timelock.
    pub fn new(min_horizon: u64) -> (store: EscrowStore)
        ensures
            store.wf(),
            store@ == Map::<Seq<u8>, HtlcView>::empty(),
            store.spec_min_horizon() == min_horizon,
    {
        let store = EscrowStore { min_horizon, records: Vec::new() };
        assert(store@ =~= Map::<Seq<u8>, HtlcView>::empty());
        store
    }

    /// Returns the minimum horizon that the store asks of every timelock.
    pub fn min_horizon(&self) -> (horizon: u64)
        ensures
            horizon == self.spec_min_horizon(),
    {
        self.min_horizon
    }

    /// Finds the position of the record with identifier `id`.
    fn find(&self, id: &[u8; 32]) -> (found: Option<usize>)
        ensures
            match found {
                Some(i) => i < self.records@.len() && self.records@[i as int].id@ == id@,
                None => !holds(self.records@, id@),
            },
    {
        let mut i: usize = 0;
        while i < self.records.len()
            invariant
                i <= self.records@.len(),
                forall|k: int| 0 <= k < i ==> (#[trigger] self.records@[k]).id@ != id@,
            decreases self.records@.len() - i,
        {
            if same_bytes(&self.records[i].id, id) {
                return Some(i);
            }
            i += 1;
        }
        None
    }

    /// Tells whether `id` has a record.
    pub fn contains(&self, id: &[u8; 32]) -> (found: bool)
        ensures
            found == self@.contains_key(id@),
    {
        self.find(id).is_some()
    }

    /// Looks up the record of `id`.
    pub fn get(&self, id: &[u8; 32]) -> (found: Option<&HTLC>)
        requires
            self.wf(),
        ensures
            match found {
                Some(record) => self@.contains_key(id@) && record@ == self@[id@] && record.wf(),
                None => !self@.contains_key(id@),
            },
    {
        match self.find(id) {
            Some(i) => {
                proof {
                    lemma_position(self.records@, i as int);
                }
                Some(&self.records[i])
            },
            None => None,
        }
    }

    /// Adds the record of a new escrow under the record's own identifier.
    /// Fails, and changes nothing, when that identifier has a record
    /// already.
    pub fn create(&mut self, record: HTLC) -> (outcome: Result<(), EscrowError>)
        requires
            old(self).wf(),
            record.wf(),
        ensures
            final(self).wf(),
            final(self).spec_min_horizon() == old(self).spec_min_horizon(),
            match outcome {
                Ok(_) => !old(self)@.contains_key(record.id@) && final(self)@ == old(self)@.insert(
                    record.id@,
                    record@,
                ),
                Err(e) => e == EscrowError::AlreadyExists && old(self)@.contains_key(record.id@)
                    && final(self)@ == old(self)@,
            },
    {
        match self.find(&record.id) {
            Some(_) => Err(EscrowError::AlreadyExists),
            None => {
                proof {
                    lemma_push(self.records@, record);
                }
                self.records.push(record);
                Ok(())
            },
        }
    }

    /// Replaces the record kept under the record's own identifier. Fails,
    /// and changes nothing, when that identifier has no record.
    pub fn put(&mut self, record: HTLC) -> (outcome: Result<(), EscrowError>)
        requires
            old(self).wf(),
            record.wf(),
        ensures
            final(self).wf(),
            final(self).spec_min_horizon() == old(self).spec_min_horizon(),
            match outcome {
                Ok(_) => old(self)@.contains_key(record.id@) && final(self)@ == old(self)@.insert(
                    record.id@,
                    record@,
                ),
                Err(e) => e == EscrowError::NotFound && !old(self)@.contains_key(record.id@)
                    && final(self)@ == old(self)@,
            },
    {
        match self.find(&record.id) {
            Some(i) => {
                proof {
                    lemma_replace(self.records@, i as int, record);
                }
                self.records[i] = record;
                Ok(())
            },
            None => Err(EscrowError::NotFound),
        }
    }
}

} // verus!
