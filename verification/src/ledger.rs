//! Model of the host ledger's record storage, as the creation handler
//! consumes it: exactly-once allocation per market identifier, paid for by
//! the payer.

use vstd::prelude::*;
use crate::keys::Pubkey;
use crate::state::Amm;

verus! {

/// The account funding an allocation: its address, its balance in lamports,
/// and whether the host verified it as a genuine transaction signer.
#[derive(Clone, Copy, Debug)]
pub struct Payer {
    pub address: Pubkey,
    pub lamports: u64,
    pub is_signer: bool,
}

/// The program-owned record storage: one slot per market identifier.
///
/// Each record sits at the storage address derived from its `id`; since that
/// derivation is injective under the host's cryptographic assumptions, the
/// slot occupancy check is modelled as a check on the identifier itself.
/// `alloc_cost` is the host's price, in lamports, of allocating one record.
pub struct Ledger {
    records: Vec<Amm>,
    alloc_cost: u64,
}

impl Ledger {
    /// The stored records, in order of creation.
    pub closed spec fn records_seq(self) -> Seq<Amm> {
        self.records@
    }

    /// The cost, in lamports, of allocating one record.
    pub closed spec fn alloc_cost_spec(self) -> u64 {
        self.alloc_cost
    }

    /// Well-formedness: no two records share an identifier, and every stored
    /// record has a valid fee.
    pub open spec fn wf(self) -> bool {
        &&& forall|i: int, j: int|
            0 <= i < j < self.records_seq().len() ==> self.records_seq()[i].id@
                != self.records_seq()[j].id@
        &&& forall|i: int|
            0 <= i < self.records_seq().len() ==> (#[trigger] self.records_seq()[i]).wf()
    }

    /// Some record is bound to identifier `id`.
    pub open spec fn contains_id(self, id: Seq<u8>) -> bool {
        exists|i: int|
            0 <= i < self.records_seq().len() && (#[trigger] self.records_seq()[i]).id@ == id
    }

    /// The position of the record bound to `id`; meaningful when
    /// `contains_id(id)` holds.
    pub open spec fn id_index(self, id: Seq<u8>) -> int {
        choose|i: int|
            0 <= i < self.records_seq().len() && (#[trigger] self.records_seq()[i]).id@ == id
    }

    /// The record bound to `id`; meaningful when `contains_id(id)` holds.
    pub open spec fn record_at(self, id: Seq<u8>) -> Amm {
        self.records_seq()[self.id_index(id)]
    }

    /// In a well-formed ledger the identifier picks its record's position
    /// uniquely.
    pub proof fn lemma_id_index_unique(self, id: Seq<u8>, i: int)
        requires
            self.wf(),
            0 <= i < self.records_seq().len(),
            self.records_seq()[i].id@ == id,
        ensures
            self.contains_id(id),
            self.id_index(id) == i,
            self.record_at(id) == self.records_seq()[i],
    {
        assert(self.contains_id(id));
        let j = self.id_index(id);
        if j < i {
            assert(self.records_seq()[j].id@ != self.records_seq()[i].id@);
        } else if i < j {
            assert(self.records_seq()[i].id@ != self.records_seq()[j].id@);
        }
    }

    /// An empty ledger whose host charges `alloc_cost` lamports per record
    /// allocation.
    pub fn new(alloc_cost: u64) -> (l: Ledger)
        ensures
            l.records_seq() == Seq::<Amm>::empty(),
            l.alloc_cost_spec() == alloc_cost,
            l.wf(),
    {
        let l = Ledger { records: Vec::new(), alloc_cost };
        proof {
            assert(l.records_seq() =~= Seq::<Amm>::empty());
        }
        l
    }

    /// The allocation cost of one record.
    pub fn alloc_cost(&self) -> (c: u64)
        ensures
            c == self.alloc_cost_spec(),
    {
        self.alloc_cost
    }

    /// Whether a record is already bound to `id`.
    pub fn has_record(&self, id: &Pubkey) -> (r: bool)
        ensures
            r == self.contains_id(id@),
    {
        let n = self.records.len();
        let mut i: usize = 0;
        while i < n
            invariant
                0 <= i <= n,
                n == self.records_seq().len(),
                forall|j: int| 0 <= j < i ==> (#[trigger] self.records_seq()[j]).id@ != id@,
            decreases n - i,
        {
            if self.records[i].id.eq_key(id) {
                return true;
            }
            i = i + 1;
        }
        false
    }

    /// Read-only lookup of the record bound to `id`, if any.
    pub fn find_record(&self, id: &Pubkey) -> (r: Option<Amm>)
        requires
            self.wf(),
        ensures
            (match r {
                Some(a) => self.contains_id(id@) && a == self.record_at(id@),
                None => !self.contains_id(id@),
            }),
    {
        let n = self.records.len();
        let mut i: usize = 0;
        while i < n
            invariant
                self.wf(),
                0 <= i <= n,
                n == self.records_seq().len(),
                forall|j: int| 0 <= j < i ==> (#[trigger] self.records_seq()[j]).id@ != id@,
            decreases n - i,
        {
            if self.records[i].id.eq_key(id) {
                proof {
                    self.lemma_id_index_unique(id@, i as int);
                }
                return Some(self.records[i]);
            }
            i = i + 1;
        }
        None
    }

    /// A failed creation retry changes no stored state: whenever the record
    /// list is unchanged (as the creation handler ensures on every failure),
    /// the record bound to any already-bound identifier is unchanged too.
    pub proof fn lemma_same_records_same_binding(self, after: Ledger, id: Seq<u8>)
        requires
            self.wf(),
            self.records_seq() == after.records_seq(),
            self.contains_id(id),
        ensures
            after.contains_id(id),
            after.record_at(id) == self.record_at(id),
    {
        let i = choose|i: int|
            0 <= i < self.records_seq().len() && (#[trigger] self.records_seq()[i]).id@ == id;
        self.lemma_id_index_unique(id, i);
        after.lemma_id_index_unique(id, i);
    }

    /// Writes a fresh record into its slot. Only the creation handler calls
    /// this, after the occupancy, fee and funding checks have passed.
    pub(crate) fn append_record(&mut self, amm: Amm)
        requires
            old(self).wf(),
            !old(self).contains_id(amm.id@),
            amm.wf(),
        ensures
            final(self).records_seq() == old(self).records_seq().push(amm),
            final(self).alloc_cost_spec() == old(self).alloc_cost_spec(),
            final(self).wf(),
    {
        self.records.push(amm);
        proof {
            let s = self.records_seq();
            let olds = old(self).records_seq();
            assert forall|i: int, j: int| 0 <= i < j < s.len() implies s[i].id@ != s[j].id@ by {
                if j < s.len() - 1 {
                    assert(olds[i].id@ != olds[j].id@);
                } else {
                    assert(s[j] == amm);
                    if olds[i].id@ == amm.id@ {
                        assert(old(self).contains_id(amm.id@));
                    }
                }
            }
        }
    }
}

} // verus!
