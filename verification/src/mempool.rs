use vstd::prelude::*;

use crate::bytes::bytes_eq;
use crate::msgs::{Inventory, InvV, Transaction, Txid, TxV};

verus! {

/// The transaction stored under a txid, if any.
pub open spec fn mp_get(s: Seq<TxV>, id: Seq<u8>) -> Option<TxV>
    decreases s.len(),
{
    if s.len() == 0 {
        None
    } else if s[0].txid == id {
        Some(s[0])
    } else {
        mp_get(s.drop_first(), id)
    }
}

pub open spec fn mp_has(s: Seq<TxV>, id: Seq<u8>) -> bool {
    mp_get(s, id) is Some
}

/// What an inventory item asks the mempool for: a transaction id, under
/// either the plain or the witness variant (a wtxid is reinterpreted as a
/// txid by direct byte reuse); block-kind items never resolve.
pub open spec fn inv_lookup(item: InvV, s: Seq<TxV>) -> Option<TxV> {
    match item {
        InvV::Transaction(id) => mp_get(s, id),
        InvV::WitnessTransaction(id) => mp_get(s, id),
        InvV::Error => None,
        InvV::Block(_) => None,
        InvV::WitnessBlock(_) => None,
    }
}

proof fn lemma_mp_get_single(t: TxV, id: Seq<u8>)
    ensures
        mp_get(seq![t], id) == if t.txid == id {
            Some(t)
        } else {
            None::<TxV>
        },
{
    reveal_with_fuel(mp_get, 3);
    assert(seq![t].drop_first() =~= Seq::<TxV>::empty());
}

proof fn lemma_mp_get_at(s: Seq<TxV>, id: Seq<u8>, k: int)
    requires
        0 <= k < s.len(),
        s[k].txid == id,
        forall|j: int| 0 <= j < k ==> (#[trigger] s[j]).txid != id,
    ensures
        mp_get(s, id) == Some(s[k]),
    decreases s.len(),
{
    if k > 0 {
        lemma_mp_get_at(s.drop_first(), id, k - 1);
    }
}

proof fn lemma_mp_get_none(s: Seq<TxV>, id: Seq<u8>)
    requires
        forall|j: int| 0 <= j < s.len() ==> (#[trigger] s[j]).txid != id,
    ensures
        mp_get(s, id) is None,
    decreases s.len(),
{
    if s.len() > 0 {
        lemma_mp_get_none(s.drop_first(), id);
    }
}

proof fn lemma_mp_get_concat(a: Seq<TxV>, b: Seq<TxV>, id: Seq<u8>)
    ensures
        mp_get(a + b, id) == if mp_has(a, id) {
            mp_get(a, id)
        } else {
            mp_get(b, id)
        },
    decreases a.len(),
{
    if a.len() == 0 {
        assert(a + b =~= b);
    } else {
        assert((a + b).drop_first() =~= a.drop_first() + b);
        lemma_mp_get_concat(a.drop_first(), b, id);
    }
}

/// Container for unconfirmed, but valid Bitcoin transactions, keyed by txid.
/// It is normally shared between peers by the embedding program, so that
/// transactions are not duplicated in memory.
pub struct Mempool {
    entries: Vec<Transaction>,
}

impl View for Mempool {
    type V = Seq<TxV>;

    closed spec fn view(&self) -> Seq<TxV> {
        Seq::new(self.entries@.len(), |i: int| self.entries@[i]@)
    }
}

impl Mempool {
    /// No two entries share a txid.
    pub open spec fn wf(self) -> bool {
        forall|i: int, j: int| 0 <= i < j < self@.len()
            ==> (#[trigger] self@[i]).txid != (#[trigger] self@[j]).txid
    }

    pub fn new() -> (r: Mempool)
        ensures
            r@.len() == 0,
            r.wf(),
    {
        let r = Mempool { entries: Vec::new() };
        proof {
            assert(r@ =~= Seq::<TxV>::empty());
        }
        r
    }

    /// Index of the entry holding `id`, if any.
    fn find(&self, id: &Vec<u8>) -> (r: Option<usize>)
        ensures
            (r matches Some(k) ==> k < self@.len() && self@[k as int].txid == id@
                && (forall|j: int| 0 <= j < k ==> (#[trigger] self@[j]).txid != id@)
                && mp_get(self@, id@) == Some(self@[k as int])),
            (r is None ==> !mp_has(self@, id@)),
    {
        let mut k: usize = 0;
        while k < self.entries.len()
            invariant
                k <= self@.len(),
                self@.len() == self.entries@.len(),
                forall|j: int| 0 <= j < k ==> (#[trigger] self@[j]).txid != id@,
            decreases self@.len() - k,
        {
            if bytes_eq(self.entries[k].txid_bytes(), id) {
                proof {
                    lemma_mp_get_at(self@, id@, k as int);
                }
                return Some(k);
            }
            k = k + 1;
        }
        proof {
            lemma_mp_get_none(self@, id@);
        }
        None
    }

    /// Return whether or not the mempool contains a transaction with a given
    /// txid.
    pub fn has_tx(&self, txid: &Txid) -> (r: bool)
        ensures
            r == mp_has(self@, txid@),
    {
        match self.find(&txid.bytes) {
            Some(_) => true,
            None => false,
        }
    }

    /// Add a transaction to the mempool under its txid; an entry already
    /// holding the same txid is overwritten (last writer wins).
    ///
    /// This does not propagate the transaction to other peers.
    pub fn add_tx(&mut self, tx: Transaction)
        requires
            old(self).wf(),
        ensures
            final(self).wf(),
            forall|id: Seq<u8>| #![auto] mp_get(final(self)@, id) == if id == tx@.txid {
                Some(tx@)
            } else {
                mp_get(old(self)@, id)
            },
    {
        let ghost olds = self@;
        let txid = tx.txid();
        let found = self.find(&txid.bytes);
        match found {
            Some(k) => {
                let ghost a = olds.take(k as int);
                let ghost b = olds.skip(k as int + 1);
                self.entries.remove(k);
                self.entries.push(tx);
                proof {
                    assert(self@ =~= a + b + seq![tx@]);
                    assert(olds =~= a + (seq![olds[k as int]] + b));
                    assert forall|id: Seq<u8>| #![auto] mp_get(self@, id) == (if id == tx@.txid {
                        Some(tx@)
                    } else {
                        mp_get(olds, id)
                    }) by {
                        lemma_mp_get_concat(a + b, seq![tx@], id);
                        lemma_mp_get_concat(a, b, id);
                        lemma_mp_get_concat(a, seq![olds[k as int]] + b, id);
                        lemma_mp_get_concat(seq![olds[k as int]], b, id);
                        lemma_mp_get_single(tx@, id);
                        lemma_mp_get_single(olds[k as int], id);
                        assert(mp_get(olds, id) == if mp_has(a, id) {
                            mp_get(a, id)
                        } else if olds[k as int].txid == id {
                            Some(olds[k as int])
                        } else {
                            mp_get(b, id)
                        });
                        if id == tx@.txid {
                            assert forall|j: int| 0 <= j < a.len()
                                implies (#[trigger] a[j]).txid != id by {
                                assert(olds[j] == a[j]);
                            }
                            lemma_mp_get_none(a, id);
                            assert forall|j: int| 0 <= j < b.len()
                                implies (#[trigger] b[j]).txid != id by {
                                assert(olds[k as int + 1 + j] == b[j]);
                            }
                            lemma_mp_get_none(b, id);
                        }
                    }
                    assert forall|i: int, j: int| 0 <= i < j < self@.len()
                        implies (#[trigger] self@[i]).txid != (#[trigger] self@[j]).txid by {
                        if j < self@.len() - 1 {
                            let oi = if i < k as int { i } else { i + 1 };
                            let oj = if j < k as int { j } else { j + 1 };
                            assert(self@[i] == olds[oi] && self@[j] == olds[oj]);
                        } else {
                            let oi = if i < k as int { i } else { i + 1 };
                            assert(self@[i] == olds[oi]);
                            assert(olds[oi].txid != olds[k as int].txid);
                        }
                    }
                }
            },
            None => {
                self.entries.push(tx);
                proof {
                    assert(self@ =~= olds + seq![tx@]);
                    assert forall|id: Seq<u8>| #![auto] mp_get(self@, id) == (if id == tx@.txid {
                        Some(tx@)
                    } else {
                        mp_get(olds, id)
                    }) by {
                        lemma_mp_get_concat(olds, seq![tx@], id);
                        lemma_mp_get_single(tx@, id);
                    }
                    assert forall|i: int, j: int| 0 <= i < j < self@.len()
                        implies (#[trigger] self@[i]).txid != (#[trigger] self@[j]).txid by {
                        if j == self@.len() - 1 {
                            lemma_mp_get_at_contra(olds, self@[i].txid, i);
                        }
                    }
                }
            },
        }
    }

    /// Look up a transaction in the mempool given an inventory item.
    /// Block-kind items are always `None`; a witness txid is reinterpreted
    /// as a txid by byte reuse.
    pub fn get_tx(&self, inventory: &Inventory) -> (r: Option<Transaction>)
        ensures
            (r matches Some(t) ==> inv_lookup(inventory@, self@) == Some(t@)),
            (r is None ==> inv_lookup(inventory@, self@) is None),
    {
        let id = match inventory {
            Inventory::Error => {
                return None;
            },
            Inventory::Block(_) => {
                return None;
            },
            Inventory::WitnessBlock(_) => {
                return None;
            },
            Inventory::Transaction(txid) => txid,
            Inventory::WitnessTransaction(wtxid) => wtxid,
        };
        match self.find(&id.bytes) {
            Some(k) => Some(self.entries[k].dup()),
            None => None,
        }
    }

    /// The list of transactions contained in the mempool (a snapshot copy).
    pub fn iter_txs(&self) -> (r: Vec<Transaction>)
        ensures
            r@.len() == self@.len(),
            forall|i: int| 0 <= i < r@.len() ==> (#[trigger] r@[i])@ == self@[i],
    {
        let mut r: Vec<Transaction> = Vec::new();
        let mut k: usize = 0;
        while k < self.entries.len()
            invariant
                k <= self@.len(),
                self@.len() == self.entries@.len(),
                r@.len() == k,
                forall|i: int| 0 <= i < k ==> (#[trigger] r@[i])@ == self@[i],
            decreases self@.len() - k,
        {
            r.push(self.entries[k].dup());
            k = k + 1;
        }
        r
    }
}

proof fn lemma_mp_get_at_contra(s: Seq<TxV>, id: Seq<u8>, k: int)
    requires
        0 <= k < s.len(),
        s[k].txid == id,
    ensures
        mp_has(s, id),
    decreases s.len(),
{
    if s[0].txid != id {
        lemma_mp_get_at_contra(s.drop_first(), id, k - 1);
    }
}

/// Mempool identity: once a transaction is added, membership by its txid
/// holds and a lookup under `Transaction(txid)` yields it; block-kind items
/// never resolve.
pub proof fn lemma_mempool_identity(old_mp: Seq<TxV>, new_mp: Seq<TxV>, t: TxV, other: InvV)
    requires
        forall|id: Seq<u8>| #![auto] mp_get(new_mp, id) == if id == t.txid {
            Some(t)
        } else {
            mp_get(old_mp, id)
        },
        other is Block || other is WitnessBlock || other is Error,
    ensures
        mp_has(new_mp, t.txid),
        inv_lookup(InvV::Transaction(t.txid), new_mp) == Some(t),
        inv_lookup(other, new_mp) is None,
{
}

/// Witness aliasing: a `WitnessTransaction` item whose bytes equal a stored
/// txid resolves to the stored transaction; the mempool does not distinguish
/// wtxid from txid.
pub proof fn lemma_witness_aliasing(mp: Seq<TxV>, t: TxV, w: Seq<u8>)
    requires
        w == t.txid,
        mp_get(mp, t.txid) == Some(t),
    ensures
        inv_lookup(InvV::WitnessTransaction(w), mp) == Some(t),
{
}

} // verus!
