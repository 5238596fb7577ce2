use vstd::prelude::*;

use crate::codec::encodable;
use crate::errors::PeerError;
use crate::mempool::{mp_get, mp_has, Mempool};
use crate::msgs::{
    invs_view, CFCheckpt, CFHeaders, CFilter, GetCFCheckpt, GetCFCheckptV, GetCFHeaders,
    GetCFHeadersV, GetCFilters, GetCFiltersV, Hash32, Inventory, InvV, MsgV, NetworkMessage,
    Transaction, TxV,
};

verus! {

// ---------------------------------------------------------------------------
// Compact-filters capability: one request builder and one reply check per
// round trip. The embedding program sends the request, waits on the mailbox
// of the expected command, and hands whatever came back (or the timeout) to
// the reply check.
// ---------------------------------------------------------------------------

/// The wire request for a filter-header checkpoint fetch.
pub fn get_cf_checkpt_request(filter_type: u8, stop_hash: &Hash32) -> (r: NetworkMessage)
    requires
        stop_hash@.len() == 32,
    ensures
        r@ == MsgV::GetCFCheckpt(GetCFCheckptV { filter_type, stop_hash: stop_hash@ }),
        encodable(r@),
{
    NetworkMessage::GetCFCheckpt(GetCFCheckpt { filter_type, stop_hash: stop_hash.dup() })
}

/// What a checkpoint fetch returns for each possible mailbox outcome: the
/// record on a matching reply; `Timeout` when none came; `InvalidResponse`
/// on any other variant or a mismatched filter type.
pub fn get_cf_checkpt_reply(filter_type: u8, reply: Option<NetworkMessage>) -> (r: Result<
    CFCheckpt,
    PeerError,
>)
    ensures
        (reply is None ==> r == Err::<CFCheckpt, PeerError>(PeerError::Timeout)),
        (reply matches Some(m) ==> match m@ {
            MsgV::CFCheckpt(c) => if c.filter_type == filter_type {
                r matches Ok(cc) && cc@ == c
            } else {
                r == Err::<CFCheckpt, PeerError>(PeerError::InvalidResponse)
            },
            _ => r == Err::<CFCheckpt, PeerError>(PeerError::InvalidResponse),
        }),
{
    match reply {
        None => Err(PeerError::Timeout),
        Some(NetworkMessage::CFCheckpt(c)) => {
            if c.filter_type != filter_type {
                return Err(PeerError::InvalidResponse);
            }
            Ok(c)
        },
        Some(_) => Err(PeerError::InvalidResponse),
    }
}

/// The wire request for a range of filter headers.
pub fn get_cf_headers_request(filter_type: u8, start_height: u32, stop_hash: &Hash32) -> (r:
    NetworkMessage)
    requires
        stop_hash@.len() == 32,
    ensures
        r@ == MsgV::GetCFHeaders(GetCFHeadersV { filter_type, start_height, stop_hash: stop_hash@ }),
        encodable(r@),
{
    NetworkMessage::GetCFHeaders(GetCFHeaders {
        filter_type,
        start_height,
        stop_hash: stop_hash.dup(),
    })
}

/// Reply check for a filter-header fetch, with the same outcome split as the
/// checkpoint fetch.
pub fn get_cf_headers_reply(filter_type: u8, reply: Option<NetworkMessage>) -> (r: Result<
    CFHeaders,
    PeerError,
>)
    ensures
        (reply is None ==> r == Err::<CFHeaders, PeerError>(PeerError::Timeout)),
        (reply matches Some(m) ==> match m@ {
            MsgV::CFHeaders(c) => if c.filter_type == filter_type {
                r matches Ok(cc) && cc@ == c
            } else {
                r == Err::<CFHeaders, PeerError>(PeerError::InvalidResponse)
            },
            _ => r == Err::<CFHeaders, PeerError>(PeerError::InvalidResponse),
        }),
{
    match reply {
        None => Err(PeerError::Timeout),
        Some(NetworkMessage::CFHeaders(c)) => {
            if c.filter_type != filter_type {
                return Err(PeerError::InvalidResponse);
            }
            Ok(c)
        },
        Some(_) => Err(PeerError::InvalidResponse),
    }
}

/// The wire request for a range of filters. Fire-and-forget: the replies are
/// many `cfilter` messages, drained one by one with [`pop_cf_filter_reply`].
pub fn get_cf_filters_request(filter_type: u8, start_height: u32, stop_hash: &Hash32) -> (r:
    NetworkMessage)
    requires
        stop_hash@.len() == 32,
    ensures
        r@ == MsgV::GetCFilters(GetCFiltersV { filter_type, start_height, stop_hash: stop_hash@ }),
        encodable(r@),
{
    NetworkMessage::GetCFilters(GetCFilters {
        filter_type,
        start_height,
        stop_hash: stop_hash.dup(),
    })
}

/// What popping one queued filter returns for each mailbox outcome.
pub fn pop_cf_filter_reply(reply: Option<NetworkMessage>) -> (r: Result<CFilter, PeerError>)
    ensures
        (reply is None ==> r == Err::<CFilter, PeerError>(PeerError::Timeout)),
        (reply matches Some(m) ==> match m@ {
            MsgV::CFilter(c) => r matches Ok(cc) && cc@ == c,
            _ => r == Err::<CFilter, PeerError>(PeerError::InvalidResponse),
        }),
{
    match reply {
        None => Err(PeerError::Timeout),
        Some(NetworkMessage::CFilter(c)) => Ok(c),
        Some(_) => Err(PeerError::InvalidResponse),
    }
}

// ---------------------------------------------------------------------------
// Inventory capability
// ---------------------------------------------------------------------------

/// The wire request for one block, by witness-block inventory.
pub fn get_block_request(block_hash: &Hash32) -> (r: NetworkMessage)
    requires
        block_hash@.len() == 32,
    ensures
        r@ == MsgV::GetData(seq![InvV::WitnessBlock(block_hash@)]),
        encodable(r@),
{
    let mut items: Vec<Inventory> = Vec::new();
    items.push(Inventory::WitnessBlock(block_hash.dup()));
    let r = NetworkMessage::GetData(items);
    proof {
        assert(invs_view(items@) =~= seq![InvV::WitnessBlock(block_hash@)]);
        assert(crate::bytes::varint(1).len() == 1);
        let s = seq![InvV::WitnessBlock(block_hash@)];
        assert(s.drop_first() =~= Seq::<InvV>::empty());
        crate::codec::lemma_item_len(s[0]);
        reveal_with_fuel(crate::codec::invs_bytes, 3);
        assert(crate::codec::invs_bytes(s).len() == 36);
    }
    r
}

/// What a block fetch returns: `None` on timeout (no error), the block's
/// raw bytes on a block reply, `InvalidResponse` on any other variant.
pub fn get_block_reply(reply: Option<NetworkMessage>) -> (r: Result<Option<Vec<u8>>, PeerError>)
    ensures
        (reply is None ==> r == Ok::<Option<Vec<u8>>, PeerError>(None)),
        (reply matches Some(m) ==> match m@ {
            MsgV::Block(b) => r matches Ok(ob) && ob matches Some(v) && v@ == b,
            _ => r == Err::<Option<Vec<u8>>, PeerError>(PeerError::InvalidResponse),
        }),
{
    match reply {
        None => Ok(None),
        Some(NetworkMessage::Block(b)) => Ok(Some(b)),
        Some(_) => Err(PeerError::InvalidResponse),
    }
}

/// The announced transactions the local mempool does not hold yet, in
/// announcement order: what a mempool drain asks for with its getdata.
/// Only plain `Transaction` items count, as in the wire protocol's `mempool`
/// exchange; every other item kind is skipped.
pub open spec fn missing_list(inv: Seq<InvV>, mp: Seq<TxV>) -> Seq<InvV>
    decreases inv.len(),
{
    if inv.len() == 0 {
        Seq::empty()
    } else {
        (match inv[0] {
            InvV::Transaction(id) => if !mp_has(mp, id) {
                seq![inv[0]]
            } else {
                Seq::<InvV>::empty()
            },
            _ => Seq::<InvV>::empty(),
        }) + missing_list(inv.drop_first(), mp)
    }
}

proof fn lemma_missing_snoc(inv: Seq<InvV>, x: InvV, mp: Seq<TxV>)
    ensures
        missing_list(inv.push(x), mp) == missing_list(inv, mp) + (match x {
            InvV::Transaction(id) => if !mp_has(mp, id) {
                seq![x]
            } else {
                Seq::<InvV>::empty()
            },
            _ => Seq::<InvV>::empty(),
        }),
    decreases inv.len(),
{
    let tail = (match x {
        InvV::Transaction(id) => if !mp_has(mp, id) {
            seq![x]
        } else {
            Seq::<InvV>::empty()
        },
        _ => Seq::<InvV>::empty(),
    });
    if inv.len() == 0 {
        assert(inv.push(x)[0] == x);
        assert(inv.push(x).drop_first() =~= Seq::<InvV>::empty());
        assert(missing_list(Seq::<InvV>::empty(), mp) == Seq::<InvV>::empty());
        assert(inv =~= Seq::<InvV>::empty());
        assert(missing_list(inv.push(x), mp) =~= missing_list(inv, mp) + tail);
    } else {
        assert(inv.push(x)[0] == inv[0]);
        assert(inv.push(x).drop_first() =~= inv.drop_first().push(x));
        lemma_missing_snoc(inv.drop_first(), x, mp);
        let h = (match inv[0] {
            InvV::Transaction(id) => if !mp_has(mp, id) {
                seq![inv[0]]
            } else {
                Seq::<InvV>::empty()
            },
            _ => Seq::<InvV>::empty(),
        });
        assert(missing_list(inv, mp) == h + missing_list(inv.drop_first(), mp));
        assert(missing_list(inv.push(x), mp) == h + missing_list(inv.drop_first().push(x), mp));
        assert(missing_list(inv.drop_first().push(x), mp)
            == missing_list(inv.drop_first(), mp) + tail);
        assert(h + (missing_list(inv.drop_first(), mp) + tail)
            =~= (h + missing_list(inv.drop_first(), mp)) + tail);
        assert(missing_list(inv.push(x), mp) == missing_list(inv, mp) + tail);
    }
}

/// Filter an announced inventory down to the transactions the mempool does
/// not hold yet, keeping announcement order.
pub fn missing_txs(inv: &Vec<Inventory>, mempool: &Mempool) -> (r: Vec<Inventory>)
    ensures
        invs_view(r@) == missing_list(invs_view(inv@), mempool@),
{
    let mut r: Vec<Inventory> = Vec::new();
    let mut k: usize = 0;
    proof {
        assert(invs_view(inv@.take(0)) =~= Seq::<InvV>::empty());
        assert(invs_view(r@) =~= missing_list(invs_view(inv@.take(0)), mempool@));
    }
    while k < inv.len()
        invariant
            k <= inv@.len(),
            invs_view(r@) == missing_list(invs_view(inv@.take(k as int)), mempool@),
        decreases inv@.len() - k,
    {
        let ghost pre = invs_view(inv@.take(k as int));
        let ghost oldr = r@;
        let item = &inv[k];
        let keep: bool = match item {
            Inventory::Transaction(txid) => !mempool.has_tx(txid),
            _ => false,
        };
        if keep {
            r.push(item.dup());
            proof {
                assert(invs_view(r@) =~= invs_view(oldr).push(r@.last()@));
            }
        }
        proof {
            lemma_missing_snoc(pre, inv@[k as int]@, mempool@);
            assert(invs_view(inv@.take(k + 1)) =~= pre.push(inv@[k as int]@));
            assert(invs_view(r@) =~= missing_list(invs_view(inv@.take(k + 1)), mempool@));
        }
        k = k + 1;
    }
    proof {
        assert(inv@.take(inv@.len() as int) =~= inv@);
    }
    r
}

/// Accept one transaction answering a mempool drain: a timeout is an error
/// here (the transaction was owed), any non-`tx` variant is invalid, and a
/// received transaction is inserted into the mempool.
pub fn accept_mempool_tx(reply: Option<NetworkMessage>, mempool: &mut Mempool) -> (r: Result<
    (),
    PeerError,
>)
    requires
        old(mempool).wf(),
    ensures
        final(mempool).wf(),
        (reply is None ==> r == Err::<(), PeerError>(PeerError::Timeout)
            && final(mempool)@ == old(mempool)@),
        (reply matches Some(m) ==> match m@ {
            MsgV::Tx(t) => r is Ok && (forall|id: Seq<u8>| #![auto]
                mp_get(final(mempool)@, id) == if id == t.txid {
                    Some(t)
                } else {
                    mp_get(old(mempool)@, id)
                }),
            _ => r == Err::<(), PeerError>(PeerError::InvalidResponse)
                && final(mempool)@ == old(mempool)@,
        }),
{
    match reply {
        None => Err(PeerError::Timeout),
        Some(NetworkMessage::Tx(t)) => {
            mempool.add_tx(t);
            Ok(())
        },
        Some(_) => Err(PeerError::InvalidResponse),
    }
}

/// Broadcast a transaction: insert it locally first, so a later getdata from
/// the remote can be served, and hand back the `tx` message to send.
pub fn broadcast_tx(mempool: &mut Mempool, tx: Transaction) -> (r: NetworkMessage)
    requires
        old(mempool).wf(),
    ensures
        final(mempool).wf(),
        r@ == MsgV::Tx(tx@),
        forall|id: Seq<u8>| #![auto] mp_get(final(mempool)@, id) == if id == tx@.txid {
            Some(tx@)
        } else {
            mp_get(old(mempool)@, id)
        },
{
    let msg = NetworkMessage::Tx(tx.dup());
    mempool.add_tx(tx);
    msg
}

} // verus!
