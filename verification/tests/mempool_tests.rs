use btcpeer::mempool::Mempool;
use btcpeer::msgs::{tx_from_bytes, Hash32, Inventory, Transaction};

fn mk_tx(seed: u8) -> Transaction {
    let mut raw: Vec<u8> = vec![1, 0, 0, 0];
    raw.push(1);
    raw.extend_from_slice(&[0u8; 32]);
    raw.extend_from_slice(&[0xff, 0xff, 0xff, 0xff]);
    raw.push(0);
    raw.extend_from_slice(&[0xff, 0xff, 0xff, 0xff]);
    raw.push(1);
    raw.extend_from_slice(&[seed, 0, 0, 0, 0, 0, 0, 0]);
    raw.push(0);
    raw.extend_from_slice(&[0, 0, 0, 0]);
    tx_from_bytes(raw).expect("valid tx encoding")
}

#[test]
fn mempool_identity() {
    let mut mp = Mempool::new();
    let t = mk_tx(1);
    let txid = t.txid();
    assert!(!mp.has_tx(&txid));
    mp.add_tx(t.dup());
    assert!(mp.has_tx(&txid));
    let got = mp.get_tx(&Inventory::Transaction(txid.dup())).expect("present");
    assert_eq!(got, t);
    // block-kind items never resolve
    assert_eq!(mp.get_tx(&Inventory::Block(txid.dup())), None);
    assert_eq!(mp.get_tx(&Inventory::WitnessBlock(txid.dup())), None);
    assert_eq!(mp.get_tx(&Inventory::Error), None);
}

#[test]
fn witness_aliasing() {
    let mut mp = Mempool::new();
    let t = mk_tx(2);
    let txid = t.txid();
    mp.add_tx(t.dup());
    // a witness txid whose bytes equal the txid finds the same transaction
    let w = Hash32 { bytes: txid.bytes.clone() };
    let got = mp.get_tx(&Inventory::WitnessTransaction(w)).expect("aliased");
    assert_eq!(got, t);
}

#[test]
fn repeated_add_is_idempotent() {
    let mut mp = Mempool::new();
    let t = mk_tx(3);
    mp.add_tx(t.dup());
    mp.add_tx(t.dup());
    let all = mp.iter_txs();
    assert_eq!(all.len(), 1);
    assert_eq!(all[0], t);
}

#[test]
fn distinct_transactions_coexist() {
    let mut mp = Mempool::new();
    let t1 = mk_tx(4);
    let t2 = mk_tx(5);
    assert_ne!(t1.txid(), t2.txid());
    mp.add_tx(t1.dup());
    mp.add_tx(t2.dup());
    assert!(mp.has_tx(&t1.txid()));
    assert!(mp.has_tx(&t2.txid()));
    assert_eq!(mp.iter_txs().len(), 2);
}

#[test]
fn unknown_txid_is_absent() {
    let mut mp = Mempool::new();
    mp.add_tx(mk_tx(6));
    let other = Hash32 { bytes: vec![0xee; 32] };
    assert!(!mp.has_tx(&other));
    assert_eq!(mp.get_tx(&Inventory::Transaction(other)), None);
}
