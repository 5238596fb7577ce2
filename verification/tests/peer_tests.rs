use btcpeer::codec::encode_message;
use btcpeer::commands::Command;
use btcpeer::errors::PeerError;
use btcpeer::mempool::Mempool;
use btcpeer::msgs::{
    tx_from_bytes, Address, CFCheckpt, CFHeaders, Hash32, Inventory, Network, NetworkMessage,
    Transaction, VersionMsg,
};
use btcpeer::peer::Peer;
use btcpeer::requests::{
    accept_mempool_tx, broadcast_tx, get_block_reply, get_block_request, get_cf_checkpt_reply,
    get_cf_checkpt_request, get_cf_filters_request, get_cf_headers_reply, get_cf_headers_request,
    missing_txs, pop_cf_filter_reply,
};

const MAINNET: u32 = 0xd9b4bef9;

fn h(b: u8) -> Hash32 {
    Hash32 { bytes: vec![b; 32] }
}

fn mk_tx(seed: u8) -> Transaction {
    let mut raw: Vec<u8> = vec![1, 0, 0, 0];
    raw.push(1);
    raw.extend_from_slice(&[0u8; 32]);
    raw.extend_from_slice(&[0xff, 0xff, 0xff, 0xff]);
    raw.push(0);
    raw.extend_from_slice(&[0xff, 0xff, 0xff, 0xff]);
    raw.push(1);
    raw.extend_from_slice(&[seed, 0, 0, 0, 0, 0, 0, 0]);
    raw.push(0);
    raw.extend_from_slice(&[0, 0, 0, 0]);
    tx_from_bytes(raw).expect("valid tx encoding")
}

fn frame(msg: &NetworkMessage) -> Vec<u8> {
    encode_message(MAINNET, msg).expect("encodes")
}

fn mock_version() -> VersionMsg {
    VersionMsg {
        version: 70015,
        services: 8,
        timestamp: 1_700_000_000,
        receiver: Address { services: 0, address: vec![0; 16], port: 0 },
        sender: Address { services: 0, address: vec![0; 16], port: 0 },
        nonce: 99,
        user_agent: b"/mock:1/".to_vec(),
        start_height: 0,
        relay: false,
    }
}

#[test]
fn auto_pong() {
    // the reader answers a ping with the same nonce, without routing it
    let mut peer = Peer::new(Network::Bitcoin);
    let mp = Mempool::new();
    let replies = peer.handle_frame(&frame(&NetworkMessage::Ping(0xDEADBEEF)), &mp).unwrap();
    assert_eq!(replies, vec![NetworkMessage::Pong(0xDEADBEEF)]);
    assert_eq!(peer.try_recv(Command::Ping), None);
    assert!(peer.is_connected());
}

#[test]
fn auto_serve_getdata() {
    // one Tx frame per known item in request order, one NotFound for the rest
    let mut peer = Peer::new(Network::Bitcoin);
    let mut mp = Mempool::new();
    let t = mk_tx(1);
    mp.add_tx(t.dup());
    let unknown = h(0xaa);
    let req = NetworkMessage::GetData(vec![
        Inventory::Transaction(t.txid()),
        Inventory::Transaction(unknown.dup()),
    ]);
    let replies = peer.handle_frame(&frame(&req), &mp).unwrap();
    assert_eq!(replies.len(), 2);
    assert_eq!(replies[0], NetworkMessage::Tx(t));
    assert_eq!(
        replies[1],
        NetworkMessage::NotFound(vec![Inventory::Transaction(unknown)])
    );
    // getdata is handled transparently, not routed
    assert_eq!(peer.try_recv(Command::GetData), None);
}

#[test]
fn auto_serve_all_found_sends_no_notfound() {
    let mut peer = Peer::new(Network::Bitcoin);
    let mut mp = Mempool::new();
    let t = mk_tx(2);
    mp.add_tx(t.dup());
    let req = NetworkMessage::GetData(vec![Inventory::Transaction(t.txid())]);
    let replies = peer.handle_frame(&frame(&req), &mp).unwrap();
    assert_eq!(replies, vec![NetworkMessage::Tx(t)]);
}

#[test]
fn block_items_fall_into_notfound() {
    let mut peer = Peer::new(Network::Bitcoin);
    let mp = Mempool::new();
    let req = NetworkMessage::GetData(vec![Inventory::Block(h(7))]);
    let replies = peer.handle_frame(&frame(&req), &mp).unwrap();
    assert_eq!(replies, vec![NetworkMessage::NotFound(vec![Inventory::Block(h(7))])]);
}

#[test]
fn alert_is_swallowed() {
    let mut peer = Peer::new(Network::Bitcoin);
    let mp = Mempool::new();
    let replies = peer.handle_frame(&frame(&NetworkMessage::Alert(vec![1, 2])), &mp).unwrap();
    assert!(replies.is_empty());
    assert_eq!(peer.try_recv(Command::Alert), None);
}

#[test]
fn cross_network_frames_are_dropped() {
    let mut peer = Peer::new(Network::Testnet);
    let mp = Mempool::new();
    // a mainnet frame arriving on a testnet peer is discarded silently
    let replies = peer.handle_frame(&frame(&NetworkMessage::Verack), &mp).unwrap();
    assert!(replies.is_empty());
    assert_eq!(peer.try_recv(Command::Verack), None);
    assert!(peer.is_connected());
}

#[test]
fn mailbox_fifo() {
    // two messages for one command come back in arrival order
    let mut peer = Peer::new(Network::Bitcoin);
    let mp = Mempool::new();
    let m1 = NetworkMessage::Pong(1);
    let m2 = NetworkMessage::Pong(2);
    assert!(peer.handle_frame(&frame(&m1), &mp).unwrap().is_empty());
    assert!(peer.handle_frame(&frame(&m2), &mp).unwrap().is_empty());
    assert_eq!(peer.try_recv(Command::Pong), Some(m1));
    assert_eq!(peer.try_recv(Command::Pong), Some(m2));
    assert_eq!(peer.try_recv(Command::Pong), None);
}

#[test]
fn recv_does_not_touch_other_mailboxes() {
    let mut peer = Peer::new(Network::Bitcoin);
    let mp = Mempool::new();
    peer.handle_frame(&frame(&NetworkMessage::Pong(5)), &mp).unwrap();
    // waiting on a command that got nothing returns None and consumes nothing
    assert_eq!(peer.try_recv(Command::CFHeaders), None);
    assert_eq!(peer.try_recv(Command::Pong), Some(NetworkMessage::Pong(5)));
}

#[test]
fn corrupt_frame_disconnects() {
    let mut peer = Peer::new(Network::Bitcoin);
    let mp = Mempool::new();
    let mut bad = frame(&NetworkMessage::Ping(1));
    bad[21] ^= 0x01;
    assert_eq!(peer.handle_frame(&bad, &mp), Err(PeerError::DataCorruption));
    assert!(!peer.is_connected());
}

#[test]
fn handshake_happy_path() {
    let mut peer = Peer::new(Network::Bitcoin);
    let mp = Mempool::new();
    assert!(peer.get_version().is_none());
    let ours = peer.build_version(
        1_700_000_000,
        42,
        Address { services: 0, address: vec![0; 16], port: 8333 },
    );
    match &ours {
        NetworkMessage::Version(v) => {
            assert_eq!(v.services, 8); // witness
            assert_eq!(v.start_height, 0);
            assert_eq!(v.nonce, 42);
        },
        _ => panic!("not a version message"),
    }
    // the mock peer answers with its version, then verack
    let mock = mock_version();
    peer.handle_frame(&frame(&NetworkMessage::Version(mock.clone())), &mp).unwrap();
    let reply = peer.try_recv(Command::Version).expect("version routed");
    peer.accept_version(reply).expect("version accepted");
    peer.handle_frame(&frame(&NetworkMessage::Verack), &mp).unwrap();
    let ack = peer.try_recv(Command::Verack).expect("verack routed");
    peer.accept_verack(ack).expect("verack accepted");
    let stored = peer.get_version().expect("stored");
    assert_eq!(stored.user_agent, b"/mock:1/".to_vec());
}

#[test]
fn handshake_rejects_wrong_variants() {
    let mut peer = Peer::new(Network::Bitcoin);
    assert_eq!(
        peer.accept_version(NetworkMessage::Verack),
        Err(PeerError::InvalidResponse)
    );
    assert_eq!(
        peer.accept_verack(NetworkMessage::Ping(1)),
        Err(PeerError::InvalidResponse)
    );
    assert!(peer.get_version().is_none());
}

#[test]
fn cf_headers_happy_path() {
    let req = get_cf_headers_request(0, 0, &h(3));
    match &req {
        NetworkMessage::GetCFHeaders(g) => {
            assert_eq!(g.filter_type, 0);
            assert_eq!(g.start_height, 0);
        },
        _ => panic!("wrong request"),
    }
    let reply = CFHeaders {
        filter_type: 0,
        stop_hash: h(3),
        previous_filter_header: h(0),
        filter_hashes: vec![h(1), h(2), h(3)],
    };
    let got = get_cf_headers_reply(0, Some(NetworkMessage::CFHeaders(reply.clone()))).unwrap();
    assert_eq!(got, reply);
}

#[test]
fn filter_type_mismatch_is_invalid_response() {
    let reply = CFCheckpt { filter_type: 1, stop_hash: h(4), filter_headers: vec![] };
    assert_eq!(
        get_cf_checkpt_reply(0, Some(NetworkMessage::CFCheckpt(reply))),
        Err(PeerError::InvalidResponse)
    );
    let _req = get_cf_checkpt_request(0, &h(4));
}

#[test]
fn reply_checks_handle_timeouts_and_wrong_variants() {
    assert_eq!(get_cf_headers_reply(0, None), Err(PeerError::Timeout));
    assert_eq!(get_cf_checkpt_reply(0, None), Err(PeerError::Timeout));
    assert_eq!(pop_cf_filter_reply(None), Err(PeerError::Timeout));
    assert_eq!(
        pop_cf_filter_reply(Some(NetworkMessage::Verack)),
        Err(PeerError::InvalidResponse)
    );
    // a block fetch treats a timeout as "no block", not an error
    assert_eq!(get_block_reply(None), Ok(None));
    assert_eq!(
        get_block_reply(Some(NetworkMessage::Ping(1))),
        Err(PeerError::InvalidResponse)
    );
    let _req = get_cf_filters_request(0, 10, &h(9));
}

#[test]
fn get_block_round_trip() {
    let req = get_block_request(&h(8));
    assert_eq!(
        req,
        NetworkMessage::GetData(vec![Inventory::WitnessBlock(h(8))])
    );
    let body = vec![1u8, 2, 3];
    assert_eq!(
        get_block_reply(Some(NetworkMessage::Block(body.clone()))),
        Ok(Some(body))
    );
}

#[test]
fn mempool_drain() {
    // mock announces t1 and t2; we hold t1, so only t2 is fetched
    let mut mp = Mempool::new();
    let t1 = mk_tx(1);
    let t2 = mk_tx(2);
    mp.add_tx(t1.dup());
    let announced = vec![
        Inventory::Transaction(t1.txid()),
        Inventory::Transaction(t2.txid()),
        Inventory::Block(h(9)),
    ];
    let ask = missing_txs(&announced, &mp);
    assert_eq!(ask, vec![Inventory::Transaction(t2.txid())]);
    accept_mempool_tx(Some(NetworkMessage::Tx(t2.dup())), &mut mp).unwrap();
    assert!(mp.has_tx(&t2.txid()));
    assert_eq!(mp.iter_txs().len(), 2);
    // a missing tx within its budget is a timeout error; a wrong variant is invalid
    assert_eq!(accept_mempool_tx(None, &mut mp), Err(PeerError::Timeout));
    assert_eq!(
        accept_mempool_tx(Some(NetworkMessage::Verack), &mut mp),
        Err(PeerError::InvalidResponse)
    );
}

#[test]
fn broadcast_inserts_locally_first() {
    let mut mp = Mempool::new();
    let t = mk_tx(3);
    let msg = broadcast_tx(&mut mp, t.dup());
    assert_eq!(msg, NetworkMessage::Tx(t.dup()));
    // the local insert lets a later getdata from the remote be served
    assert!(mp.has_tx(&t.txid()));
    let mut peer = Peer::new(Network::Bitcoin);
    let req = NetworkMessage::GetData(vec![Inventory::Transaction(t.txid())]);
    let replies = peer.handle_frame(&frame(&req), &mp).unwrap();
    assert_eq!(replies, vec![NetworkMessage::Tx(t)]);
}

#[test]
fn disconnect_is_observable_and_final() {
    let mut peer = Peer::new(Network::Bitcoin);
    assert!(peer.is_connected());
    peer.disconnect();
    assert!(!peer.is_connected());
    assert_eq!(peer.get_network(), Network::Bitcoin);
}

#[test]
fn network_magics() {
    assert_eq!(Network::Bitcoin.magic(), 0xd9b4bef9);
    assert_eq!(Network::Testnet.magic(), 0x0709110b);
    assert_eq!(Network::Signet.magic(), 0x40cf030a);
    assert_eq!(Network::Regtest.magic(), 0xdab5bffa);
}
