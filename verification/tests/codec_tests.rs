use btcpeer::codec::{decode_frame, encode_message, encode_payload, decode_payload, checksum};
use btcpeer::commands::{command_bytes, command_of, parse_command, Command};
use btcpeer::errors::PeerError;
use btcpeer::msgs::{
    sha256d, tx_from_bytes, Address, CFCheckpt, CFHeaders, CFilter, GetCFCheckpt, GetCFHeaders,
    GetCFilters, Hash32, Inventory, Network, NetworkMessage, VersionMsg,
};

const MAINNET: u32 = 0xd9b4bef9;

fn h(b: u8) -> Hash32 {
    Hash32 { bytes: vec![b; 32] }
}

fn roundtrip(msg: NetworkMessage) {
    let frame = encode_message(MAINNET, &msg).expect("encodes");
    let (magic, decoded) = decode_frame(&frame).expect("decodes");
    assert_eq!(magic, MAINNET);
    assert_eq!(decoded, Some(msg));
}

fn mk_tx(seed: u8) -> btcpeer::msgs::Transaction {
    let mut raw: Vec<u8> = vec![1, 0, 0, 0];
    raw.push(1);
    raw.extend_from_slice(&[0u8; 32]);
    raw.extend_from_slice(&[0xff, 0xff, 0xff, 0xff]);
    raw.push(0);
    raw.extend_from_slice(&[0xff, 0xff, 0xff, 0xff]);
    raw.push(1);
    raw.extend_from_slice(&[seed, 0, 0, 0, 0, 0, 0, 0]);
    raw.push(0);
    raw.extend_from_slice(&[0, 0, 0, 0]);
    tx_from_bytes(raw).expect("valid tx encoding")
}

#[test]
fn verack_frame_matches_known_bytes() {
    let frame = encode_message(MAINNET, &NetworkMessage::Verack).unwrap();
    let mut expected: Vec<u8> = vec![0xf9, 0xbe, 0xb4, 0xd9];
    expected.extend_from_slice(b"verack");
    expected.extend_from_slice(&[0u8; 6]);
    expected.extend_from_slice(&[0, 0, 0, 0]);
    expected.extend_from_slice(&[0x5d, 0xf6, 0xe0, 0xe2]);
    assert_eq!(frame, expected);
}

#[test]
fn checksum_is_first_four_bytes_of_double_sha() {
    let payload = vec![1u8, 2, 3];
    let full = sha256d(&payload);
    let cs = checksum(&payload);
    assert_eq!(cs, full[0..4].to_vec());
    assert_eq!(full.len(), 32);
    // cross-check against the bitcoin crate directly
    let direct = <bitcoin::hashes::sha256d::Hash as bitcoin::hashes::Hash>::hash(&payload);
    assert_eq!(full, bitcoin::hashes::Hash::to_byte_array(direct).to_vec());
}

#[test]
fn simple_messages_round_trip() {
    roundtrip(NetworkMessage::Verack);
    roundtrip(NetworkMessage::MemPool);
    roundtrip(NetworkMessage::Ping(0xdeadbeef));
    roundtrip(NetworkMessage::Pong(u64::MAX));
    roundtrip(NetworkMessage::Alert(vec![9, 9, 9]));
    roundtrip(NetworkMessage::Block(vec![1, 2, 3, 4, 5]));
}

#[test]
fn version_round_trips() {
    let msg = NetworkMessage::Version(VersionMsg {
        version: 70015,
        services: 8,
        timestamp: 1_700_000_000,
        receiver: Address { services: 0, address: vec![0; 16], port: 8333 },
        sender: Address { services: 0, address: vec![0; 16], port: 0 },
        nonce: 0x0123456789abcdef,
        user_agent: b"/mock:1/".to_vec(),
        start_height: 0,
        relay: true,
    });
    roundtrip(msg);
}

#[test]
fn inventory_messages_round_trip() {
    let items = vec![
        Inventory::Error,
        Inventory::Transaction(h(1)),
        Inventory::Block(h(2)),
        Inventory::WitnessTransaction(h(3)),
        Inventory::WitnessBlock(h(4)),
    ];
    roundtrip(NetworkMessage::Inv(items.clone()));
    roundtrip(NetworkMessage::GetData(items.clone()));
    roundtrip(NetworkMessage::NotFound(items));
    roundtrip(NetworkMessage::Inv(vec![]));
}

#[test]
fn compact_filter_messages_round_trip() {
    roundtrip(NetworkMessage::GetCFCheckpt(GetCFCheckpt { filter_type: 0, stop_hash: h(5) }));
    roundtrip(NetworkMessage::CFCheckpt(CFCheckpt {
        filter_type: 0,
        stop_hash: h(6),
        filter_headers: vec![h(7), h(8)],
    }));
    roundtrip(NetworkMessage::GetCFHeaders(GetCFHeaders {
        filter_type: 0,
        start_height: 1000,
        stop_hash: h(9),
    }));
    roundtrip(NetworkMessage::CFHeaders(CFHeaders {
        filter_type: 0,
        stop_hash: h(10),
        previous_filter_header: h(0),
        filter_hashes: vec![h(11), h(12), h(13)],
    }));
    roundtrip(NetworkMessage::GetCFilters(GetCFilters {
        filter_type: 0,
        start_height: 2000,
        stop_hash: h(14),
    }));
    // a filter long enough to need the two-byte count encoding
    roundtrip(NetworkMessage::CFilter(CFilter {
        filter_type: 0,
        block_hash: h(15),
        filter: vec![0xab; 300],
    }));
}

#[test]
fn transaction_round_trips_and_txid_matches_bitcoin() {
    let tx = mk_tx(42);
    let raw = tx.raw_bytes().clone();
    let parsed: bitcoin::Transaction = bitcoin::consensus::deserialize(&raw).unwrap();
    let expected = bitcoin::hashes::Hash::to_byte_array(parsed.compute_txid()).to_vec();
    assert_eq!(tx.txid().bytes, expected);
    roundtrip(NetworkMessage::Tx(tx));
}

#[test]
fn malformed_tx_payload_is_corruption() {
    let payload = vec![0u8, 1, 2];
    assert_eq!(decode_payload(Command::Tx, &payload), None);
    assert!(tx_from_bytes(payload).is_none());
}

#[test]
fn corrupted_checksum_fails_decode() {
    let mut frame = encode_message(MAINNET, &NetworkMessage::Ping(7)).unwrap();
    frame[20] ^= 0xff;
    assert_eq!(decode_frame(&frame), Err(PeerError::DataCorruption));
}

#[test]
fn corrupted_length_fails_decode() {
    let mut frame = encode_message(MAINNET, &NetworkMessage::Ping(7)).unwrap();
    frame[16] = frame[16].wrapping_add(1);
    assert_eq!(decode_frame(&frame), Err(PeerError::DataCorruption));
}

#[test]
fn truncated_frame_fails_decode() {
    let frame = encode_message(MAINNET, &NetworkMessage::Ping(7)).unwrap();
    let short = frame[0..20].to_vec();
    assert_eq!(decode_frame(&short), Err(PeerError::DataCorruption));
}

#[test]
fn unknown_command_decodes_to_dropped_frame() {
    let mut frame = encode_message(MAINNET, &NetworkMessage::Verack).unwrap();
    // overwrite the command name with one the peer does not know
    let name = b"sendheaders\0";
    frame[4..16].copy_from_slice(name);
    // checksum and length still hold (empty payload), so the frame is sound
    let (magic, decoded) = decode_frame(&frame).expect("sound frame");
    assert_eq!(magic, MAINNET);
    assert_eq!(decoded, None);
}

#[test]
fn command_names_round_trip() {
    let all = [
        Command::Version, Command::Verack, Command::Ping, Command::Pong, Command::Alert,
        Command::Inv, Command::GetData, Command::NotFound, Command::Tx, Command::Block,
        Command::MemPool, Command::GetCFCheckpt, Command::CFCheckpt, Command::GetCFHeaders,
        Command::CFHeaders, Command::GetCFilters, Command::CFilter,
    ];
    for c in all {
        let bytes = command_bytes(c);
        assert_eq!(bytes.len(), 12);
        assert_eq!(parse_command(&bytes), Some(c));
    }
    assert_eq!(command_bytes(Command::Version)[0..7].to_vec(), b"version".to_vec());
    assert_eq!(command_of(&NetworkMessage::Ping(1)), Command::Ping);
}

#[test]
fn decode_rejects_wrong_payload_lengths() {
    // a ping payload must be exactly eight bytes
    assert_eq!(decode_payload(Command::Ping, &vec![1, 2, 3]), None);
    // verack must be empty
    assert_eq!(decode_payload(Command::Verack, &vec![0]), None);
    // an inventory item with an unknown type code is out of range
    let mut payload = vec![1u8]; // one item
    payload.extend_from_slice(&[9, 0, 0, 0]); // unknown code 9
    payload.extend_from_slice(&[0u8; 32]);
    assert_eq!(decode_payload(Command::Inv, &payload), None);
}

#[test]
fn encode_payload_of_ping_is_little_endian() {
    let p = encode_payload(&NetworkMessage::Ping(0x0102030405060708));
    assert_eq!(p, vec![8, 7, 6, 5, 4, 3, 2, 1]);
}

#[test]
fn frames_for_other_networks_carry_their_magic() {
    let frame = encode_message(Network::Testnet.magic(), &NetworkMessage::Verack).unwrap();
    let (magic, decoded) = decode_frame(&frame).unwrap();
    assert_eq!(magic, 0x0709110b);
    assert_eq!(decoded, Some(NetworkMessage::Verack));
}
