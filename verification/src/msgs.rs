use vstd::prelude::*;

use crate::bytes::clone_bytes;

verus! {

// ---------------------------------------------------------------------------
// Networks
// ---------------------------------------------------------------------------

/// The Bitcoin network a peer speaks on; selects the 4-byte frame magic.
#[derive(Clone, Copy, Debug, PartialEq, Eq, Structural)]
pub enum Network {
    Bitcoin,
    Testnet,
    Signet,
    Regtest,
}

impl Network {
    pub open spec fn spec_magic(self) -> u32 {
        match self {
            Network::Bitcoin => 0xd9b4bef9u32,
            Network::Testnet => 0x0709110bu32,
            Network::Signet => 0x40cf030au32,
            Network::Regtest => 0xdab5bffau32,
        }
    }

    #[verifier::when_used_as_spec(spec_magic)]
    pub fn magic(self) -> (r: u32)
        ensures
            r == self.spec_magic(),
    {
        match self {
            Network::Bitcoin => 0xd9b4bef9,
            Network::Testnet => 0x0709110b,
            Network::Signet => 0x40cf030a,
            Network::Regtest => 0xdab5bffa,
        }
    }
}

// ---------------------------------------------------------------------------
// Hashes and transaction identifiers
// ---------------------------------------------------------------------------

/// A 32-byte hash as it appears on the wire (block hash, txid, wtxid,
/// filter header). The mempool keys on these by content.
#[derive(Debug, PartialEq, Eq, Clone)]
pub struct Hash32 {
    pub bytes: Vec<u8>,
}

impl View for Hash32 {
    type V = Seq<u8>;

    open spec fn view(&self) -> Seq<u8> {
        self.bytes@
    }
}

impl Hash32 {
    pub open spec fn wf(self) -> bool {
        self@.len() == 32
    }

    pub fn dup(&self) -> (r: Hash32)
        ensures
            r@ == self@,
    {
        Hash32 { bytes: clone_bytes(&self.bytes) }
    }
}

/// A transaction identifier is a 32-byte hash. A witness transaction id
/// received over the wire is reinterpreted as a `Txid` by direct byte reuse.
pub type Txid = Hash32;

// ---------------------------------------------------------------------------
// Names for what the bitcoin crate computes. Both are functions of the raw
// bytes alone, so naming their results is sound.
// ---------------------------------------------------------------------------

/// The double-SHA-256 digest of a byte string (32 bytes).
pub uninterp spec fn sha256d_of(data: Seq<u8>) -> Seq<u8>;

/// Whether the byte string is a complete, well-formed consensus encoding of
/// a Bitcoin transaction.
pub uninterp spec fn tx_valid(raw: Seq<u8>) -> bool;

/// The transaction id (hash of the encoding without witness data) of a valid
/// transaction encoding.
pub uninterp spec fn txid_of(raw: Seq<u8>) -> Seq<u8>;

/// Relies on bitcoin_hashes' sha256d (via the bitcoin crate): the digest is a
/// function of the input bytes alone and is 32 bytes long.
#[verifier::external_body]
pub fn sha256d(data: &Vec<u8>) -> (r: Vec<u8>)
    ensures
        r@ == sha256d_of(data@),
        r@.len() == 32,
{
    let h = <bitcoin::hashes::sha256d::Hash as bitcoin::hashes::Hash>::hash(data.as_slice());
    bitcoin::hashes::Hash::to_byte_array(h).to_vec()
}

// ---------------------------------------------------------------------------
// Transactions
// ---------------------------------------------------------------------------

/// View of a transaction: its raw consensus encoding and its txid.
pub struct TxV {
    pub raw: Seq<u8>,
    pub txid: Seq<u8>,
}

/// An opaque, serializable transaction payload together with its txid.
/// Values are only built by [`tx_from_bytes`], which keeps the txid tied to
/// the bytes.
#[derive(Debug, PartialEq, Eq, Clone)]
pub struct Transaction {
    raw: Vec<u8>,
    txid: Vec<u8>,
}

impl View for Transaction {
    type V = TxV;

    closed spec fn view(&self) -> TxV {
        TxV { raw: self.raw@, txid: self.txid@ }
    }
}

pub open spec fn tx_v_wf(t: TxV) -> bool {
    &&& tx_valid(t.raw)
    &&& t.txid == txid_of(t.raw)
    &&& t.txid.len() == 32
}

impl Transaction {
    pub open spec fn wf(self) -> bool {
        tx_v_wf(self@)
    }

    /// The transaction id, as a fresh 32-byte hash value.
    pub fn txid(&self) -> (r: Txid)
        ensures
            r@ == self@.txid,
    {
        Hash32 { bytes: clone_bytes(&self.txid) }
    }

    /// The txid bytes, borrowed.
    pub fn txid_bytes(&self) -> (r: &Vec<u8>)
        ensures
            r@ == self@.txid,
    {
        &self.txid
    }

    /// The raw consensus encoding, borrowed.
    pub fn raw_bytes(&self) -> (r: &Vec<u8>)
        ensures
            r@ == self@.raw,
    {
        &self.raw
    }

    pub fn dup(&self) -> (r: Transaction)
        ensures
            r@ == self@,
    {
        Transaction { raw: clone_bytes(&self.raw), txid: clone_bytes(&self.txid) }
    }
}

/// Relies on bitcoin's consensus deserialization of a transaction (which
/// fails unless the bytes are consumed entirely) and on
/// `Transaction::compute_txid`. Both results depend on the bytes alone.
#[verifier::external_body]
pub fn tx_from_bytes(raw: Vec<u8>) -> (r: Option<Transaction>)
    ensures
        r is Some <==> tx_valid(raw@),
        (r matches Some(t) ==> t@.raw == raw@ && t@.txid == txid_of(raw@)
            && t@.txid.len() == 32),
{
    match bitcoin::consensus::deserialize::<bitcoin::Transaction>(&raw) {
        Ok(tx) => {
            let txid = bitcoin::hashes::Hash::to_byte_array(tx.compute_txid()).to_vec();
            Some(Transaction { raw, txid })
        }
        Err(_) => None,
    }
}

// ---------------------------------------------------------------------------
// Inventory items
// ---------------------------------------------------------------------------

pub enum InvV {
    Error,
    Block(Seq<u8>),
    WitnessBlock(Seq<u8>),
    Transaction(Seq<u8>),
    WitnessTransaction(Seq<u8>),
}

/// A typed reference to a block or transaction by hash; the unit of
/// announcement in `Inv`, `GetData` and `NotFound`.
#[derive(Debug, PartialEq, Eq, Clone)]
pub enum Inventory {
    Error,
    Block(Hash32),
    WitnessBlock(Hash32),
    Transaction(Hash32),
    WitnessTransaction(Hash32),
}

impl View for Inventory {
    type V = InvV;

    open spec fn view(&self) -> InvV {
        match self {
            Inventory::Error => InvV::Error,
            Inventory::Block(h) => InvV::Block(h@),
            Inventory::WitnessBlock(h) => InvV::WitnessBlock(h@),
            Inventory::Transaction(h) => InvV::Transaction(h@),
            Inventory::WitnessTransaction(h) => InvV::WitnessTransaction(h@),
        }
    }
}

pub open spec fn inv_wf(i: InvV) -> bool {
    match i {
        InvV::Error => true,
        InvV::Block(h) => h.len() == 32,
        InvV::WitnessBlock(h) => h.len() == 32,
        InvV::Transaction(h) => h.len() == 32,
        InvV::WitnessTransaction(h) => h.len() == 32,
    }
}

pub open spec fn invs_view(v: Seq<Inventory>) -> Seq<InvV> {
    Seq::new(v.len(), |i: int| v[i]@)
}

impl Inventory {
    pub fn dup(&self) -> (r: Inventory)
        ensures
            r@ == self@,
    {
        match self {
            Inventory::Error => Inventory::Error,
            Inventory::Block(h) => Inventory::Block(h.dup()),
            Inventory::WitnessBlock(h) => Inventory::WitnessBlock(h.dup()),
            Inventory::Transaction(h) => Inventory::Transaction(h.dup()),
            Inventory::WitnessTransaction(h) => Inventory::WitnessTransaction(h.dup()),
        }
    }
}

// ---------------------------------------------------------------------------
// Peer addresses and the version payload
// ---------------------------------------------------------------------------

pub struct AddressV {
    pub services: u64,
    pub address: Seq<u8>,
    pub port: u16,
}

/// A network address as carried in a version payload: service bits, the
/// 16-byte address (IPv6, or IPv4 mapped), and the port.
#[derive(Debug, PartialEq, Eq, Clone)]
pub struct Address {
    pub services: u64,
    pub address: Vec<u8>,
    pub port: u16,
}

impl View for Address {
    type V = AddressV;

    open spec fn view(&self) -> AddressV {
        AddressV { services: self.services, address: self.address@, port: self.port }
    }
}

pub open spec fn addr_wf(a: AddressV) -> bool {
    a.address.len() == 16
}

impl Address {
    pub fn dup(&self) -> (r: Address)
        ensures
            r@ == self@,
    {
        Address { services: self.services, address: clone_bytes(&self.address), port: self.port }
    }
}

pub struct VersionV {
    pub version: u32,
    pub services: u64,
    pub timestamp: u64,
    pub receiver: AddressV,
    pub sender: AddressV,
    pub nonce: u64,
    pub user_agent: Seq<u8>,
    pub start_height: u32,
    pub relay: bool,
}

/// The handshake payload: protocol version, service bits, wall-clock
/// timestamp, both endpoint addresses, a random nonce, the ASCII user agent,
/// and the chain height.
#[derive(Debug, PartialEq, Eq, Clone)]
pub struct VersionMsg {
    pub version: u32,
    pub services: u64,
    pub timestamp: u64,
    pub receiver: Address,
    pub sender: Address,
    pub nonce: u64,
    pub user_agent: Vec<u8>,
    pub start_height: u32,
    pub relay: bool,
}

impl View for VersionMsg {
    type V = VersionV;

    open spec fn view(&self) -> VersionV {
        VersionV {
            version: self.version,
            services: self.services,
            timestamp: self.timestamp,
            receiver: self.receiver@,
            sender: self.sender@,
            nonce: self.nonce,
            user_agent: self.user_agent@,
            start_height: self.start_height,
            relay: self.relay,
        }
    }
}

pub open spec fn version_wf(v: VersionV) -> bool {
    addr_wf(v.receiver) && addr_wf(v.sender)
}

impl VersionMsg {
    pub fn dup(&self) -> (r: VersionMsg)
        ensures
            r@ == self@,
    {
        VersionMsg {
            version: self.version,
            services: self.services,
            timestamp: self.timestamp,
            receiver: self.receiver.dup(),
            sender: self.sender.dup(),
            nonce: self.nonce,
            user_agent: clone_bytes(&self.user_agent),
            start_height: self.start_height,
            relay: self.relay,
        }
    }
}

// ---------------------------------------------------------------------------
// Compact-filter payloads
// ---------------------------------------------------------------------------

pub struct GetCFCheckptV {
    pub filter_type: u8,
    pub stop_hash: Seq<u8>,
}

#[derive(Debug, PartialEq, Eq, Clone)]
pub struct GetCFCheckpt {
    pub filter_type: u8,
    pub stop_hash: Hash32,
}

impl View for GetCFCheckpt {
    type V = GetCFCheckptV;

    open spec fn view(&self) -> GetCFCheckptV {
        GetCFCheckptV { filter_type: self.filter_type, stop_hash: self.stop_hash@ }
    }
}

pub struct CFCheckptV {
    pub filter_type: u8,
    pub stop_hash: Seq<u8>,
    pub filter_headers: Seq<Seq<u8>>,
}

#[derive(Debug, PartialEq, Eq, Clone)]
pub struct CFCheckpt {
    pub filter_type: u8,
    pub stop_hash: Hash32,
    pub filter_headers: Vec<Hash32>,
}

pub open spec fn hashes_view(v: Seq<Hash32>) -> Seq<Seq<u8>> {
    Seq::new(v.len(), |i: int| v[i]@)
}

impl View for CFCheckpt {
    type V = CFCheckptV;

    open spec fn view(&self) -> CFCheckptV {
        CFCheckptV {
            filter_type: self.filter_type,
            stop_hash: self.stop_hash@,
            filter_headers: hashes_view(self.filter_headers@),
        }
    }
}

pub struct GetCFHeadersV {
    pub filter_type: u8,
    pub start_height: u32,
    pub stop_hash: Seq<u8>,
}

#[derive(Debug, PartialEq, Eq, Clone)]
pub struct GetCFHeaders {
    pub filter_type: u8,
    pub start_height: u32,
    pub stop_hash: Hash32,
}

impl View for GetCFHeaders {
    type V = GetCFHeadersV;

    open spec fn view(&self) -> GetCFHeadersV {
        GetCFHeadersV {
            filter_type: self.filter_type,
            start_height: self.start_height,
            stop_hash: self.stop_hash@,
        }
    }
}

pub struct CFHeadersV {
    pub filter_type: u8,
    pub stop_hash: Seq<u8>,
    pub previous_filter_header: Seq<u8>,
    pub filter_hashes: Seq<Seq<u8>>,
}

#[derive(Debug, PartialEq, Eq, Clone)]
pub struct CFHeaders {
    pub filter_type: u8,
    pub stop_hash: Hash32,
    pub previous_filter_header: Hash32,
    pub filter_hashes: Vec<Hash32>,
}

impl View for CFHeaders {
    type V = CFHeadersV;

    open spec fn view(&self) -> CFHeadersV {
        CFHeadersV {
            filter_type: self.filter_type,
            stop_hash: self.stop_hash@,
            previous_filter_header: self.previous_filter_header@,
            filter_hashes: hashes_view(self.filter_hashes@),
        }
    }
}

pub struct GetCFiltersV {
    pub filter_type: u8,
    pub start_height: u32,
    pub stop_hash: Seq<u8>,
}

#[derive(Debug, PartialEq, Eq, Clone)]
pub struct GetCFilters {
    pub filter_type: u8,
    pub start_height: u32,
    pub stop_hash: Hash32,
}

impl View for GetCFilters {
    type V = GetCFiltersV;

    open spec fn view(&self) -> GetCFiltersV {
        GetCFiltersV {
            filter_type: self.filter_type,
            start_height: self.start_height,
            stop_hash: self.stop_hash@,
        }
    }
}

pub struct CFilterV {
    pub filter_type: u8,
    pub block_hash: Seq<u8>,
    pub filter: Seq<u8>,
}

#[derive(Debug, PartialEq, Eq, Clone)]
pub struct CFilter {
    pub filter_type: u8,
    pub block_hash: Hash32,
    pub filter: Vec<u8>,
}

impl View for CFilter {
    type V = CFilterV;

    open spec fn view(&self) -> CFilterV {
        CFilterV {
            filter_type: self.filter_type,
            block_hash: self.block_hash@,
            filter: self.filter@,
        }
    }
}

// ---------------------------------------------------------------------------
// The message sum
// ---------------------------------------------------------------------------

pub enum MsgV {
    Version(VersionV),
    Verack,
    Ping(u64),
    Pong(u64),
    Alert(Seq<u8>),
    Inv(Seq<InvV>),
    GetData(Seq<InvV>),
    NotFound(Seq<InvV>),
    Tx(TxV),
    Block(Seq<u8>),
    MemPool,
    GetCFCheckpt(GetCFCheckptV),
    CFCheckpt(CFCheckptV),
    GetCFHeaders(GetCFHeadersV),
    CFHeaders(CFHeadersV),
    GetCFilters(GetCFiltersV),
    CFilter(CFilterV),
}

/// A Bitcoin P2P message, restricted to the command set the peer names.
/// Unknown commands never reach this type: the decoder reports them
/// separately and the reader drops them.
#[derive(Debug, PartialEq, Eq, Clone)]
pub enum NetworkMessage {
    Version(VersionMsg),
    Verack,
    Ping(u64),
    Pong(u64),
    Alert(Vec<u8>),
    Inv(Vec<Inventory>),
    GetData(Vec<Inventory>),
    NotFound(Vec<Inventory>),
    Tx(Transaction),
    Block(Vec<u8>),
    MemPool,
    GetCFCheckpt(GetCFCheckpt),
    CFCheckpt(CFCheckpt),
    GetCFHeaders(GetCFHeaders),
    CFHeaders(CFHeaders),
    GetCFilters(GetCFilters),
    CFilter(CFilter),
}

impl View for NetworkMessage {
    type V = MsgV;

    open spec fn view(&self) -> MsgV {
        match self {
            NetworkMessage::Version(v) => MsgV::Version(v@),
            NetworkMessage::Verack => MsgV::Verack,
            NetworkMessage::Ping(n) => MsgV::Ping(*n),
            NetworkMessage::Pong(n) => MsgV::Pong(*n),
            NetworkMessage::Alert(b) => MsgV::Alert(b@),
            NetworkMessage::Inv(v) => MsgV::Inv(invs_view(v@)),
            NetworkMessage::GetData(v) => MsgV::GetData(invs_view(v@)),
            NetworkMessage::NotFound(v) => MsgV::NotFound(invs_view(v@)),
            NetworkMessage::Tx(t) => MsgV::Tx(t@),
            NetworkMessage::Block(b) => MsgV::Block(b@),
            NetworkMessage::MemPool => MsgV::MemPool,
            NetworkMessage::GetCFCheckpt(m) => MsgV::GetCFCheckpt(m@),
            NetworkMessage::CFCheckpt(m) => MsgV::CFCheckpt(m@),
            NetworkMessage::GetCFHeaders(m) => MsgV::GetCFHeaders(m@),
            NetworkMessage::CFHeaders(m) => MsgV::CFHeaders(m@),
            NetworkMessage::GetCFilters(m) => MsgV::GetCFilters(m@),
            NetworkMessage::CFilter(m) => MsgV::CFilter(m@),
        }
    }
}

pub open spec fn msg_wf(m: MsgV) -> bool {
    match m {
        MsgV::Version(v) => version_wf(v) && v.user_agent.len() <= u64::MAX,
        MsgV::Verack => true,
        MsgV::Ping(_) => true,
        MsgV::Pong(_) => true,
        MsgV::Alert(_) => true,
        MsgV::Inv(s) => s.len() <= u64::MAX
            && forall|i: int| 0 <= i < s.len() ==> inv_wf(#[trigger] s[i]),
        MsgV::GetData(s) => s.len() <= u64::MAX
            && forall|i: int| 0 <= i < s.len() ==> inv_wf(#[trigger] s[i]),
        MsgV::NotFound(s) => s.len() <= u64::MAX
            && forall|i: int| 0 <= i < s.len() ==> inv_wf(#[trigger] s[i]),
        MsgV::Tx(t) => tx_v_wf(t),
        MsgV::Block(_) => true,
        MsgV::MemPool => true,
        MsgV::GetCFCheckpt(g) => g.stop_hash.len() == 32,
        MsgV::CFCheckpt(c) => c.stop_hash.len() == 32 && c.filter_headers.len() <= u64::MAX
            && forall|i: int| 0 <= i < c.filter_headers.len()
                ==> (#[trigger] c.filter_headers[i]).len() == 32,
        MsgV::GetCFHeaders(g) => g.stop_hash.len() == 32,
        MsgV::CFHeaders(c) => c.stop_hash.len() == 32 && c.previous_filter_header.len() == 32
            && c.filter_hashes.len() <= u64::MAX
            && forall|i: int| 0 <= i < c.filter_hashes.len()
                ==> (#[trigger] c.filter_hashes[i]).len() == 32,
        MsgV::GetCFilters(g) => g.stop_hash.len() == 32,
        MsgV::CFilter(c) => c.block_hash.len() == 32 && c.filter.len() <= u64::MAX,
    }
}

} // verus!
