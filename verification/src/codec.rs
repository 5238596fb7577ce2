use vstd::prelude::*;

use crate::bytes::{
    be2, bytes_eq, clone_bytes, copy_range, le4, le8, lemma_u16_be_round, lemma_u32_round,
    lemma_u64_round, lemma_varint_round, parse_varint, push_bytes, push_u16_be, push_u32_le,
    push_u64_le, push_varint, read_u16_be, read_u32_le, read_u64_le, read_varint, u16_be_at,
    u32_at, u64_at, varint,
};
use crate::commands::{cmd_bytes12, cmd_of, command_bytes, command_of, lemma_command_round,
    parse_command, parse_command_spec, Command};
use crate::errors::PeerError;
use crate::msgs::{
    addr_wf, inv_wf, invs_view, hashes_view, msg_wf, sha256d, sha256d_of, tx_from_bytes, tx_valid,
    txid_of, version_wf, Address, AddressV, CFCheckpt, CFCheckptV, CFHeaders, CFHeadersV, CFilter,
    CFilterV, GetCFCheckpt, GetCFCheckptV, GetCFHeaders, GetCFHeadersV, GetCFilters, GetCFiltersV,
    Hash32, Inventory, InvV, MsgV, NetworkMessage, Transaction, TxV, VersionMsg, VersionV,
};

verus! {

// ---------------------------------------------------------------------------
// Spec-level encoding
// ---------------------------------------------------------------------------

pub open spec fn zero32() -> Seq<u8> {
    Seq::new(32, |i: int| 0u8)
}

pub open spec fn bool_byte(b: bool) -> u8 {
    if b { 1u8 } else { 0u8 }
}

pub open spec fn addr_bytes(a: AddressV) -> Seq<u8> {
    le8(a.services) + a.address + be2(a.port)
}

pub open spec fn version_bytes(v: VersionV) -> Seq<u8> {
    le4(v.version) + le8(v.services) + le8(v.timestamp) + addr_bytes(v.receiver)
        + addr_bytes(v.sender) + le8(v.nonce) + varint(v.user_agent.len() as u64) + v.user_agent
        + le4(v.start_height) + seq![bool_byte(v.relay)]
}

pub open spec fn inv_code(i: InvV) -> u32 {
    match i {
        InvV::Error => 0u32,
        InvV::Transaction(_) => 1u32,
        InvV::Block(_) => 2u32,
        InvV::WitnessTransaction(_) => 0x40000001u32,
        InvV::WitnessBlock(_) => 0x40000002u32,
    }
}

pub open spec fn inv_body(i: InvV) -> Seq<u8> {
    match i {
        InvV::Error => zero32(),
        InvV::Transaction(h) => h,
        InvV::Block(h) => h,
        InvV::WitnessTransaction(h) => h,
        InvV::WitnessBlock(h) => h,
    }
}

pub open spec fn item_bytes(i: InvV) -> Seq<u8> {
    le4(inv_code(i)) + inv_body(i)
}

pub open spec fn invs_bytes(s: Seq<InvV>) -> Seq<u8>
    decreases s.len(),
{
    if s.len() == 0 {
        Seq::empty()
    } else {
        item_bytes(s[0]) + invs_bytes(s.drop_first())
    }
}

pub open spec fn hashes_bytes(s: Seq<Seq<u8>>) -> Seq<u8>
    decreases s.len(),
{
    if s.len() == 0 {
        Seq::empty()
    } else {
        s[0] + hashes_bytes(s.drop_first())
    }
}

/// The payload a message serializes to, before framing.
pub open spec fn payload_bytes(m: MsgV) -> Seq<u8> {
    match m {
        MsgV::Version(v) => version_bytes(v),
        MsgV::Verack => Seq::empty(),
        MsgV::Ping(n) => le8(n),
        MsgV::Pong(n) => le8(n),
        MsgV::Alert(b) => b,
        MsgV::Inv(s) => varint(s.len() as u64) + invs_bytes(s),
        MsgV::GetData(s) => varint(s.len() as u64) + invs_bytes(s),
        MsgV::NotFound(s) => varint(s.len() as u64) + invs_bytes(s),
        MsgV::Tx(t) => t.raw,
        MsgV::Block(b) => b,
        MsgV::MemPool => Seq::empty(),
        MsgV::GetCFCheckpt(g) => seq![g.filter_type] + g.stop_hash,
        MsgV::CFCheckpt(c) => seq![c.filter_type] + c.stop_hash
            + varint(c.filter_headers.len() as u64) + hashes_bytes(c.filter_headers),
        MsgV::GetCFHeaders(g) => seq![g.filter_type] + le4(g.start_height) + g.stop_hash,
        MsgV::CFHeaders(c) => seq![c.filter_type] + c.stop_hash + c.previous_filter_header
            + varint(c.filter_hashes.len() as u64) + hashes_bytes(c.filter_hashes),
        MsgV::GetCFilters(g) => seq![g.filter_type] + le4(g.start_height) + g.stop_hash,
        MsgV::CFilter(c) => seq![c.filter_type] + c.block_hash + varint(c.filter.len() as u64)
            + c.filter,
    }
}

/// First four bytes of the double-SHA-256 of the payload.
pub open spec fn checksum4(p: Seq<u8>) -> Seq<u8> {
    seq![sha256d_of(p)[0], sha256d_of(p)[1], sha256d_of(p)[2], sha256d_of(p)[3]]
}

/// One frame: magic, 12-byte command, payload length, checksum, payload.
pub open spec fn frame_bytes(magic: u32, m: MsgV) -> Seq<u8> {
    le4(magic) + cmd_bytes12(cmd_of(m)) + le4(payload_bytes(m).len() as u32)
        + checksum4(payload_bytes(m)) + payload_bytes(m)
}

/// A message can be framed: well formed and its payload length fits the
/// 4-byte length field.
pub open spec fn encodable(m: MsgV) -> bool {
    msg_wf(m) && payload_bytes(m).len() <= 0xffffffff
}

// ---------------------------------------------------------------------------
// Spec-level parsing
// ---------------------------------------------------------------------------

pub open spec fn parse_addr(s: Seq<u8>, i: int) -> AddressV {
    AddressV {
        services: u64_at(s, i),
        address: s.subrange(i + 8, i + 24),
        port: u16_be_at(s, i + 24),
    }
}

pub open spec fn parse_version(p: Seq<u8>) -> Option<VersionV> {
    if p.len() < 80 {
        None
    } else {
        match parse_varint(p, 80) {
            None => None,
            Some((ual, j)) => {
                if j + ual + 5 == p.len() {
                    Some(VersionV {
                        version: u32_at(p, 0),
                        services: u64_at(p, 4),
                        timestamp: u64_at(p, 12),
                        receiver: parse_addr(p, 20),
                        sender: parse_addr(p, 46),
                        nonce: u64_at(p, 72),
                        user_agent: p.subrange(j, j + ual),
                        start_height: u32_at(p, j + ual),
                        relay: p[j + ual + 4] != 0,
                    })
                } else {
                    None
                }
            }
        }
    }
}

pub open spec fn parse_item(s: Seq<u8>, i: int) -> Option<(InvV, int)> {
    if i < 0 || i + 36 > s.len() {
        None
    } else {
        let code = u32_at(s, i);
        let h = s.subrange(i + 4, i + 36);
        if code == 0 {
            if h == zero32() {
                Some((InvV::Error, i + 36))
            } else {
                None
            }
        } else if code == 1 {
            Some((InvV::Transaction(h), i + 36))
        } else if code == 2 {
            Some((InvV::Block(h), i + 36))
        } else if code == 0x40000001 {
            Some((InvV::WitnessTransaction(h), i + 36))
        } else if code == 0x40000002 {
            Some((InvV::WitnessBlock(h), i + 36))
        } else {
            None
        }
    }
}

pub open spec fn parse_items(s: Seq<u8>, i: int, n: nat) -> Option<(Seq<InvV>, int)>
    decreases n,
{
    if n == 0 {
        Some((Seq::empty(), i))
    } else {
        match parse_item(s, i) {
            None => None,
            Some((it, j)) => match parse_items(s, j, (n - 1) as nat) {
                None => None,
                Some((rest, k)) => Some((seq![it] + rest, k)),
            },
        }
    }
}

pub open spec fn parse_hashes(s: Seq<u8>, i: int, n: nat) -> Option<(Seq<Seq<u8>>, int)>
    decreases n,
{
    if n == 0 {
        Some((Seq::empty(), i))
    } else {
        if i < 0 || i + 32 > s.len() {
            None
        } else {
            match parse_hashes(s, i + 32, (n - 1) as nat) {
                None => None,
                Some((rest, k)) => Some((seq![s.subrange(i, i + 32)] + rest, k)),
            }
        }
    }
}

pub open spec fn parse_inv_list(p: Seq<u8>) -> Option<Seq<InvV>> {
    match parse_varint(p, 0) {
        None => None,
        Some((n, j)) => match parse_items(p, j, n as nat) {
            None => None,
            Some((s, k)) => if k == p.len() {
                Some(s)
            } else {
                None
            },
        },
    }
}

pub open spec fn parse_cfcheckpt(p: Seq<u8>) -> Option<CFCheckptV> {
    if p.len() < 33 {
        None
    } else {
        match parse_varint(p, 33) {
            None => None,
            Some((n, j)) => match parse_hashes(p, j, n as nat) {
                None => None,
                Some((s, k)) => if k == p.len() {
                    Some(CFCheckptV {
                        filter_type: p[0],
                        stop_hash: p.subrange(1, 33),
                        filter_headers: s,
                    })
                } else {
                    None
                },
            },
        }
    }
}

pub open spec fn parse_cfheaders(p: Seq<u8>) -> Option<CFHeadersV> {
    if p.len() < 65 {
        None
    } else {
        match parse_varint(p, 65) {
            None => None,
            Some((n, j)) => match parse_hashes(p, j, n as nat) {
                None => None,
                Some((s, k)) => if k == p.len() {
                    Some(CFHeadersV {
                        filter_type: p[0],
                        stop_hash: p.subrange(1, 33),
                        previous_filter_header: p.subrange(33, 65),
                        filter_hashes: s,
                    })
                } else {
                    None
                },
            },
        }
    }
}

pub open spec fn parse_cfilter(p: Seq<u8>) -> Option<CFilterV> {
    if p.len() < 33 {
        None
    } else {
        match parse_varint(p, 33) {
            None => None,
            Some((n, j)) => if j + n == p.len() {
                Some(CFilterV {
                    filter_type: p[0],
                    block_hash: p.subrange(1, 33),
                    filter: p.subrange(j, p.len() as int),
                })
            } else {
                None
            },
        }
    }
}

/// What a payload of a given command parses to. `None` is a decode failure;
/// the whole payload must be consumed.
pub open spec fn parse_payload(c: Command, p: Seq<u8>) -> Option<MsgV> {
    match c {
        Command::Version => match parse_version(p) {
            None => None,
            Some(v) => Some(MsgV::Version(v)),
        },
        Command::Verack => if p.len() == 0 {
            Some(MsgV::Verack)
        } else {
            None
        },
        Command::Ping => if p.len() == 8 {
            Some(MsgV::Ping(u64_at(p, 0)))
        } else {
            None
        },
        Command::Pong => if p.len() == 8 {
            Some(MsgV::Pong(u64_at(p, 0)))
        } else {
            None
        },
        Command::Alert => Some(MsgV::Alert(p)),
        Command::Inv => match parse_inv_list(p) {
            None => None,
            Some(s) => Some(MsgV::Inv(s)),
        },
        Command::GetData => match parse_inv_list(p) {
            None => None,
            Some(s) => Some(MsgV::GetData(s)),
        },
        Command::NotFound => match parse_inv_list(p) {
            None => None,
            Some(s) => Some(MsgV::NotFound(s)),
        },
        Command::Tx => if tx_valid(p) {
            Some(MsgV::Tx(TxV { raw: p, txid: txid_of(p) }))
        } else {
            None
        },
        Command::Block => Some(MsgV::Block(p)),
        Command::MemPool => if p.len() == 0 {
            Some(MsgV::MemPool)
        } else {
            None
        },
        Command::GetCFCheckpt => if p.len() == 33 {
            Some(MsgV::GetCFCheckpt(GetCFCheckptV {
                filter_type: p[0],
                stop_hash: p.subrange(1, 33),
            }))
        } else {
            None
        },
        Command::CFCheckpt => match parse_cfcheckpt(p) {
            None => None,
            Some(c) => Some(MsgV::CFCheckpt(c)),
        },
        Command::GetCFHeaders => if p.len() == 37 {
            Some(MsgV::GetCFHeaders(GetCFHeadersV {
                filter_type: p[0],
                start_height: u32_at(p, 1),
                stop_hash: p.subrange(5, 37),
            }))
        } else {
            None
        },
        Command::CFHeaders => match parse_cfheaders(p) {
            None => None,
            Some(c) => Some(MsgV::CFHeaders(c)),
        },
        Command::GetCFilters => if p.len() == 37 {
            Some(MsgV::GetCFilters(GetCFiltersV {
                filter_type: p[0],
                start_height: u32_at(p, 1),
                stop_hash: p.subrange(5, 37),
            }))
        } else {
            None
        },
        Command::CFilter => match parse_cfilter(p) {
            None => None,
            Some(c) => Some(MsgV::CFilter(c)),
        },
    }
}

/// What one whole frame parses to: the magic and, for a known command, the
/// message. `Some((magic, None))` is a structurally sound frame whose command
/// the peer does not know; the reader drops it. `None` is corruption.
pub open spec fn parse_frame(b: Seq<u8>) -> Option<(u32, Option<MsgV>)> {
    if b.len() < 24 {
        None
    } else {
        let magic = u32_at(b, 0);
        let cmd12 = b.subrange(4, 16);
        let len = u32_at(b, 16);
        let cs = b.subrange(20, 24);
        if b.len() != 24 + len {
            None
        } else {
            let payload = b.subrange(24, b.len() as int);
            if cs != checksum4(payload) {
                None
            } else {
                match parse_command_spec(cmd12) {
                    None => Some((magic, None)),
                    Some(c) => match parse_payload(c, payload) {
                        None => None,
                        Some(mv) => Some((magic, Some(mv))),
                    },
                }
            }
        }
    }
}

// ---------------------------------------------------------------------------
// Round-trip lemmas: what the encoder writes, the parser reads back.
// ---------------------------------------------------------------------------

pub proof fn lemma_invs_snoc(s: Seq<InvV>, x: InvV)
    ensures
        invs_bytes(s.push(x)) == invs_bytes(s) + item_bytes(x),
    decreases s.len(),
{
    if s.len() == 0 {
        assert(s.push(x)[0] == x);
        assert(s.push(x).drop_first() =~= Seq::<InvV>::empty());
        assert(invs_bytes(Seq::<InvV>::empty()) == Seq::<u8>::empty());
        assert(invs_bytes(s.push(x)) == item_bytes(x) + Seq::<u8>::empty());
        assert(invs_bytes(s) == Seq::<u8>::empty());
        assert(invs_bytes(s.push(x)) =~= invs_bytes(s) + item_bytes(x));
    } else {
        assert(s.push(x)[0] == s[0]);
        assert(s.push(x).drop_first() =~= s.drop_first().push(x));
        lemma_invs_snoc(s.drop_first(), x);
        assert(invs_bytes(s.push(x))
            == item_bytes(s[0]) + (invs_bytes(s.drop_first()) + item_bytes(x)));
        assert(invs_bytes(s) == item_bytes(s[0]) + invs_bytes(s.drop_first()));
        assert(invs_bytes(s.push(x)) =~= invs_bytes(s) + item_bytes(x));
    }
}

pub proof fn lemma_hashes_snoc(s: Seq<Seq<u8>>, x: Seq<u8>)
    ensures
        hashes_bytes(s.push(x)) == hashes_bytes(s) + x,
    decreases s.len(),
{
    if s.len() == 0 {
        assert(s.push(x)[0] == x);
        assert(s.push(x).drop_first() =~= Seq::<Seq<u8>>::empty());
        assert(hashes_bytes(Seq::<Seq<u8>>::empty()) == Seq::<u8>::empty());
        assert(hashes_bytes(s.push(x)) == x + Seq::<u8>::empty());
        assert(hashes_bytes(s) == Seq::<u8>::empty());
        assert(hashes_bytes(s.push(x)) =~= hashes_bytes(s) + x);
    } else {
        assert(s.push(x)[0] == s[0]);
        assert(s.push(x).drop_first() =~= s.drop_first().push(x));
        lemma_hashes_snoc(s.drop_first(), x);
        assert(hashes_bytes(s.push(x)) == s[0] + (hashes_bytes(s.drop_first()) + x));
        assert(hashes_bytes(s) == s[0] + hashes_bytes(s.drop_first()));
        assert(hashes_bytes(s.push(x)) =~= hashes_bytes(s) + x);
    }
}

pub proof fn lemma_item_len(it: InvV)
    requires
        inv_wf(it),
    ensures
        item_bytes(it).len() == 36,
        inv_body(it).len() == 32,
{
}

pub proof fn lemma_item_round(pre: Seq<u8>, it: InvV, post: Seq<u8>)
    requires
        inv_wf(it),
    ensures
        parse_item(pre + item_bytes(it) + post, pre.len() as int)
            == Some((it, (pre.len() + 36) as int)),
{
    let s = pre + item_bytes(it) + post;
    let i = pre.len() as int;
    lemma_item_len(it);
    assert forall|k: int| 0 <= k < 36 implies s[i + k] == item_bytes(it)[k] by {}
    lemma_u32_round(inv_code(it));
    assert(u32_at(s, i) == inv_code(it));
    assert(s.subrange(i + 4, i + 36) =~= inv_body(it));
}

pub proof fn lemma_items_round(pre: Seq<u8>, s: Seq<InvV>, post: Seq<u8>)
    requires
        forall|i: int| 0 <= i < s.len() ==> inv_wf(#[trigger] s[i]),
    ensures
        parse_items(pre + invs_bytes(s) + post, pre.len() as int, s.len())
            == Some((s, (pre.len() + invs_bytes(s).len()) as int)),
    decreases s.len(),
{
    let b = pre + invs_bytes(s) + post;
    if s.len() == 0 {
        assert(invs_bytes(s) =~= Seq::<u8>::empty());
        assert(s =~= Seq::<InvV>::empty());
        assert(parse_items(b, pre.len() as int, 0) == Some((Seq::<InvV>::empty(), pre.len() as int)));
    } else {
        let it = s[0];
        let rest = s.drop_first();
        lemma_item_len(it);
        assert(b =~= pre + item_bytes(it) + (invs_bytes(rest) + post));
        lemma_item_round(pre, it, invs_bytes(rest) + post);
        assert(parse_item(b, pre.len() as int) == Some((it, (pre.len() + 36) as int)));
        let pre2 = pre + item_bytes(it);
        assert(b =~= pre2 + invs_bytes(rest) + post);
        lemma_items_round(pre2, rest, post);
        assert(parse_items(b, pre2.len() as int, rest.len())
            == Some((rest, (pre2.len() + invs_bytes(rest).len()) as int)));
        assert(seq![it] + rest =~= s);
        assert(pre2.len() + invs_bytes(rest).len() == pre.len() + invs_bytes(s).len());
    }
}

pub proof fn lemma_hashes_round(pre: Seq<u8>, s: Seq<Seq<u8>>, post: Seq<u8>)
    requires
        forall|i: int| 0 <= i < s.len() ==> (#[trigger] s[i]).len() == 32,
    ensures
        parse_hashes(pre + hashes_bytes(s) + post, pre.len() as int, s.len())
            == Some((s, (pre.len() + hashes_bytes(s).len()) as int)),
    decreases s.len(),
{
    let b = pre + hashes_bytes(s) + post;
    if s.len() == 0 {
        assert(hashes_bytes(s) =~= Seq::<u8>::empty());
        assert(s =~= Seq::<Seq<u8>>::empty());
    } else {
        let h = s[0];
        let rest = s.drop_first();
        assert(b =~= pre + h + (hashes_bytes(rest) + post));
        assert(b.subrange(pre.len() as int, (pre.len() + 32) as int) =~= h);
        let pre2 = pre + h;
        assert(b =~= pre2 + hashes_bytes(rest) + post);
        lemma_hashes_round(pre2, rest, post);
        assert(seq![h] + rest =~= s);
        assert(pre2.len() + hashes_bytes(rest).len() == pre.len() + hashes_bytes(s).len());
    }
}

#[verifier::rlimit(50)]
pub proof fn lemma_version_round(v: VersionV)
    requires
        version_wf(v),
        v.user_agent.len() <= u64::MAX,
    ensures
        parse_version(version_bytes(v)) == Some(v),
{
    let p = version_bytes(v);
    let ual = v.user_agent.len() as u64;
    let pre80 = le4(v.version) + le8(v.services) + le8(v.timestamp) + addr_bytes(v.receiver)
        + addr_bytes(v.sender) + le8(v.nonce);
    let post = v.user_agent + le4(v.start_height) + seq![bool_byte(v.relay)];
    assert(addr_bytes(v.receiver).len() == 26);
    assert(addr_bytes(v.sender).len() == 26);
    assert(pre80.len() == 80);
    assert(p =~= pre80 + varint(ual) + post);
    lemma_varint_round(pre80, ual, post);
    let j = 80 + varint(ual).len() as int;
    assert(parse_varint(p, 80) == Some((ual, j)));
    assert(p.len() == j + ual + 5);
    assert forall|k: int| 0 <= k < 4 implies p[k] == le4(v.version)[k] by {}
    lemma_u32_round(v.version);
    assert(u32_at(p, 0) == v.version);
    assert forall|k: int| 0 <= k < 8 implies p[4 + k] == le8(v.services)[k] by {}
    lemma_u64_round(v.services);
    assert(u64_at(p, 4) == v.services);
    assert forall|k: int| 0 <= k < 8 implies p[12 + k] == le8(v.timestamp)[k] by {}
    lemma_u64_round(v.timestamp);
    assert(u64_at(p, 12) == v.timestamp);
    assert forall|k: int| 0 <= k < 26 implies p[20 + k] == #[trigger] addr_bytes(v.receiver)[k]
        by {}
    lemma_addr_at(p, 20, v.receiver);
    assert forall|k: int| 0 <= k < 26 implies p[46 + k] == #[trigger] addr_bytes(v.sender)[k]
        by {}
    lemma_addr_at(p, 46, v.sender);
    assert forall|k: int| 0 <= k < 8 implies p[72 + k] == le8(v.nonce)[k] by {}
    lemma_u64_round(v.nonce);
    assert(u64_at(p, 72) == v.nonce);
    assert(p.subrange(j, j + ual) =~= v.user_agent);
    assert forall|k: int| 0 <= k < 4 implies p[j + ual + k] == le4(v.start_height)[k] by {}
    lemma_u32_round(v.start_height);
    assert(u32_at(p, j + ual) == v.start_height);
    assert(p[j + ual + 4] == bool_byte(v.relay));
    assert((bool_byte(v.relay) != 0) == v.relay);
    assert(parse_addr(p, 20) == v.receiver);
    assert(parse_addr(p, 46) == v.sender);
}

/// Helper for reading an address embedded at a known offset.
pub proof fn lemma_addr_at(p: Seq<u8>, i: int, a: AddressV)
    requires
        addr_wf(a),
        0 <= i,
        i + 26 <= p.len(),
        forall|k: int| 0 <= k < 26 ==> p[i + k] == #[trigger] addr_bytes(a)[k],
    ensures
        parse_addr(p, i) == a,
{
    assert forall|k: int| 0 <= k < 26 implies p[i + k] == addr_bytes(a)[k] by {}
    assert forall|k: int| 0 <= k < 8 implies p[i + k] == le8(a.services)[k] by {
        assert(p[i + k] == addr_bytes(a)[k]);
        assert(addr_bytes(a)[k] == le8(a.services)[k]);
    }
    lemma_u64_round(a.services);
    assert(u64_at(p, i) == a.services);
    assert forall|k: int| 0 <= k < 16 implies p[i + 8 + k] == a.address[k] by {
        assert(p[i + 8 + k] == addr_bytes(a)[8 + k]);
        assert(addr_bytes(a)[8 + k] == a.address[k]);
    }
    assert(p.subrange(i + 8, i + 24) =~= a.address);
    assert(p[i + 24] == addr_bytes(a)[24]);
    assert(p[i + 25] == addr_bytes(a)[25]);
    assert(addr_bytes(a)[24] == be2(a.port)[0]);
    assert(addr_bytes(a)[25] == be2(a.port)[1]);
    lemma_u16_be_round(a.port);
    assert(u16_be_at(p, i + 24) == a.port);
}

/// Every well-formed message's payload parses back to the message under its
/// own command.
#[verifier::rlimit(100)]
#[verifier::spinoff_prover]
pub proof fn lemma_payload_round(m: MsgV)
    requires
        msg_wf(m),
    ensures
        parse_payload(cmd_of(m), payload_bytes(m)) == Some(m),
{
    let p = payload_bytes(m);
    match m {
        MsgV::Version(v) => {
            lemma_version_round(v);
        },
        MsgV::Verack => {},
        MsgV::MemPool => {},
        MsgV::Ping(n) => {
            assert forall|k: int| 0 <= k < 8 implies p[k] == le8(n)[k] by {}
            lemma_u64_round(n);
            assert(u64_at(p, 0) == n);
        },
        MsgV::Pong(n) => {
            assert forall|k: int| 0 <= k < 8 implies p[k] == le8(n)[k] by {}
            lemma_u64_round(n);
            assert(u64_at(p, 0) == n);
        },
        MsgV::Alert(_) => {},
        MsgV::Block(_) => {},
        MsgV::Tx(t) => {},
        MsgV::Inv(s) => {
            lemma_inv_list_round(s);
        },
        MsgV::GetData(s) => {
            lemma_inv_list_round(s);
        },
        MsgV::NotFound(s) => {
            lemma_inv_list_round(s);
        },
        MsgV::GetCFCheckpt(g) => {
            assert(p.len() == 33);
            assert(p[0] == g.filter_type);
            assert(p.subrange(1, 33) =~= g.stop_hash);
        },
        MsgV::CFCheckpt(c) => {
            let n = c.filter_headers.len() as u64;
            let pre = seq![c.filter_type] + c.stop_hash + varint(n);
            assert(p =~= (seq![c.filter_type] + c.stop_hash) + varint(n) + hashes_bytes(c.filter_headers));
            lemma_varint_round(seq![c.filter_type] + c.stop_hash, n, hashes_bytes(c.filter_headers));
            assert(parse_varint(p, 33) == Some((n, 33 + varint(n).len() as int)));
            assert(p =~= pre + hashes_bytes(c.filter_headers) + Seq::<u8>::empty());
            lemma_hashes_round(pre, c.filter_headers, Seq::<u8>::empty());
            assert(p[0] == c.filter_type);
            assert(p.subrange(1, 33) =~= c.stop_hash);
        },
        MsgV::CFHeaders(c) => {
            let n = c.filter_hashes.len() as u64;
            let head = seq![c.filter_type] + c.stop_hash + c.previous_filter_header;
            let pre = head + varint(n);
            assert(head.len() == 65);
            assert(p =~= head + varint(n) + hashes_bytes(c.filter_hashes));
            lemma_varint_round(head, n, hashes_bytes(c.filter_hashes));
            assert(parse_varint(p, 65) == Some((n, 65 + varint(n).len() as int)));
            assert(p =~= pre + hashes_bytes(c.filter_hashes) + Seq::<u8>::empty());
            lemma_hashes_round(pre, c.filter_hashes, Seq::<u8>::empty());
            assert(p[0] == c.filter_type);
            assert(p.subrange(1, 33) =~= c.stop_hash);
            assert(p.subrange(33, 65) =~= c.previous_filter_header);
        },
        MsgV::GetCFHeaders(g) => {
            assert(p.len() == 37);
            assert(p[0] == g.filter_type);
            assert forall|k: int| 0 <= k < 4 implies p[1 + k] == le4(g.start_height)[k] by {}
            lemma_u32_round(g.start_height);
            assert(u32_at(p, 1) == g.start_height);
            assert(p.subrange(5, 37) =~= g.stop_hash);
        },
        MsgV::GetCFilters(g) => {
            assert(p.len() == 37);
            assert(p[0] == g.filter_type);
            assert forall|k: int| 0 <= k < 4 implies p[1 + k] == le4(g.start_height)[k] by {}
            lemma_u32_round(g.start_height);
            assert(u32_at(p, 1) == g.start_height);
            assert(p.subrange(5, 37) =~= g.stop_hash);
        },
        MsgV::CFilter(c) => {
            let n = c.filter.len() as u64;
            let head = seq![c.filter_type] + c.block_hash;
            assert(head.len() == 33);
            assert(p =~= head + varint(n) + c.filter);
            lemma_varint_round(head, n, c.filter);
            let j = 33 + varint(n).len() as int;
            assert(parse_varint(p, 33) == Some((n, j)));
            assert(j + n == p.len());
            assert(p[0] == c.filter_type);
            assert(p.subrange(1, 33) =~= c.block_hash);
            assert(p.subrange(j, p.len() as int) =~= c.filter);
        },
    }
}

pub proof fn lemma_inv_list_round(s: Seq<InvV>)
    requires
        forall|i: int| 0 <= i < s.len() ==> inv_wf(#[trigger] s[i]),
        s.len() <= u64::MAX,
    ensures
        parse_inv_list(varint(s.len() as u64) + invs_bytes(s)) == Some(s),
{
    let n = s.len() as u64;
    let p = varint(n) + invs_bytes(s);
    assert(p =~= Seq::<u8>::empty() + varint(n) + invs_bytes(s));
    lemma_varint_round(Seq::<u8>::empty(), n, invs_bytes(s));
    let j = varint(n).len() as int;
    assert(parse_varint(p, 0) == Some((n, j)));
    assert(p =~= varint(n) + invs_bytes(s) + Seq::<u8>::empty());
    lemma_items_round(varint(n), s, Seq::<u8>::empty());
    assert(parse_items(p, j, s.len()) == Some((s, p.len() as int)));
}

/// Framing round trip: a frame written for a well-formed message parses back
/// to the same magic and the same message.
#[verifier::rlimit(100)]
pub proof fn lemma_frame_round(magic: u32, m: MsgV)
    requires
        encodable(m),
    ensures
        parse_frame(frame_bytes(magic, m)) == Some((magic, Some(m))),
{
    let pl = payload_bytes(m);
    let b = frame_bytes(magic, m);
    let cmd = cmd_bytes12(cmd_of(m));
    assert(cmd.len() == 12);
    assert(b.len() == 24 + pl.len());
    assert forall|k: int| 0 <= k < 4 implies b[k] == le4(magic)[k] by {}
    lemma_u32_round(magic);
    assert(u32_at(b, 0) == magic);
    assert(b.subrange(4, 16) =~= cmd);
    let plen = pl.len() as u32;
    assert forall|k: int| 0 <= k < 4 implies b[16 + k] == le4(plen)[k] by {}
    lemma_u32_round(plen);
    assert(u32_at(b, 16) == plen);
    assert(b.len() == 24 + plen);
    assert(b.subrange(24, b.len() as int) =~= pl);
    assert(b.subrange(20, 24) =~= checksum4(pl));
    lemma_command_round(cmd_of(m));
    assert(parse_command_spec(b.subrange(4, 16)) == Some(cmd_of(m)));
    lemma_payload_round(m);
}

/// Corrupting any checksum byte of a frame makes it unparseable.
pub proof fn lemma_corrupt_checksum(magic: u32, m: MsgV, b2: Seq<u8>, i: int)
    requires
        encodable(m),
        20 <= i < 24,
        b2.len() == frame_bytes(magic, m).len(),
        b2[i] != frame_bytes(magic, m)[i],
        forall|j: int| 0 <= j < b2.len() && j != i ==> b2[j] == #[trigger] frame_bytes(magic, m)[j],
    ensures
        parse_frame(b2) is None,
{
    let b = frame_bytes(magic, m);
    let pl = payload_bytes(m);
    assert(b.len() == 24 + pl.len());
    let plen = pl.len() as u32;
    assert forall|k: int| 0 <= k < 4 implies b2[16 + k] == le4(plen)[k] by {
        assert(b[16 + k] == le4(plen)[k]);
    }
    lemma_u32_round(plen);
    assert(u32_at(b2, 16) == plen);
    assert(b2.len() == 24 + plen);
    let pl2 = b2.subrange(24, b2.len() as int);
    assert(b.subrange(24, b.len() as int) =~= pl);
    assert forall|k: int| 0 <= k < pl.len() implies pl2[k] == pl[k] by {
        assert(b2[24 + k] == b[24 + k]);
        assert(b[24 + k] == b.subrange(24, b.len() as int)[k]);
    }
    assert(pl2 =~= pl);
    assert(b.subrange(20, 24) =~= checksum4(pl));
    assert(b2.subrange(20, 24)[i - 20] != checksum4(pl)[i - 20]);
    assert(b2.subrange(20, 24) != checksum4(pl2));
}

// ---------------------------------------------------------------------------
// Executable encoding
// ---------------------------------------------------------------------------

fn push_zero32(out: &mut Vec<u8>)
    ensures
        final(out)@ == old(out)@ + zero32(),
{
    let mut i: usize = 0;
    while i < 32
        invariant
            i <= 32,
            out@.len() == old(out)@.len() + i,
            forall|j: int| 0 <= j < old(out)@.len() ==> out@[j] == old(out)@[j],
            forall|j: int| 0 <= j < i ==> #[trigger] out@[old(out)@.len() + j] == 0u8,
        decreases 32 - i,
    {
        out.push(0u8);
        i = i + 1;
    }
    assert forall|j: int| 0 <= j < out@.len() implies out@[j] == (old(out)@ + zero32())[j] by {
        if j >= old(out)@.len() {
            assert(out@[old(out)@.len() + (j - old(out)@.len())] == 0u8);
        }
    }
    assert(out@ =~= old(out)@ + zero32());
}

fn encode_addr(out: &mut Vec<u8>, a: &Address)
    ensures
        final(out)@ == old(out)@ + addr_bytes(a@),
{
    push_u64_le(out, a.services);
    push_bytes(out, &a.address);
    push_u16_be(out, a.port);
    assert(out@ =~= old(out)@ + addr_bytes(a@));
}

fn encode_invs(out: &mut Vec<u8>, items: &Vec<Inventory>)
    ensures
        final(out)@ == old(out)@ + invs_bytes(invs_view(items@)),
{
    let mut k: usize = 0;
    proof {
        assert(invs_view(items@.take(0)) =~= Seq::<InvV>::empty());
        assert(out@ =~= old(out)@ + invs_bytes(invs_view(items@.take(0))));
    }
    while k < items.len()
        invariant
            k <= items@.len(),
            out@ == old(out)@ + invs_bytes(invs_view(items@.take(k as int))),
        decreases items@.len() - k,
    {
        let ghost prev = out@;
        let item = &items[k];
        match item {
            Inventory::Error => {
                push_u32_le(out, 0);
                push_zero32(out);
            },
            Inventory::Transaction(h) => {
                push_u32_le(out, 1);
                push_bytes(out, &h.bytes);
            },
            Inventory::Block(h) => {
                push_u32_le(out, 2);
                push_bytes(out, &h.bytes);
            },
            Inventory::WitnessTransaction(h) => {
                push_u32_le(out, 0x40000001);
                push_bytes(out, &h.bytes);
            },
            Inventory::WitnessBlock(h) => {
                push_u32_le(out, 0x40000002);
                push_bytes(out, &h.bytes);
            },
        }
        proof {
            assert(out@ =~= prev + item_bytes(items@[k as int]@));
            assert(invs_view(items@.take(k + 1))
                =~= invs_view(items@.take(k as int)).push(items@[k as int]@));
            lemma_invs_snoc(invs_view(items@.take(k as int)), items@[k as int]@);
            assert(out@ =~= old(out)@ + invs_bytes(invs_view(items@.take(k + 1))));
        }
        k = k + 1;
    }
    assert(items@.take(items@.len() as int) =~= items@);
}

fn encode_hashes(out: &mut Vec<u8>, hs: &Vec<Hash32>)
    ensures
        final(out)@ == old(out)@ + hashes_bytes(hashes_view(hs@)),
{
    let mut k: usize = 0;
    proof {
        assert(hashes_view(hs@.take(0)) =~= Seq::<Seq<u8>>::empty());
        assert(out@ =~= old(out)@ + hashes_bytes(hashes_view(hs@.take(0))));
    }
    while k < hs.len()
        invariant
            k <= hs@.len(),
            out@ == old(out)@ + hashes_bytes(hashes_view(hs@.take(k as int))),
        decreases hs@.len() - k,
    {
        let ghost prev = out@;
        push_bytes(out, &hs[k].bytes);
        proof {
            assert(out@ =~= prev + hs@[k as int]@);
            assert(hashes_view(hs@.take(k + 1))
                =~= hashes_view(hs@.take(k as int)).push(hs@[k as int]@));
            lemma_hashes_snoc(hashes_view(hs@.take(k as int)), hs@[k as int]@);
            assert(out@ =~= old(out)@ + hashes_bytes(hashes_view(hs@.take(k + 1))));
        }
        k = k + 1;
    }
    assert(hs@.take(hs@.len() as int) =~= hs@);
}

/// Serializes a message's payload (the frame body, before framing).
pub fn encode_payload(m: &NetworkMessage) -> (r: Vec<u8>)
    ensures
        r@ == payload_bytes(m@),
{
    let mut out: Vec<u8> = Vec::new();
    match m {
        NetworkMessage::Version(v) => {
            push_u32_le(&mut out, v.version);
            push_u64_le(&mut out, v.services);
            push_u64_le(&mut out, v.timestamp);
            encode_addr(&mut out, &v.receiver);
            encode_addr(&mut out, &v.sender);
            push_u64_le(&mut out, v.nonce);
            push_varint(&mut out, v.user_agent.len() as u64);
            push_bytes(&mut out, &v.user_agent);
            push_u32_le(&mut out, v.start_height);
            out.push(if v.relay { 1u8 } else { 0u8 });
            assert(out@ =~= version_bytes(v@));
        },
        NetworkMessage::Verack => {
            assert(out@ =~= payload_bytes(m@));
        },
        NetworkMessage::MemPool => {
            assert(out@ =~= payload_bytes(m@));
        },
        NetworkMessage::Ping(n) => {
            push_u64_le(&mut out, *n);
            assert(out@ =~= payload_bytes(m@));
        },
        NetworkMessage::Pong(n) => {
            push_u64_le(&mut out, *n);
            assert(out@ =~= payload_bytes(m@));
        },
        NetworkMessage::Alert(b) => {
            push_bytes(&mut out, b);
            assert(out@ =~= payload_bytes(m@));
        },
        NetworkMessage::Block(b) => {
            push_bytes(&mut out, b);
            assert(out@ =~= payload_bytes(m@));
        },
        NetworkMessage::Tx(t) => {
            push_bytes(&mut out, t.raw_bytes());
            assert(out@ =~= payload_bytes(m@));
        },
        NetworkMessage::Inv(s) => {
            push_varint(&mut out, s.len() as u64);
            encode_invs(&mut out, s);
            assert(out@ =~= payload_bytes(m@));
        },
        NetworkMessage::GetData(s) => {
            push_varint(&mut out, s.len() as u64);
            encode_invs(&mut out, s);
            assert(out@ =~= payload_bytes(m@));
        },
        NetworkMessage::NotFound(s) => {
            push_varint(&mut out, s.len() as u64);
            encode_invs(&mut out, s);
            assert(out@ =~= payload_bytes(m@));
        },
        NetworkMessage::GetCFCheckpt(g) => {
            out.push(g.filter_type);
            push_bytes(&mut out, &g.stop_hash.bytes);
            assert(out@ =~= payload_bytes(m@));
        },
        NetworkMessage::CFCheckpt(c) => {
            out.push(c.filter_type);
            push_bytes(&mut out, &c.stop_hash.bytes);
            push_varint(&mut out, c.filter_headers.len() as u64);
            encode_hashes(&mut out, &c.filter_headers);
            assert(out@ =~= payload_bytes(m@));
        },
        NetworkMessage::GetCFHeaders(g) => {
            out.push(g.filter_type);
            push_u32_le(&mut out, g.start_height);
            push_bytes(&mut out, &g.stop_hash.bytes);
            assert(out@ =~= payload_bytes(m@));
        },
        NetworkMessage::CFHeaders(c) => {
            out.push(c.filter_type);
            push_bytes(&mut out, &c.stop_hash.bytes);
            push_bytes(&mut out, &c.previous_filter_header.bytes);
            push_varint(&mut out, c.filter_hashes.len() as u64);
            encode_hashes(&mut out, &c.filter_hashes);
            assert(out@ =~= payload_bytes(m@));
        },
        NetworkMessage::GetCFilters(g) => {
            out.push(g.filter_type);
            push_u32_le(&mut out, g.start_height);
            push_bytes(&mut out, &g.stop_hash.bytes);
            assert(out@ =~= payload_bytes(m@));
        },
        NetworkMessage::CFilter(c) => {
            out.push(c.filter_type);
            push_bytes(&mut out, &c.block_hash.bytes);
            push_varint(&mut out, c.filter.len() as u64);
            push_bytes(&mut out, &c.filter);
            assert(out@ =~= payload_bytes(m@));
        },
    }
    out
}

/// First four bytes of the double-SHA-256 of the payload.
pub fn checksum(p: &Vec<u8>) -> (r: Vec<u8>)
    ensures
        r@ == checksum4(p@),
        r@.len() == 4,
{
    let h = sha256d(p);
    let mut r: Vec<u8> = Vec::new();
    r.push(h[0]);
    r.push(h[1]);
    r.push(h[2]);
    r.push(h[3]);
    assert(r@ =~= checksum4(p@));
    r
}

/// Frames a message under the given magic. Fails with `DataCorruption` only
/// when the payload does not fit the 4-byte length field.
pub fn encode_message(magic: u32, m: &NetworkMessage) -> (r: Result<Vec<u8>, PeerError>)
    ensures
        (r matches Ok(v) ==> v@ == frame_bytes(magic, m@)
            && payload_bytes(m@).len() <= 0xffffffff),
        (r matches Err(e) ==> e == PeerError::DataCorruption
            && payload_bytes(m@).len() > 0xffffffff),
{
    let payload = encode_payload(m);
    if payload.len() as u64 > 0xffffffffu64 {
        return Err(PeerError::DataCorruption);
    }
    let mut out: Vec<u8> = Vec::new();
    push_u32_le(&mut out, magic);
    let cmdb = command_bytes(command_of(m));
    push_bytes(&mut out, &cmdb);
    push_u32_le(&mut out, payload.len() as u32);
    let cs = checksum(&payload);
    push_bytes(&mut out, &cs);
    push_bytes(&mut out, &payload);
    proof {
        assert(out@ =~= frame_bytes(magic, m@));
    }
    Ok(out)
}

// ---------------------------------------------------------------------------
// Executable decoding
// ---------------------------------------------------------------------------

fn read_hash32(p: &Vec<u8>, i: usize) -> (r: Hash32)
    requires
        i + 32 <= p@.len(),
        p@.len() <= usize::MAX,
    ensures
        r@ == p@.subrange(i as int, i + 32),
        r.wf(),
{
    Hash32 { bytes: copy_range(p, i, 32) }
}

fn is_zero32(v: &Vec<u8>) -> (r: bool)
    requires
        v@.len() == 32,
    ensures
        r == (v@ == zero32()),
{
    let mut i: usize = 0;
    while i < 32
        invariant
            i <= 32,
            v@.len() == 32,
            forall|j: int| 0 <= j < i ==> v@[j] == 0u8,
        decreases 32 - i,
    {
        if v[i] != 0 {
            assert(v@[i as int] != zero32()[i as int]);
            return false;
        }
        i = i + 1;
    }
    assert(v@ =~= zero32());
    true
}

fn read_addr(p: &Vec<u8>, i: usize) -> (r: Address)
    requires
        i + 26 <= p@.len(),
        p@.len() <= usize::MAX,
    ensures
        r@ == parse_addr(p@, i as int),
        addr_wf(r@),
{
    let r = Address {
        services: read_u64_le(p, i),
        address: copy_range(p, i + 8, 16),
        port: read_u16_be(p, i + 24),
    };
    assert(r@.address =~= p@.subrange(i + 8, i + 24));
    r
}

fn read_item(p: &Vec<u8>, i: usize) -> (r: Option<(Inventory, usize)>)
    requires
        i <= p@.len(),
    ensures
        (r is None ==> parse_item(p@, i as int) is None),
        (r matches Some(pair) ==> parse_item(p@, i as int) == Some((pair.0@, pair.1 as int))
            && pair.1 == i + 36 && inv_wf(pair.0@)),
{
    let l = p.len();
    if l - i < 36 {
        return None;
    }
    let code = read_u32_le(p, i);
    let h = read_hash32(p, i + 4);
    if code == 0 {
        if is_zero32(&h.bytes) {
            Some((Inventory::Error, i + 36))
        } else {
            None
        }
    } else if code == 1 {
        Some((Inventory::Transaction(h), i + 36))
    } else if code == 2 {
        Some((Inventory::Block(h), i + 36))
    } else if code == 0x40000001 {
        Some((Inventory::WitnessTransaction(h), i + 36))
    } else if code == 0x40000002 {
        Some((Inventory::WitnessBlock(h), i + 36))
    } else {
        None
    }
}

/// Relation maintained while reading a list of items: the whole parse is the
/// already-read prefix glued onto the parse of what remains.
spec fn items_cont(p: Seq<u8>, i0: int, n: nat, acc: Seq<InvV>, cur: int, k: nat) -> bool {
    &&& k <= n
    &&& parse_items(p, i0, n) == (match parse_items(p, cur, (n - k) as nat) {
        None => None::<(Seq<InvV>, int)>,
        Some((s, e)) => Some((acc + s, e)),
    })
}

fn read_items(p: &Vec<u8>, i: usize, n: u64) -> (r: Option<(Vec<Inventory>, usize)>)
    requires
        i <= p@.len(),
    ensures
        (r is None ==> parse_items(p@, i as int, n as nat) is None),
        (r matches Some(pair) ==> parse_items(p@, i as int, n as nat)
            == Some((invs_view(pair.0@), pair.1 as int))
            && i <= pair.1 <= p@.len()
            && (forall|q: int| 0 <= q < pair.0@.len()
                ==> inv_wf(#[trigger] invs_view(pair.0@)[q]))),
{
    let mut acc: Vec<Inventory> = Vec::new();
    let mut cur: usize = i;
    let mut k: u64 = 0;
    proof {
        assert(invs_view(acc@) =~= Seq::<InvV>::empty());
        match parse_items(p@, i as int, n as nat) {
            Some(pr) => {
                assert(invs_view(acc@) + pr.0 =~= pr.0);
            },
            None => {},
        }
        assert(items_cont(p@, i as int, n as nat, invs_view(acc@), cur as int, k as nat));
    }
    while k < n
        invariant
            i <= cur <= p@.len(),
            k <= n,
            items_cont(p@, i as int, n as nat, invs_view(acc@), cur as int, k as nat),
            forall|q: int| 0 <= q < acc@.len() ==> inv_wf(#[trigger] invs_view(acc@)[q]),
        decreases n - k,
    {
        let ghost rem = (n - k) as nat;
        assert(rem > 0);
        match read_item(p, cur) {
            None => {
                proof {
                    assert(parse_items(p@, cur as int, rem) is None);
                }
                return None;
            },
            Some((it, j)) => {
                proof {
                    let oldacc = invs_view(acc@);
                    assert(parse_item(p@, cur as int) == Some((it@, j as int)));
                    assert(parse_items(p@, cur as int, rem)
                        == (match parse_items(p@, j as int, (rem - 1) as nat) {
                            None => None::<(Seq<InvV>, int)>,
                            Some((s2, e2)) => Some((seq![it@] + s2, e2)),
                        }));
                    match parse_items(p@, j as int, (rem - 1) as nat) {
                        Some(pr) => {
                            assert(oldacc + (seq![it@] + pr.0) =~= oldacc.push(it@) + pr.0);
                        },
                        None => {},
                    }
                }
                let ghost oldaccv = acc@;
                acc.push(it);
                proof {
                    assert(invs_view(acc@) =~= invs_view(oldaccv).push(acc@[acc@.len() - 1]@));
                    assert(items_cont(p@, i as int, n as nat, invs_view(acc@), j as int,
                        (k + 1) as nat));
                    assert forall|q: int| 0 <= q < acc@.len()
                        implies inv_wf(#[trigger] invs_view(acc@)[q]) by {
                        if q < oldaccv.len() {
                            assert(invs_view(acc@)[q] == invs_view(oldaccv)[q]);
                        }
                    }
                }
                cur = j;
                k = k + 1;
            },
        }
    }
    proof {
        assert(parse_items(p@, cur as int, 0) == Some((Seq::<InvV>::empty(), cur as int)));
        assert(invs_view(acc@) + Seq::<InvV>::empty() =~= invs_view(acc@));
    }
    Some((acc, cur))
}

spec fn hashes_cont(p: Seq<u8>, i0: int, n: nat, acc: Seq<Seq<u8>>, cur: int, k: nat) -> bool {
    &&& k <= n
    &&& parse_hashes(p, i0, n) == (match parse_hashes(p, cur, (n - k) as nat) {
        None => None::<(Seq<Seq<u8>>, int)>,
        Some((s, e)) => Some((acc + s, e)),
    })
}

fn read_hashes(p: &Vec<u8>, i: usize, n: u64) -> (r: Option<(Vec<Hash32>, usize)>)
    requires
        i <= p@.len(),
    ensures
        (r is None ==> parse_hashes(p@, i as int, n as nat) is None),
        (r matches Some(pair) ==> parse_hashes(p@, i as int, n as nat)
            == Some((hashes_view(pair.0@), pair.1 as int))
            && i <= pair.1 <= p@.len()
            && (forall|q: int| 0 <= q < pair.0@.len()
                ==> (#[trigger] hashes_view(pair.0@)[q]).len() == 32)),
{
    let mut acc: Vec<Hash32> = Vec::new();
    let mut cur: usize = i;
    let mut k: u64 = 0;
    proof {
        assert(hashes_view(acc@) =~= Seq::<Seq<u8>>::empty());
        match parse_hashes(p@, i as int, n as nat) {
            Some(pr) => {
                assert(hashes_view(acc@) + pr.0 =~= pr.0);
            },
            None => {},
        }
        assert(hashes_cont(p@, i as int, n as nat, hashes_view(acc@), cur as int, k as nat));
    }
    while k < n
        invariant
            i <= cur <= p@.len(),
            k <= n,
            hashes_cont(p@, i as int, n as nat, hashes_view(acc@), cur as int, k as nat),
            forall|q: int| 0 <= q < acc@.len() ==> (#[trigger] hashes_view(acc@)[q]).len() == 32,
        decreases n - k,
    {
        let ghost rem = (n - k) as nat;
        assert(rem > 0);
        let l = p.len();
        if l - cur < 32 {
            proof {
                assert(parse_hashes(p@, cur as int, rem) is None);
            }
            return None;
        }
        let h = read_hash32(p, cur);
        let j = cur + 32;
        proof {
            let oldacc = hashes_view(acc@);
            assert(parse_hashes(p@, cur as int, rem)
                == (match parse_hashes(p@, j as int, (rem - 1) as nat) {
                    None => None::<(Seq<Seq<u8>>, int)>,
                    Some((s2, e2)) => Some((seq![p@.subrange(cur as int, cur + 32)] + s2, e2)),
                }));
            match parse_hashes(p@, j as int, (rem - 1) as nat) {
                Some(pr) => {
                    assert(oldacc + (seq![h@] + pr.0) =~= oldacc.push(h@) + pr.0);
                },
                None => {},
            }
        }
        let ghost oldaccv = acc@;
        acc.push(h);
        proof {
            assert(hashes_view(acc@) =~= hashes_view(oldaccv).push(acc@[acc@.len() - 1]@));
            assert(hashes_cont(p@, i as int, n as nat, hashes_view(acc@), j as int,
                (k + 1) as nat));
            assert forall|q: int| 0 <= q < acc@.len()
                implies (#[trigger] hashes_view(acc@)[q]).len() == 32 by {
                if q < oldaccv.len() {
                    assert(hashes_view(acc@)[q] == hashes_view(oldaccv)[q]);
                }
            }
        }
        cur = j;
        k = k + 1;
    }
    proof {
        assert(parse_hashes(p@, cur as int, 0) == Some((Seq::<Seq<u8>>::empty(), cur as int)));
        assert(hashes_view(acc@) + Seq::<Seq<u8>>::empty() =~= hashes_view(acc@));
    }
    Some((acc, cur))
}

fn read_version(p: &Vec<u8>) -> (r: Option<VersionMsg>)
    ensures
        (r is None ==> parse_version(p@) is None),
        (r matches Some(v) ==> parse_version(p@) == Some(v@) && version_wf(v@)),
{
    let l = p.len();
    if l < 80 {
        return None;
    }
    match read_varint(p, 80) {
        None => None,
        Some((ual, j)) => {
            let rem = l - j;
            if rem < 5 || ual != (rem - 5) as u64 {
                assert(!(j + ual + 5 == p@.len()));
                return None;
            }
            let ua_len = rem - 5;
            let v = VersionMsg {
                version: read_u32_le(p, 0),
                services: read_u64_le(p, 4),
                timestamp: read_u64_le(p, 12),
                receiver: read_addr(p, 20),
                sender: read_addr(p, 46),
                nonce: read_u64_le(p, 72),
                user_agent: copy_range(p, j, ua_len),
                start_height: read_u32_le(p, j + ua_len),
                relay: p[j + ua_len + 4] != 0,
            };
            proof {
                assert(ua_len <= u64::MAX);
                assert(v@.user_agent =~= p@.subrange(j as int, j + ual));
                let w = parse_version(p@);
                assert(w == Some(v@));
            }
            Some(v)
        },
    }
}

fn read_inv_list(p: &Vec<u8>) -> (r: Option<Vec<Inventory>>)
    ensures
        (r is Some <==> parse_inv_list(p@) is Some),
        (r matches Some(v) ==> parse_inv_list(p@) == Some(invs_view(v@))
            && (forall|q: int| 0 <= q < v@.len() ==> inv_wf(#[trigger] invs_view(v@)[q]))
            && v@.len() <= u64::MAX),
{
    match read_varint(p, 0) {
        None => None,
        Some((n, j)) => match read_items(p, j, n) {
            None => None,
            Some((v, k)) => if k == p.len() {
                let vl = v.len();
                proof {
                    assert(invs_view(v@).len() == v@.len());
                    assert(v@.len() == vl && vl <= u64::MAX);
                }
                Some(v)
            } else {
                None
            },
        },
    }
}

/// Decodes a payload for a known command. `None` is a decode failure.
pub fn decode_payload(c: Command, p: &Vec<u8>) -> (r: Option<NetworkMessage>)
    ensures
        (r is Some <==> parse_payload(c, p@) is Some),
        (r matches Some(m) ==> parse_payload(c, p@) == Some(m@) && msg_wf(m@)),
{
    match c {
        Command::Version => match read_version(p) {
            None => None,
            Some(v) => Some(NetworkMessage::Version(v)),
        },
        Command::Verack => if p.len() == 0 {
            Some(NetworkMessage::Verack)
        } else {
            None
        },
        Command::Ping => if p.len() == 8 {
            Some(NetworkMessage::Ping(read_u64_le(p, 0)))
        } else {
            None
        },
        Command::Pong => if p.len() == 8 {
            Some(NetworkMessage::Pong(read_u64_le(p, 0)))
        } else {
            None
        },
        Command::Alert => Some(NetworkMessage::Alert(clone_bytes(p))),
        Command::Inv => match read_inv_list(p) {
            None => None,
            Some(v) => Some(NetworkMessage::Inv(v)),
        },
        Command::GetData => match read_inv_list(p) {
            None => None,
            Some(v) => Some(NetworkMessage::GetData(v)),
        },
        Command::NotFound => match read_inv_list(p) {
            None => None,
            Some(v) => Some(NetworkMessage::NotFound(v)),
        },
        Command::Tx => match tx_from_bytes(clone_bytes(p)) {
            None => None,
            Some(t) => Some(NetworkMessage::Tx(t)),
        },
        Command::Block => Some(NetworkMessage::Block(clone_bytes(p))),
        Command::MemPool => if p.len() == 0 {
            Some(NetworkMessage::MemPool)
        } else {
            None
        },
        Command::GetCFCheckpt => if p.len() == 33 {
            let g = GetCFCheckpt { filter_type: p[0], stop_hash: read_hash32(p, 1) };
            Some(NetworkMessage::GetCFCheckpt(g))
        } else {
            None
        },
        Command::CFCheckpt => {
            let l = p.len();
            if l < 33 {
                return None;
            }
            match read_varint(p, 33) {
                None => None,
                Some((n, j)) => match read_hashes(p, j, n) {
                    None => None,
                    Some((hs, k)) => if k == l {
                        let hl = hs.len();
                        assert(hs@.len() == hl && hl <= u64::MAX);
                        let c2 = CFCheckpt {
                            filter_type: p[0],
                            stop_hash: read_hash32(p, 1),
                            filter_headers: hs,
                        };
                        Some(NetworkMessage::CFCheckpt(c2))
                    } else {
                        None
                    },
                },
            }
        },
        Command::GetCFHeaders => if p.len() == 37 {
            let g = GetCFHeaders {
                filter_type: p[0],
                start_height: read_u32_le(p, 1),
                stop_hash: read_hash32(p, 5),
            };
            Some(NetworkMessage::GetCFHeaders(g))
        } else {
            None
        },
        Command::CFHeaders => {
            let l = p.len();
            if l < 65 {
                return None;
            }
            match read_varint(p, 65) {
                None => None,
                Some((n, j)) => match read_hashes(p, j, n) {
                    None => None,
                    Some((hs, k)) => if k == l {
                        let hl = hs.len();
                        assert(hs@.len() == hl && hl <= u64::MAX);
                        let c2 = CFHeaders {
                            filter_type: p[0],
                            stop_hash: read_hash32(p, 1),
                            previous_filter_header: read_hash32(p, 33),
                            filter_hashes: hs,
                        };
                        Some(NetworkMessage::CFHeaders(c2))
                    } else {
                        None
                    },
                },
            }
        },
        Command::GetCFilters => if p.len() == 37 {
            let g = GetCFilters {
                filter_type: p[0],
                start_height: read_u32_le(p, 1),
                stop_hash: read_hash32(p, 5),
            };
            Some(NetworkMessage::GetCFilters(g))
        } else {
            None
        },
        Command::CFilter => {
            let l = p.len();
            if l < 33 {
                return None;
            }
            match read_varint(p, 33) {
                None => None,
                Some((n, j)) => {
                    let rem = l - j;
                    if n == rem as u64 {
                        assert(rem <= u64::MAX);
                        let c2 = CFilter {
                            filter_type: p[0],
                            block_hash: read_hash32(p, 1),
                            filter: copy_range(p, j, rem),
                        };
                        assert(c2.filter@ =~= p@.subrange(j as int, p@.len() as int));
                        Some(NetworkMessage::CFilter(c2))
                    } else {
                        assert(!(j + n == p@.len()));
                        None
                    }
                },
            }
        },
    }
}

pub open spec fn opt_msg_view(o: Option<NetworkMessage>) -> Option<MsgV> {
    match o {
        None => None,
        Some(m) => Some(m@),
    }
}

/// Reads the magic and payload length out of a frame header, so a caller can
/// read the rest of the frame.
pub fn header_fields(h: &Vec<u8>) -> (r: (u32, u32))
    requires
        24 <= h@.len() <= usize::MAX,
    ensures
        r.0 == u32_at(h@, 0),
        r.1 == u32_at(h@, 16),
{
    (read_u32_le(h, 0), read_u32_le(h, 16))
}

/// Decodes one whole frame. `Ok((magic, None))` is a sound frame for an
/// unknown command (to be dropped); `Err(DataCorruption)` is a bad length,
/// bad checksum, or a payload that does not decode.
pub fn decode_frame(b: &Vec<u8>) -> (r: Result<(u32, Option<NetworkMessage>), PeerError>)
    ensures
        (r matches Ok(p) ==> parse_frame(b@) == Some((p.0, opt_msg_view(p.1)))),
        (r matches Err(e) ==> e == PeerError::DataCorruption && parse_frame(b@) is None),
        (r matches Ok(p) ==> (p.1 matches Some(m) ==> msg_wf(m@))),
{
    let l = b.len();
    if l < 24 {
        return Err(PeerError::DataCorruption);
    }
    let magic = read_u32_le(b, 0);
    let len = read_u32_le(b, 16);
    if (l - 24) as u64 != len as u64 {
        assert(b@.len() != 24 + u32_at(b@, 16));
        return Err(PeerError::DataCorruption);
    }
    assert(b@.len() == 24 + u32_at(b@, 16));
    let payload = copy_range(b, 24, l - 24);
    assert(payload@ =~= b@.subrange(24, b@.len() as int));
    let cs = copy_range(b, 20, 4);
    assert(cs@ =~= b@.subrange(20, 24));
    let computed = checksum(&payload);
    if !bytes_eq(&cs, &computed) {
        return Err(PeerError::DataCorruption);
    }
    let cmdb = copy_range(b, 4, 12);
    assert(cmdb@ =~= b@.subrange(4, 16));
    match parse_command(&cmdb) {
        None => Ok((magic, None)),
        Some(c) => match decode_payload(c, &payload) {
            None => Err(PeerError::DataCorruption),
            Some(m) => Ok((magic, Some(m))),
        },
    }
}

} // verus!
