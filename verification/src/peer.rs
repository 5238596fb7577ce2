use vstd::prelude::*;

use crate::codec::{decode_frame, encodable, parse_frame, version_bytes};
use crate::commands::{cmd_of, command_of, Command};
use crate::errors::PeerError;
use crate::mempool::{inv_lookup, mp_get, Mempool};
use crate::msgs::{
    Address, AddressV, Inventory, InvV, MsgV, NetworkMessage, Network, TxV, VersionMsg, VersionV,
};
use crate::registry::{msgs_view, Registry};

verus! {

/// Seconds a caller waits for a named reply before giving up.
pub const TIMEOUT_SECS: u64 = 30;

/// Seconds to wait for the `inv` answering a mempool request: an empty
/// remote mempool produces no reply at all, so the budget is short.
pub const MEMPOOL_INV_TIMEOUT_SECS: u64 = 5;

/// The protocol version spoken: enough for compact-filter messages.
pub const PROTOCOL_VERSION: u32 = 70015;

/// The service bits announced: witness support.
pub const SERVICE_WITNESS: u64 = 8;

pub open spec fn user_agent_bytes() -> Seq<u8> {
    seq![47u8, 98u8, 116u8, 99u8, 112u8, 101u8, 101u8, 114u8, 58u8, 48u8, 46u8, 49u8, 47u8]
}

pub fn user_agent() -> (r: Vec<u8>)
    ensures
        r@ == user_agent_bytes(),
{
    let r: Vec<u8> = vec![47, 98, 116, 99, 112, 101, 101, 114, 58, 48, 46, 49, 47];
    proof {
        assert(r@ =~= user_agent_bytes());
    }
    r
}

/// The all-zero sender address the handshake announces.
pub open spec fn zero_addr() -> AddressV {
    AddressV { services: 0, address: Seq::new(16, |i: int| 0u8), port: 0 }
}

// ---------------------------------------------------------------------------
// What the reader does with one inbound message
// ---------------------------------------------------------------------------

/// The mailbox a message is routed into; `None` for messages the reader
/// handles transparently (ping, getdata) or drops (alert).
pub open spec fn route_cmd(m: MsgV) -> Option<Command> {
    match m {
        MsgV::Ping(_) => None,
        MsgV::Alert(_) => None,
        MsgV::GetData(_) => None,
        _ => Some(cmd_of(m)),
    }
}

/// The `Tx` replies serving a getdata: one per requested item found in the
/// mempool, in request order.
pub open spec fn found_list(inv: Seq<InvV>, mp: Seq<TxV>) -> Seq<MsgV>
    decreases inv.len(),
{
    if inv.len() == 0 {
        Seq::empty()
    } else {
        (match inv_lookup(inv[0], mp) {
            Some(t) => seq![MsgV::Tx(t)],
            None => Seq::<MsgV>::empty(),
        }) + found_list(inv.drop_first(), mp)
    }
}

/// The requested items not in the mempool, in request order.
pub open spec fn notfound_list(inv: Seq<InvV>, mp: Seq<TxV>) -> Seq<InvV>
    decreases inv.len(),
{
    if inv.len() == 0 {
        Seq::empty()
    } else {
        (match inv_lookup(inv[0], mp) {
            Some(_) => Seq::<InvV>::empty(),
            None => seq![inv[0]],
        }) + notfound_list(inv.drop_first(), mp)
    }
}

/// Everything sent back for a getdata: the found transactions, one message
/// each in request order, then a single `NotFound` with the missing items
/// (none when everything was found).
pub open spec fn serve_replies(inv: Seq<InvV>, mp: Seq<TxV>) -> Seq<MsgV> {
    found_list(inv, mp) + if notfound_list(inv, mp).len() > 0 {
        seq![MsgV::NotFound(notfound_list(inv, mp))]
    } else {
        Seq::<MsgV>::empty()
    }
}

/// What the reader sends back for one inbound message: a pong for a ping,
/// the getdata service, nothing otherwise.
pub open spec fn replies_for(m: MsgV, mp: Seq<TxV>) -> Seq<MsgV> {
    match m {
        MsgV::Ping(n) => seq![MsgV::Pong(n)],
        MsgV::GetData(inv) => serve_replies(inv, mp),
        _ => Seq::<MsgV>::empty(),
    }
}

proof fn lemma_found_snoc(inv: Seq<InvV>, x: InvV, mp: Seq<TxV>)
    ensures
        found_list(inv.push(x), mp) == found_list(inv, mp) + (match inv_lookup(x, mp) {
            Some(t) => seq![MsgV::Tx(t)],
            None => Seq::<MsgV>::empty(),
        }),
        notfound_list(inv.push(x), mp) == notfound_list(inv, mp) + (match inv_lookup(x, mp) {
            Some(t) => Seq::<InvV>::empty(),
            None => seq![x],
        }),
    decreases inv.len(),
{
    if inv.len() == 0 {
        assert(inv.push(x)[0] == x);
        assert(inv.push(x).drop_first() =~= Seq::<InvV>::empty());
        assert(found_list(Seq::<InvV>::empty(), mp) == Seq::<MsgV>::empty());
        assert(notfound_list(Seq::<InvV>::empty(), mp) == Seq::<InvV>::empty());
        assert(found_list(inv, mp) =~= Seq::<MsgV>::empty());
        assert(notfound_list(inv, mp) =~= Seq::<InvV>::empty());
        assert(found_list(inv.push(x), mp) =~= found_list(inv, mp) + (match inv_lookup(x, mp) {
            Some(t) => seq![MsgV::Tx(t)],
            None => Seq::<MsgV>::empty(),
        }));
        assert(notfound_list(inv.push(x), mp) =~= notfound_list(inv, mp)
            + (match inv_lookup(x, mp) {
            Some(t) => Seq::<InvV>::empty(),
            None => seq![x],
        }));
    } else {
        assert(inv.push(x)[0] == inv[0]);
        assert(inv.push(x).drop_first() =~= inv.drop_first().push(x));
        lemma_found_snoc(inv.drop_first(), x, mp);
        assert(found_list(inv.push(x), mp) =~= found_list(inv, mp) + (match inv_lookup(x, mp) {
            Some(t) => seq![MsgV::Tx(t)],
            None => Seq::<MsgV>::empty(),
        }));
        assert(notfound_list(inv.push(x), mp) =~= notfound_list(inv, mp)
            + (match inv_lookup(x, mp) {
            Some(t) => Seq::<InvV>::empty(),
            None => seq![x],
        }));
    }
}

/// Serve a getdata from the mempool: for every item found, one `Tx` message
/// in request order; if anything was missing, one trailing `NotFound`
/// carrying the missing items in request order.
pub fn serve_getdata(inv: &Vec<Inventory>, mempool: &Mempool) -> (r: Vec<NetworkMessage>)
    ensures
        msgs_view(r@) == serve_replies(crate::msgs::invs_view(inv@), mempool@),
{
    let ghost invv = crate::msgs::invs_view(inv@);
    let mut found: Vec<NetworkMessage> = Vec::new();
    let mut nf: Vec<Inventory> = Vec::new();
    let mut k: usize = 0;
    proof {
        assert(crate::msgs::invs_view(inv@.take(0)) =~= Seq::<InvV>::empty());
        assert(msgs_view(found@) =~= found_list(crate::msgs::invs_view(inv@.take(0)), mempool@));
        assert(crate::msgs::invs_view(nf@)
            =~= notfound_list(crate::msgs::invs_view(inv@.take(0)), mempool@));
    }
    while k < inv.len()
        invariant
            k <= inv@.len(),
            msgs_view(found@) == found_list(crate::msgs::invs_view(inv@.take(k as int)), mempool@),
            crate::msgs::invs_view(nf@)
                == notfound_list(crate::msgs::invs_view(inv@.take(k as int)), mempool@),
        decreases inv@.len() - k,
    {
        let ghost pre = crate::msgs::invs_view(inv@.take(k as int));
        let item = &inv[k];
        let ghost oldfound = found@;
        let ghost oldnf = nf@;
        match mempool.get_tx(item) {
            Some(t) => {
                found.push(NetworkMessage::Tx(t));
                proof {
                    assert(msgs_view(found@) =~= msgs_view(oldfound).push(found@.last()@));
                }
            },
            None => {
                nf.push(item.dup());
                proof {
                    assert(crate::msgs::invs_view(nf@)
                        =~= crate::msgs::invs_view(oldnf).push(nf@.last()@));
                }
            },
        }
        proof {
            lemma_found_snoc(pre, inv@[k as int]@, mempool@);
            assert(crate::msgs::invs_view(inv@.take(k + 1)) =~= pre.push(inv@[k as int]@));
            assert(msgs_view(found@)
                =~= found_list(crate::msgs::invs_view(inv@.take(k + 1)), mempool@));
            assert(crate::msgs::invs_view(nf@)
                =~= notfound_list(crate::msgs::invs_view(inv@.take(k + 1)), mempool@));
        }
        k = k + 1;
    }
    proof {
        assert(inv@.take(inv@.len() as int) =~= inv@);
    }
    let mut r = found;
    if nf.len() > 0 {
        let ghost before = r@;
        r.push(NetworkMessage::NotFound(nf));
        proof {
            assert(msgs_view(r@) =~= msgs_view(before).push(r@.last()@));
            assert(msgs_view(r@) =~= serve_replies(invv, mempool@));
        }
    } else {
        proof {
            assert(crate::msgs::invs_view(nf@).len() == nf@.len());
            assert(msgs_view(r@) =~= serve_replies(invv, mempool@));
        }
    }
    r
}

// ---------------------------------------------------------------------------
// The peer endpoint's protocol state
// ---------------------------------------------------------------------------

/// The protocol-state core of a Bitcoin peer endpoint: the response
/// mailboxes, the connected flag, the network spoken, and the version
/// message the remote sent during the handshake. The embedding program owns
/// the socket and the reader task; this type owns every decision.
pub struct Peer {
    registry: Registry,
    connected: bool,
    network: Network,
    version: Option<VersionMsg>,
}

/// Both peers have the same network, negotiated version, and connected flag.
pub open spec fn same_identity(a: Peer, b: Peer) -> bool {
    &&& b.spec_network() == a.spec_network()
    &&& b.spec_version() == a.spec_version()
}

pub open spec fn queues_unchanged(a: Peer, b: Peer) -> bool {
    forall|c: Command| #[trigger] b.queue(c) == a.queue(c)
}

/// The reader's routing step succeeded: cross-network frames and unknown
/// commands are dropped; a ping was answered with its pong; an alert was
/// swallowed; a getdata was served from the mempool; everything else went
/// into the mailbox of its own command.
pub open spec fn reader_step_ok(
    a: Peer,
    b: Peer,
    pf: Option<(u32, Option<MsgV>)>,
    mp: Seq<TxV>,
    replies: Seq<MsgV>,
) -> bool {
    match pf {
        None => false,
        Some((g, om)) => {
            if g != a.spec_network().spec_magic() {
                replies == Seq::<MsgV>::empty() && queues_unchanged(a, b)
            } else {
                match om {
                    None => replies == Seq::<MsgV>::empty() && queues_unchanged(a, b),
                    Some(m) => replies == replies_for(m, mp) && (match route_cmd(m) {
                        None => queues_unchanged(a, b),
                        Some(c) => b.queue(c) == a.queue(c).push(m) && (forall|c2: Command|
                            c2 != c ==> #[trigger] b.queue(c2) == a.queue(c2)),
                    }),
                }
            }
        },
    }
}

impl Peer {
    pub closed spec fn queue(self, c: Command) -> Seq<MsgV> {
        self.registry.queue(c)
    }

    pub closed spec fn spec_connected(self) -> bool {
        self.connected
    }

    pub closed spec fn spec_network(self) -> Network {
        self.network
    }

    pub closed spec fn spec_version(self) -> Option<VersionV> {
        match self.version {
            None => None,
            Some(v) => Some(v@),
        }
    }

    /// A fresh endpoint state: connected, nothing received, handshake not
    /// yet answered.
    pub fn new(network: Network) -> (r: Peer)
        ensures
            r.spec_connected(),
            r.spec_network() == network,
            r.spec_version() is None,
            forall|c: Command| #[trigger] r.queue(c) == Seq::<MsgV>::empty(),
    {
        Peer { registry: Registry::new(), connected: true, network, version: None }
    }

    /// Return the Bitcoin network in use.
    pub fn get_network(&self) -> (r: Network)
        ensures
            r == self.spec_network(),
    {
        self.network
    }

    /// Return whether or not the peer is still connected.
    pub fn is_connected(&self) -> (r: bool)
        ensures
            r == self.spec_connected(),
    {
        self.connected
    }

    /// Mark the peer disconnected (the reader saw a terminal error). The
    /// flag flips at most once, irreversibly: nothing sets it back.
    pub fn disconnect(&mut self)
        ensures
            !final(self).spec_connected(),
            same_identity(*old(self), *final(self)),
            queues_unchanged(*old(self), *final(self)),
    {
        self.connected = false;
    }

    /// Return the version message sent by the remote peer, once the
    /// handshake stored it.
    pub fn get_version(&self) -> (r: Option<&VersionMsg>)
        ensures
            (r matches Some(v) ==> self.spec_version() == Some(v@)),
            (r is None ==> self.spec_version() is None),
    {
        match &self.version {
            Some(v) => Some(v),
            None => None,
        }
    }

    /// Our version payload for the handshake: witness service, the given
    /// wall-clock timestamp and random nonce, the remote's address as
    /// receiver, an all-zero sender, our user agent, start height zero.
    pub fn build_version(&self, timestamp: u64, nonce: u64, receiver: Address) -> (r:
        NetworkMessage)
        requires
            receiver@.address.len() == 16,
        ensures
            r@ == MsgV::Version(VersionV {
                version: PROTOCOL_VERSION,
                services: SERVICE_WITNESS,
                timestamp,
                receiver: receiver@,
                sender: zero_addr(),
                nonce,
                user_agent: user_agent_bytes(),
                start_height: 0,
                relay: false,
            }),
            encodable(r@),
    {
        let mut zeros: Vec<u8> = Vec::new();
        let mut i: usize = 0;
        while i < 16
            invariant
                i <= 16,
                zeros@.len() == i,
                forall|j: int| 0 <= j < i ==> zeros@[j] == 0u8,
            decreases 16 - i,
        {
            zeros.push(0u8);
            i = i + 1;
        }
        proof {
            assert(zeros@ =~= zero_addr().address);
        }
        let sender = Address { services: 0, address: zeros, port: 0 };
        let r = NetworkMessage::Version(VersionMsg {
            version: PROTOCOL_VERSION,
            services: SERVICE_WITNESS,
            timestamp,
            receiver,
            sender,
            nonce,
            user_agent: user_agent(),
            start_height: 0,
            relay: false,
        });
        proof {
            let v = r@->Version_0;
            assert(crate::bytes::varint(13).len() == 1);
            assert(version_bytes(v).len() == 99);
        }
        r
    }

    /// Store the version the remote answered with; any other message is an
    /// invalid handshake response and changes nothing.
    pub fn accept_version(&mut self, m: NetworkMessage) -> (r: Result<(), PeerError>)
        ensures
            final(self).spec_network() == old(self).spec_network(),
            final(self).spec_connected() == old(self).spec_connected(),
            queues_unchanged(*old(self), *final(self)),
            (m@ matches MsgV::Version(v) ==> r is Ok && final(self).spec_version() == Some(v)),
            (!(m@ is Version) ==> r == Err::<(), PeerError>(PeerError::InvalidResponse)
                && final(self).spec_version() == old(self).spec_version()),
    {
        match m {
            NetworkMessage::Version(v) => {
                self.version = Some(v);
                Ok(())
            },
            _ => Err(PeerError::InvalidResponse),
        }
    }

    /// Check the remote's verack; any other message is an invalid handshake
    /// response. Nothing in the state changes either way.
    pub fn accept_verack(&mut self, m: NetworkMessage) -> (r: Result<(), PeerError>)
        ensures
            *final(self) == *old(self),
            (m@ is Verack ==> r is Ok),
            (!(m@ is Verack) ==> r == Err::<(), PeerError>(PeerError::InvalidResponse)),
    {
        match m {
            NetworkMessage::Verack => Ok(()),
            _ => Err(PeerError::InvalidResponse),
        }
    }

    /// Take the oldest message waiting under a command, if any (FIFO). Other
    /// mailboxes and the rest of the state are untouched. The embedding
    /// program turns this into a blocking receive by waiting on its own
    /// condition variable and calling again.
    pub fn try_recv(&mut self, wait_for: Command) -> (r: Option<NetworkMessage>)
        ensures
            same_identity(*old(self), *final(self)),
            final(self).spec_connected() == old(self).spec_connected(),
            (old(self).queue(wait_for).len() == 0 ==> r is None
                && final(self).queue(wait_for) == old(self).queue(wait_for)),
            (old(self).queue(wait_for).len() > 0 ==> (r matches Some(m)
                && m@ == old(self).queue(wait_for)[0]
                && final(self).queue(wait_for) == old(self).queue(wait_for).drop_first())),
            forall|c2: Command| c2 != wait_for ==> #[trigger] final(self).queue(c2)
                == old(self).queue(c2),
    {
        self.registry.try_recv(wait_for)
    }

    /// The reader's step for one raw frame: decode it, drop cross-network
    /// frames and unknown commands, answer pings, swallow alerts, serve
    /// getdata from the mempool, and route everything else into the mailbox
    /// of its own command. Returns the messages to send back; a decode
    /// failure is terminal and marks the peer disconnected.
    pub fn handle_frame(&mut self, frame: &Vec<u8>, mempool: &Mempool) -> (r: Result<
        Vec<NetworkMessage>,
        PeerError,
    >)
        ensures
            same_identity(*old(self), *final(self)),
            (r matches Err(e) ==> e == PeerError::DataCorruption && parse_frame(frame@) is None
                && !final(self).spec_connected()
                && queues_unchanged(*old(self), *final(self))),
            (r matches Ok(replies) ==> final(self).spec_connected()
                == old(self).spec_connected()
                && reader_step_ok(*old(self), *final(self), parse_frame(frame@), mempool@,
                    msgs_view(replies@))),
    {
        match decode_frame(frame) {
            Err(e) => {
                self.connected = false;
                Err(e)
            },
            Ok((g, om)) => {
                if g != self.network.magic() {
                    let r: Vec<NetworkMessage> = Vec::new();
                    proof {
                        assert(msgs_view(r@) =~= Seq::<MsgV>::empty());
                    }
                    return Ok(r);
                }
                match om {
                    None => {
                        let r: Vec<NetworkMessage> = Vec::new();
                        proof {
                            assert(msgs_view(r@) =~= Seq::<MsgV>::empty());
                        }
                        Ok(r)
                    },
                    Some(m) => match m {
                        NetworkMessage::Ping(n) => {
                            let mut r: Vec<NetworkMessage> = Vec::new();
                            r.push(NetworkMessage::Pong(n));
                            proof {
                                assert(msgs_view(r@) =~= seq![MsgV::Pong(n)]);
                            }
                            Ok(r)
                        },
                        NetworkMessage::Alert(_) => {
                            let r: Vec<NetworkMessage> = Vec::new();
                            proof {
                                assert(msgs_view(r@) =~= Seq::<MsgV>::empty());
                            }
                            Ok(r)
                        },
                        NetworkMessage::GetData(inv) => {
                            let r = serve_getdata(&inv, mempool);
                            Ok(r)
                        },
                        other => {
                            let c = command_of(&other);
                            let ghost ov = other@;
                            self.registry.push_message(c, other);
                            let r: Vec<NetworkMessage> = Vec::new();
                            proof {
                                assert(msgs_view(r@) =~= Seq::<MsgV>::empty());
                                assert(route_cmd(ov) == Some(cmd_of(ov)));
                            }
                            Ok(r)
                        },
                    },
                }
            },
        }
    }
}

/// Auto-pong: when the reader observes `Ping(n)` on its own network, its
/// only reply is `Pong(n)`, and no mailbox changes: the ping is never routed.
pub proof fn lemma_auto_pong(
    a: Peer,
    b: Peer,
    g: u32,
    n: u64,
    mp: Seq<TxV>,
    replies: Seq<MsgV>,
)
    requires
        g == a.spec_network().spec_magic(),
        reader_step_ok(a, b, Some((g, Some(MsgV::Ping(n)))), mp, replies),
    ensures
        replies == seq![MsgV::Pong(n)],
        queues_unchanged(a, b),
{
}

proof fn lemma_serve_all_unknown(inv: Seq<InvV>, mp: Seq<TxV>)
    requires
        forall|i: int| 0 <= i < inv.len() ==> inv_lookup(#[trigger] inv[i], mp) is None,
    ensures
        found_list(inv, mp) == Seq::<MsgV>::empty(),
        notfound_list(inv, mp) == inv,
    decreases inv.len(),
{
    if inv.len() == 0 {
        assert(notfound_list(inv, mp) =~= inv);
    } else {
        assert(inv_lookup(inv[0], mp) is None);
        lemma_serve_all_unknown(inv.drop_first(), mp);
        assert(found_list(inv, mp) =~= Seq::<MsgV>::empty());
        assert(notfound_list(inv, mp) =~= inv);
    }
}

/// Auto-serve, found side: a getdata for one transaction the mempool holds
/// is answered with exactly one `Tx` frame and nothing else.
pub proof fn lemma_auto_serve_found(t: TxV, mp: Seq<TxV>)
    requires
        mp_get(mp, t.txid) == Some(t),
    ensures
        serve_replies(seq![InvV::Transaction(t.txid)], mp) == seq![MsgV::Tx(t)],
{
    let inv = seq![InvV::Transaction(t.txid)];
    assert(inv.drop_first() =~= Seq::<InvV>::empty());
    assert(found_list(inv.drop_first(), mp) == Seq::<MsgV>::empty());
    assert(notfound_list(inv.drop_first(), mp) == Seq::<InvV>::empty());
    assert(found_list(inv, mp) =~= seq![MsgV::Tx(t)]);
    assert(notfound_list(inv, mp) =~= Seq::<InvV>::empty());
    assert(serve_replies(inv, mp) =~= seq![MsgV::Tx(t)]);
}

/// Auto-serve, not-found side: a getdata whose items are all unknown is
/// answered with a single `NotFound` frame carrying them in request order.
pub proof fn lemma_auto_serve_unknown(inv: Seq<InvV>, mp: Seq<TxV>)
    requires
        inv.len() > 0,
        forall|i: int| 0 <= i < inv.len() ==> inv_lookup(#[trigger] inv[i], mp) is None,
    ensures
        serve_replies(inv, mp) == seq![MsgV::NotFound(inv)],
{
    lemma_serve_all_unknown(inv, mp);
    assert(serve_replies(inv, mp) =~= seq![MsgV::NotFound(inv)]);
}

} // verus!
