use vstd::prelude::*;

use crate::commands::Command;
use crate::msgs::{MsgV, NetworkMessage};

verus! {

pub open spec fn msgs_view(s: Seq<NetworkMessage>) -> Seq<MsgV> {
    Seq::new(s.len(), |i: int| s[i]@)
}

/// The response mailbox registry: one FIFO queue of received messages per
/// command. The reader routes an inbound message into the queue of its own
/// command; a caller waiting for a reply drains one message per call from
/// the queue of the command it expects. The command set is closed, so the
/// registry holds one mailbox per command from the start; an empty mailbox
/// behaves exactly like an absent one.
pub struct Registry {
    version: Vec<NetworkMessage>,
    verack: Vec<NetworkMessage>,
    ping: Vec<NetworkMessage>,
    pong: Vec<NetworkMessage>,
    alert: Vec<NetworkMessage>,
    inv: Vec<NetworkMessage>,
    getdata: Vec<NetworkMessage>,
    notfound: Vec<NetworkMessage>,
    tx: Vec<NetworkMessage>,
    block: Vec<NetworkMessage>,
    mempool: Vec<NetworkMessage>,
    getcfcheckpt: Vec<NetworkMessage>,
    cfcheckpt: Vec<NetworkMessage>,
    getcfheaders: Vec<NetworkMessage>,
    cfheaders: Vec<NetworkMessage>,
    getcfilters: Vec<NetworkMessage>,
    cfilter: Vec<NetworkMessage>,
}

impl Registry {
    /// The queue of messages received for a command, oldest first.
    pub closed spec fn queue(self, c: Command) -> Seq<MsgV> {
        match c {
            Command::Version => msgs_view(self.version@),
            Command::Verack => msgs_view(self.verack@),
            Command::Ping => msgs_view(self.ping@),
            Command::Pong => msgs_view(self.pong@),
            Command::Alert => msgs_view(self.alert@),
            Command::Inv => msgs_view(self.inv@),
            Command::GetData => msgs_view(self.getdata@),
            Command::NotFound => msgs_view(self.notfound@),
            Command::Tx => msgs_view(self.tx@),
            Command::Block => msgs_view(self.block@),
            Command::MemPool => msgs_view(self.mempool@),
            Command::GetCFCheckpt => msgs_view(self.getcfcheckpt@),
            Command::CFCheckpt => msgs_view(self.cfcheckpt@),
            Command::GetCFHeaders => msgs_view(self.getcfheaders@),
            Command::CFHeaders => msgs_view(self.cfheaders@),
            Command::GetCFilters => msgs_view(self.getcfilters@),
            Command::CFilter => msgs_view(self.cfilter@),
        }
    }

    pub fn new() -> (r: Registry)
        ensures
            forall|c: Command| #[trigger] r.queue(c) == Seq::<MsgV>::empty(),
    {
        let r = Registry {
            version: Vec::new(),
            verack: Vec::new(),
            ping: Vec::new(),
            pong: Vec::new(),
            alert: Vec::new(),
            inv: Vec::new(),
            getdata: Vec::new(),
            notfound: Vec::new(),
            tx: Vec::new(),
            block: Vec::new(),
            mempool: Vec::new(),
            getcfcheckpt: Vec::new(),
            cfcheckpt: Vec::new(),
            getcfheaders: Vec::new(),
            cfheaders: Vec::new(),
            getcfilters: Vec::new(),
            cfilter: Vec::new(),
        };
        proof {
            assert forall|c: Command| #[trigger] r.queue(c) == Seq::<MsgV>::empty() by {
                assert(r.queue(c) =~= Seq::<MsgV>::empty());
            }
        }
        r
    }

    /// Append a received message to the mailbox of a command (the reader's
    /// routing step). Every other mailbox is untouched.
    pub fn push_message(&mut self, c: Command, m: NetworkMessage)
        ensures
            final(self).queue(c) == old(self).queue(c).push(m@),
            forall|c2: Command| c2 != c ==> #[trigger] final(self).queue(c2)
                == old(self).queue(c2),
    {
        let ghost mv = m@;
        match c {
            Command::Version => {
                self.version.push(m);
                proof {
                    assert(self.queue(c) =~= old(self).queue(c).push(mv));
                }
            },
            Command::Verack => {
                self.verack.push(m);
                proof {
                    assert(self.queue(c) =~= old(self).queue(c).push(mv));
                }
            },
            Command::Ping => {
                self.ping.push(m);
                proof {
                    assert(self.queue(c) =~= old(self).queue(c).push(mv));
                }
            },
            Command::Pong => {
                self.pong.push(m);
                proof {
                    assert(self.queue(c) =~= old(self).queue(c).push(mv));
                }
            },
            Command::Alert => {
                self.alert.push(m);
                proof {
                    assert(self.queue(c) =~= old(self).queue(c).push(mv));
                }
            },
            Command::Inv => {
                self.inv.push(m);
                proof {
                    assert(self.queue(c) =~= old(self).queue(c).push(mv));
                }
            },
            Command::GetData => {
                self.getdata.push(m);
                proof {
                    assert(self.queue(c) =~= old(self).queue(c).push(mv));
                }
            },
            Command::NotFound => {
                self.notfound.push(m);
                proof {
                    assert(self.queue(c) =~= old(self).queue(c).push(mv));
                }
            },
            Command::Tx => {
                self.tx.push(m);
                proof {
                    assert(self.queue(c) =~= old(self).queue(c).push(mv));
                }
            },
            Command::Block => {
                self.block.push(m);
                proof {
                    assert(self.queue(c) =~= old(self).queue(c).push(mv));
                }
            },
            Command::MemPool => {
                self.mempool.push(m);
                proof {
                    assert(self.queue(c) =~= old(self).queue(c).push(mv));
                }
            },
            Command::GetCFCheckpt => {
                self.getcfcheckpt.push(m);
                proof {
                    assert(self.queue(c) =~= old(self).queue(c).push(mv));
                }
            },
            Command::CFCheckpt => {
                self.cfcheckpt.push(m);
                proof {
                    assert(self.queue(c) =~= old(self).queue(c).push(mv));
                }
            },
            Command::GetCFHeaders => {
                self.getcfheaders.push(m);
                proof {
                    assert(self.queue(c) =~= old(self).queue(c).push(mv));
                }
            },
            Command::CFHeaders => {
                self.cfheaders.push(m);
                proof {
                    assert(self.queue(c) =~= old(self).queue(c).push(mv));
                }
            },
            Command::GetCFilters => {
                self.getcfilters.push(m);
                proof {
                    assert(self.queue(c) =~= old(self).queue(c).push(mv));
                }
            },
            Command::CFilter => {
                self.cfilter.push(m);
                proof {
                    assert(self.queue(c) =~= old(self).queue(c).push(mv));
                }
            },
        }
        proof {
            assert forall|c2: Command| c2 != c
                implies #[trigger] self.queue(c2) == old(self).queue(c2) by {
                assert(self.queue(c2) =~= old(self).queue(c2));
            }
        }
    }

    /// Take the oldest message waiting for a command, if any (FIFO). Every
    /// other mailbox is untouched; an empty mailbox yields `None` and
    /// changes nothing.
    pub fn try_recv(&mut self, c: Command) -> (r: Option<NetworkMessage>)
        ensures
            (old(self).queue(c).len() == 0 ==> r is None
                && final(self).queue(c) == old(self).queue(c)),
            (old(self).queue(c).len() > 0 ==> (r matches Some(m)
                && m@ == old(self).queue(c)[0]
                && final(self).queue(c) == old(self).queue(c).drop_first())),
            forall|c2: Command| c2 != c ==> #[trigger] final(self).queue(c2)
                == old(self).queue(c2),
    {
        let r: Option<NetworkMessage> = match c {
            Command::Version => {
                if self.version.len() == 0 {
                    None
                } else {
                    let m = self.version.remove(0);
                    proof {
                        assert(self.queue(c) =~= old(self).queue(c).drop_first());
                    }
                    Some(m)
                }
            },
            Command::Verack => {
                if self.verack.len() == 0 {
                    None
                } else {
                    let m = self.verack.remove(0);
                    proof {
                        assert(self.queue(c) =~= old(self).queue(c).drop_first());
                    }
                    Some(m)
                }
            },
            Command::Ping => {
                if self.ping.len() == 0 {
                    None
                } else {
                    let m = self.ping.remove(0);
                    proof {
                        assert(self.queue(c) =~= old(self).queue(c).drop_first());
                    }
                    Some(m)
                }
            },
            Command::Pong => {
                if self.pong.len() == 0 {
                    None
                } else {
                    let m = self.pong.remove(0);
                    proof {
                        assert(self.queue(c) =~= old(self).queue(c).drop_first());
                    }
                    Some(m)
                }
            },
            Command::Alert => {
                if self.alert.len() == 0 {
                    None
                } else {
                    let m = self.alert.remove(0);
                    proof {
                        assert(self.queue(c) =~= old(self).queue(c).drop_first());
                    }
                    Some(m)
                }
            },
            Command::Inv => {
                if self.inv.len() == 0 {
                    None
                } else {
                    let m = self.inv.remove(0);
                    proof {
                        assert(self.queue(c) =~= old(self).queue(c).drop_first());
                    }
                    Some(m)
                }
            },
            Command::GetData => {
                if self.getdata.len() == 0 {
                    None
                } else {
                    let m = self.getdata.remove(0);
                    proof {
                        assert(self.queue(c) =~= old(self).queue(c).drop_first());
                    }
                    Some(m)
                }
            },
            Command::NotFound => {
                if self.notfound.len() == 0 {
                    None
                } else {
                    let m = self.notfound.remove(0);
                    proof {
                        assert(self.queue(c) =~= old(self).queue(c).drop_first());
                    }
                    Some(m)
                }
            },
            Command::Tx => {
                if self.tx.len() == 0 {
                    None
                } else {
                    let m = self.tx.remove(0);
                    proof {
                        assert(self.queue(c) =~= old(self).queue(c).drop_first());
                    }
                    Some(m)
                }
            },
            Command::Block => {
                if self.block.len() == 0 {
                    None
                } else {
                    let m = self.block.remove(0);
                    proof {
                        assert(self.queue(c) =~= old(self).queue(c).drop_first());
                    }
                    Some(m)
                }
            },
            Command::MemPool => {
                if self.mempool.len() == 0 {
                    None
                } else {
                    let m = self.mempool.remove(0);
                    proof {
                        assert(self.queue(c) =~= old(self).queue(c).drop_first());
                    }
                    Some(m)
                }
            },
            Command::GetCFCheckpt => {
                if self.getcfcheckpt.len() == 0 {
                    None
                } else {
                    let m = self.getcfcheckpt.remove(0);
                    proof {
                        assert(self.queue(c) =~= old(self).queue(c).drop_first());
                    }
                    Some(m)
                }
            },
            Command::CFCheckpt => {
                if self.cfcheckpt.len() == 0 {
                    None
                } else {
                    let m = self.cfcheckpt.remove(0);
                    proof {
                        assert(self.queue(c) =~= old(self).queue(c).drop_first());
                    }
                    Some(m)
                }
            },
            Command::GetCFHeaders => {
                if self.getcfheaders.len() == 0 {
                    None
                } else {
                    let m = self.getcfheaders.remove(0);
                    proof {
                        assert(self.queue(c) =~= old(self).queue(c).drop_first());
                    }
                    Some(m)
                }
            },
            Command::CFHeaders => {
                if self.cfheaders.len() == 0 {
                    None
                } else {
                    let m = self.cfheaders.remove(0);
                    proof {
                        assert(self.queue(c) =~= old(self).queue(c).drop_first());
                    }
                    Some(m)
                }
            },
            Command::GetCFilters => {
                if self.getcfilters.len() == 0 {
                    None
                } else {
                    let m = self.getcfilters.remove(0);
                    proof {
                        assert(self.queue(c) =~= old(self).queue(c).drop_first());
                    }
                    Some(m)
                }
            },
            Command::CFilter => {
                if self.cfilter.len() == 0 {
                    None
                } else {
                    let m = self.cfilter.remove(0);
                    proof {
                        assert(self.queue(c) =~= old(self).queue(c).drop_first());
                    }
                    Some(m)
                }
            },
        };
        proof {
            if old(self).queue(c).len() == 0 {
                assert(self.queue(c) =~= old(self).queue(c));
            }
            assert forall|c2: Command| c2 != c
                implies #[trigger] self.queue(c2) == old(self).queue(c2) by {
                assert(self.queue(c2) =~= old(self).queue(c2));
            }
        }
        r
    }
}

/// Mailbox FIFO: if the reader pushes m1 and then m2 to the same command's
/// mailbox, two successive receives return m1 and then m2.
pub proof fn lemma_mailbox_fifo(q: Seq<MsgV>, m1: MsgV, m2: MsgV)
    requires
        q.len() == 0,
    ensures
        q.push(m1).push(m2)[0] == m1,
        q.push(m1).push(m2).drop_first()[0] == m2,
        q.push(m1).push(m2).drop_first().drop_first().len() == 0,
{
    assert(q.push(m1).push(m2).drop_first() =~= seq![m2]);
}

} // verus!
