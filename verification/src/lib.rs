//! The core of a Bitcoin P2P client endpoint used by a light wallet: the
//! length-framed wire codec (magic, command, length, double-SHA checksum,
//! payload), a mempool of unconfirmed transactions keyed by txid, the
//! per-command response mailboxes, the reader's dispatch step (answer pings,
//! serve getdata from the mempool, route everything else), the
//! version/verack handshake, and the request/reply checks for the
//! compact-filter and inventory exchanges.
//!
//! Sockets, threads and clocks live in the embedding program, which feeds
//! raw frames and mailbox outcomes into these functions and writes out the
//! bytes and replies they hand back.

pub mod bytes;
pub mod codec;
pub mod commands;
pub mod errors;
pub mod mempool;
pub mod msgs;
pub mod peer;
pub mod registry;
pub mod requests;
