use vstd::prelude::*;

verus! {

/// Failure kinds surfaced by the peer library.
///
/// `DataCorruption` covers every wire encode or decode failure (bad checksum,
/// length mismatch, a numeric field out of its declared range).
/// `InvalidResponse` means a mailbox handed back a message inconsistent with
/// the request (wrong variant, wrong filter type). `Timeout` means a bounded
/// wait elapsed where the caller required a value.
#[derive(Clone, Copy, Debug, PartialEq, Eq, Structural)]
pub enum PeerError {
    DataCorruption,
    InvalidResponse,
    Timeout,
}

} // verus!
