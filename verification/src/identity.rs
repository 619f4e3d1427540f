use vstd::prelude::*;

verus! {

/// A ledger identity: a 256-bit account address, held as four 64-bit words.
///
/// Identities name the seller, the asset, the vault, the buyers on the
/// allow-list, and the derived authority that owns the vault. The logic
/// only ever compares them for equality.
#[derive(Clone, Copy, PartialEq, Eq, Structural, Debug)]
pub struct Identity {
    pub w0: u64,
    pub w1: u64,
    pub w2: u64,
    pub w3: u64,
}

} // verus!
