//! Deterministic address derivation.
//!
//! Every account of the modeled ledger lives at an `Address`.  Ordinary
//! participants hold `Key` addresses.  A trade record lives at an address
//! derived from the author's chosen base identity, and its custody vault at
//! an address derived from the trade record's address.  Derived addresses
//! form their own spaces: no ordinary key can collide with them, so nobody
//! can squat on a trade's record or custody vault, and the same base always
//! re-derives the same addresses.

use vstd::prelude::*;

verus! {

/// An address in the ledger's flat namespace.
///
/// `Key` is an ordinary, externally held key: only these can sign requests.
/// `TradeRecord` and `TradeVault` are program-derived: they carry the base
/// identity they were derived from, and no external party can produce a
/// signature for them.
#[derive(Clone, Copy, Debug, PartialEq, Eq, Structural)]
pub enum Address {
    Key(u64),
    TradeRecord(u64),
    TradeVault(u64),
}

/// The derivation nonce recorded alongside a derived address.  The model's
/// derivation always succeeds on its first candidate.
pub const CANONICAL_BUMP: u8 = 255;

/// The base identity a derived address was computed from; for an ordinary
/// key, the key's own identifier.
pub open spec fn base_of(a: Address) -> u64 {
    match a {
        Address::Key(b) => b,
        Address::TradeRecord(b) => b,
        Address::TradeVault(b) => b,
    }
}

/// The trade record address derived from a base identity.
pub open spec fn trade_address_of(base: u64) -> Address {
    Address::TradeRecord(base)
}

/// The custody vault address derived from a trade record address.
pub open spec fn vault_address_of(trade: Address) -> Address {
    Address::TradeVault(base_of(trade))
}

/// Derives the trade record address for a base identity, with its nonce.
pub fn derive_trade_address(base: u64) -> (r: (Address, u8))
    ensures
        r.0 == trade_address_of(base),
        r.1 == CANONICAL_BUMP,
{
    (Address::TradeRecord(base), CANONICAL_BUMP)
}

/// Derives the custody vault address for a trade record address, with its
/// nonce.
pub fn derive_vault_address(trade: Address) -> (r: (Address, u8))
    ensures
        r.0 == vault_address_of(trade),
        r.1 == CANONICAL_BUMP,
{
    match trade {
        Address::Key(b) => (Address::TradeVault(b), CANONICAL_BUMP),
        Address::TradeRecord(b) => (Address::TradeVault(b), CANONICAL_BUMP),
        Address::TradeVault(b) => (Address::TradeVault(b), CANONICAL_BUMP),
    }
}

/// Derivation is a function of the base alone, and distinct bases always
/// yield distinct trade record addresses.
pub proof fn lemma_trade_address_deterministic(b1: u64, b2: u64)
    ensures
        (trade_address_of(b1) == trade_address_of(b2)) <==> b1 == b2,
{
}

/// Vault derivation is a function of the trade record address alone, and
/// distinct trade records always get distinct custody vaults.
pub proof fn lemma_vault_address_deterministic(t1: Address, t2: Address)
    requires
        t1 is TradeRecord,
        t2 is TradeRecord,
    ensures
        (vault_address_of(t1) == vault_address_of(t2)) <==> t1 == t2,
{
}

/// Derived addresses live outside the space of ordinary keys and outside
/// each other's spaces: a trade record address is never an ordinary key,
/// never a vault address, and vice versa.
pub proof fn lemma_derived_addresses_unforgeable(b: u64)
    ensures
        forall|k: u64| trade_address_of(b) != Address::Key(k),
        forall|k: u64| vault_address_of(trade_address_of(b)) != Address::Key(k),
        forall|k: u64| trade_address_of(b) != Address::TradeVault(k),
{
}

} // verus!
