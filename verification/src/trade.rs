//! The trade record: the one persistent entity of the escrow.

use vstd::prelude::*;
use crate::addr::Address;

verus! {

/// One escrow's terms and status.
///
/// The record is allocated at the address derived from the author's base
/// identity.  `author` is the creator; the two vault fields record the
/// author's own holding accounts for later validation; `executed` starts
/// false and flips to true exactly once; `bump` and `vault_bump` record the
/// derivation nonces of the record's and the custody vault's addresses.
#[derive(Clone, Copy, Debug, PartialEq, Eq, Structural)]
pub struct Trade {
    pub author: Address,
    pub author_offered_vault: Address,
    pub author_requested_vault: Address,
    pub executed: bool,
    pub amount_requested: u64,
    pub mint_requested: u64,
    pub amount_offered: u64,
    pub mint_offered: u64,
    pub bump: u8,
    pub vault_bump: u8,
}

} // verus!
