//! The modeled asset ledger: token accounts, trade records, and the custody
//! adapter that moves amounts between accounts.
//!
//! The ledger is the shared state every transition acts on.  Its
//! well-formedness invariant ties each trade record to its custody vault:
//! the vault lives at the address derived from the record, carries the
//! offered asset type, is owned by the record itself — never by a party's
//! key — and holds exactly the offered amount while the trade is pending and
//! nothing once it has executed.

use vstd::prelude::*;
use crate::addr::Address;
use crate::addr::base_of;
use crate::addr::vault_address_of;
use crate::error::EscrowError;
use crate::store::Store;
use crate::trade::Trade;

verus! {

/// A fungible-asset holding account: its asset type, its withdrawal
/// authority, and its balance.
#[derive(Clone, Copy, Debug, PartialEq, Eq, Structural)]
pub struct TokenAccount {
    pub mint: u64,
    pub owner: Address,
    pub amount: u64,
}

/// `acct` with `amount` taken out of its balance.
pub open spec fn debit(acct: TokenAccount, amount: u64) -> TokenAccount {
    TokenAccount { mint: acct.mint, owner: acct.owner, amount: (acct.amount - amount) as u64 }
}

/// `acct` with `amount` added to its balance.
pub open spec fn credit(acct: TokenAccount, amount: u64) -> TokenAccount {
    TokenAccount { mint: acct.mint, owner: acct.owner, amount: (acct.amount + amount) as u64 }
}

/// The shared ledger: one namespace of token accounts and one of trade
/// records.
pub struct Ledger {
    pub accounts: Store<TokenAccount>,
    pub trades: Store<Trade>,
}

impl Ledger {
    /// The trade record at `a` is internally consistent and correctly tied
    /// to its custody vault.
    pub open spec fn trade_entry_ok(self, a: Address) -> bool {
        let t = self.trades@[a];
        let va = vault_address_of(a);
        &&& t.author is Key
        &&& t.author_offered_vault is Key
        &&& t.author_requested_vault is Key
        &&& t.mint_offered != t.mint_requested
        &&& self.accounts@.contains_key(va)
        &&& self.accounts@[va].mint == t.mint_offered
        &&& self.accounts@[va].owner == a
        &&& self.accounts@[va].amount == (if t.executed {
            0u64
        } else {
            t.amount_offered
        })
    }

    /// The ledger's well-formedness invariant, established at creation and
    /// preserved by every transition:
    /// token accounts live only at key or vault addresses; trade records
    /// live only at trade record addresses and each is tied to its custody
    /// vault; and no custody vault outlives its trade record.
    pub open spec fn wf(self) -> bool {
        &&& self.accounts.wf()
        &&& self.trades.wf()
        &&& forall|a: Address| #[trigger]
            self.accounts@.contains_key(a) ==> (a is Key || a is TradeVault)
        &&& forall|a: Address| #[trigger]
            self.trades@.contains_key(a) ==> a is TradeRecord && self.trade_entry_ok(a)
        &&& forall|a: Address| #[trigger]
            self.accounts@.contains_key(a) && a is TradeVault ==> self.trades@.contains_key(
                Address::TradeRecord(base_of(a)),
            )
    }

    /// An empty ledger.
    pub fn new() -> (l: Ledger)
        ensures
            l.wf(),
            l.accounts@ == Map::<Address, TokenAccount>::empty(),
            l.trades@ == Map::<Address, Trade>::empty(),
    {
        Ledger { accounts: Store::new(), trades: Store::new() }
    }

    /// The balance of the token account at `a`, if one exists.
    pub fn token_balance(&self, a: Address) -> (r: Option<u64>)
        requires
            self.wf(),
        ensures
            r == (if self.accounts@.contains_key(a) {
                Some(self.accounts@[a].amount)
            } else {
                None::<u64>
            }),
    {
        match self.accounts.get(a) {
            Some(acct) => Some(acct.amount),
            None => None,
        }
    }

    /// The token account at `a`, if one exists.
    pub fn get_token_account(&self, a: Address) -> (r: Option<TokenAccount>)
        requires
            self.wf(),
        ensures
            r == (if self.accounts@.contains_key(a) {
                Some(self.accounts@[a])
            } else {
                None::<TokenAccount>
            }),
    {
        self.accounts.get(a)
    }

    /// The trade record at `a`, if one exists.
    pub fn get_trade(&self, a: Address) -> (r: Option<Trade>)
        requires
            self.wf(),
        ensures
            r == (if self.trades@.contains_key(a) {
                Some(self.trades@[a])
            } else {
                None::<Trade>
            }),
    {
        self.trades.get(a)
    }

    /// Opens an empty token account at an ordinary key address.  Rejected
    /// when the address is not an ordinary key (derived addresses are
    /// allocated only by the escrow itself) or is already taken.
    pub fn create_token_account(&mut self, address: Address, mint: u64, owner: Address) -> (r:
        Result<(), EscrowError>)
        requires
            old(self).wf(),
        ensures
            final(self).wf(),
            r == (if !(address is Key) {
                Err::<(), EscrowError>(EscrowError::ConstraintViolation)
            } else if old(self).accounts@.contains_key(address) {
                Err::<(), EscrowError>(EscrowError::DuplicateCreationError)
            } else {
                Ok::<(), EscrowError>(())
            }),
            r is Err ==> *final(self) == *old(self),
            r is Ok ==> final(self).accounts@ == old(self).accounts@.insert(
                address,
                TokenAccount { mint, owner, amount: 0 },
            ),
            final(self).trades == old(self).trades,
    {
        match address {
            Address::Key(_) => {},
            _ => {
                return Err(EscrowError::ConstraintViolation);
            },
        }
        if self.accounts.contains(address) {
            return Err(EscrowError::DuplicateCreationError);
        }
        self.accounts.insert(address, TokenAccount { mint, owner, amount: 0 });
        proof {
            assert forall|a: Address| #[trigger]
                self.trades@.contains_key(a) implies a is TradeRecord && self.trade_entry_ok(
                a,
            ) by {
                assert(old(self).trade_entry_ok(a));
                assert(vault_address_of(a) != address);
            }
        }
        Ok(())
    }

    /// Adds freshly issued units of an account's asset type to its balance:
    /// the model of the asset ledger's mint operation.  Only ordinary key
    /// accounts can be funded this way; nothing enters a custody vault
    /// except through trade creation.
    pub fn deposit(&mut self, address: Address, amount: u64) -> (r: Result<(), EscrowError>)
        requires
            old(self).wf(),
        ensures
            final(self).wf(),
            r == (if !(address is Key) || !old(self).accounts@.contains_key(address) {
                Err::<(), EscrowError>(EscrowError::ConstraintViolation)
            } else if old(self).accounts@[address].amount + amount > u64::MAX {
                Err::<(), EscrowError>(EscrowError::BalanceOverflow)
            } else {
                Ok::<(), EscrowError>(())
            }),
            r is Err ==> *final(self) == *old(self),
            r is Ok ==> final(self).accounts@ == old(self).accounts@.insert(
                address,
                credit(old(self).accounts@[address], amount),
            ),
            final(self).trades == old(self).trades,
    {
        match address {
            Address::Key(_) => {},
            _ => {
                return Err(EscrowError::ConstraintViolation);
            },
        }
        let acct = match self.accounts.get(address) {
            Some(acct) => acct,
            None => {
                return Err(EscrowError::ConstraintViolation);
            },
        };
        if acct.amount > u64::MAX - amount {
            return Err(EscrowError::BalanceOverflow);
        }
        self.accounts.update_value(
            address,
            TokenAccount { mint: acct.mint, owner: acct.owner, amount: acct.amount + amount },
        );
        proof {
            assert forall|a: Address| #[trigger]
                self.trades@.contains_key(a) implies a is TradeRecord && self.trade_entry_ok(
                a,
            ) by {
                assert(old(self).trade_entry_ok(a));
                assert(vault_address_of(a) != address);
            }
        }
        Ok(())
    }

    /// Moves `amount` between two distinct, type-matched token accounts.
    /// The caller has already validated authority over `from`; the asset
    /// ledger itself only ever sees pre-checked transfers.
    pub(crate) fn transfer(&mut self, from: Address, to: Address, amount: u64)
        requires
            old(self).accounts.wf(),
            old(self).accounts@.contains_key(from),
            old(self).accounts@.contains_key(to),
            from != to,
            old(self).accounts@[from].amount >= amount,
            old(self).accounts@[to].amount + amount <= u64::MAX,
            old(self).accounts@[from].mint == old(self).accounts@[to].mint,
        ensures
            final(self).accounts.wf(),
            final(self).accounts@ == old(self).accounts@.insert(
                from,
                debit(old(self).accounts@[from], amount),
            ).insert(to, credit(old(self).accounts@[to], amount)),
            final(self).trades == old(self).trades,
    {
        let from_acct = match self.accounts.get(from) {
            Some(acct) => acct,
            None => {
                proof {
                    assert(false);
                }
                return ;
            },
        };
        let to_acct = match self.accounts.get(to) {
            Some(acct) => acct,
            None => {
                proof {
                    assert(false);
                }
                return ;
            },
        };
        self.accounts.update_value(
            from,
            TokenAccount {
                mint: from_acct.mint,
                owner: from_acct.owner,
                amount: from_acct.amount - amount,
            },
        );
        self.accounts.update_value(
            to,
            TokenAccount {
                mint: to_acct.mint,
                owner: to_acct.owner,
                amount: to_acct.amount + amount,
            },
        );
    }

    /// Reclaims an emptied token account; the model of the asset ledger's
    /// close operation.  The caller has already validated authority and
    /// drained the balance.
    pub(crate) fn close_token_account(&mut self, address: Address)
        requires
            old(self).accounts.wf(),
            old(self).accounts@.contains_key(address),
            old(self).accounts@[address].amount == 0,
        ensures
            final(self).accounts.wf(),
            final(self).accounts@ == old(self).accounts@.remove(address),
            final(self).trades == old(self).trades,
    {
        self.accounts.remove(address);
    }
}

} // verus!
