//! The trade state machine: the four transitions and their validation.
//!
//! Every transition takes the full set of account references its request
//! names, validates signer identity, derived addresses, recorded
//! counterparts, asset types and owners — all before any mutation — and then
//! either applies its whole effect or, on the first failing check, leaves
//! the ledger untouched and reports which check failed.  Each transition's
//! contract states the exact rejection for every input and the exact new
//! ledger for every success.

use vstd::prelude::*;
use crate::addr::Address;
use crate::addr::CANONICAL_BUMP;
use crate::addr::base_of;
use crate::addr::derive_trade_address;
use crate::addr::derive_vault_address;
use crate::addr::trade_address_of;
use crate::addr::vault_address_of;
use crate::error::EscrowError;
use crate::ledger::Ledger;
use crate::ledger::TokenAccount;
use crate::ledger::credit;
use crate::ledger::debit;
use crate::trade::Trade;

verus! {

/// The account references of a creation request: the author (the signer),
/// the base identity, the two asset types, the author's two holding
/// accounts, and the addresses claimed for the new trade record and its
/// custody vault.
#[derive(Clone, Copy, Debug, PartialEq, Eq, Structural)]
pub struct StartTrade {
    pub authority: Address,
    pub base: Address,
    pub mint_offered: u64,
    pub mint_requested: u64,
    pub author_offered_vault: Address,
    pub author_requested_vault: Address,
    pub trade: Address,
    pub trade_vault: Address,
}

/// The account references of a cancellation request: the author (the
/// signer), the base identity, the trade record, its custody vault, and the
/// author's offered holding account the custody balance returns to.
#[derive(Clone, Copy, Debug, PartialEq, Eq, Structural)]
pub struct CancelTrade {
    pub authority: Address,
    pub base: Address,
    pub trade: Address,
    pub trade_vault: Address,
    pub author_offered_vault: Address,
}

/// The account references of a swap request: the caller (the signer), the
/// base identity, the trade record, its custody vault, the author's
/// recorded requested holding account, and the caller's own holding
/// accounts for both asset types.
#[derive(Clone, Copy, Debug, PartialEq, Eq, Structural)]
pub struct ExecuteTrade {
    pub authority: Address,
    pub base: Address,
    pub trade: Address,
    pub trade_vault: Address,
    pub author_requested_vault: Address,
    pub executer_offered_vault: Address,
    pub executer_requested_vault: Address,
}

/// The account references of a cleanup request: the author (the signer),
/// the base identity, the trade record, and its custody vault.
#[derive(Clone, Copy, Debug, PartialEq, Eq, Structural)]
pub struct DeleteTrade {
    pub authority: Address,
    pub base: Address,
    pub trade: Address,
    pub trade_vault: Address,
}

/// The trade record that a successful creation writes.
pub open spec fn created_trade(ctx: StartTrade, amount_offered: u64, amount_requested: u64) -> Trade {
    Trade {
        author: ctx.authority,
        author_offered_vault: ctx.author_offered_vault,
        author_requested_vault: ctx.author_requested_vault,
        executed: false,
        amount_requested,
        mint_requested: ctx.mint_requested,
        amount_offered,
        mint_offered: ctx.mint_offered,
        bump: CANONICAL_BUMP,
        vault_bump: CANONICAL_BUMP,
    }
}

/// `t` marked as executed, every other field kept.
pub open spec fn executed_trade(t: Trade) -> Trade {
    Trade {
        author: t.author,
        author_offered_vault: t.author_offered_vault,
        author_requested_vault: t.author_requested_vault,
        executed: true,
        amount_requested: t.amount_requested,
        mint_requested: t.mint_requested,
        amount_offered: t.amount_offered,
        mint_offered: t.mint_offered,
        bump: t.bump,
        vault_bump: t.vault_bump,
    }
}

/// An account with its owner recorded as an ordinary key can itself only
/// live at an ordinary key address: every vault-addressed account is owned
/// by its trade record.
proof fn lemma_owner_key_address_key(l: Ledger, a: Address)
    requires
        l.wf(),
        l.accounts@.contains_key(a),
        l.accounts@[a].owner is Key,
    ensures
        a is Key,
{
    if a is TradeVault {
        let rec = Address::TradeRecord(base_of(a));
        assert(l.trades@.contains_key(rec));
        assert(l.trade_entry_ok(rec));
        assert(vault_address_of(rec) == a);
        assert(l.accounts@[a].owner == rec);
    }
}

impl Ledger {
    /// The verdict of the constraint checker on a creation request, checks
    /// in request order: the signer must be an ordinary key, the base an
    /// ordinary key, the two asset types distinct, the record and vault
    /// addresses must re-derive from the base, the record address must be
    /// free, both of the author's holding accounts must exist with the
    /// matching asset type and the author as owner, and the offered account
    /// must cover the offered amount.
    pub open spec fn check_start_trade(
        self,
        ctx: StartTrade,
        amount_offered: u64,
        amount_requested: u64,
    ) -> Result<(), EscrowError> {
        if !(ctx.authority is Key) {
            Err(EscrowError::AuthorizationError)
        } else if !(ctx.base is Key) {
            Err(EscrowError::ConstraintViolation)
        } else if ctx.mint_offered == ctx.mint_requested {
            Err(EscrowError::ConstraintViolation)
        } else if ctx.trade != trade_address_of(base_of(ctx.base)) {
            Err(EscrowError::ConstraintViolation)
        } else if ctx.trade_vault != vault_address_of(ctx.trade) {
            Err(EscrowError::ConstraintViolation)
        } else if self.trades@.contains_key(ctx.trade) {
            Err(EscrowError::DuplicateCreationError)
        } else if !self.accounts@.contains_key(ctx.author_offered_vault)
            || self.accounts@[ctx.author_offered_vault].mint != ctx.mint_offered
            || self.accounts@[ctx.author_offered_vault].owner != ctx.authority {
            Err(EscrowError::ConstraintViolation)
        } else if !self.accounts@.contains_key(ctx.author_requested_vault)
            || self.accounts@[ctx.author_requested_vault].mint != ctx.mint_requested
            || self.accounts@[ctx.author_requested_vault].owner != ctx.authority {
            Err(EscrowError::ConstraintViolation)
        } else if self.accounts@[ctx.author_offered_vault].amount < amount_offered {
            Err(EscrowError::InsufficientFunds)
        } else {
            Ok(())
        }
    }

    /// The verdict of the constraint checker on a cancellation request,
    /// checks in request order: the base must be an ordinary key, the record
    /// address must re-derive from it and hold a record, the signer must be
    /// the recorded author, the trade must not have executed, the vault
    /// address must re-derive from the record address, the offered holding
    /// account must be the one recorded at creation with the matching asset
    /// type and the author as owner, and returning the custody balance must
    /// not overflow it.
    pub open spec fn check_cancel_trade(self, ctx: CancelTrade) -> Result<(), EscrowError> {
        if !(ctx.base is Key) {
            Err(EscrowError::ConstraintViolation)
        } else if ctx.trade != trade_address_of(base_of(ctx.base)) {
            Err(EscrowError::ConstraintViolation)
        } else if !self.trades@.contains_key(ctx.trade) {
            Err(EscrowError::InvalidStateError)
        } else if self.trades@[ctx.trade].author != ctx.authority {
            Err(EscrowError::AuthorizationError)
        } else if self.trades@[ctx.trade].executed {
            Err(EscrowError::InvalidStateError)
        } else if ctx.trade_vault != vault_address_of(ctx.trade) {
            Err(EscrowError::ConstraintViolation)
        } else if ctx.author_offered_vault != self.trades@[ctx.trade].author_offered_vault {
            Err(EscrowError::ConstraintViolation)
        } else if !self.accounts@.contains_key(ctx.author_offered_vault)
            || self.accounts@[ctx.author_offered_vault].mint != self.trades@[ctx.trade].mint_offered
            || self.accounts@[ctx.author_offered_vault].owner != ctx.authority {
            Err(EscrowError::ConstraintViolation)
        } else if self.accounts@[ctx.author_offered_vault].amount + self.trades@[ctx.trade].amount_offered > u64::MAX {
            Err(EscrowError::BalanceOverflow)
        } else {
            Ok(())
        }
    }

    /// Cancels a pending trade: returns the full custody balance to the
    /// author's recorded offered holding account, then reclaims the custody
    /// vault and the trade record.  Only the author may cancel, and only
    /// while the trade has not executed.
    pub fn cancel_trade(&mut self, ctx: CancelTrade) -> (r: Result<(), EscrowError>)
        requires
            old(self).wf(),
        ensures
            final(self).wf(),
            r == old(self).check_cancel_trade(ctx),
            r is Err ==> *final(self) == *old(self),
            r is Ok ==> final(self).accounts@ == old(self).accounts@.insert(
                ctx.author_offered_vault,
                credit(
                    old(self).accounts@[ctx.author_offered_vault],
                    old(self).trades@[ctx.trade].amount_offered,
                ),
            ).remove(ctx.trade_vault),
            r is Ok ==> final(self).trades@ == old(self).trades@.remove(ctx.trade),
            r is Ok ==> final(self).accounts@[ctx.author_offered_vault].amount
                == old(self).accounts@[ctx.author_offered_vault].amount
                + old(self).trades@[ctx.trade].amount_offered,
            r is Ok ==> !final(self).accounts@.contains_key(ctx.trade_vault)
                && !final(self).trades@.contains_key(ctx.trade),
            r is Ok ==> forall|a: Address|
                #![auto]
                a != ctx.trade_vault && a != ctx.author_offered_vault
                    && old(self).accounts@.contains_key(a)
                    ==> final(self).accounts@.contains_key(a)
                    && final(self).accounts@[a] == old(self).accounts@[a],
    {
        let base_id = match ctx.base {
            Address::Key(b) => b,
            _ => {
                return Err(EscrowError::ConstraintViolation);
            },
        };
        let (trade_addr, _bump) = derive_trade_address(base_id);
        if ctx.trade != trade_addr {
            return Err(EscrowError::ConstraintViolation);
        }
        let t = match self.trades.get(ctx.trade) {
            Some(t) => t,
            None => {
                return Err(EscrowError::InvalidStateError);
            },
        };
        if t.author != ctx.authority {
            return Err(EscrowError::AuthorizationError);
        }
        if t.executed {
            return Err(EscrowError::InvalidStateError);
        }
        let (vault_addr, _vault_bump) = derive_vault_address(trade_addr);
        if ctx.trade_vault != vault_addr {
            return Err(EscrowError::ConstraintViolation);
        }
        if ctx.author_offered_vault != t.author_offered_vault {
            return Err(EscrowError::ConstraintViolation);
        }
        let aov = match self.accounts.get(ctx.author_offered_vault) {
            Some(acct) => acct,
            None => {
                return Err(EscrowError::ConstraintViolation);
            },
        };
        if aov.mint != t.mint_offered || aov.owner != ctx.authority {
            return Err(EscrowError::ConstraintViolation);
        }
        if aov.amount > u64::MAX - t.amount_offered {
            return Err(EscrowError::BalanceOverflow);
        }
        proof {
            assert(self.trade_entry_ok(ctx.trade));
            lemma_owner_key_address_key(*self, ctx.author_offered_vault);
        }
        self.transfer(ctx.trade_vault, ctx.author_offered_vault, t.amount_offered);
        self.close_token_account(ctx.trade_vault);
        self.trades.remove(ctx.trade);
        proof {
            let target = old(self).accounts@.insert(
                ctx.author_offered_vault,
                credit(
                    old(self).accounts@[ctx.author_offered_vault],
                    old(self).trades@[ctx.trade].amount_offered,
                ),
            ).remove(ctx.trade_vault);
            assert(self.accounts@ =~= target);
            assert forall|a: Address| #[trigger]
                self.accounts@.contains_key(a) implies (a is Key || a is TradeVault) by {
                assert(old(self).accounts@.contains_key(a));
            }
            assert forall|a: Address| #[trigger]
                self.trades@.contains_key(a) implies a is TradeRecord && self.trade_entry_ok(
                a,
            ) by {
                assert(old(self).trades@.contains_key(a));
                assert(old(self).trade_entry_ok(a));
                assert(vault_address_of(a) != ctx.trade_vault);
                assert(vault_address_of(a) != ctx.author_offered_vault);
                assert(self.trade_entry_ok(a));
            }
            assert forall|a: Address| #[trigger]
                self.accounts@.contains_key(a) && a is TradeVault implies self.trades@.contains_key(
                Address::TradeRecord(base_of(a)),
            ) by {
                assert(old(self).accounts@.contains_key(a));
                assert(a != ctx.trade_vault);
                assert(Address::TradeRecord(base_of(a)) != ctx.trade);
            }
        }
        Ok(())
    }

    /// The verdict of the constraint checker on a swap request, checks in
    /// request order: the caller must be an ordinary key, the base an
    /// ordinary key, the record address must re-derive from it and hold a
    /// record, the trade must not have executed, the vault address must
    /// re-derive from the record address, the author's requested holding
    /// account must be the one recorded at creation with the matching asset
    /// type and the author as owner, the caller's two holding accounts must
    /// exist with the matching asset types and the caller as owner, and both
    /// transfer legs must be payable: the offered leg must not overflow the
    /// caller's account, and the caller must cover the requested amount
    /// without overflowing the author's account.
    pub open spec fn check_execute_trade(self, ctx: ExecuteTrade) -> Result<(), EscrowError> {
        if !(ctx.authority is Key) {
            Err(EscrowError::AuthorizationError)
        } else if !(ctx.base is Key) {
            Err(EscrowError::ConstraintViolation)
        } else if ctx.trade != trade_address_of(base_of(ctx.base)) {
            Err(EscrowError::ConstraintViolation)
        } else if !self.trades@.contains_key(ctx.trade) {
            Err(EscrowError::InvalidStateError)
        } else if self.trades@[ctx.trade].executed {
            Err(EscrowError::InvalidStateError)
        } else if ctx.trade_vault != vault_address_of(ctx.trade) {
            Err(EscrowError::ConstraintViolation)
        } else if ctx.author_requested_vault != self.trades@[ctx.trade].author_requested_vault {
            Err(EscrowError::ConstraintViolation)
        } else if !self.accounts@.contains_key(ctx.author_requested_vault)
            || self.accounts@[ctx.author_requested_vault].mint != self.trades@[ctx.trade].mint_requested
            || self.accounts@[ctx.author_requested_vault].owner != self.trades@[ctx.trade].author {
            Err(EscrowError::ConstraintViolation)
        } else if !self.accounts@.contains_key(ctx.executer_offered_vault)
            || self.accounts@[ctx.executer_offered_vault].mint != self.trades@[ctx.trade].mint_offered
            || self.accounts@[ctx.executer_offered_vault].owner != ctx.authority {
            Err(EscrowError::ConstraintViolation)
        } else if !self.accounts@.contains_key(ctx.executer_requested_vault)
            || self.accounts@[ctx.executer_requested_vault].mint != self.trades@[ctx.trade].mint_requested
            || self.accounts@[ctx.executer_requested_vault].owner != ctx.authority {
            Err(EscrowError::ConstraintViolation)
        } else if self.accounts@[ctx.executer_offered_vault].amount + self.trades@[ctx.trade].amount_offered > u64::MAX {
            Err(EscrowError::BalanceOverflow)
        } else if self.accounts@[ctx.executer_requested_vault].amount < self.trades@[ctx.trade].amount_requested {
            Err(EscrowError::InsufficientFunds)
        } else if ctx.executer_requested_vault != ctx.author_requested_vault
            && self.accounts@[ctx.author_requested_vault].amount + self.trades@[ctx.trade].amount_requested > u64::MAX {
            Err(EscrowError::BalanceOverflow)
        } else {
            Ok(())
        }
    }

    /// Completes the swap: custody pays the offered amount to the caller's
    /// offered holding account, the caller pays the requested amount to the
    /// author's recorded requested holding account, and the record is marked
    /// executed — all three, or, on any failed check, nothing.  Any caller
    /// may execute; when the author executes their own trade with one and
    /// the same requested holding account on both sides, the requested leg
    /// pays the account to itself and its balance stays put.
    pub fn execute_trade(&mut self, ctx: ExecuteTrade) -> (r: Result<(), EscrowError>)
        requires
            old(self).wf(),
        ensures
            final(self).wf(),
            r == old(self).check_execute_trade(ctx),
            r is Err ==> *final(self) == *old(self),
            r is Ok ==> final(self).trades@ == old(self).trades@.insert(
                ctx.trade,
                executed_trade(old(self).trades@[ctx.trade]),
            ),
            r is Ok && ctx.executer_requested_vault != ctx.author_requested_vault ==> final(self).accounts@ == old(self).accounts@.insert(
                ctx.trade_vault,
                debit(
                    old(self).accounts@[ctx.trade_vault],
                    old(self).trades@[ctx.trade].amount_offered,
                ),
            ).insert(
                ctx.executer_offered_vault,
                credit(
                    old(self).accounts@[ctx.executer_offered_vault],
                    old(self).trades@[ctx.trade].amount_offered,
                ),
            ).insert(
                ctx.executer_requested_vault,
                debit(
                    old(self).accounts@[ctx.executer_requested_vault],
                    old(self).trades@[ctx.trade].amount_requested,
                ),
            ).insert(
                ctx.author_requested_vault,
                credit(
                    old(self).accounts@[ctx.author_requested_vault],
                    old(self).trades@[ctx.trade].amount_requested,
                ),
            ),
            r is Ok && ctx.executer_requested_vault == ctx.author_requested_vault ==> final(self).accounts@ == old(self).accounts@.insert(
                ctx.trade_vault,
                debit(
                    old(self).accounts@[ctx.trade_vault],
                    old(self).trades@[ctx.trade].amount_offered,
                ),
            ).insert(
                ctx.executer_offered_vault,
                credit(
                    old(self).accounts@[ctx.executer_offered_vault],
                    old(self).trades@[ctx.trade].amount_offered,
                ),
            ),
            r is Ok ==> final(self).accounts@[ctx.trade_vault].amount == 0
                && final(self).trades@[ctx.trade].executed,
            r is Ok ==> final(self).accounts@[ctx.executer_offered_vault].amount
                == old(self).accounts@[ctx.executer_offered_vault].amount
                + old(self).trades@[ctx.trade].amount_offered,
            r is Ok && ctx.executer_requested_vault != ctx.author_requested_vault ==> final(self).accounts@[ctx.author_requested_vault].amount
                == old(self).accounts@[ctx.author_requested_vault].amount
                + old(self).trades@[ctx.trade].amount_requested,
            r is Ok && ctx.executer_requested_vault != ctx.author_requested_vault ==> final(self).accounts@[ctx.executer_requested_vault].amount
                == old(self).accounts@[ctx.executer_requested_vault].amount
                - old(self).trades@[ctx.trade].amount_requested,
            r is Ok && ctx.executer_requested_vault == ctx.author_requested_vault ==> final(self).accounts@[ctx.executer_requested_vault].amount
                == old(self).accounts@[ctx.executer_requested_vault].amount,
            r is Ok ==> forall|a: Address|
                #![auto]
                a != ctx.trade_vault && a != ctx.executer_offered_vault
                    && a != ctx.executer_requested_vault && a != ctx.author_requested_vault
                    && old(self).accounts@.contains_key(a)
                    ==> final(self).accounts@.contains_key(a)
                    && final(self).accounts@[a] == old(self).accounts@[a],
    {
        match ctx.authority {
            Address::Key(_) => {},
            _ => {
                return Err(EscrowError::AuthorizationError);
            },
        }
        let base_id = match ctx.base {
            Address::Key(b) => b,
            _ => {
                return Err(EscrowError::ConstraintViolation);
            },
        };
        let (trade_addr, _bump) = derive_trade_address(base_id);
        if ctx.trade != trade_addr {
            return Err(EscrowError::ConstraintViolation);
        }
        let t = match self.trades.get(ctx.trade) {
            Some(t) => t,
            None => {
                return Err(EscrowError::InvalidStateError);
            },
        };
        if t.executed {
            return Err(EscrowError::InvalidStateError);
        }
        let (vault_addr, _vault_bump) = derive_vault_address(trade_addr);
        if ctx.trade_vault != vault_addr {
            return Err(EscrowError::ConstraintViolation);
        }
        if ctx.author_requested_vault != t.author_requested_vault {
            return Err(EscrowError::ConstraintViolation);
        }
        let arv = match self.accounts.get(ctx.author_requested_vault) {
            Some(acct) => acct,
            None => {
                return Err(EscrowError::ConstraintViolation);
            },
        };
        if arv.mint != t.mint_requested || arv.owner != t.author {
            return Err(EscrowError::ConstraintViolation);
        }
        let eov = match self.accounts.get(ctx.executer_offered_vault) {
            Some(acct) => acct,
            None => {
                return Err(EscrowError::ConstraintViolation);
            },
        };
        if eov.mint != t.mint_offered || eov.owner != ctx.authority {
            return Err(EscrowError::ConstraintViolation);
        }
        let erv = match self.accounts.get(ctx.executer_requested_vault) {
            Some(acct) => acct,
            None => {
                return Err(EscrowError::ConstraintViolation);
            },
        };
        if erv.mint != t.mint_requested || erv.owner != ctx.authority {
            return Err(EscrowError::ConstraintViolation);
        }
        if eov.amount > u64::MAX - t.amount_offered {
            return Err(EscrowError::BalanceOverflow);
        }
        if erv.amount < t.amount_requested {
            return Err(EscrowError::InsufficientFunds);
        }
        if ctx.executer_requested_vault != ctx.author_requested_vault && arv.amount > u64::MAX
            - t.amount_requested {
            return Err(EscrowError::BalanceOverflow);
        }
        proof {
            assert(self.trade_entry_ok(ctx.trade));
            lemma_owner_key_address_key(*self, ctx.author_requested_vault);
            lemma_owner_key_address_key(*self, ctx.executer_offered_vault);
            lemma_owner_key_address_key(*self, ctx.executer_requested_vault);
            assert(ctx.executer_offered_vault != ctx.executer_requested_vault);
            assert(ctx.executer_offered_vault != ctx.author_requested_vault);
        }
        self.transfer(ctx.trade_vault, ctx.executer_offered_vault, t.amount_offered);
        if ctx.executer_requested_vault != ctx.author_requested_vault {
            self.transfer(ctx.executer_requested_vault, ctx.author_requested_vault, t.amount_requested);
        }
        let t_done = Trade {
            author: t.author,
            author_offered_vault: t.author_offered_vault,
            author_requested_vault: t.author_requested_vault,
            executed: true,
            amount_requested: t.amount_requested,
            mint_requested: t.mint_requested,
            amount_offered: t.amount_offered,
            mint_offered: t.mint_offered,
            bump: t.bump,
            vault_bump: t.vault_bump,
        };
        self.trades.update_value(ctx.trade, t_done);
        proof {
            assert forall|a: Address| #[trigger]
                self.accounts@.contains_key(a) implies (a is Key || a is TradeVault) by {
                assert(old(self).accounts@.contains_key(a));
            }
            assert forall|a: Address| #[trigger]
                self.trades@.contains_key(a) implies a is TradeRecord && self.trade_entry_ok(
                a,
            ) by {
                assert(old(self).trades@.contains_key(a));
                assert(old(self).trade_entry_ok(a));
                if a == ctx.trade {
                    assert(self.accounts@[ctx.trade_vault].amount == 0);
                    assert(self.trade_entry_ok(a));
                } else {
                    assert(vault_address_of(a) != ctx.trade_vault);
                    assert(vault_address_of(a) != ctx.executer_offered_vault);
                    assert(vault_address_of(a) != ctx.executer_requested_vault);
                    assert(vault_address_of(a) != ctx.author_requested_vault);
                    assert(self.trade_entry_ok(a));
                }
            }
            assert forall|a: Address| #[trigger]
                self.accounts@.contains_key(a) && a is TradeVault implies self.trades@.contains_key(
                Address::TradeRecord(base_of(a)),
            ) by {
                assert(old(self).accounts@.contains_key(a));
            }
        }
        Ok(())
    }

    /// The verdict of the constraint checker on a cleanup request, checks in
    /// request order: the base must be an ordinary key, the record address
    /// must re-derive from it and hold a record, the signer must be the
    /// recorded author, the trade must have executed, and the vault address
    /// must re-derive from the record address.
    pub open spec fn check_delete_trade(self, ctx: DeleteTrade) -> Result<(), EscrowError> {
        if !(ctx.base is Key) {
            Err(EscrowError::ConstraintViolation)
        } else if ctx.trade != trade_address_of(base_of(ctx.base)) {
            Err(EscrowError::ConstraintViolation)
        } else if !self.trades@.contains_key(ctx.trade) {
            Err(EscrowError::InvalidStateError)
        } else if self.trades@[ctx.trade].author != ctx.authority {
            Err(EscrowError::AuthorizationError)
        } else if !self.trades@[ctx.trade].executed {
            Err(EscrowError::InvalidStateError)
        } else if ctx.trade_vault != vault_address_of(ctx.trade) {
            Err(EscrowError::ConstraintViolation)
        } else {
            Ok(())
        }
    }

    /// Reclaims an executed trade: closes the now-empty custody vault and
    /// the trade record.  Moves no asset amounts; only the author may
    /// reclaim, and only after execution.
    pub fn delete_trade(&mut self, ctx: DeleteTrade) -> (r: Result<(), EscrowError>)
        requires
            old(self).wf(),
        ensures
            final(self).wf(),
            r == old(self).check_delete_trade(ctx),
            r is Err ==> *final(self) == *old(self),
            r is Ok ==> final(self).accounts@ == old(self).accounts@.remove(ctx.trade_vault),
            r is Ok ==> final(self).trades@ == old(self).trades@.remove(ctx.trade),
            r is Ok ==> !final(self).accounts@.contains_key(ctx.trade_vault)
                && !final(self).trades@.contains_key(ctx.trade),
            r is Ok ==> forall|a: Address|
                #![auto]
                a != ctx.trade_vault && old(self).accounts@.contains_key(a)
                    ==> final(self).accounts@.contains_key(a)
                    && final(self).accounts@[a] == old(self).accounts@[a],
    {
        let base_id = match ctx.base {
            Address::Key(b) => b,
            _ => {
                return Err(EscrowError::ConstraintViolation);
            },
        };
        let (trade_addr, _bump) = derive_trade_address(base_id);
        if ctx.trade != trade_addr {
            return Err(EscrowError::ConstraintViolation);
        }
        let t = match self.trades.get(ctx.trade) {
            Some(t) => t,
            None => {
                return Err(EscrowError::InvalidStateError);
            },
        };
        if t.author != ctx.authority {
            return Err(EscrowError::AuthorizationError);
        }
        if !t.executed {
            return Err(EscrowError::InvalidStateError);
        }
        let (vault_addr, _vault_bump) = derive_vault_address(trade_addr);
        if ctx.trade_vault != vault_addr {
            return Err(EscrowError::ConstraintViolation);
        }
        proof {
            assert(self.trade_entry_ok(ctx.trade));
        }
        self.close_token_account(ctx.trade_vault);
        self.trades.remove(ctx.trade);
        proof {
            assert forall|a: Address| #[trigger]
                self.accounts@.contains_key(a) implies (a is Key || a is TradeVault) by {
                assert(old(self).accounts@.contains_key(a));
            }
            assert forall|a: Address| #[trigger]
                self.trades@.contains_key(a) implies a is TradeRecord && self.trade_entry_ok(
                a,
            ) by {
                assert(old(self).trades@.contains_key(a));
                assert(old(self).trade_entry_ok(a));
                assert(vault_address_of(a) != ctx.trade_vault);
                assert(self.trade_entry_ok(a));
            }
            assert forall|a: Address| #[trigger]
                self.accounts@.contains_key(a) && a is TradeVault implies self.trades@.contains_key(
                Address::TradeRecord(base_of(a)),
            ) by {
                assert(old(self).accounts@.contains_key(a));
                assert(a != ctx.trade_vault);
                assert(Address::TradeRecord(base_of(a)) != ctx.trade);
            }
        }
        Ok(())
    }

    /// Creates a trade: allocates the record at its derived address and the
    /// custody vault at its derived address with the record as owner, writes
    /// the terms, and locks exactly `amount_offered` from the author's
    /// offered holding account into custody — all of it, or, on any failed
    /// check, none of it.
    pub fn start_trade(&mut self, ctx: StartTrade, amount_offered: u64, amount_requested: u64) -> (r:
        Result<(), EscrowError>)
        requires
            old(self).wf(),
        ensures
            final(self).wf(),
            r == old(self).check_start_trade(ctx, amount_offered, amount_requested),
            r is Err ==> *final(self) == *old(self),
            r is Ok ==> final(self).trades@ == old(self).trades@.insert(
                ctx.trade,
                created_trade(ctx, amount_offered, amount_requested),
            ),
            r is Ok ==> final(self).accounts@ == old(self).accounts@.insert(
                ctx.author_offered_vault,
                debit(old(self).accounts@[ctx.author_offered_vault], amount_offered),
            ).insert(
                ctx.trade_vault,
                TokenAccount { mint: ctx.mint_offered, owner: ctx.trade, amount: amount_offered },
            ),
            r is Ok ==> final(self).accounts@[ctx.trade_vault].amount == amount_offered
                && !final(self).trades@[ctx.trade].executed,
            r is Ok ==> final(self).accounts@[ctx.author_offered_vault].amount
                == old(self).accounts@[ctx.author_offered_vault].amount - amount_offered,
            r is Ok ==> forall|a: Address|
                #![auto]
                a != ctx.trade_vault && a != ctx.author_offered_vault
                    && old(self).accounts@.contains_key(a)
                    ==> final(self).accounts@.contains_key(a)
                    && final(self).accounts@[a] == old(self).accounts@[a],
    {
        match ctx.authority {
            Address::Key(_) => {},
            _ => {
                return Err(EscrowError::AuthorizationError);
            },
        }
        let base_id = match ctx.base {
            Address::Key(b) => b,
            _ => {
                return Err(EscrowError::ConstraintViolation);
            },
        };
        if ctx.mint_offered == ctx.mint_requested {
            return Err(EscrowError::ConstraintViolation);
        }
        let (trade_addr, bump) = derive_trade_address(base_id);
        if ctx.trade != trade_addr {
            return Err(EscrowError::ConstraintViolation);
        }
        let (vault_addr, vault_bump) = derive_vault_address(trade_addr);
        if ctx.trade_vault != vault_addr {
            return Err(EscrowError::ConstraintViolation);
        }
        if self.trades.contains(ctx.trade) {
            return Err(EscrowError::DuplicateCreationError);
        }
        let aov = match self.accounts.get(ctx.author_offered_vault) {
            Some(acct) => acct,
            None => {
                return Err(EscrowError::ConstraintViolation);
            },
        };
        if aov.mint != ctx.mint_offered || aov.owner != ctx.authority {
            return Err(EscrowError::ConstraintViolation);
        }
        let arv = match self.accounts.get(ctx.author_requested_vault) {
            Some(acct) => acct,
            None => {
                return Err(EscrowError::ConstraintViolation);
            },
        };
        if arv.mint != ctx.mint_requested || arv.owner != ctx.authority {
            return Err(EscrowError::ConstraintViolation);
        }
        if aov.amount < amount_offered {
            return Err(EscrowError::InsufficientFunds);
        }
        proof {
            assert(!self.accounts@.contains_key(ctx.trade_vault));
            lemma_owner_key_address_key(*self, ctx.author_offered_vault);
            lemma_owner_key_address_key(*self, ctx.author_requested_vault);
        }
        let trade_rec = Trade {
            author: ctx.authority,
            author_offered_vault: ctx.author_offered_vault,
            author_requested_vault: ctx.author_requested_vault,
            executed: false,
            amount_requested,
            mint_requested: ctx.mint_requested,
            amount_offered,
            mint_offered: ctx.mint_offered,
            bump,
            vault_bump,
        };
        self.trades.insert(ctx.trade, trade_rec);
        self.accounts.insert(
            ctx.trade_vault,
            TokenAccount { mint: ctx.mint_offered, owner: ctx.trade, amount: 0 },
        );
        self.transfer(ctx.author_offered_vault, ctx.trade_vault, amount_offered);
        proof {
            let target = old(self).accounts@.insert(
                ctx.author_offered_vault,
                debit(old(self).accounts@[ctx.author_offered_vault], amount_offered),
            ).insert(
                ctx.trade_vault,
                TokenAccount { mint: ctx.mint_offered, owner: ctx.trade, amount: amount_offered },
            );
            assert(self.accounts@ =~= target);
            assert forall|a: Address| #[trigger]
                self.accounts@.contains_key(a) implies (a is Key || a is TradeVault) by {
                if a != ctx.trade_vault {
                    assert(old(self).accounts@.contains_key(a));
                }
            }
            assert forall|a: Address| #[trigger]
                self.trades@.contains_key(a) implies a is TradeRecord && self.trade_entry_ok(
                a,
            ) by {
                if a == ctx.trade {
                    assert(self.trade_entry_ok(a));
                } else {
                    assert(old(self).trades@.contains_key(a));
                    assert(old(self).trade_entry_ok(a));
                    assert(vault_address_of(a) != ctx.trade_vault);
                    assert(vault_address_of(a) != ctx.author_offered_vault);
                    assert(self.trade_entry_ok(a));
                }
            }
            assert forall|a: Address| #[trigger]
                self.accounts@.contains_key(a) && a is TradeVault implies self.trades@.contains_key(
                Address::TradeRecord(base_of(a)),
            ) by {
                if a != ctx.trade_vault {
                    assert(old(self).accounts@.contains_key(a));
                }
            }
        }
        Ok(())
    }
}

/// A creation whose offered and requested asset types coincide is always
/// rejected, and — as soon as the signer and base pass their identity
/// checks — rejected as a constraint violation, before any allocation check
/// is even reached.
pub proof fn lemma_equal_asset_types_rejected(
    l: Ledger,
    ctx: StartTrade,
    amount_offered: u64,
    amount_requested: u64,
)
    requires
        ctx.mint_offered == ctx.mint_requested,
    ensures
        l.check_start_trade(ctx, amount_offered, amount_requested) != Ok::<(), EscrowError>(()),
        ctx.authority is Key && ctx.base is Key ==> l.check_start_trade(
            ctx,
            amount_offered,
            amount_requested,
        ) == Err::<(), EscrowError>(EscrowError::ConstraintViolation),
{
}

/// A trade that has executed can never execute again: the swap request is
/// always rejected, and — once the request's identity checks pass — rejected
/// as an invalid state.
pub proof fn lemma_execute_rejected_when_executed(l: Ledger, ctx: ExecuteTrade)
    requires
        l.trades@.contains_key(ctx.trade),
        l.trades@[ctx.trade].executed,
    ensures
        l.check_execute_trade(ctx) != Ok::<(), EscrowError>(()),
        ctx.authority is Key && ctx.base is Key && ctx.trade == trade_address_of(
            base_of(ctx.base),
        ) ==> l.check_execute_trade(ctx) == Err::<(), EscrowError>(EscrowError::InvalidStateError),
{
}

/// A trade that has executed can never be cancelled: a trade never takes
/// both terminal paths.
pub proof fn lemma_cancel_rejected_when_executed(l: Ledger, ctx: CancelTrade)
    requires
        l.trades@.contains_key(ctx.trade),
        l.trades@[ctx.trade].executed,
    ensures
        l.check_cancel_trade(ctx) != Ok::<(), EscrowError>(()),
        ctx.base is Key && ctx.trade == trade_address_of(base_of(ctx.base)) && l.trades@[ctx.trade].author == ctx.authority ==> l.check_cancel_trade(ctx) == Err::<(), EscrowError>(
            EscrowError::InvalidStateError,
        ),
{
}

/// A pending trade can never be reclaimed by cleanup: its funds leave
/// custody only through cancellation or the swap itself.
pub proof fn lemma_delete_rejected_when_pending(l: Ledger, ctx: DeleteTrade)
    requires
        l.trades@.contains_key(ctx.trade),
        !l.trades@[ctx.trade].executed,
    ensures
        l.check_delete_trade(ctx) != Ok::<(), EscrowError>(()),
        ctx.base is Key && ctx.trade == trade_address_of(base_of(ctx.base)) && l.trades@[ctx.trade].author == ctx.authority ==> l.check_delete_trade(ctx) == Err::<(), EscrowError>(
            EscrowError::InvalidStateError,
        ),
{
}

} // verus!
