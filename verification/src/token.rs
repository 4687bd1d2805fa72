//! An adversarial token ledger: it moves balances like an ordinary token, or,
//! when armed with an [`Attack`], refuses every transfer the way a hostile
//! token aborts the operation that called it.

use vstd::prelude::*;
use crate::state::{amount_at, keys_unique, read_amount, write_amount};
use crate::types::Address;

verus! {

/// The misbehaviour the token shows on its next transfer.
#[derive(Clone, Copy, Debug, PartialEq, Eq, Structural)]
pub enum Attack {
    /// Behave like an ordinary token.
    Honest,
    /// Refuse every transfer.
    Fail,
    /// Exhaust the execution budget.
    BurnBudget,
    /// Call back into `confirm_delivery` during the transfer.
    ReenterConfirm,
    /// Call back into `fund_escrow` during the transfer.
    ReenterFund,
    /// Call back into `cancel_escrow` during the transfer.
    ReenterCancel,
}

/// The escrow, actor and escrow id a re-entering transfer calls back with.
#[derive(Clone, Copy, Debug, PartialEq, Eq, Structural)]
pub struct Reentry {
    pub escrow: Address,
    pub actor: Address,
    pub escrow_id: u64,
}

/// Why a transfer was refused. Any refusal aborts the whole operation that
/// made the transfer.
#[derive(Clone, Copy, Debug, PartialEq, Eq, Structural)]
pub enum TokenFailure {
    /// The token refused the transfer outright.
    Rejected,
    /// The transfer ran out of execution budget.
    BudgetExceeded,
    /// The transfer tried to call back into the executing escrow.
    Reentrancy,
    /// A re-entering transfer had no call-back target configured.
    ReentryNotConfigured,
    /// The sender holds less than the amount.
    InsufficientBalance,
    /// A balance would leave the `i128` range.
    ArithmeticOverflow,
}

/// The adversarial token: balances per holder, and the armed attack.
pub struct MaliciousToken {
    balances: Vec<(Address, i128)>,
    attack: Attack,
    reentry: Option<Reentry>,
}

impl MaliciousToken {
    #[verifier::type_invariant]
    spec fn inv(self) -> bool {
        keys_unique(self.balances@)
    }

    /// The balance `who` holds.
    pub closed spec fn balance_of(&self, who: Address) -> i128 {
        amount_at(self.balances@, who)
    }

    /// The attack armed for the next transfer.
    pub closed spec fn armed(&self) -> Attack {
        self.attack
    }

    /// The configured call-back target.
    pub closed spec fn reentry_target(&self) -> Option<Reentry> {
        self.reentry
    }

    /// Why a transfer of `amount` from `from` to `to` is refused, if it is.
    pub open spec fn transfer_failure(&self, from: Address, to: Address, amount: i128) -> Option<
        TokenFailure,
    > {
        let fb = self.balance_of(from);
        match self.armed() {
            Attack::Fail => Some(TokenFailure::Rejected),
            Attack::BurnBudget => Some(TokenFailure::BudgetExceeded),
            Attack::ReenterConfirm | Attack::ReenterFund | Attack::ReenterCancel => {
                if self.reentry_target() is None {
                    Some(TokenFailure::ReentryNotConfigured)
                } else {
                    Some(TokenFailure::Reentrancy)
                }
            },
            Attack::Honest => {
                if fb < amount {
                    Some(TokenFailure::InsufficientBalance)
                } else if fb - amount > i128::MAX {
                    Some(TokenFailure::ArithmeticOverflow)
                } else {
                    let tb = if to == from {
                        (fb - amount) as int
                    } else {
                        self.balance_of(to) as int
                    };
                    if tb + amount > i128::MAX || tb + amount < i128::MIN {
                        Some(TokenFailure::ArithmeticOverflow)
                    } else {
                        None
                    }
                }
            },
        }
    }

    /// An empty ledger with no attack armed.
    pub fn new() -> (t: MaliciousToken)
        ensures
            t.armed() == Attack::Honest,
            t.reentry_target() is None,
            forall|a: Address| #[trigger] t.balance_of(a) == 0,
    {
        MaliciousToken { balances: Vec::new(), attack: Attack::Honest, reentry: None }
    }

    /// Arms `attack` for the following transfers.
    pub fn set_attack(&mut self, attack: Attack)
        ensures
            final(self).armed() == attack,
            final(self).reentry_target() == old(self).reentry_target(),
            forall|a: Address| #[trigger] final(self).balance_of(a) == old(self).balance_of(a),
    {
        proof {
            use_type_invariant(&*self);
        }
        self.attack = attack;
    }

    /// Sets the call-back target of the re-entering attacks.
    pub fn set_reentry(&mut self, escrow: Address, actor: Address, escrow_id: u64)
        ensures
            final(self).armed() == old(self).armed(),
            final(self).reentry_target() == Some(Reentry { escrow, actor, escrow_id }),
            forall|a: Address| #[trigger] final(self).balance_of(a) == old(self).balance_of(a),
    {
        proof {
            use_type_invariant(&*self);
        }
        self.reentry = Some(Reentry { escrow, actor, escrow_id });
    }

    /// Credits `amount` to `to`.
    pub fn mint(&mut self, to: Address, amount: i128)
        requires
            i128::MIN <= old(self).balance_of(to) + amount <= i128::MAX,
        ensures
            final(self).armed() == old(self).armed(),
            final(self).reentry_target() == old(self).reentry_target(),
            forall|a: Address| #[trigger]
                final(self).balance_of(a) == (if a == to {
                    old(self).balance_of(a) + amount
                } else {
                    old(self).balance_of(a) as int
                }),
    {
        proof {
            use_type_invariant(&*self);
        }
        let current = read_amount(&self.balances, to);
        let mut b: Vec<(Address, i128)> = Vec::new();
        std::mem::swap(&mut b, &mut self.balances);
        write_amount(&mut b, to, current + amount);
        self.balances = b;
    }

    /// The balance `id` holds.
    pub fn balance(&self, id: Address) -> (r: i128)
        ensures
            r == self.balance_of(id),
    {
        proof {
            use_type_invariant(self);
        }
        read_amount(&self.balances, id)
    }

    /// Moves `amount` from `from` to `to`, or refuses as the armed attack
    /// dictates, leaving every balance as it was.
    pub fn transfer(&mut self, from: Address, to: Address, amount: i128) -> (r: Result<
        (),
        TokenFailure,
    >)
        ensures
            final(self).armed() == old(self).armed(),
            final(self).reentry_target() == old(self).reentry_target(),
            match r {
                Err(e) => old(self).transfer_failure(from, to, amount) == Some(e) && forall|a: Address|
                    #[trigger] final(self).balance_of(a) == old(self).balance_of(a),
                Ok(_) => old(self).transfer_failure(from, to, amount) is None && forall|a: Address|
                    #[trigger]
                    final(self).balance_of(a) == old(self).balance_of(a) - (if a == from {
                        amount as int
                    } else {
                        0
                    }) + (if a == to {
                        amount as int
                    } else {
                        0
                    }),
            },
    {
        proof {
            use_type_invariant(&*self);
        }
        match self.attack {
            Attack::Honest => {},
            Attack::Fail => {
                return Err(TokenFailure::Rejected);
            },
            Attack::BurnBudget => {
                return Err(TokenFailure::BudgetExceeded);
            },
            _ => {
                if self.reentry.is_none() {
                    return Err(TokenFailure::ReentryNotConfigured);
                }
                return Err(TokenFailure::Reentrancy);
            },
        }
        let from_balance = read_amount(&self.balances, from);
        if from_balance < amount {
            return Err(TokenFailure::InsufficientBalance);
        }
        let debited = match from_balance.checked_sub(amount) {
            Some(v) => v,
            None => {
                return Err(TokenFailure::ArithmeticOverflow);
            },
        };
        let to_balance = if to == from {
            debited
        } else {
            read_amount(&self.balances, to)
        };
        let credited = match to_balance.checked_add(amount) {
            Some(v) => v,
            None => {
                return Err(TokenFailure::ArithmeticOverflow);
            },
        };
        let mut b: Vec<(Address, i128)> = Vec::new();
        std::mem::swap(&mut b, &mut self.balances);
        write_amount(&mut b, from, debited);
        write_amount(&mut b, to, credited);
        self.balances = b;
        Ok(())
    }
}

} // verus!
