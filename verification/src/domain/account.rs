//! Accounts.
use vstd::prelude::*;
use vstd::utf8::encode_utf8;

use crate::clock::DateTime;
use crate::decimal::{
    decimal_difference, decimal_sum, law_representable_differences_are_exact,
    law_representable_sums_are_exact, representable, Decimal,
};

verus! {

#[derive(Debug, Clone, Copy, PartialEq, Eq, Structural)]
pub enum AccountType {
    Asset,
    Liability,
    Equity,
    Revenue,
    Expense,
}

impl AccountType {
    /// Whether a debit raises the balance of such an account.
    pub open spec fn debit_normal(self) -> bool {
        self is Asset || self is Expense
    }

    /// Whether a credit raises the balance of such an account.
    pub open spec fn credit_normal(self) -> bool {
        self is Liability || self is Equity || self is Revenue
    }

    /// The balance after a debit, if it is in range.
    pub open spec fn debited(self, balance: Decimal, amount: Decimal) -> Option<Decimal> {
        if self.debit_normal() {
            decimal_sum(balance, amount)
        } else {
            decimal_difference(balance, amount)
        }
    }

    /// The balance after a credit, if it is in range.
    pub open spec fn credited(self, balance: Decimal, amount: Decimal) -> Option<Decimal> {
        if self.debit_normal() {
            decimal_difference(balance, amount)
        } else {
            decimal_sum(balance, amount)
        }
    }

    /// What an account of this type counts for in the accounting equation: its balance with a
    /// plus sign where debits raise it, with a minus sign where credits do.
    pub open spec fn signed(self, units: int) -> int {
        if self.debit_normal() {
            units
        } else {
            -units
        }
    }

    pub fn is_debit_normal(&self) -> (r: bool)
        ensures
            r == self.debit_normal(),
    {
        matches!(self, AccountType::Asset | AccountType::Expense)
    }

    pub fn is_credit_normal(&self) -> (r: bool)
        ensures
            r == self.credit_normal(),
    {
        matches!(self, AccountType::Liability | AccountType::Equity | AccountType::Revenue)
    }
}

#[derive(Debug, Clone, Copy, PartialEq, Eq, Structural)]
pub enum AccountStatus {
    Active,
    Frozen,
    Closed,
}

/// An account. The metadata is the text of a JSON value.
#[derive(Debug, Clone)]
pub struct Account {
    pub id: u128,
    pub external_id: Option<String>,
    pub name: String,
    pub currency: String,
    pub account_type: AccountType,
    pub status: AccountStatus,
    pub balance: Decimal,
    pub available_balance: Decimal,
    pub pending_balance: Decimal,
    pub version: i64,
    pub metadata: String,
    pub created_at: DateTime,
    pub updated_at: DateTime,
}

impl Account {
    /// Whether a debit of `amount` is allowed: the account is active and, where debits are
    /// covered by the available balance, that balance is large enough.
    pub open spec fn allows_debit(self, amount: Decimal) -> bool {
        &&& self.status is Active
        &&& self.account_type.debit_normal() ==> amount.units() <= self.available_balance.units()
    }

    pub fn can_debit(&self, amount: Decimal) -> (r: bool)
        ensures
            r == self.allows_debit(amount),
    {
        if self.status != AccountStatus::Active {
            return false;
        }
        match self.account_type {
            AccountType::Asset | AccountType::Expense => !self.available_balance.less_than(amount),
            AccountType::Liability | AccountType::Equity | AccountType::Revenue => true,
        }
    }

    pub fn can_credit(&self, _amount: Decimal) -> (r: bool)
        ensures
            r == (self.status is Active),
    {
        self.status == AccountStatus::Active
    }

    /// The balance after a debit of `amount`, which must be in range.
    pub fn apply_debit(&self, amount: Decimal) -> (r: Decimal)
        requires
            self.account_type.debited(self.balance, amount) is Some,
        ensures
            self.account_type.debited(self.balance, amount) == Some(r),
    {
        match self.account_type {
            AccountType::Asset | AccountType::Expense => self.balance.add(amount),
            AccountType::Liability | AccountType::Equity | AccountType::Revenue => {
                self.balance.sub(amount)
            },
        }
    }

    /// The balance after a credit of `amount`, which must be in range.
    pub fn apply_credit(&self, amount: Decimal) -> (r: Decimal)
        requires
            self.account_type.credited(self.balance, amount) is Some,
        ensures
            self.account_type.credited(self.balance, amount) == Some(r),
    {
        match self.account_type {
            AccountType::Asset | AccountType::Expense => self.balance.sub(amount),
            AccountType::Liability | AccountType::Equity | AccountType::Revenue => {
                self.balance.add(amount)
            },
        }
    }

    /// The balance after a debit of `amount`, or nothing where it is out of range.
    pub fn checked_apply_debit(&self, amount: Decimal) -> (r: Option<Decimal>)
        ensures
            r == self.account_type.debited(self.balance, amount),
    {
        let in_range = match self.account_type {
            AccountType::Asset | AccountType::Expense => self.balance.checked_add(amount).is_some(),
            AccountType::Liability | AccountType::Equity | AccountType::Revenue => {
                self.balance.checked_sub(amount).is_some()
            },
        };
        if in_range {
            Some(self.apply_debit(amount))
        } else {
            None
        }
    }

    /// The balance after a credit of `amount`, or nothing where it is out of range.
    pub fn checked_apply_credit(&self, amount: Decimal) -> (r: Option<Decimal>)
        ensures
            r == self.account_type.credited(self.balance, amount),
    {
        let in_range = match self.account_type {
            AccountType::Asset | AccountType::Expense => self.balance.checked_sub(amount).is_some(),
            AccountType::Liability | AccountType::Equity | AccountType::Revenue => {
                self.balance.checked_add(amount).is_some()
            },
        };
        if in_range {
            Some(self.apply_credit(amount))
        } else {
            None
        }
    }
}

/// What a new account is made from. The metadata is the text of a JSON value.
#[derive(Debug, Clone)]
pub struct CreateAccountParams {
    pub external_id: Option<String>,
    pub name: String,
    pub currency: String,
    pub account_type: AccountType,
    pub initial_balance: Option<Decimal>,
    pub metadata: String,
}

impl CreateAccountParams {
    /// The first rule that the parameters break. The length of the currency is that of its
    /// UTF-8 encoding.
    pub open spec fn problem(self) -> Option<Seq<char>> {
        if self.name@.len() == 0 {
            Some("Account name cannot be empty"@)
        } else if encode_utf8(self.currency@).len() != 3 {
            Some("Currency must be 3 characters (ISO 4217)"@)
        } else if self.initial_balance matches Some(balance) && balance.units() < 0 {
            Some("Initial balance cannot be negative"@)
        } else {
            None
        }
    }

    pub fn validate(&self) -> (r: Result<(), &'static str>)
        ensures
            match r {
                Ok(_) => self.problem() is None,
                Err(message) => self.problem() == Some(message@),
            },
    {
        if self.name.as_str().is_empty() {
            return Err("Account name cannot be empty");
        }
        if self.currency.as_str().as_bytes().len() != 3 {
            return Err("Currency must be 3 characters (ISO 4217)");
        }
        if let Some(balance) = self.initial_balance {
            if balance.less_than(Decimal::zero()) {
                return Err("Initial balance cannot be negative");
            }
        }
        Ok(())
    }
}

/// Every type of account is either debit-normal or credit-normal, and none is both.
pub proof fn law_one_normal_side(t: AccountType)
    ensures
        t.debit_normal() != t.credit_normal(),
{
}

/// Whether some decimal is worth the balance after a debit.
pub open spec fn debit_exact(t: AccountType, balance: Decimal, amount: Decimal) -> bool {
    representable(
        if t.debit_normal() {
            balance.units() + amount.units()
        } else {
            balance.units() - amount.units()
        },
    )
}

/// Whether some decimal is worth the balance after a credit.
pub open spec fn credit_exact(t: AccountType, balance: Decimal, amount: Decimal) -> bool {
    representable(
        if t.debit_normal() {
            balance.units() - amount.units()
        } else {
            balance.units() + amount.units()
        },
    )
}

/// Whatever the type of the account, a debit raises what the account counts for in the
/// accounting equation by the amount, and a credit lowers it by the amount.
pub proof fn law_debits_and_credits_are_opposite(t: AccountType, balance: Decimal, amount: Decimal)
    requires
        balance.valid(),
        amount.valid(),
    ensures
        debit_exact(t, balance, amount) ==> (t.debited(balance, amount) matches Some(d)
            && d.valid() && t.signed(d.units()) == t.signed(balance.units()) + amount.units()),
        credit_exact(t, balance, amount) ==> (t.credited(balance, amount) matches Some(c)
            && c.valid() && t.signed(c.units()) == t.signed(balance.units()) - amount.units()),
{
    law_representable_sums_are_exact(balance, amount);
    law_representable_differences_are_exact(balance, amount);
}

/// A credit undoes a debit of the same amount, and a debit a credit: the balance is worth what
/// it was before. The balances after a debit and after a credit lie equally far on both sides of
/// it.
pub proof fn law_debit_and_credit_undo_each_other(
    t: AccountType,
    balance: Decimal,
    amount: Decimal,
)
    requires
        balance.valid(),
        amount.valid(),
    ensures
        debit_exact(t, balance, amount) ==> (t.debited(balance, amount) matches Some(d)
            && t.credited(d, amount) matches Some(b) && b.units() == balance.units()),
        credit_exact(t, balance, amount) ==> (t.credited(balance, amount) matches Some(c)
            && t.debited(c, amount) matches Some(b) && b.units() == balance.units()),
        debit_exact(t, balance, amount) && credit_exact(t, balance, amount) ==> t.debited(
            balance,
            amount,
        ).unwrap().units() + t.credited(balance, amount).unwrap().units() == balance.units()
            + balance.units(),
{
    law_debits_and_credits_are_opposite(t, balance, amount);
    assert(representable(balance.units()));
    if debit_exact(t, balance, amount) {
        law_debits_and_credits_are_opposite(t, t.debited(balance, amount).unwrap(), amount);
    }
    if credit_exact(t, balance, amount) {
        law_debits_and_credits_are_opposite(t, t.credited(balance, amount).unwrap(), amount);
    }
}

} // verus!
