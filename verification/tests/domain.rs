use velox_ledger::clock::DateTime;
use velox_ledger::decimal::Decimal;
use velox_ledger::domain::{
    Account, AccountStatus, AccountType, CreateAccountParams, CreateEntryParams,
    CreateTransactionParams, EntrySet, EntryType, Transaction, TransactionEventType,
    TransactionStatus, TransactionWithEntries,
};

fn decimal(text: &str) -> Decimal {
    Decimal::parse(text).unwrap()
}

fn account(account_type: AccountType, status: AccountStatus, balance: &str) -> Account {
    Account {
        id: 1,
        external_id: None,
        name: "Cash".to_string(),
        currency: "USD".to_string(),
        account_type,
        status,
        balance: decimal(balance),
        available_balance: decimal(balance),
        pending_balance: Decimal::zero(),
        version: 1,
        metadata: "{}".to_string(),
        created_at: DateTime { seconds: 0, nanos: 0 },
        updated_at: DateTime { seconds: 0, nanos: 0 },
    }
}

const TYPES: [AccountType; 5] = [
    AccountType::Asset,
    AccountType::Liability,
    AccountType::Equity,
    AccountType::Revenue,
    AccountType::Expense,
];

fn params(name: &str, currency: &str, balance: Option<&str>) -> CreateAccountParams {
    CreateAccountParams {
        external_id: None,
        name: name.to_string(),
        currency: currency.to_string(),
        account_type: AccountType::Asset,
        initial_balance: balance.map(decimal),
        metadata: "{}".to_string(),
    }
}

#[test]
fn every_type_has_one_normal_side() {
    for t in TYPES {
        assert_ne!(t.is_debit_normal(), t.is_credit_normal());
    }
    assert!(AccountType::Asset.is_debit_normal());
    assert!(AccountType::Expense.is_debit_normal());
    assert!(AccountType::Liability.is_credit_normal());
    assert!(AccountType::Equity.is_credit_normal());
    assert!(AccountType::Revenue.is_credit_normal());
}

#[test]
fn debits_on_assets_need_cover() {
    for t in [AccountType::Asset, AccountType::Expense] {
        let a = account(t, AccountStatus::Active, "100.00");
        assert!(a.can_debit(decimal("100")));
        assert!(!a.can_debit(decimal("100.01")));
    }
    for t in [AccountType::Liability, AccountType::Equity, AccountType::Revenue] {
        assert!(account(t, AccountStatus::Active, "0").can_debit(decimal("1000000")));
    }
}

#[test]
fn only_active_accounts_can_be_used() {
    for status in [AccountStatus::Frozen, AccountStatus::Closed] {
        for t in TYPES {
            let a = account(t, status, "100");
            assert!(!a.can_debit(decimal("1")));
            assert!(!a.can_credit(decimal("1")));
        }
    }
    assert!(account(AccountType::Asset, AccountStatus::Active, "0").can_credit(decimal("1")));
}

#[test]
fn applying_debits_and_credits() {
    for t in TYPES {
        let a = account(t, AccountStatus::Active, "100.00");
        let (up, down) = (a.apply_debit(decimal("30.5")), a.apply_credit(decimal("30.5")));
        if t.is_debit_normal() {
            assert_eq!(up.to_text(), "130.50");
            assert_eq!(down.to_text(), "69.50");
        } else {
            assert_eq!(up.to_text(), "69.50");
            assert_eq!(down.to_text(), "130.50");
        }
    }
}

#[test]
fn a_credit_undoes_a_debit() {
    for t in TYPES {
        let mut a = account(t, AccountStatus::Active, "100.00");
        a.balance = a.apply_debit(decimal("12.34"));
        assert_eq!(a.apply_credit(decimal("12.34")).to_text(), "100.00");
        let mut b = account(t, AccountStatus::Active, "100.00");
        b.balance = b.apply_credit(decimal("12.34"));
        assert_eq!(b.apply_debit(decimal("12.34")).to_text(), "100.00");
    }
}

#[test]
fn a_balance_out_of_range_is_none() {
    let max = "79228162514264337593543950335";
    let a = account(AccountType::Asset, AccountStatus::Active, max);
    assert!(a.checked_apply_debit(decimal("1")).is_none());
    assert_eq!(
        a.checked_apply_credit(decimal("1")).unwrap().to_text(),
        "79228162514264337593543950334"
    );
    let b = account(AccountType::Revenue, AccountStatus::Active, max);
    assert!(b.checked_apply_credit(decimal("1")).is_none());
    assert!(b.checked_apply_debit(decimal("1")).is_some());
}

#[test]
fn rules_for_new_accounts() {
    assert_eq!(params("Cash", "USD", Some("0")).validate(), Ok(()));
    assert_eq!(params("Cash", "USD", None).validate(), Ok(()));
    assert_eq!(params("", "US", None).validate(), Err("Account name cannot be empty"));
    assert_eq!(
        params("Cash", "US", Some("-1")).validate(),
        Err("Currency must be 3 characters (ISO 4217)")
    );
    assert_eq!(
        params("Cash", "\u{20ac}U", None).validate(),
        Err("Currency must be 3 characters (ISO 4217)")
    );
    assert_eq!(params("Cash", "\u{20ac}", None).validate(), Ok(()));
    assert_eq!(
        params("Cash", "USD", Some("-0.01")).validate(),
        Err("Initial balance cannot be negative")
    );
}

#[test]
fn sides() {
    assert_eq!(EntryType::Debit.opposite(), EntryType::Credit);
    assert_eq!(EntryType::Credit.opposite(), EntryType::Debit);
    assert_eq!(EntryType::Debit.opposite().opposite(), EntryType::Debit);
}

#[test]
fn entries_have_positive_amounts() {
    let e = CreateEntryParams::debit(7, decimal("0.01"));
    assert_eq!(e.validate(), Ok(()));
    assert_eq!(e.account_id, 7);
    assert_eq!(e.entry_type, EntryType::Debit);
    assert_eq!(e.description, None);
    assert_eq!(e.metadata, "{}");
    let e = CreateEntryParams::credit(8, decimal("0.00"));
    assert_eq!(e.entry_type, EntryType::Credit);
    assert_eq!(e.validate(), Err("Entry amount must be positive"));
    assert_eq!(
        CreateEntryParams::credit(8, decimal("-1")).validate(),
        Err("Entry amount must be positive")
    );
}

#[test]
fn a_set_of_entries_balances() {
    let set = EntrySet::new(vec![
        CreateEntryParams::debit(1, decimal("70.00")),
        CreateEntryParams::debit(2, decimal("30")),
        CreateEntryParams::credit(3, decimal("100.0")),
    ])
    .unwrap();
    assert_eq!(set.total_debits().to_text(), "100.00");
    assert_eq!(set.total_credits().to_text(), "100.0");
    assert_eq!(set.validate_balance(), Ok(()));
    assert_eq!(set.entries().len(), 3);
    let copy = set.clone();
    assert_eq!(copy.into_entries()[2].account_id, 3);
    assert_eq!(set.into_entries()[0].account_id, 1);
}

#[test]
fn entries_that_are_no_set() {
    assert_eq!(
        EntrySet::new(vec![CreateEntryParams::debit(1, decimal("1"))]).err(),
        Some("Transaction must have at least 2 entries")
    );
    assert_eq!(
        EntrySet::new(vec![
            CreateEntryParams::debit(1, decimal("1.00")),
            CreateEntryParams::credit(2, decimal("1.01")),
        ])
        .err(),
        Some("Debits must equal credits (double-entry balance violation)")
    );
}

#[test]
fn sums_of_entries_out_of_range() {
    let max = "79228162514264337593543950335";
    let entries = vec![
        CreateEntryParams::debit(1, decimal(max)),
        CreateEntryParams::debit(1, decimal(max)),
        CreateEntryParams::credit(2, decimal(max)),
    ];
    assert!(EntrySet::checked_new(entries).is_err());
    let entries = vec![
        CreateEntryParams::debit(1, decimal(max)),
        CreateEntryParams::credit(2, decimal(max)),
    ];
    assert!(EntrySet::checked_new(entries).unwrap().is_ok());
    assert_eq!(
        EntrySet::checked_new(vec![]).unwrap().err(),
        Some("Transaction must have at least 2 entries")
    );
}

fn transaction_params(key: &str) -> CreateTransactionParams {
    CreateTransactionParams {
        idempotency_key: key.to_string(),
        reference: None,
        description: None,
        metadata: "{}".to_string(),
    }
}

#[test]
fn rules_for_new_transactions() {
    assert_eq!(transaction_params("k").validate(), Ok(()));
    assert_eq!(transaction_params("").validate(), Err("Idempotency key is required"));
    assert_eq!(transaction_params(&"k".repeat(255)).validate(), Ok(()));
    assert_eq!(
        transaction_params(&"k".repeat(256)).validate(),
        Err("Idempotency key must be 255 characters or less")
    );
    assert_eq!(
        transaction_params(&"\u{e9}".repeat(128)).validate(),
        Err("Idempotency key must be 255 characters or less")
    );
}

#[test]
fn event_names() {
    let names = [
        (TransactionEventType::TransactionCreated, "transaction.created"),
        (TransactionEventType::TransactionCommitted, "transaction.committed"),
        (TransactionEventType::TransactionFailed, "transaction.failed"),
        (TransactionEventType::TransactionReversed, "transaction.reversed"),
    ];
    for (event, name) in names {
        assert_eq!(event.as_str(), name);
    }
}

#[test]
fn a_transaction_with_its_entries() {
    let transaction = Transaction {
        id: 5,
        idempotency_key: "k".to_string(),
        reference: None,
        description: None,
        status: TransactionStatus::Pending,
        error_message: None,
        metadata: "{}".to_string(),
        created_at: DateTime { seconds: 0, nanos: 0 },
        committed_at: None,
    };
    let t = TransactionWithEntries::new(transaction, vec![]);
    assert_eq!(t.transaction.id, 5);
    assert_eq!(t.entries.len(), 0);
}

#[test]
fn order_and_names_of_sides_do_not_matter() {
    let entries = |flip: bool| {
        let (d, c) = if flip {
            (EntryType::Credit, EntryType::Debit)
        } else {
            (EntryType::Debit, EntryType::Credit)
        };
        vec![(1, d, "1.5"), (2, c, "1.00"), (3, c, "0.50")]
            .into_iter()
            .map(|(id, side, amount)| {
                let mut e = CreateEntryParams::debit(id, decimal(amount));
                e.entry_type = side;
                e
            })
            .collect::<Vec<_>>()
    };
    for flip in [false, true] {
        assert!(EntrySet::new(entries(flip)).is_ok());
        let mut reversed = entries(flip);
        reversed.reverse();
        assert!(EntrySet::new(reversed).is_ok());
        let mut unbalanced = entries(flip);
        unbalanced.pop();
        assert!(EntrySet::new(unbalanced).is_err());
    }
}
