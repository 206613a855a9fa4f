use velox_ledger::clock::{DateTime, MAX_SECONDS};
use velox_ledger::decimal::Decimal;
use velox_ledger::domain::{
    Account, AccountStatus, AccountType, CreateAccountParams, CreateEntryParams,
    CreateTransactionParams, EntryType, Transaction, TransactionStatus,
};
use velox_ledger::error::LedgerError;
use velox_ledger::ids::id_text;
use velox_ledger::repository::account_repository::OptimisticUpdate;
use velox_ledger::repository::idempotency_repository::{IdempotencyRecord, KeyClaim};
use velox_ledger::repository::page::{limit_of, token_to_id};
use velox_ledger::repository::{
    create_pool_error, run_migrations_error, AccountRepository, IdempotencyRepository,
    TransactionRepository,
};

const START: DateTime = DateTime { seconds: 1_700_000_000, nanos: 9 };

fn decimal(text: &str) -> Decimal {
    Decimal::parse(text).unwrap()
}

fn account(id: u128) -> Account {
    Account {
        id,
        external_id: None,
        name: "Cash".to_string(),
        currency: "USD".to_string(),
        account_type: AccountType::Asset,
        status: AccountStatus::Active,
        balance: decimal("1"),
        available_balance: decimal("1"),
        pending_balance: Decimal::zero(),
        version: 1,
        metadata: "{}".to_string(),
        created_at: START,
        updated_at: START,
    }
}

fn transaction(id: u128) -> Transaction {
    Transaction {
        id,
        idempotency_key: "k".to_string(),
        reference: None,
        description: None,
        status: TransactionStatus::Committed,
        error_message: None,
        metadata: "{}".to_string(),
        created_at: START,
        committed_at: None,
    }
}

fn params(name: &str, balance: Option<&str>) -> CreateAccountParams {
    CreateAccountParams {
        external_id: Some("ext".to_string()),
        name: name.to_string(),
        currency: "USD".to_string(),
        account_type: AccountType::Equity,
        initial_balance: balance.map(decimal),
        metadata: "{\"a\":\"b\"}".to_string(),
    }
}

#[test]
fn the_row_of_a_new_account() {
    let row = AccountRepository::create(&params("Capital", Some("12.50"))).unwrap();
    assert_eq!(row.external_id, Some("ext".to_string()));
    assert_eq!(row.name, "Capital");
    assert_eq!(row.currency, "USD");
    assert_eq!(row.account_type, AccountType::Equity);
    assert_eq!(row.status, AccountStatus::Active);
    assert_eq!(row.balance.to_text(), "12.50");
    assert_eq!(row.available_balance.to_text(), "12.50");
    assert_eq!(row.pending_balance.to_text(), "0");
    assert_eq!(row.metadata, "{\"a\":\"b\"}");
    let row = AccountRepository::create(&params("Capital", None)).unwrap();
    assert_eq!(row.balance.to_text(), "0");
    assert!(matches!(
        AccountRepository::create(&params("", None)),
        Err(LedgerError::ValidationError(m)) if m == "Account name cannot be empty"
    ));
}

#[test]
fn accounts_that_are_looked_for() {
    assert_eq!(AccountRepository::get_by_id(Some(account(3)), 3).unwrap().id, 3);
    assert!(matches!(
        AccountRepository::get_by_id(None, 3),
        Err(LedgerError::AccountNotFound(id)) if id == id_text(3)
    ));
    assert_eq!(AccountRepository::get_by_external_id(Some(account(3)), "x").unwrap().id, 3);
    assert!(matches!(
        AccountRepository::get_by_external_id(None, "x"),
        Err(LedgerError::AccountNotFound(id)) if id == "x"
    ));
    assert_eq!(AccountRepository::get_for_update(Some(account(3)), 3).unwrap().id, 3);
    assert!(matches!(
        AccountRepository::get_for_update(None, 4),
        Err(LedgerError::AccountNotFound(id)) if id == id_text(4)
    ));
}

#[test]
fn locks_are_taken_in_one_order() {
    assert_eq!(AccountRepository::lock_order(&vec![]), Vec::<u128>::new());
    assert_eq!(AccountRepository::lock_order(&vec![3, 1, 2, 1]), vec![1, 1, 2, 3]);
    assert_eq!(AccountRepository::lock_order(&vec![1, 2, 1, 3]), vec![1, 1, 2, 3]);
    assert_eq!(AccountRepository::lock_order(&vec![u128::MAX, 0]), vec![0, u128::MAX]);
}

#[test]
fn the_smallest_missing_account_is_named() {
    let rows = vec![account(2)];
    assert!(matches!(
        AccountRepository::get_multiple_for_update(rows, &vec![9, 2, 5]),
        Err(LedgerError::AccountNotFound(id)) if id == id_text(5)
    ));
}

#[test]
fn an_account_named_twice_is_locked_once() {
    let rows = vec![account(2), account(5)];
    let locked = AccountRepository::get_multiple_for_update(rows, &vec![5, 2, 5]).unwrap();
    assert_eq!(locked.len(), 2);
    assert!(AccountRepository::get_multiple_for_update(vec![], &vec![]).unwrap().is_empty());
}

#[test]
fn updates_at_a_version() {
    assert!(AccountRepository::update_balance_optimistic(7, 3, OptimisticUpdate::Updated(4)).is_ok());
    assert!(matches!(
        AccountRepository::update_balance_optimistic(7, 3, OptimisticUpdate::Refused(Some(5))),
        Err(LedgerError::OptimisticLockError { account_id, expected_version: 3, actual_version: 5 })
            if account_id == id_text(7)
    ));
    assert!(matches!(
        AccountRepository::update_balance_optimistic(7, 3, OptimisticUpdate::Refused(None)),
        Err(LedgerError::AccountNotFound(id)) if id == id_text(7)
    ));
}

#[test]
fn the_row_of_a_change() {
    let row = AccountRepository::record_balance_history(
        1,
        2,
        decimal("100.00"),
        decimal("69.5"),
        4,
        5,
    );
    assert_eq!(row.account_id, 1);
    assert_eq!(row.entry_id, 2);
    assert_eq!(row.previous_balance.to_text(), "100.00");
    assert_eq!(row.new_balance.to_text(), "69.5");
    assert_eq!(row.change_amount.to_text(), "-30.50");
    assert_eq!(row.version_before, 4);
    assert_eq!(row.version_after, 5);
}

#[test]
fn a_change_out_of_range() {
    let max = decimal("79228162514264337593543950335");
    assert!(AccountRepository::checked_record_balance_history(1, 2, max.neg(), max, 1, 2).is_err());
    let row = AccountRepository::checked_record_balance_history(1, 2, max, max, 1, 2).unwrap();
    assert_eq!(row.change_amount.to_text(), "0");
}

#[test]
fn pages_hold_up_to_a_hundred_rows() {
    assert_eq!(limit_of(i32::MIN), 1);
    assert_eq!(limit_of(0), 1);
    assert_eq!(limit_of(1), 1);
    assert_eq!(limit_of(50), 50);
    assert_eq!(limit_of(100), 100);
    assert_eq!(limit_of(i32::MAX), 100);
    assert_eq!(token_to_id(None), None);
    assert_eq!(token_to_id(Some("x")), None);
    assert_eq!(token_to_id(Some(&id_text(6))), Some(6));
}

#[test]
fn what_to_fetch_for_a_page_of_accounts() {
    let query = AccountRepository::list(
        20,
        Some(&id_text(6)),
        Some(AccountType::Asset),
        Some(AccountStatus::Frozen),
        Some("EUR"),
    );
    assert_eq!(query.after, Some(6));
    assert_eq!(query.filter.account_type, Some(AccountType::Asset));
    assert_eq!(query.filter.status, Some(AccountStatus::Frozen));
    assert_eq!(query.filter.currency, Some("EUR".to_string()));
    assert_eq!(query.max_rows, 21);
}

#[test]
fn a_page_of_accounts() {
    let rows = vec![account(1), account(2), account(3)];
    let (page, token, total) = AccountRepository::list_page(2, rows, Some(9));
    assert_eq!(page.iter().map(|a| a.id).collect::<Vec<_>>(), vec![1, 2]);
    assert_eq!(token, Some(id_text(2)));
    assert_eq!(total, 9);
    let (page, token, total) = AccountRepository::list_page(2, vec![account(3)], None);
    assert_eq!(page.len(), 1);
    assert_eq!(token, None);
    assert_eq!(total, 0);
    let (page, token, _) = AccountRepository::list_page(2, vec![account(3), account(4)], None);
    assert_eq!(page.len(), 2);
    assert_eq!(token, None);
    let (page, token, _) = AccountRepository::list_page(0, vec![], None);
    assert!(page.is_empty());
    assert_eq!(token, None);
}

#[test]
fn page_by_page_every_account_comes_once() {
    let all: Vec<u128> = (1..=17).collect();
    for page_size in [1, 2, 5, 16, 17, 100] {
        let mut seen: Vec<u128> = Vec::new();
        let mut token: Option<String> = None;
        loop {
            let query = AccountRepository::list(page_size, token.as_deref(), None, None, None);
            let rows: Vec<Account> = all
                .iter()
                .filter(|id| query.after.map_or(true, |after| **id > after))
                .take(query.max_rows as usize)
                .map(|id| account(*id))
                .collect();
            let (page, next, _) = AccountRepository::list_page(page_size, rows, None);
            seen.extend(page.iter().map(|a| a.id));
            token = next;
            if token.is_none() {
                break;
            }
        }
        assert_eq!(seen, all);
    }
}

#[test]
fn page_by_page_every_transaction_comes_once() {
    let all: Vec<u128> = (1..=7).rev().collect();
    let mut seen: Vec<u128> = Vec::new();
    let mut token: Option<String> = None;
    loop {
        let query =
            TransactionRepository::list(3, token.as_deref(), None, None, None, None);
        let rows: Vec<Transaction> = all
            .iter()
            .filter(|id| query.before.map_or(true, |before| **id < before))
            .take(query.max_rows as usize)
            .map(|id| transaction(*id))
            .collect();
        let (page, next, _) = TransactionRepository::list_page(3, rows, None);
        seen.extend(page.iter().map(|t| t.id));
        token = next;
        if token.is_none() {
            break;
        }
    }
    assert_eq!(seen, all);
}

#[test]
fn what_to_fetch_for_a_page_of_transactions() {
    let query = TransactionRepository::list(
        500,
        None,
        Some(4),
        Some(TransactionStatus::Failed),
        Some(START),
        None,
    );
    assert_eq!(query.before, None);
    assert_eq!(query.filter.account_id, Some(4));
    assert_eq!(query.filter.status, Some(TransactionStatus::Failed));
    assert_eq!(query.filter.from_date, Some(START));
    assert_eq!(query.filter.to_date, None);
    assert_eq!(query.max_rows, 101);
}

#[test]
fn a_page_of_transactions() {
    let rows = vec![transaction(9), transaction(8)];
    let (page, token, total) = TransactionRepository::list_page(1, rows, Some(2));
    assert_eq!(page.len(), 1);
    assert_eq!(token, Some(id_text(9)));
    assert_eq!(total, 2);
}

#[test]
fn the_row_of_a_new_transaction() {
    let params = CreateTransactionParams {
        idempotency_key: "k".to_string(),
        reference: Some("r".to_string()),
        description: None,
        metadata: "{}".to_string(),
    };
    let row = TransactionRepository::create(&params).unwrap();
    assert_eq!(row.idempotency_key, "k");
    assert_eq!(row.reference, Some("r".to_string()));
    assert_eq!(row.description, None);
    assert_eq!(row.status, TransactionStatus::Pending);
    assert_eq!(row.metadata, "{}");
    let params = CreateTransactionParams { idempotency_key: String::new(), ..params };
    assert!(matches!(
        TransactionRepository::create(&params),
        Err(LedgerError::ValidationError(m)) if m == "Idempotency key is required"
    ));
}

#[test]
fn the_row_of_a_new_entry() {
    let mut entry = CreateEntryParams::credit(3, decimal("5.00"));
    entry.description = Some("fee".to_string());
    let row = TransactionRepository::create_entry(8, &entry, decimal("95.00"));
    assert_eq!(row.transaction_id, 8);
    assert_eq!(row.account_id, 3);
    assert_eq!(row.entry_type, EntryType::Credit);
    assert_eq!(row.amount.to_text(), "5.00");
    assert_eq!(row.description, Some("fee".to_string()));
    assert_eq!(row.balance_after.to_text(), "95.00");
    assert_eq!(row.metadata, "{}");
}

#[test]
fn how_transactions_end() {
    let update = TransactionRepository::commit(5);
    assert_eq!(update.id, 5);
    assert_eq!(update.status, TransactionStatus::Committed);
    assert_eq!(update.error_message, None);
    assert!(update.set_committed_at);
    let update = TransactionRepository::fail(6, "why");
    assert_eq!(update.id, 6);
    assert_eq!(update.status, TransactionStatus::Failed);
    assert_eq!(update.error_message, Some("why".to_string()));
    assert!(!update.set_committed_at);
}

#[test]
fn transactions_that_are_looked_for() {
    assert_eq!(TransactionRepository::get_by_id(Some(transaction(3)), 3).unwrap().id, 3);
    assert!(matches!(
        TransactionRepository::get_by_id(None, 3),
        Err(LedgerError::TransactionNotFound(id)) if id == id_text(3)
    ));
    let t = TransactionRepository::get_with_entries(Some(transaction(3)), vec![], 3).unwrap();
    assert_eq!(t.transaction.id, 3);
    assert!(matches!(
        TransactionRepository::get_with_entries(None, vec![], 3),
        Err(LedgerError::TransactionNotFound(id)) if id == id_text(3)
    ));
}

#[test]
fn a_free_key_is_taken_for_a_day() {
    match IdempotencyRepository::check_and_set_at(None, "k", "account", 7, None, START) {
        Ok(KeyClaim::Insert(row)) => {
            assert_eq!(row.record.key, "k");
            assert_eq!(row.record.resource_type, "account");
            assert_eq!(row.record.resource_id, 7);
            assert_eq!(row.record.response_data, None);
            assert_eq!(row.expires_at, DateTime { seconds: 1_700_086_400, nanos: 9 });
        }
        other => panic!("{:?}", other),
    }
    match IdempotencyRepository::check_and_set(None, "k", "account", 7, Some("1".to_string())) {
        Ok(KeyClaim::Insert(row)) => {
            assert_eq!(row.record.response_data, Some("1".to_string()));
            assert!(row.expires_at.seconds > START.seconds);
        }
        other => panic!("{:?}", other),
    }
    let end = DateTime { seconds: MAX_SECONDS, nanos: 0 };
    assert!(IdempotencyRepository::check_and_set_at(None, "k", "account", 7, None, end).is_err());
}

#[test]
fn a_taken_key_stays_with_its_resource() {
    let record = IdempotencyRecord {
        key: "k".to_string(),
        resource_type: "account".to_string(),
        resource_id: 3,
        response_data: None,
    };
    match IdempotencyRepository::check_and_set(Some(record), "k", "account", 7, None) {
        Ok(KeyClaim::Taken(found)) => assert_eq!(found.resource_id, 3),
        other => panic!("{:?}", other),
    }
}

#[test]
fn errors_of_the_pool() {
    assert_eq!(create_pool_error("refused").to_string(), "Database error: refused");
    assert_eq!(
        run_migrations_error("no file").to_string(),
        "Database error: Migration failed: no file"
    );
}

#[test]
fn updates_of_balances() {
    let update = AccountRepository::update_balance_locked(7, decimal("1.50"));
    assert_eq!(update.id, 7);
    assert_eq!(update.new_balance.to_text(), "1.50");
    assert_eq!(update.expected_version, None);
    let update = AccountRepository::balance_update_at(8, decimal("2"), 4);
    assert_eq!(update.id, 8);
    assert_eq!(update.new_balance.to_text(), "2");
    assert_eq!(update.expected_version, Some(4));
}

#[test]
fn the_filter_is_the_same_on_every_page() {
    let first =
        TransactionRepository::list(1, None, Some(4), Some(TransactionStatus::Failed), None, None);
    let later = TransactionRepository::list(
        50,
        Some(&id_text(3)),
        Some(4),
        Some(TransactionStatus::Failed),
        None,
        None,
    );
    assert_eq!(first.filter.account_id, later.filter.account_id);
    assert_eq!(first.filter.status, later.filter.status);
    assert_eq!(first.filter.from_date, later.filter.from_date);
    assert_eq!(first.filter.to_date, later.filter.to_date);
}
