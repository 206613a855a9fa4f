use velox_ledger::clock::{DateTime, MAX_SECONDS};
use velox_ledger::decimal::Decimal;
use velox_ledger::domain::{
    Account, AccountStatus, AccountType, Entry, EntryType, Transaction, TransactionStatus,
    TransactionWithEntries,
};
use velox_ledger::error::{Code, LedgerError, Status};
use velox_ledger::ids::id_text;
use velox_ledger::proto;
use velox_ledger::repository::idempotency_repository::IdempotencyRecord;
use velox_ledger::service::accounts::{AccountLookup, AccountStep};
use velox_ledger::service::transactions::TransactionLookup;
use velox_ledger::service::LedgerServiceImpl;

const START: DateTime = DateTime { seconds: 1_700_000_000, nanos: 9 };

fn decimal(text: &str) -> Decimal {
    Decimal::parse(text).unwrap()
}

fn message(text: &str) -> Option<proto::Decimal> {
    Some(proto::Decimal { value: text.to_string() })
}

fn shown(m: &Option<proto::Decimal>) -> &str {
    &m.as_ref().unwrap().value
}

fn account(id: u128) -> Account {
    Account {
        id,
        external_id: Some("ext".to_string()),
        name: "Cash".to_string(),
        currency: "USD".to_string(),
        account_type: AccountType::Expense,
        status: AccountStatus::Frozen,
        balance: decimal("10.00"),
        available_balance: decimal("9.5"),
        pending_balance: decimal("0.5"),
        version: 4,
        metadata: "{\"a\":\"b\"}".to_string(),
        created_at: START,
        updated_at: DateTime { seconds: 1_700_000_001, nanos: 0 },
    }
}

fn entry(id: u128) -> Entry {
    Entry {
        id,
        transaction_id: 5,
        account_id: 6,
        entry_type: EntryType::Credit,
        amount: decimal("3.00"),
        description: None,
        balance_after: Some(decimal("7.00")),
        metadata: "{}".to_string(),
        created_at: START,
    }
}

fn transaction(id: u128) -> Transaction {
    Transaction {
        id,
        idempotency_key: "k".to_string(),
        reference: Some("ref".to_string()),
        description: None,
        status: TransactionStatus::Reversed,
        error_message: Some("oops".to_string()),
        metadata: "null".to_string(),
        created_at: START,
        committed_at: Some(START),
    }
}

#[test]
fn decimals_in_messages() {
    let m = LedgerServiceImpl::decimal_to_proto(decimal("1.50"));
    assert_eq!(shown(&m), "1.50");
    assert_eq!(LedgerServiceImpl::proto_to_decimal(&m).unwrap().to_text(), "1.50");
    let status = LedgerServiceImpl::proto_to_decimal(&None).unwrap_err();
    assert_eq!(status.code, Code::InvalidArgument);
    assert_eq!(status.message, "Decimal value required");
    let status = LedgerServiceImpl::proto_to_decimal(&message("1,5")).unwrap_err();
    assert_eq!(status.message, "Invalid decimal: 1,5");
    assert_eq!(LedgerServiceImpl::proto_to_decimal_or_zero(&None).unwrap().to_text(), "0");
    assert_eq!(LedgerServiceImpl::proto_to_decimal_or_zero(&m).unwrap().to_text(), "1.50");
    let status = LedgerServiceImpl::proto_to_decimal_or_zero(&message("x")).unwrap_err();
    assert_eq!(status.message, "Invalid decimal: x");
}

#[test]
fn numbers_of_account_types() {
    let types = [
        (1, AccountType::Asset),
        (2, AccountType::Liability),
        (3, AccountType::Equity),
        (4, AccountType::Revenue),
        (5, AccountType::Expense),
    ];
    for (n, t) in types {
        assert_eq!(LedgerServiceImpl::proto_account_type(n).unwrap(), t);
        assert_eq!(LedgerServiceImpl::account_type_to_proto(t), n);
    }
    for n in [-1, 0, 6] {
        let status = LedgerServiceImpl::proto_account_type(n).unwrap_err();
        assert_eq!(status.message, "Invalid account type");
    }
}

#[test]
fn numbers_of_statuses_and_sides() {
    let statuses = [(1, AccountStatus::Active), (2, AccountStatus::Frozen), (3, AccountStatus::Closed)];
    for (n, s) in statuses {
        assert_eq!(LedgerServiceImpl::proto_account_status(n), Some(s));
        assert_eq!(LedgerServiceImpl::account_status_to_proto(s), n);
    }
    assert_eq!(LedgerServiceImpl::proto_account_status(0), None);
    let statuses = [
        (1, TransactionStatus::Pending),
        (2, TransactionStatus::Committed),
        (3, TransactionStatus::Failed),
        (4, TransactionStatus::Reversed),
    ];
    for (n, s) in statuses {
        assert_eq!(LedgerServiceImpl::proto_transaction_status(n), Some(s));
        assert_eq!(LedgerServiceImpl::transaction_status_to_proto(s), n);
    }
    assert_eq!(LedgerServiceImpl::proto_transaction_status(5), None);
    for (n, e) in [(1, EntryType::Debit), (2, EntryType::Credit)] {
        assert_eq!(LedgerServiceImpl::proto_entry_type(n).unwrap(), e);
        assert_eq!(LedgerServiceImpl::entry_type_to_proto(e), n);
    }
    let status = LedgerServiceImpl::proto_entry_type(0).unwrap_err();
    assert_eq!(status.message, "Invalid entry type");
}

#[test]
fn an_account_in_a_message() {
    let m = LedgerServiceImpl::domain_account_to_proto(account(7));
    assert_eq!(m.id, id_text(7));
    assert_eq!(m.external_id, "ext");
    assert_eq!(m.name, "Cash");
    assert_eq!(m.currency, "USD");
    assert_eq!(m.account_type, 5);
    assert_eq!(m.status, 2);
    assert_eq!(shown(&m.balance), "10.00");
    assert_eq!(shown(&m.available_balance), "9.5");
    assert_eq!(shown(&m.pending_balance), "0.5");
    assert_eq!(m.version, 4);
    assert_eq!(m.metadata, vec![("a".to_string(), "b".to_string())]);
    assert_eq!(m.created_at, Some(proto::Timestamp { seconds: 1_700_000_000, nanos: 9 }));
    assert_eq!(m.updated_at, Some(proto::Timestamp { seconds: 1_700_000_001, nanos: 0 }));
    let m = LedgerServiceImpl::domain_account_to_proto(Account { external_id: None, ..account(7) });
    assert_eq!(m.external_id, "");
}

#[test]
fn a_transaction_in_a_message() {
    let m = LedgerServiceImpl::domain_transaction_to_proto(transaction(5), vec![entry(1), entry(2)]);
    assert_eq!(m.id, id_text(5));
    assert_eq!(m.idempotency_key, "k");
    assert_eq!(m.reference, "ref");
    assert_eq!(m.description, "");
    assert_eq!(m.status, 4);
    assert_eq!(m.error_message, "oops");
    assert!(m.metadata.is_empty());
    assert_eq!(m.created_at, Some(proto::Timestamp { seconds: 1_700_000_000, nanos: 9 }));
    assert_eq!(m.committed_at, m.created_at);
    assert_eq!(m.entries.len(), 2);
    let e = &m.entries[1];
    assert_eq!(e.id, id_text(2));
    assert_eq!(e.transaction_id, id_text(5));
    assert_eq!(e.account_id, id_text(6));
    assert_eq!(e.entry_type, 2);
    assert_eq!(shown(&e.amount), "3.00");
    assert_eq!(e.description, "");
    assert_eq!(shown(&e.balance_after), "7.00");
    let e = LedgerServiceImpl::domain_entry_to_proto(Entry { balance_after: None, ..entry(3) });
    assert!(e.balance_after.is_none());
}

fn create_request() -> proto::CreateAccountRequest {
    proto::CreateAccountRequest {
        idempotency_key: "k".to_string(),
        external_id: "".to_string(),
        name: "Cash".to_string(),
        currency: "usd".to_string(),
        account_type: 1,
        initial_balance: message("5.00"),
        metadata: vec![("a".to_string(), "b".to_string())],
    }
}

#[test]
fn a_new_account() {
    let claim = LedgerServiceImpl::create_account(create_request()).unwrap();
    assert_eq!(claim.idempotency_key(), "k");
    match claim.claim_at(None, 9, START) {
        Ok(Ok(AccountStep::Create(key, row))) => {
            assert_eq!(key.record.key, "k");
            assert_eq!(key.record.resource_type, "account");
            assert_eq!(key.record.resource_id, 9);
            assert_eq!(key.record.response_data, None);
            assert_eq!(key.expires_at.seconds, START.seconds + 86_400);
            assert_eq!(row.external_id, None);
            assert_eq!(row.name, "Cash");
            assert_eq!(row.currency, "USD");
            assert_eq!(row.account_type, AccountType::Asset);
            assert_eq!(row.status, AccountStatus::Active);
            assert_eq!(row.balance.to_text(), "5.00");
            assert_eq!(row.available_balance.to_text(), "5.00");
            assert_eq!(row.pending_balance.to_text(), "0");
            assert_eq!(row.metadata, "{\"a\":\"b\"}");
        }
        other => panic!("{:?}", other),
    }
    let request = proto::CreateAccountRequest { initial_balance: None, ..create_request() };
    match LedgerServiceImpl::create_account(request).unwrap().claim(None) {
        Ok(Ok(AccountStep::Create(key, row))) => {
            assert_eq!((key.record.resource_id >> 76) & 0xf, 7);
            assert_eq!((key.record.resource_id >> 62) & 0x3, 2);
            assert_eq!(row.balance.to_text(), "0");
        }
        other => panic!("{:?}", other),
    }
}

#[test]
fn an_account_that_was_asked_for_before() {
    let record = IdempotencyRecord {
        key: "k".to_string(),
        resource_type: "account".to_string(),
        resource_id: 3,
        response_data: None,
    };
    let claim = LedgerServiceImpl::create_account(create_request()).unwrap();
    assert!(matches!(claim.claim(Some(record)), Ok(Ok(AccountStep::Existing(3)))));
    let response = LedgerServiceImpl::create_account_response(account(3), true);
    assert!(response.already_existed);
    assert_eq!(response.account.unwrap().id, id_text(3));
    assert!(!LedgerServiceImpl::create_account_response(account(3), false).already_existed);
}

#[test]
fn requests_for_accounts_that_are_refused() {
    let request = proto::CreateAccountRequest {
        idempotency_key: String::new(),
        account_type: 0,
        ..create_request()
    };
    let status = LedgerServiceImpl::create_account(request).unwrap_err();
    assert_eq!(status.code, Code::InvalidArgument);
    assert_eq!(status.message, "idempotency_key is required");
    let request = proto::CreateAccountRequest {
        account_type: 0,
        initial_balance: message("x"),
        ..create_request()
    };
    let status = LedgerServiceImpl::create_account(request).unwrap_err();
    assert_eq!(status.message, "Invalid account type");
    let request = proto::CreateAccountRequest { initial_balance: message("x"), ..create_request() };
    let status = LedgerServiceImpl::create_account(request).unwrap_err();
    assert_eq!(status.message, "Invalid decimal: x");
}

#[test]
fn looking_for_an_account() {
    let by_id = |id: &str| proto::GetAccountRequest {
        identifier: Some(proto::AccountIdentifier::Id(id.to_string())),
    };
    assert!(matches!(
        LedgerServiceImpl::get_account(by_id(&id_text(8))),
        Ok(AccountLookup::ById(8))
    ));
    let status = LedgerServiceImpl::get_account(by_id("x")).unwrap_err();
    assert_eq!(status.message, "Invalid account ID");
    let request = proto::GetAccountRequest {
        identifier: Some(proto::AccountIdentifier::ExternalId("e".to_string())),
    };
    assert!(matches!(
        LedgerServiceImpl::get_account(request),
        Ok(AccountLookup::ByExternalId(e)) if e == "e"
    ));
    let status =
        LedgerServiceImpl::get_account(proto::GetAccountRequest { identifier: None }).unwrap_err();
    assert_eq!(status.message, "Account identifier required");
    let response = LedgerServiceImpl::get_account_response(account(8));
    assert_eq!(response.account.unwrap().id, id_text(8));
}

#[test]
fn asking_for_a_balance() {
    let request = proto::GetBalanceRequest { account_id: id_text(8) };
    assert_eq!(LedgerServiceImpl::get_balance(&request).unwrap(), 8);
    let request = proto::GetBalanceRequest { account_id: String::new() };
    let status = LedgerServiceImpl::get_balance(&request).unwrap_err();
    assert_eq!(status.message, "Invalid account ID");
    let response = LedgerServiceImpl::get_balance_response_at(account(8), START);
    assert_eq!(response.account_id, id_text(8));
    assert_eq!(shown(&response.balance), "10.00");
    assert_eq!(shown(&response.available_balance), "9.5");
    assert_eq!(shown(&response.pending_balance), "0.5");
    assert_eq!(response.currency, "USD");
    assert_eq!(response.as_of, Some(proto::Timestamp { seconds: 1_700_000_000, nanos: 9 }));
    let response = LedgerServiceImpl::get_balance_response(account(8));
    assert!(response.as_of.unwrap().seconds > START.seconds);
}

#[test]
fn a_list_of_accounts() {
    let request = proto::ListAccountsRequest {
        page_size: 1,
        page_token: String::new(),
        filter_type: 0,
        filter_status: 9,
        filter_currency: String::new(),
    };
    let query = LedgerServiceImpl::list_accounts(&request).unwrap();
    assert_eq!(query.after, None);
    assert_eq!(query.filter.account_type, None);
    assert_eq!(query.filter.status, None);
    assert_eq!(query.filter.currency, None);
    assert_eq!(query.max_rows, 2);
    let request = proto::ListAccountsRequest {
        page_size: 1,
        page_token: id_text(4),
        filter_type: 2,
        filter_status: 3,
        filter_currency: "EUR".to_string(),
    };
    let query = LedgerServiceImpl::list_accounts(&request).unwrap();
    assert_eq!(query.after, Some(4));
    assert_eq!(query.filter.account_type, Some(AccountType::Liability));
    assert_eq!(query.filter.status, Some(AccountStatus::Closed));
    assert_eq!(query.filter.currency, Some("EUR".to_string()));
    let request = proto::ListAccountsRequest { filter_type: 6, ..request };
    let status = LedgerServiceImpl::list_accounts(&request).unwrap_err();
    assert_eq!(status.message, "Invalid account type");
    let response =
        LedgerServiceImpl::list_accounts_response(1, vec![account(5), account(6)], Some(2));
    assert_eq!(response.accounts.len(), 1);
    assert_eq!(response.accounts[0].id, id_text(5));
    assert_eq!(response.next_page_token, id_text(5));
    assert_eq!(response.total_count, 2);
    let response = LedgerServiceImpl::list_accounts_response(1, vec![account(6)], None);
    assert_eq!(response.next_page_token, "");
    assert_eq!(response.total_count, 0);
}

#[test]
fn looking_for_a_transaction() {
    let by_id = |id: &str| proto::GetTransactionRequest {
        identifier: Some(proto::TransactionIdentifier::Id(id.to_string())),
    };
    assert!(matches!(
        LedgerServiceImpl::get_transaction(by_id(&id_text(8))),
        Ok(TransactionLookup::ById(8))
    ));
    let status = LedgerServiceImpl::get_transaction(by_id("x")).unwrap_err();
    assert_eq!(status.message, "Invalid transaction ID");
    let request = proto::GetTransactionRequest {
        identifier: Some(proto::TransactionIdentifier::IdempotencyKey("k".to_string())),
    };
    assert!(matches!(
        LedgerServiceImpl::get_transaction(request),
        Ok(TransactionLookup::ByIdempotencyKey(k)) if k == "k"
    ));
    let none = proto::GetTransactionRequest { identifier: None };
    let status = LedgerServiceImpl::get_transaction(none).unwrap_err();
    assert_eq!(status.message, "Transaction identifier required");
    let found = LedgerServiceImpl::transaction_by_key(Some(transaction(8)), "k".to_string());
    assert_eq!(found.unwrap().id, 8);
    assert!(matches!(
        LedgerServiceImpl::transaction_by_key(None, "k".to_string()),
        Err(LedgerError::TransactionNotFound(k)) if k == "k"
    ));
    let found = TransactionWithEntries::new(transaction(8), vec![entry(1)]);
    let response = LedgerServiceImpl::get_transaction_response(found);
    assert_eq!(response.transaction.unwrap().entries.len(), 1);
}

#[test]
fn a_list_of_transactions() {
    let request = proto::ListTransactionsRequest {
        page_size: 10,
        page_token: "x".to_string(),
        account_id: String::new(),
        filter_status: 0,
        from_date: None,
        to_date: None,
    };
    let query = LedgerServiceImpl::list_transactions(&request).unwrap();
    assert_eq!(query.before, None);
    assert_eq!(query.filter.account_id, None);
    assert_eq!(query.filter.status, None);
    assert_eq!(query.filter.from_date, None);
    assert_eq!(query.filter.to_date, None);
    assert_eq!(query.max_rows, 11);
    let request = proto::ListTransactionsRequest {
        page_size: 10,
        page_token: id_text(3),
        account_id: id_text(2),
        filter_status: 2,
        from_date: Some(proto::Timestamp { seconds: 10, nanos: 20 }),
        to_date: Some(proto::Timestamp { seconds: 10, nanos: -1 }),
    };
    let query = LedgerServiceImpl::list_transactions_at(&request, START).unwrap();
    assert_eq!(query.before, Some(3));
    assert_eq!(query.filter.account_id, Some(2));
    assert_eq!(query.filter.status, Some(TransactionStatus::Committed));
    assert_eq!(query.filter.from_date, Some(DateTime { seconds: 10, nanos: 20 }));
    assert_eq!(query.filter.to_date, Some(START));
    let far = proto::ListTransactionsRequest {
        to_date: Some(proto::Timestamp { seconds: i64::MAX, nanos: 0 }),
        ..request
    };
    let query = LedgerServiceImpl::list_transactions_at(&far, START).unwrap();
    assert_eq!(query.filter.to_date, Some(START));
    let bad = proto::ListTransactionsRequest { account_id: "x".to_string(), ..far };
    let status = LedgerServiceImpl::list_transactions(&bad).unwrap_err();
    assert_eq!(status.message, "Invalid account ID");
    let page = vec![TransactionWithEntries::new(transaction(8), vec![entry(1)])];
    let response =
        LedgerServiceImpl::list_transactions_response(page, Some("next".to_string()), 5);
    assert_eq!(response.transactions.len(), 1);
    assert_eq!(response.transactions[0].id, id_text(8));
    assert_eq!(response.next_page_token, "next");
    assert_eq!(response.total_count, 5);
    let response = LedgerServiceImpl::list_transactions_response(vec![], None, 0);
    assert_eq!(response.next_page_token, "");
}

#[test]
fn whether_the_service_is_working() {
    let response = LedgerServiceImpl::health_check_at(true, "0.1.0", START);
    assert_eq!(response.status, 1);
    assert_eq!(response.version, "0.1.0");
    assert_eq!(response.timestamp, Some(proto::Timestamp { seconds: 1_700_000_000, nanos: 9 }));
    let response = LedgerServiceImpl::health_check(false, "0.1.0");
    assert_eq!(response.status, 2);
}

#[test]
fn a_refused_account_leaves_its_key_free() {
    let nameless = proto::CreateAccountRequest { name: String::new(), ..create_request() };
    match LedgerServiceImpl::create_account(nameless).unwrap().claim(None) {
        Ok(Err(e)) => {
            let status = Status::from(e);
            assert_eq!(status.code, Code::InvalidArgument);
            assert_eq!(status.message, "Account name cannot be empty");
        }
        other => panic!("{:?}", other),
    }
    assert!(matches!(
        LedgerServiceImpl::create_account(create_request()).unwrap().claim(None),
        Ok(Ok(AccountStep::Create(_, _)))
    ));
}

#[test]
fn a_key_that_outlives_the_calendar() {
    let claim = LedgerServiceImpl::create_account(create_request()).unwrap();
    let end = DateTime { seconds: MAX_SECONDS, nanos: 0 };
    assert!(claim.claim_at(None, 9, end).is_err());
}
