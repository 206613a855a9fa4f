use velox_ledger::clock::DateTime;
use velox_ledger::decimal::{Decimal, Overflow};
use velox_ledger::domain::{
    Account, AccountStatus, AccountType, Entry, EntryType, Transaction, TransactionEventType,
    TransactionStatus, TransactionWithEntries,
};
use velox_ledger::error::{Code, LedgerError, Status};
use velox_ledger::ids::id_text;
use velox_ledger::proto;
use velox_ledger::service::posting::{AuthorizedPosting, PendingPosting, PostStep};
use velox_ledger::service::LedgerServiceImpl;

const START: DateTime = DateTime { seconds: 1_700_000_000, nanos: 9 };
const MAX: &str = "79228162514264337593543950335";

fn decimal(text: &str) -> Decimal {
    Decimal::parse(text).unwrap()
}

fn account(id: u128, account_type: AccountType, balance: &str) -> Account {
    Account {
        id,
        external_id: None,
        name: "Cash".to_string(),
        currency: "USD".to_string(),
        account_type,
        status: AccountStatus::Active,
        balance: decimal(balance),
        available_balance: decimal(balance),
        pending_balance: Decimal::zero(),
        version: 4,
        metadata: "{}".to_string(),
        created_at: START,
        updated_at: START,
    }
}

fn line(account_id: u128, entry_type: i32, amount: &str) -> proto::EntryRequest {
    proto::EntryRequest {
        account_id: id_text(account_id),
        entry_type,
        amount: Some(proto::Decimal { value: amount.to_string() }),
        description: String::new(),
        metadata: vec![],
    }
}

fn request(entries: Vec<proto::EntryRequest>) -> proto::PostTransactionRequest {
    proto::PostTransactionRequest {
        idempotency_key: "k".to_string(),
        reference: "ref".to_string(),
        description: String::new(),
        entries,
        metadata: vec![("a".to_string(), "b".to_string())],
        expected_versions: vec![],
    }
}

fn step(req: proto::PostTransactionRequest) -> Result<Result<PostStep, Status>, Overflow> {
    LedgerServiceImpl::post_transaction(req).unwrap().found(None)
}

fn pending(req: proto::PostTransactionRequest) -> PendingPosting {
    match step(req) {
        Ok(Ok(PostStep::Lock(pending))) => pending,
        other => panic!("{:?}", other),
    }
}

fn refused(entries: Vec<proto::EntryRequest>) -> String {
    match step(request(entries)) {
        Ok(Err(status)) => {
            assert_eq!(status.code, Code::InvalidArgument);
            status.message
        }
        other => panic!("{:?}", other),
    }
}

fn authorized(entries: Vec<proto::EntryRequest>, rows: Vec<Account>) -> AuthorizedPosting {
    pending(request(entries)).locked(rows).unwrap()
}

#[test]
fn requests_that_are_refused_at_once() {
    let req = proto::PostTransactionRequest { idempotency_key: String::new(), ..request(vec![]) };
    let status = LedgerServiceImpl::post_transaction(req).unwrap_err();
    assert_eq!(status.message, "idempotency_key is required");
    let status =
        LedgerServiceImpl::post_transaction(request(vec![line(1, 1, "1")])).unwrap_err();
    assert_eq!(status.code, Code::InvalidArgument);
    assert_eq!(status.message, "Transaction must have at least 2 entries (double-entry)");
}

#[test]
fn a_request_that_was_made_before() {
    let lookup =
        LedgerServiceImpl::post_transaction(request(vec![line(1, 9, "x"), line(2, 9, "x")]))
            .unwrap();
    assert_eq!(lookup.idempotency_key(), "k");
    let existing = TransactionWithEntries::new(transaction(5), vec![entry(1), entry(2)]);
    match lookup.found(Some(existing)) {
        Ok(Ok(PostStep::Answered(response))) => {
            assert!(response.already_existed);
            let t = response.transaction.unwrap();
            assert_eq!(t.id, id_text(5));
            assert_eq!(t.entries.len(), 2);
        }
        other => panic!("{:?}", other),
    }
}

fn transaction(id: u128) -> Transaction {
    Transaction {
        id,
        idempotency_key: "k".to_string(),
        reference: None,
        description: None,
        status: TransactionStatus::Committed,
        error_message: None,
        metadata: "{}".to_string(),
        created_at: START,
        committed_at: Some(START),
    }
}

fn entry(id: u128) -> Entry {
    Entry {
        id,
        transaction_id: 5,
        account_id: 6,
        entry_type: EntryType::Credit,
        amount: decimal("3.00"),
        description: None,
        balance_after: None,
        metadata: "{}".to_string(),
        created_at: START,
    }
}

#[test]
fn entries_that_are_refused() {
    let good = line(1, 1, "1");
    let mut bad = line(2, 0, "x");
    bad.account_id = "x".to_string();
    assert_eq!(refused(vec![line(1, 1, "1"), bad]), "Invalid account ID in entry");
    assert_eq!(refused(vec![line(1, 1, "1"), line(2, 0, "x")]), "Invalid entry type");
    assert_eq!(refused(vec![line(1, 1, "1"), line(2, 2, "x")]), "Invalid decimal: x");
    let mut bad = line(2, 2, "1");
    bad.amount = None;
    assert_eq!(refused(vec![good, bad]), "Decimal value required");
    assert_eq!(
        refused(vec![line(1, 1, "0.00"), line(2, 2, "0.00")]),
        "Entry amount must be positive"
    );
    assert_eq!(
        refused(vec![line(1, 1, "-1"), line(2, 2, "x")]),
        "Entry amount must be positive"
    );
    assert_eq!(
        refused(vec![line(1, 1, "1"), line(2, 2, "1.01")]),
        "Debits must equal credits (double-entry balance violation)"
    );
}

#[test]
fn entries_whose_sum_is_out_of_range() {
    let entries = vec![line(1, 1, MAX), line(1, 1, MAX), line(2, 2, "1")];
    assert!(step(request(entries)).is_err());
}

#[test]
fn accounts_are_locked_in_order() {
    let p = pending(request(vec![line(9, 1, "1"), line(2, 2, "0.5"), line(2, 2, "0.5")]));
    assert_eq!(p.lock_order(), vec![2, 2, 9]);
}

#[test]
fn the_transaction_that_is_asked_for() {
    let a = authorized(
        vec![line(1, 1, "1"), line(2, 2, "1")],
        vec![account(1, AccountType::Asset, "5"), account(2, AccountType::Revenue, "0")],
    );
    let t = a.transaction();
    assert_eq!(t.idempotency_key, "k");
    assert_eq!(t.reference, Some("ref".to_string()));
    assert_eq!(t.description, None);
    assert_eq!(t.metadata, "{\"a\":\"b\"}");
}

#[test]
fn a_missing_account() {
    let p = pending(request(vec![line(9, 1, "1"), line(2, 2, "1")]));
    assert!(matches!(
        p.locked(vec![account(9, AccountType::Asset, "5")]),
        Err(LedgerError::AccountNotFound(id)) if id == id_text(2)
    ));
    let p = pending(request(vec![line(9, 1, "1"), line(2, 2, "1")]));
    assert!(matches!(
        p.locked(vec![account(9, AccountType::Asset, "5"), account(7, AccountType::Asset, "5")]),
        Err(LedgerError::AccountNotFound(id)) if id == id_text(2)
    ));
}

#[test]
fn versions_are_held_against_the_accounts() {
    let rows = || vec![account(1, AccountType::Asset, "5"), account(2, AccountType::Revenue, "0")];
    let with = |versions: Vec<(String, i64)>| {
        pending(proto::PostTransactionRequest {
            expected_versions: versions,
            ..request(vec![line(1, 1, "1"), line(2, 2, "1")])
        })
    };
    assert!(matches!(
        with(vec![(id_text(2), 3)]).locked(rows()),
        Err(LedgerError::OptimisticLockError { account_id, expected_version: 3, actual_version: 4 })
            if account_id == id_text(2)
    ));
    assert!(with(vec![(id_text(2), 4), (id_text(1), 4)]).locked(rows()).is_ok());
    assert!(with(vec![(id_text(8), 1), ("x".to_string(), 1)]).locked(rows()).is_ok());
    assert!(with(vec![(id_text(2), 3), (id_text(2), 4)]).locked(rows()).is_ok());
}

#[test]
fn accounts_that_are_not_active() {
    for status in [AccountStatus::Frozen, AccountStatus::Closed] {
        let p = pending(request(vec![line(1, 1, "1"), line(2, 2, "1")]));
        let mut rows =
            vec![account(1, AccountType::Asset, "5"), account(2, AccountType::Revenue, "0")];
        rows[1].status = status;
        let error = p.locked(rows).unwrap_err();
        if status == AccountStatus::Frozen {
            assert!(matches!(error, LedgerError::AccountFrozen(id) if id == id_text(2)));
        } else {
            assert!(matches!(error, LedgerError::AccountClosed(id) if id == id_text(2)));
        }
    }
}

#[test]
fn a_debit_that_is_not_covered() {
    let p = pending(request(vec![line(1, 1, "5.01"), line(2, 2, "5.01")]));
    let rows = vec![account(1, AccountType::Asset, "5.0"), account(2, AccountType::Revenue, "0")];
    match p.locked(rows) {
        Err(LedgerError::InsufficientBalance { account_id, required, available }) => {
            assert_eq!(account_id, id_text(1));
            assert_eq!(required, "5.01");
            assert_eq!(available, "5.0");
        }
        other => panic!("{:?}", other),
    }
}

#[test]
fn what_posting_writes() {
    let rows = vec![
        account(1, AccountType::Asset, "100.00"),
        account(2, AccountType::Revenue, "7"),
        account(3, AccountType::Asset, "1"),
    ];
    let entries = vec![
        line(1, 1, "50.00"),
        line(2, 2, "30"),
        line(1, 2, "10"),
        line(3, 2, "0.5"),
        line(2, 2, "9.5"),
    ];
    let plan = authorized(entries, rows).plan().unwrap();
    let shown: Vec<(u128, String, String, String)> = plan
        .postings
        .iter()
        .map(|p| {
            assert_eq!(p.version_before, 4);
            assert_eq!(p.version_after, 5);
            (
                p.entry.account_id,
                p.previous_balance.to_text(),
                p.balance_after.to_text(),
                p.change_amount.to_text(),
            )
        })
        .collect();
    let row = |id: u128, a: &str, b: &str, c: &str| {
        (id, a.to_string(), b.to_string(), c.to_string())
    };
    assert_eq!(
        shown,
        vec![
            row(1, "100.00", "150.00", "50.00"),
            row(2, "7", "37", "30"),
            row(1, "150.00", "140.00", "-10.00"),
            row(3, "1", "0.5", "-0.5"),
            row(2, "37", "46.5", "9.5"),
        ]
    );
    let balances: Vec<(u128, String)> =
        plan.balances.iter().map(|(id, b)| (*id, b.to_text())).collect();
    assert_eq!(
        balances,
        vec![
            (1, "140.00".to_string()),
            (2, "46.5".to_string()),
            (3, "0.5".to_string()),
        ]
    );
    let history = plan.postings[2].history(77);
    assert_eq!(history.account_id, 1);
    assert_eq!(history.entry_id, 77);
    assert_eq!(history.previous_balance.to_text(), "150.00");
    assert_eq!(history.new_balance.to_text(), "140.00");
    assert_eq!(history.change_amount.to_text(), "-10.00");
    assert_eq!(history.version_before, 4);
    assert_eq!(history.version_after, 5);
}

#[test]
fn the_books_stay_balanced() {
    let types = [
        AccountType::Asset,
        AccountType::Liability,
        AccountType::Equity,
        AccountType::Revenue,
        AccountType::Expense,
    ];
    for debited in types {
        for credited in types {
            let rows = vec![account(1, debited, "100.00"), account(2, credited, "40.00")];
            let entries = vec![line(1, 1, "12.5"), line(2, 2, "10"), line(2, 2, "2.50")];
            let plan = authorized(entries, rows).plan().unwrap();
            let change = |id: u128, before: &str, t: AccountType| {
                let after = plan.balances.iter().find(|(a, _)| *a == id).unwrap().1;
                let change = after.sub(decimal(before));
                if t.is_debit_normal() {
                    change
                } else {
                    change.neg()
                }
            };
            let total = change(1, "100.00", debited).add(change(2, "40.00", credited));
            assert_eq!(total.mantissa(), 0);
        }
    }
}

#[test]
fn a_balance_that_leaves_the_range() {
    let rows = vec![account(1, AccountType::Revenue, "0"), account(2, AccountType::Revenue, MAX)];
    let a = authorized(vec![line(1, 1, "1"), line(2, 2, "1")], rows);
    assert!(a.plan().is_err());
    let mut rows = vec![account(1, AccountType::Asset, "5"), account(2, AccountType::Revenue, "0")];
    rows[0].version = i64::MAX;
    let a = authorized(vec![line(1, 1, "1"), line(2, 2, "1")], rows);
    assert!(a.plan().is_err());
}

#[test]
fn the_answer_and_its_event() {
    let (response, event) =
        LedgerServiceImpl::posted_at(transaction(5), vec![entry(1), entry(2)], START);
    assert!(!response.already_existed);
    assert_eq!(response.transaction.unwrap().entries.len(), 2);
    assert_eq!(event.event_type, TransactionEventType::TransactionCommitted);
    assert_eq!(event.transaction_id, 5);
    assert_eq!(event.idempotency_key, "k");
    assert_eq!(event.timestamp, START);
    assert_eq!(
        event.payload,
        format!(
            "{{\"entry_count\":2,\"status\":\"committed\",\"transaction_id\":\"{}\"}}",
            id_text(5)
        )
    );
    let payload: serde_json::Value = serde_json::from_str(&event.payload).unwrap();
    assert_eq!(payload["transaction_id"], id_text(5));
    assert_eq!(payload["entry_count"], 2);
    let (_, event) = LedgerServiceImpl::posted(transaction(5), vec![]);
    assert!(event.timestamp.seconds > START.seconds);
}

#[test]
fn answers_to_refused_postings() {
    let rows = || vec![account(1, AccountType::Asset, "5"), account(2, AccountType::Revenue, "0")];
    let lines = || vec![line(1, 1, "1"), line(2, 2, "1")];
    let code = |e: LedgerError| Status::from(e).code;

    let e = pending(request(lines())).locked(vec![]).unwrap_err();
    assert_eq!(code(e), Code::NotFound);

    let req = proto::PostTransactionRequest {
        expected_versions: vec![(id_text(1), 1)],
        ..request(lines())
    };
    assert_eq!(code(pending(req).locked(rows()).unwrap_err()), Code::Aborted);

    let mut frozen = rows();
    frozen[0].status = AccountStatus::Frozen;
    let e = pending(request(lines())).locked(frozen).unwrap_err();
    assert_eq!(code(e), Code::FailedPrecondition);

    let e = pending(request(vec![line(1, 1, "6"), line(2, 2, "6")]))
        .locked(rows())
        .unwrap_err();
    assert_eq!(code(e), Code::FailedPrecondition);
}

#[test]
fn a_missing_account_comes_before_a_version() {
    let req = proto::PostTransactionRequest {
        expected_versions: vec![(id_text(9), 1)],
        ..request(vec![line(9, 1, "1"), line(2, 2, "1")])
    };
    assert!(matches!(
        pending(req).locked(vec![account(9, AccountType::Asset, "5")]),
        Err(LedgerError::AccountNotFound(_))
    ));
}
