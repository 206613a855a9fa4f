//! Messages: what a client is told of accounts, entries and transactions is what is stored.
use vstd::prelude::*;

use crate::clock::DateTime;
use crate::decimal::{decimal_parse, Decimal};
use crate::domain::account::{Account, AccountStatus, AccountType};
use crate::domain::entry::{Entry, EntryType};
use crate::domain::transaction::{Transaction, TransactionStatus, TransactionWithEntries};
use crate::error::Status;
use crate::ids::{law_id_text_parses_back, uuid_value};
use crate::laws::metadata::{lemma_shows, shows_metadata};
use crate::proto;
use crate::service::ledger_service::{
    account_message, entry_message, transaction_message, LedgerServiceImpl,
};

verus! {

/// Whether a message carries a decimal: its text denotes that decimal.
pub open spec fn carries(m: Option<proto::Decimal>, d: Decimal) -> bool {
    m matches Some(v) && decimal_parse(v.value@) == Some(d)
}

/// Whether a message carries an optional text: empty where there is none.
pub open spec fn carries_text(m: Seq<char>, text: Option<String>) -> bool {
    match text {
        Some(t) => m == t@,
        None => m.len() == 0,
    }
}

/// Whether a message carries a point in time.
pub open spec fn carries_time(m: Option<proto::Timestamp>, t: DateTime) -> bool {
    m matches Some(s) && s.seconds == t.seconds && (t.nanos <= i32::MAX ==> s.nanos == t.nanos)
}

/// Whether a message tells of an account all that a client may know of it.
pub open spec fn tells_of_account(m: proto::Account, a: Account) -> bool {
    &&& uuid_value(m.id@) == Some(a.id)
    &&& carries_text(m.external_id@, a.external_id)
    &&& m.name@ == a.name@
    &&& m.currency@ == a.currency@
    &&& m.account_type == 1 <==> a.account_type is Asset
    &&& m.account_type == 2 <==> a.account_type is Liability
    &&& m.account_type == 3 <==> a.account_type is Equity
    &&& m.account_type == 4 <==> a.account_type is Revenue
    &&& m.account_type == 5 <==> a.account_type is Expense
    &&& m.status == 1 <==> a.status is Active
    &&& m.status == 2 <==> a.status is Frozen
    &&& m.status == 3 <==> a.status is Closed
    &&& carries(m.balance, a.balance)
    &&& carries(m.available_balance, a.available_balance)
    &&& carries(m.pending_balance, a.pending_balance)
    &&& m.version == a.version
    &&& shows_metadata(m.metadata@, a.metadata@)
    &&& carries_time(m.created_at, a.created_at)
    &&& carries_time(m.updated_at, a.updated_at)
}

/// Whether a message tells of an entry all that a client may know of it.
pub open spec fn tells_of_entry(m: proto::TransactionEntry, e: Entry) -> bool {
    &&& uuid_value(m.id@) == Some(e.id)
    &&& uuid_value(m.transaction_id@) == Some(e.transaction_id)
    &&& uuid_value(m.account_id@) == Some(e.account_id)
    &&& m.entry_type == 1 <==> e.entry_type is Debit
    &&& m.entry_type == 2 <==> e.entry_type is Credit
    &&& carries(m.amount, e.amount)
    &&& carries_text(m.description@, e.description)
    &&& match e.balance_after {
        Some(balance) => carries(m.balance_after, balance),
        None => m.balance_after is None,
    }
    &&& shows_metadata(m.metadata@, e.metadata@)
    &&& carries_time(m.created_at, e.created_at)
}

/// Whether a message tells of a transaction and its entries, in their order, all that a client
/// may know of them.
pub open spec fn tells_of_transaction(
    m: proto::Transaction,
    t: Transaction,
    entries: Seq<Entry>,
) -> bool {
    &&& uuid_value(m.id@) == Some(t.id)
    &&& m.idempotency_key@ == t.idempotency_key@
    &&& carries_text(m.reference@, t.reference)
    &&& carries_text(m.description@, t.description)
    &&& m.status == 1 <==> t.status is Pending
    &&& m.status == 2 <==> t.status is Committed
    &&& m.status == 3 <==> t.status is Failed
    &&& m.status == 4 <==> t.status is Reversed
    &&& m.entries.len() == entries.len()
    &&& forall|i: int|
        0 <= i < entries.len() ==> tells_of_entry(m.entries[i], #[trigger] entries[i])
    &&& carries_text(m.error_message@, t.error_message)
    &&& shows_metadata(m.metadata@, t.metadata@)
    &&& carries_time(m.created_at, t.created_at)
    &&& match t.committed_at {
        Some(at) => carries_time(m.committed_at, at),
        None => m.committed_at is None,
    }
}

/// The message of an account tells of it as it is stored.
pub proof fn law_messages_tell_of_accounts(a: Account, m: proto::Account)
    requires
        call_ensures(LedgerServiceImpl::domain_account_to_proto, (a,), m),
    ensures
        tells_of_account(m, a),
{
    lemma_account_message(a, m);
}

/// What a contract says of an account's message, in terms of its fields.
pub proof fn lemma_account_message(a: Account, m: proto::Account)
    requires
        account_message(m, a),
    ensures
        tells_of_account(m, a),
{
    law_id_text_parses_back(a.id);
    lemma_shows(m.metadata@, a.metadata@);
}

/// The message of an entry tells of it as it is stored.
pub proof fn law_messages_tell_of_entries(e: Entry, m: proto::TransactionEntry)
    requires
        call_ensures(LedgerServiceImpl::domain_entry_to_proto, (e,), m),
    ensures
        tells_of_entry(m, e),
{
    law_id_text_parses_back(e.id);
    law_id_text_parses_back(e.transaction_id);
    law_id_text_parses_back(e.account_id);
    lemma_shows(m.metadata@, e.metadata@);
}

/// The message of a transaction tells of it and of its entries as they are stored.
pub proof fn law_messages_tell_of_transactions(
    t: Transaction,
    entries: Vec<Entry>,
    m: proto::Transaction,
)
    requires
        call_ensures(LedgerServiceImpl::domain_transaction_to_proto, (t, entries), m),
    ensures
        tells_of_transaction(m, t, entries@),
{
    lemma_transaction_message(t, entries@, m);
}

/// What a contract says of a transaction's message, in terms of its fields.
pub proof fn lemma_transaction_message(t: Transaction, entries: Seq<Entry>, m: proto::Transaction)
    requires
        transaction_message(m, t, entries),
    ensures
        tells_of_transaction(m, t, entries),
{
    law_id_text_parses_back(t.id);
    lemma_shows(m.metadata@, t.metadata@);
    assert forall|i: int| 0 <= i < entries.len() implies tells_of_entry(
        m.entries[i],
        #[trigger] entries[i],
    ) by {
        let e = entries[i];
        let shown = m.entries@[i];
        assert(entry_message(shown, e));
        law_id_text_parses_back(e.id);
        law_id_text_parses_back(e.transaction_id);
        law_id_text_parses_back(e.account_id);
        lemma_shows(shown.metadata@, e.metadata@);
    }
}

/// The answer about an account tells of that account, whether it was made now, made before, or
/// looked for.
pub proof fn law_answers_tell_of_the_account(
    account: Account,
    already_existed: bool,
    created: proto::CreateAccountResponse,
    got: proto::GetAccountResponse,
)
    requires
        call_ensures(
            LedgerServiceImpl::create_account_response,
            (account, already_existed),
            created,
        ),
        call_ensures(LedgerServiceImpl::get_account_response, (account,), got),
    ensures
        created.already_existed <==> already_existed,
        created.account matches Some(m) && tells_of_account(m, account),
        got.account matches Some(m) && tells_of_account(m, account),
{
    lemma_account_message(account, created.account.unwrap());
    lemma_account_message(account, got.account.unwrap());
}

/// The answer about a balance gives the three balances of the account, whatever its type and
/// status are: each text denotes the balance that is stored under that name.
pub proof fn law_balances_are_told(account: Account, now: DateTime, r: proto::GetBalanceResponse)
    requires
        call_ensures(LedgerServiceImpl::get_balance_response_at, (account, now), r),
    ensures
        uuid_value(r.account_id@) == Some(account.id),
        carries(r.balance, account.balance),
        carries(r.available_balance, account.available_balance),
        carries(r.pending_balance, account.pending_balance),
        r.currency@ == account.currency@,
        carries_time(r.as_of, now),
{
    law_id_text_parses_back(account.id);
}

/// Asking for the balance and asking for the account give the same three balances of the same
/// account, letter for letter, and in the same currency. So does asking for the balance as of any
/// time.
pub proof fn law_balance_and_account_agree(
    account: Account,
    now: DateTime,
    at: proto::GetBalanceResponse,
    r: proto::GetBalanceResponse,
    got: proto::GetAccountResponse,
)
    requires
        call_ensures(LedgerServiceImpl::get_balance_response_at, (account, now), at),
        call_ensures(LedgerServiceImpl::get_balance_response, (account,), r),
        call_ensures(LedgerServiceImpl::get_account_response, (account,), got),
    ensures
        got.account matches Some(m) && {
            &&& m.id@ == at.account_id@ && at.account_id@ == r.account_id@
            &&& m.currency@ == at.currency@ && at.currency@ == r.currency@
            &&& same_decimal(m.balance, at.balance) && same_decimal(at.balance, r.balance)
            &&& same_decimal(m.available_balance, at.available_balance)
            &&& same_decimal(at.available_balance, r.available_balance)
            &&& same_decimal(m.pending_balance, at.pending_balance)
            &&& same_decimal(at.pending_balance, r.pending_balance)
            &&& carries(r.balance, account.balance)
            &&& carries(r.available_balance, account.available_balance)
            &&& carries(r.pending_balance, account.pending_balance)
        },
        r.as_of matches Some(t) && 0 <= t.seconds && 0 <= t.nanos < 1_000_000_000,
{
}

/// Whether two messages carry the same decimal, letter for letter.
pub open spec fn same_decimal(a: Option<proto::Decimal>, b: Option<proto::Decimal>) -> bool {
    a matches Some(x) && b matches Some(y) && x.value@ == y.value@
}

/// The answer about a transaction tells of that transaction and of its entries.
pub proof fn law_answers_tell_of_the_transaction(
    found: TransactionWithEntries,
    r: proto::GetTransactionResponse,
)
    requires
        call_ensures(LedgerServiceImpl::get_transaction_response, (found,), r),
    ensures
        r.transaction matches Some(m) && tells_of_transaction(
            m,
            found.transaction,
            found.entries@,
        ),
{
    lemma_transaction_message(found.transaction, found.entries@, r.transaction.unwrap());
}

/// A decimal that a message carries is read back as the same decimal, whether the message must
/// carry one or may.
pub proof fn law_decimals_are_read_back(
    d: Decimal,
    m: Option<proto::Decimal>,
    required: Result<Decimal, Status>,
    optional: Result<Decimal, Status>,
)
    requires
        call_ensures(LedgerServiceImpl::decimal_to_proto, (d,), m),
        call_ensures(LedgerServiceImpl::proto_to_decimal, (&m,), required),
        call_ensures(LedgerServiceImpl::proto_to_decimal_or_zero, (&m,), optional),
    ensures
        required matches Ok(r) && r == d,
        optional matches Ok(r) && r == d,
{
}

/// A decimal is refused exactly where its text denotes none, and the answer names the text. One
/// that is missing is refused where it must be there, and is zero where it may be missing.
pub proof fn law_bad_decimals_are_refused(
    m: Option<proto::Decimal>,
    required: Result<Decimal, Status>,
    optional: Result<Decimal, Status>,
)
    requires
        call_ensures(LedgerServiceImpl::proto_to_decimal, (&m,), required),
        call_ensures(LedgerServiceImpl::proto_to_decimal_or_zero, (&m,), optional),
    ensures
        m is None ==> (required matches Err(status) && status.code is InvalidArgument),
        m is None ==> (optional matches Ok(d) && d.units() == 0),
        m matches Some(v) ==> (required is Err <==> decimal_parse(v.value@) is None),
        m matches Some(v) ==> (optional is Err <==> decimal_parse(v.value@) is None),
        m matches Some(v) ==> (required matches Err(status) ==> status.code is InvalidArgument
            && v.value@.is_suffix_of(status.message@)),
        m matches Some(v) ==> (optional matches Err(status) ==> status.code is InvalidArgument
            && v.value@.is_suffix_of(status.message@)),
{
    lemma_zero();
    if let Some(v) = m {
        let prefix = "Invalid decimal: "@;
        assert((prefix + v.value@).skip(prefix.len() as int) =~= v.value@);
        assert(v.value@.is_suffix_of(prefix + v.value@));
    }
}

/// Zero is worth nothing.
pub proof fn lemma_zero()
    ensures
        Decimal::of(0, 0).units() == 0,
        Decimal::of(0, 0).valid(),
{
    crate::decimal::lemma_of(0, 0);
    assert(Decimal::of(0, 0).units() == 0);
}

/// The numbers that stand for types, statuses and sides are read back as what they stand for, and
/// no two values have the same number.
pub proof fn law_enumerated_values_are_read_back(
    t: AccountType,
    n: i32,
    read: Result<AccountType, Status>,
    s: AccountStatus,
    s_number: i32,
    s_read: Option<AccountStatus>,
    x: TransactionStatus,
    x_number: i32,
    x_read: Option<TransactionStatus>,
    e: EntryType,
    e_number: i32,
    e_read: Result<EntryType, Status>,
)
    requires
        call_ensures(LedgerServiceImpl::account_type_to_proto, (t,), n),
        call_ensures(LedgerServiceImpl::proto_account_type, (n,), read),
        call_ensures(LedgerServiceImpl::account_status_to_proto, (s,), s_number),
        call_ensures(LedgerServiceImpl::proto_account_status, (s_number,), s_read),
        call_ensures(LedgerServiceImpl::transaction_status_to_proto, (x,), x_number),
        call_ensures(LedgerServiceImpl::proto_transaction_status, (x_number,), x_read),
        call_ensures(LedgerServiceImpl::entry_type_to_proto, (e,), e_number),
        call_ensures(LedgerServiceImpl::proto_entry_type, (e_number,), e_read),
    ensures
        read matches Ok(r) && r == t,
        s_read == Some(s),
        x_read == Some(x),
        e_read matches Ok(r) && r == e,
        1 <= n <= 5,
        1 <= s_number <= 3,
        1 <= x_number <= 4,
        1 <= e_number <= 2,
{
}

/// The numbers outside the enumerations stand for nothing: a type and a side are refused, and a
/// status is none.
pub proof fn law_other_numbers_stand_for_nothing(
    n: i32,
    t: Result<AccountType, Status>,
    s: Option<AccountStatus>,
    x: Option<TransactionStatus>,
    e: Result<EntryType, Status>,
)
    requires
        call_ensures(LedgerServiceImpl::proto_account_type, (n,), t),
        call_ensures(LedgerServiceImpl::proto_account_status, (n,), s),
        call_ensures(LedgerServiceImpl::proto_transaction_status, (n,), x),
        call_ensures(LedgerServiceImpl::proto_entry_type, (n,), e),
    ensures
        t is Ok <==> 1 <= n <= 5,
        s is Some <==> 1 <= n <= 3,
        x is Some <==> 1 <= n <= 4,
        e is Ok <==> 1 <= n <= 2,
        t matches Err(status) ==> status.code is InvalidArgument,
        e matches Err(status) ==> status.code is InvalidArgument,
{
}

/// The service says that it is working exactly where the database answers, with its version and
/// the time.
pub proof fn law_health_is_that_of_the_database(
    database_answers: bool,
    version: &str,
    now: DateTime,
    at: proto::HealthCheckResponse,
    r: proto::HealthCheckResponse,
)
    requires
        call_ensures(LedgerServiceImpl::health_check_at, (database_answers, version, now), at),
        call_ensures(LedgerServiceImpl::health_check, (database_answers, version), r),
    ensures
        at.status == 1 <==> database_answers,
        at.status == 2 <==> !database_answers,
        at.version@ == version@,
        carries_time(at.timestamp, now),
        r.status == at.status,
        r.version@ == at.version@,
        r.timestamp matches Some(t) && 0 <= t.seconds && 0 <= t.nanos < 1_000_000_000,
{
}

} // verus!
