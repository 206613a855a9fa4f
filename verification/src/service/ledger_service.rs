//! How domain values appear in messages, and message values in the domain.
use vstd::prelude::*;

use crate::clock::DateTime;
use crate::decimal::{decimal_parse, decimal_text, Decimal};
use crate::domain::account::{Account, AccountStatus, AccountType};
use crate::domain::entry::{Entry, EntryType};
use crate::domain::transaction::{Transaction, TransactionStatus};
use crate::error::{invalid_argument, joined, Status, StatusView};
use crate::ids::{id_text, uuid_text};
use crate::json::{metadata_from_json, metadata_message};
use crate::proto;
use crate::proto::{
    account_status_number, account_status_of, account_type_number, account_type_of,
    entry_type_number, entry_type_of, transaction_status_number, transaction_status_of,
};
use crate::text::{or_empty, text_or_empty};

verus! {

/// The requests of the service.
pub struct LedgerServiceImpl;

/// A decimal in a message: in text that denotes it.
pub open spec fn decimal_message(m: Option<proto::Decimal>, d: Decimal) -> bool {
    m matches Some(v) && v.value@ == decimal_text(d.spec_mantissa(), d.spec_scale())
        && decimal_parse(v.value@) == Some(d)
}

/// An optional decimal in a message.
pub open spec fn optional_decimal_message(m: Option<proto::Decimal>, d: Option<Decimal>) -> bool {
    match d {
        Some(d) => decimal_message(m, d),
        None => m is None,
    }
}

/// A point in time in a message.
pub open spec fn timestamp_message(t: DateTime) -> proto::Timestamp {
    proto::Timestamp { seconds: t.seconds, nanos: t.nanos as i32 }
}

/// An account in a message.
pub open spec fn account_message(m: proto::Account, a: Account) -> bool {
    &&& m.id@ == uuid_text(a.id)
    &&& m.external_id@ == text_or_empty(a.external_id)
    &&& m.name == a.name
    &&& m.currency == a.currency
    &&& m.account_type == account_type_number(a.account_type)
    &&& m.status == account_status_number(a.status)
    &&& decimal_message(m.balance, a.balance)
    &&& decimal_message(m.available_balance, a.available_balance)
    &&& decimal_message(m.pending_balance, a.pending_balance)
    &&& m.version == a.version
    &&& metadata_message(m.metadata@, a.metadata@)
    &&& m.created_at == Some(timestamp_message(a.created_at))
    &&& m.updated_at == Some(timestamp_message(a.updated_at))
}

/// An entry in a message.
pub open spec fn entry_message(m: proto::TransactionEntry, e: Entry) -> bool {
    &&& m.id@ == uuid_text(e.id)
    &&& m.transaction_id@ == uuid_text(e.transaction_id)
    &&& m.account_id@ == uuid_text(e.account_id)
    &&& m.entry_type == entry_type_number(e.entry_type)
    &&& decimal_message(m.amount, e.amount)
    &&& m.description@ == text_or_empty(e.description)
    &&& optional_decimal_message(m.balance_after, e.balance_after)
    &&& metadata_message(m.metadata@, e.metadata@)
    &&& m.created_at == Some(timestamp_message(e.created_at))
}

/// A list of entries in a message: each of them, in the same order.
pub open spec fn entries_message(m: Seq<proto::TransactionEntry>, entries: Seq<Entry>) -> bool {
    &&& m.len() == entries.len()
    &&& forall|i: int| 0 <= i < m.len() ==> entry_message(#[trigger] m[i], entries[i])
}

/// A transaction with its entries in a message.
pub open spec fn transaction_message(
    m: proto::Transaction,
    t: Transaction,
    entries: Seq<Entry>,
) -> bool {
    &&& m.id@ == uuid_text(t.id)
    &&& m.idempotency_key == t.idempotency_key
    &&& m.reference@ == text_or_empty(t.reference)
    &&& m.description@ == text_or_empty(t.description)
    &&& m.status == transaction_status_number(t.status)
    &&& entries_message(m.entries@, entries)
    &&& m.error_message@ == text_or_empty(t.error_message)
    &&& metadata_message(m.metadata@, t.metadata@)
    &&& m.created_at == Some(timestamp_message(t.created_at))
    &&& m.committed_at == match t.committed_at {
        Some(at) => Some(timestamp_message(at)),
        None => None,
    }
}

/// The answer to a decimal that is none.
pub open spec fn invalid_decimal(value: Seq<char>) -> StatusView {
    invalid_argument("Invalid decimal: "@ + value)
}

impl LedgerServiceImpl {
    pub fn decimal_to_proto(d: Decimal) -> (r: Option<proto::Decimal>)
        ensures
            decimal_message(r, d),
    {
        Some(proto::Decimal { value: d.to_text() })
    }

    /// The decimal that a message must carry.
    pub fn proto_to_decimal(d: &Option<proto::Decimal>) -> (r: Result<Decimal, Status>)
        ensures
            match (r, *d) {
                (Ok(value), Some(m)) => decimal_parse(m.value@) == Some(value),
                (Ok(value), None) => false,
                (Err(status), Some(m)) => decimal_parse(m.value@) is None && status@
                    == invalid_decimal(m.value@),
                (Err(status), None) => status@ == invalid_argument("Decimal value required"@),
            },
    {
        match d {
            None => Err(Status::invalid_argument("Decimal value required")),
            Some(m) => match Decimal::parse(m.value.as_str()) {
                Some(value) => Ok(value),
                None => Err(
                    Status::invalid_argument(
                        joined("Invalid decimal: ", m.value.as_str()).as_str(),
                    ),
                ),
            },
        }
    }

    /// The decimal that a message may carry, or zero.
    pub fn proto_to_decimal_or_zero(d: &Option<proto::Decimal>) -> (r: Result<Decimal, Status>)
        ensures
            match (r, *d) {
                (Ok(value), Some(m)) => decimal_parse(m.value@) == Some(value),
                (Ok(value), None) => value == Decimal::of(0, 0),
                (Err(status), Some(m)) => decimal_parse(m.value@) is None && status@
                    == invalid_decimal(m.value@),
                (Err(status), None) => false,
            },
    {
        match d {
            None => Ok(Decimal::zero()),
            Some(m) => match Decimal::parse(m.value.as_str()) {
                Some(value) => Ok(value),
                None => Err(
                    Status::invalid_argument(
                        joined("Invalid decimal: ", m.value.as_str()).as_str(),
                    ),
                ),
            },
        }
    }

    pub fn datetime_to_timestamp(t: DateTime) -> (r: Option<proto::Timestamp>)
        ensures
            r == Some(timestamp_message(t)),
    {
        Some(proto::Timestamp { seconds: t.seconds, nanos: t.nanos as i32 })
    }

    /// The type of account that a number stands for.
    pub fn proto_account_type(n: i32) -> (r: Result<AccountType, Status>)
        ensures
            match r {
                Ok(t) => account_type_of(n) == Some(t),
                Err(status) => account_type_of(n) is None && status@ == invalid_argument(
                    "Invalid account type"@,
                ),
            },
    {
        match n {
            1 => Ok(AccountType::Asset),
            2 => Ok(AccountType::Liability),
            3 => Ok(AccountType::Equity),
            4 => Ok(AccountType::Revenue),
            5 => Ok(AccountType::Expense),
            _ => Err(Status::invalid_argument("Invalid account type")),
        }
    }

    pub fn account_type_to_proto(t: AccountType) -> (r: i32)
        ensures
            r == account_type_number(t),
    {
        match t {
            AccountType::Asset => 1,
            AccountType::Liability => 2,
            AccountType::Equity => 3,
            AccountType::Revenue => 4,
            AccountType::Expense => 5,
        }
    }

    /// The status of an account that a number stands for, if it stands for one.
    pub fn proto_account_status(n: i32) -> (r: Option<AccountStatus>)
        ensures
            r == account_status_of(n),
    {
        match n {
            1 => Some(AccountStatus::Active),
            2 => Some(AccountStatus::Frozen),
            3 => Some(AccountStatus::Closed),
            _ => None,
        }
    }

    pub fn account_status_to_proto(s: AccountStatus) -> (r: i32)
        ensures
            r == account_status_number(s),
    {
        match s {
            AccountStatus::Active => 1,
            AccountStatus::Frozen => 2,
            AccountStatus::Closed => 3,
        }
    }

    /// The status of a transaction that a number stands for, if it stands for one.
    pub fn proto_transaction_status(n: i32) -> (r: Option<TransactionStatus>)
        ensures
            r == transaction_status_of(n),
    {
        match n {
            1 => Some(TransactionStatus::Pending),
            2 => Some(TransactionStatus::Committed),
            3 => Some(TransactionStatus::Failed),
            4 => Some(TransactionStatus::Reversed),
            _ => None,
        }
    }

    pub fn transaction_status_to_proto(s: TransactionStatus) -> (r: i32)
        ensures
            r == transaction_status_number(s),
    {
        match s {
            TransactionStatus::Pending => 1,
            TransactionStatus::Committed => 2,
            TransactionStatus::Failed => 3,
            TransactionStatus::Reversed => 4,
        }
    }

    pub fn entry_type_to_proto(e: EntryType) -> (r: i32)
        ensures
            r == entry_type_number(e),
    {
        match e {
            EntryType::Debit => 1,
            EntryType::Credit => 2,
        }
    }

    /// The side that a number stands for.
    pub fn proto_entry_type(n: i32) -> (r: Result<EntryType, Status>)
        ensures
            match r {
                Ok(e) => entry_type_of(n) == Some(e),
                Err(status) => entry_type_of(n) is None && status@ == invalid_argument(
                    "Invalid entry type"@,
                ),
            },
    {
        match n {
            1 => Ok(EntryType::Debit),
            2 => Ok(EntryType::Credit),
            _ => Err(Status::invalid_argument("Invalid entry type")),
        }
    }

    pub fn domain_account_to_proto(a: Account) -> (r: proto::Account)
        ensures
            account_message(r, a),
    {
        proto::Account {
            id: id_text(a.id),
            external_id: or_empty(a.external_id),
            name: a.name,
            currency: a.currency,
            account_type: Self::account_type_to_proto(a.account_type),
            status: Self::account_status_to_proto(a.status),
            balance: Self::decimal_to_proto(a.balance),
            available_balance: Self::decimal_to_proto(a.available_balance),
            pending_balance: Self::decimal_to_proto(a.pending_balance),
            version: a.version,
            metadata: metadata_from_json(a.metadata.as_str()),
            created_at: Self::datetime_to_timestamp(a.created_at),
            updated_at: Self::datetime_to_timestamp(a.updated_at),
        }
    }

    pub fn domain_entry_to_proto(e: Entry) -> (r: proto::TransactionEntry)
        ensures
            entry_message(r, e),
    {
        proto::TransactionEntry {
            id: id_text(e.id),
            transaction_id: id_text(e.transaction_id),
            account_id: id_text(e.account_id),
            entry_type: Self::entry_type_to_proto(e.entry_type),
            amount: Self::decimal_to_proto(e.amount),
            description: or_empty(e.description),
            balance_after: match e.balance_after {
                Some(d) => Self::decimal_to_proto(d),
                None => None,
            },
            metadata: metadata_from_json(e.metadata.as_str()),
            created_at: Self::datetime_to_timestamp(e.created_at),
        }
    }

    fn domain_entries_to_proto(entries: Vec<Entry>) -> (r: Vec<proto::TransactionEntry>)
        ensures
            entries_message(r@, entries@),
    {
        let mut r: Vec<proto::TransactionEntry> = Vec::new();
        for e in it: entries
            invariant
                it.seq() == entries@,
                entries_message(r@, entries@.take(it.index() as int)),
        {
            let m = Self::domain_entry_to_proto(e);
            r.push(m);
        }
        assert(entries@.take(entries@.len() as int) =~= entries@);
        r
    }

    pub fn domain_transaction_to_proto(t: Transaction, entries: Vec<Entry>) -> (r:
        proto::Transaction)
        ensures
            transaction_message(r, t, entries@),
    {
        proto::Transaction {
            id: id_text(t.id),
            idempotency_key: t.idempotency_key,
            reference: or_empty(t.reference),
            description: or_empty(t.description),
            status: Self::transaction_status_to_proto(t.status),
            entries: Self::domain_entries_to_proto(entries),
            error_message: or_empty(t.error_message),
            metadata: metadata_from_json(t.metadata.as_str()),
            created_at: Self::datetime_to_timestamp(t.created_at),
            committed_at: match t.committed_at {
                Some(at) => Self::datetime_to_timestamp(at),
                None => None,
            },
        }
    }
}

} // verus!
