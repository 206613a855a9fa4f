//! Transactions and the events that tell of them.
use vstd::prelude::*;
use vstd::utf8::encode_utf8;

use crate::clock::DateTime;
use crate::domain::entry::Entry;

verus! {

#[derive(Debug, Clone, Copy, PartialEq, Eq, Structural)]
pub enum TransactionStatus {
    Pending,
    Committed,
    Failed,
    Reversed,
}

/// A transaction. The metadata is the text of a JSON value.
#[derive(Debug, Clone)]
pub struct Transaction {
    pub id: u128,
    pub idempotency_key: String,
    pub reference: Option<String>,
    pub description: Option<String>,
    pub status: TransactionStatus,
    pub error_message: Option<String>,
    pub metadata: String,
    pub created_at: DateTime,
    pub committed_at: Option<DateTime>,
}

#[derive(Debug, Clone)]
pub struct TransactionWithEntries {
    pub transaction: Transaction,
    pub entries: Vec<Entry>,
}

impl TransactionWithEntries {
    pub fn new(transaction: Transaction, entries: Vec<Entry>) -> (r: Self)
        ensures
            r.transaction == transaction,
            r.entries == entries,
    {
        Self { transaction, entries }
    }
}

/// What a new transaction is made from. The metadata is the text of a JSON value.
#[derive(Debug, Clone)]
pub struct CreateTransactionParams {
    pub idempotency_key: String,
    pub reference: Option<String>,
    pub description: Option<String>,
    pub metadata: String,
}

impl CreateTransactionParams {
    /// The first rule that the parameters break. The length of the key is that of its UTF-8
    /// encoding.
    pub open spec fn problem(self) -> Option<Seq<char>> {
        if self.idempotency_key@.len() == 0 {
            Some("Idempotency key is required"@)
        } else if encode_utf8(self.idempotency_key@).len() > 255 {
            Some("Idempotency key must be 255 characters or less"@)
        } else {
            None
        }
    }

    pub fn validate(&self) -> (r: Result<(), &'static str>)
        ensures
            match r {
                Ok(_) => self.problem() is None,
                Err(message) => self.problem() == Some(message@),
            },
    {
        if self.idempotency_key.as_str().is_empty() {
            return Err("Idempotency key is required");
        }
        if self.idempotency_key.as_str().as_bytes().len() > 255 {
            return Err("Idempotency key must be 255 characters or less");
        }
        Ok(())
    }
}

/// What is told to the webhook endpoint. The payload is the text of a JSON value.
#[derive(Debug, Clone)]
pub struct TransactionEvent {
    pub event_type: TransactionEventType,
    pub transaction_id: u128,
    pub idempotency_key: String,
    pub timestamp: DateTime,
    pub payload: String,
}

#[derive(Debug, Clone, Copy, PartialEq, Eq, Structural)]
pub enum TransactionEventType {
    TransactionCreated,
    TransactionCommitted,
    TransactionFailed,
    TransactionReversed,
}

impl TransactionEventType {
    /// The name under which the event is announced.
    pub open spec fn name(self) -> Seq<char> {
        match self {
            TransactionEventType::TransactionCreated => "transaction.created"@,
            TransactionEventType::TransactionCommitted => "transaction.committed"@,
            TransactionEventType::TransactionFailed => "transaction.failed"@,
            TransactionEventType::TransactionReversed => "transaction.reversed"@,
        }
    }

    pub fn as_str(&self) -> (r: &'static str)
        ensures
            r@ == self.name(),
    {
        match self {
            TransactionEventType::TransactionCreated => "transaction.created",
            TransactionEventType::TransactionCommitted => "transaction.committed",
            TransactionEventType::TransactionFailed => "transaction.failed",
            TransactionEventType::TransactionReversed => "transaction.reversed",
        }
    }
}

/// No two kinds of event have the same name.
pub proof fn law_event_names_distinct(a: TransactionEventType, b: TransactionEventType)
    requires
        a.name() == b.name(),
    ensures
        a == b,
{
    reveal_strlit("transaction.created");
    reveal_strlit("transaction.committed");
    reveal_strlit("transaction.failed");
    reveal_strlit("transaction.reversed");
    assert("transaction.created"@[13] == 'r');
    assert("transaction.committed"@[13] == 'o');
    assert("transaction.failed"@[13] == 'a');
    assert("transaction.reversed"@[13] == 'e');
}

} // verus!
