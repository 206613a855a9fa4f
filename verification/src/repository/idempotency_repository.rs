//! Idempotency keys in the database: which resource a request with that key has made.
use vstd::prelude::*;

use crate::clock;
use crate::clock::{add_hours, clock_time, later_by, on_calendar, DateTime};
use crate::decimal::Overflow;

verus! {

pub struct IdempotencyRepository;

/// What is stored under a key. The response is the text of a JSON value.
#[derive(Debug)]
pub struct IdempotencyRecord {
    pub key: String,
    pub resource_type: String,
    pub resource_id: u128,
    pub response_data: Option<String>,
}

/// An [`IdempotencyRecord`] with its texts as sequences of characters.
pub struct RecordView {
    pub key: Seq<char>,
    pub resource_type: Seq<char>,
    pub resource_id: u128,
    pub response_data: Option<String>,
}

impl View for IdempotencyRecord {
    type V = RecordView;

    open spec fn view(&self) -> RecordView {
        RecordView {
            key: self.key@,
            resource_type: self.resource_type@,
            resource_id: self.resource_id,
            response_data: self.response_data,
        }
    }
}

/// A row to be inserted into the idempotency keys.
#[derive(Debug)]
pub struct NewIdempotencyKey {
    pub record: IdempotencyRecord,
    pub expires_at: DateTime,
}

/// Whether a key is taken, and what to do about it.
#[derive(Debug)]
pub enum KeyClaim {
    /// An earlier request has used the key.
    Taken(IdempotencyRecord),
    /// The key is free, and this row takes it.
    Insert(NewIdempotencyKey),
}

/// How many hours a key is kept.
pub const KEY_LIFETIME_HOURS: i64 = 24;

impl IdempotencyRepository {
    /// Whether `key` is taken, given the row that was found under it. A key that is free is
    /// taken for 24 hours from now; an overflow comes back where the calendar ends before. When
    /// that is depends on the clock, so success is not promised for a key that is free;
    /// [`Self::check_and_set_at`] says what follows at a given time.
    pub fn check_and_set(
        row: Option<IdempotencyRecord>,
        key: &str,
        resource_type: &str,
        resource_id: u128,
        response_data: Option<String>,
    ) -> (r: Result<KeyClaim, Overflow>)
        ensures
            match (row, r) {
                (Some(record), Ok(KeyClaim::Taken(t))) => t == record,
                (None, Ok(KeyClaim::Insert(new))) => {
                    &&& new.record@ == (RecordView {
                        key: key@,
                        resource_type: resource_type@,
                        resource_id,
                        response_data,
                    })
                    &&& exists|now: DateTime|
                        {
                            &&& clock_time(now)
                            &&& #[trigger] later_by(now, 24) == Some(new.expires_at)
                        }
                },
                (None, Err(_)) => true,
                _ => false,
            },
    {
        Self::check_and_set_at(row, key, resource_type, resource_id, response_data, clock::now())
    }

    /// Whether `key` is taken, given the row that was found under it at the time `now`. A key
    /// that is free is taken for 24 hours; an overflow comes back where `now` is not on the
    /// calendar or the calendar ends before.
    pub fn check_and_set_at(
        row: Option<IdempotencyRecord>,
        key: &str,
        resource_type: &str,
        resource_id: u128,
        response_data: Option<String>,
        now: DateTime,
    ) -> (r: Result<KeyClaim, Overflow>)
        ensures
            match (row, r) {
                (Some(record), Ok(KeyClaim::Taken(t))) => t == record,
                (None, Ok(KeyClaim::Insert(new))) => {
                    &&& new.record@ == (RecordView {
                        key: key@,
                        resource_type: resource_type@,
                        resource_id,
                        response_data,
                    })
                    &&& on_calendar(now.seconds as int, now.nanos as int)
                    &&& later_by(now, 24) == Some(new.expires_at)
                },
                (None, Err(_)) => !on_calendar(now.seconds as int, now.nanos as int) || later_by(
                    now,
                    24,
                ) is None,
                _ => false,
            },
    {
        match row {
            Some(record) => Ok(KeyClaim::Taken(record)),
            None => match add_hours(now, KEY_LIFETIME_HOURS) {
                Some(expires_at) => Ok(
                    KeyClaim::Insert(
                        NewIdempotencyKey {
                            record: IdempotencyRecord {
                                key: key.to_owned(),
                                resource_type: resource_type.to_owned(),
                                resource_id,
                                response_data,
                            },
                            expires_at,
                        },
                    ),
                ),
                None => Err(Overflow),
            },
        }
    }
}

/// A key is kept for exactly one day, whatever time it is taken at.
pub proof fn law_keys_are_kept_for_a_day(now: DateTime, expires_at: DateTime)
    requires
        on_calendar(now.seconds as int, now.nanos as int),
        now.nanos < 1_000_000_000,
        later_by(now, KEY_LIFETIME_HOURS as int) == Some(expires_at),
    ensures
        expires_at.seconds == now.seconds + 24 * 60 * 60,
        expires_at.nanos == now.nanos,
{
}

/// What is stored under a key, whether or not its time has passed.
pub open spec fn stored_record(records: Map<Seq<char>, RecordView>, key: Seq<char>) -> Option<
    RecordView,
> {
    if records.contains_key(key) {
        Some(records[key])
    } else {
        None
    }
}

/// The records after a key was checked and set: with the new record where the key was free, and
/// as they were where it was taken.
pub open spec fn records_after(
    records: Map<Seq<char>, RecordView>,
    new: RecordView,
) -> Map<Seq<char>, RecordView> {
    match stored_record(records, new.key) {
        Some(_) => records,
        None => records.insert(new.key, new),
    }
}

/// Of two requests under one key, the first takes it and the second finds the first's record,
/// whatever it would store itself, and changes nothing.
pub proof fn law_a_key_is_set_once(
    records: Map<Seq<char>, RecordView>,
    first: RecordView,
    second: RecordView,
)
    requires
        !records.contains_key(first.key),
        second.key == first.key,
    ensures
        stored_record(records, first.key) is None,
        records_after(records, first) == records.insert(first.key, first),
        stored_record(records_after(records, first), second.key) == Some(first),
        records_after(records_after(records, first), second) == records_after(records, first),
{
}

} // verus!
