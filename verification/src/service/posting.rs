//! Posting a transaction, step by step.
//!
//! 1. [`LedgerServiceImpl::post_transaction`] checks the request. What is stored under its
//!    idempotency key is then looked up.
//! 2. [`PostLookup::found`] answers with that transaction where there is one, and otherwise
//!    parses the entries. Their accounts are then locked, in the order of
//!    [`PendingPosting::lock_order`].
//! 3. [`PendingPosting::locked`] decides, given the accounts, whether the entries may be posted.
//!    The row of the transaction is then inserted.
//! 4. [`AuthorizedPosting::plan`] says what each entry makes of its account's balance, and which
//!    balances are stored in the end. All of that is then written and committed.
//! 5. [`LedgerServiceImpl::posted`] makes the answer and the event that tells of it.
//!
//! Each step can only be taken with what the step before has handed out, and an error at any of
//! them means that nothing is written.
use std::collections::HashMap;
use vstd::prelude::*;

use crate::clock;
use crate::clock::{clock_time, DateTime};
use crate::decimal::{
    decimal_difference, decimal_parse, decimal_sum, decimal_text, Decimal, Overflow,
};
use crate::domain::account::{Account, AccountStatus, AccountType};
use crate::domain::entry::{
    entries_problem, side_sum, CreateEntryParams, Entry, EntrySet, EntryType,
};
use crate::domain::transaction::{
    CreateTransactionParams, Transaction, TransactionEvent, TransactionEventType,
    TransactionWithEntries,
};
use crate::error::{invalid_argument, LedgerError, LedgerErrorView, Status, StatusView};
use crate::ids::{id_text, parse_id, uuid_text, uuid_value};
use crate::json::{json_object_text, metadata_to_json, pairs_map, stored_map};
use crate::proto;
use crate::proto::entry_type_of;
use crate::repository::account_repository::{
    found, smallest_missing, sorted, AccountRepository, BalanceChange,
};
use crate::service::ledger_service::{invalid_decimal, transaction_message, LedgerServiceImpl};
use crate::text::{append_u64, nat_text, non_empty, optional_text};

verus! {

/// What a request to post a transaction is answered at once, if anything is wrong with it that
/// shows without looking further.
pub open spec fn request_problem(req: proto::PostTransactionRequest) -> Option<StatusView> {
    if req.idempotency_key@.len() == 0 {
        Some(invalid_argument("idempotency_key is required"@))
    } else if req.entries.len() < 2 {
        Some(invalid_argument("Transaction must have at least 2 entries (double-entry)"@))
    } else {
        None
    }
}

/// The first thing that is wrong with an entry of a request.
pub open spec fn entry_problem(e: proto::EntryRequest) -> Option<StatusView> {
    if uuid_value(e.account_id@) is None {
        Some(invalid_argument("Invalid account ID in entry"@))
    } else if entry_type_of(e.entry_type) is None {
        Some(invalid_argument("Invalid entry type"@))
    } else {
        match e.amount {
            None => Some(invalid_argument("Decimal value required"@)),
            Some(m) => match decimal_parse(m.value@) {
                None => Some(invalid_decimal(m.value@)),
                Some(amount) => if amount.units() <= 0 {
                    Some(invalid_argument("Entry amount must be positive"@))
                } else {
                    None
                },
            },
        }
    }
}

/// What is wrong with the first of the entries that anything is wrong with.
pub open spec fn first_entry_problem(entries: Seq<proto::EntryRequest>) -> Option<StatusView>
    decreases entries.len(),
{
    if entries.len() == 0 {
        None
    } else {
        match first_entry_problem(entries.drop_last()) {
            Some(status) => Some(status),
            None => entry_problem(entries.last()),
        }
    }
}

/// The amount of an entry of a request.
pub open spec fn requested_amount(e: proto::EntryRequest) -> Decimal {
    decimal_parse(e.amount.unwrap().value@).unwrap()
}

/// The sum of the amounts on one side of a request, added up in order.
pub open spec fn requested_sum(entries: Seq<proto::EntryRequest>, side: EntryType) -> Option<
    Decimal,
>
    decreases entries.len(),
{
    if entries.len() == 0 {
        Some(Decimal::of(0, 0))
    } else {
        match requested_sum(entries.drop_last(), side) {
            None => None,
            Some(sum) => if entry_type_of(entries.last().entry_type) == Some(side) {
                decimal_sum(sum, requested_amount(entries.last()))
            } else {
                Some(sum)
            },
        }
    }
}

/// What comes of the entries of a request.
pub enum EntriesOutcome {
    Accepted,
    Refused(StatusView),
    OutOfRange,
}

/// What comes of the entries of a request: each must be well-formed, and the debits must be
/// worth as much as the credits.
pub open spec fn entries_outcome(entries: Seq<proto::EntryRequest>) -> EntriesOutcome {
    match first_entry_problem(entries) {
        Some(status) => EntriesOutcome::Refused(status),
        None => match (
            requested_sum(entries, EntryType::Debit),
            requested_sum(entries, EntryType::Credit),
        ) {
            (Some(debits), Some(credits)) => if debits.units() == credits.units() {
                EntriesOutcome::Accepted
            } else {
                EntriesOutcome::Refused(
                    invalid_argument(
                        "Debits must equal credits (double-entry balance violation)"@,
                    ),
                )
            },
            _ => EntriesOutcome::OutOfRange,
        },
    }
}

/// Whether `p` is what an entry of a request asks for.
pub open spec fn entry_asked_for(e: proto::EntryRequest, p: CreateEntryParams) -> bool {
    &&& uuid_value(e.account_id@) == Some(p.account_id)
    &&& entry_type_of(e.entry_type) == Some(p.entry_type)
    &&& e.amount matches Some(m) && decimal_parse(m.value@) == Some(p.amount)
    &&& p.amount.units() > 0
    &&& optional_text(p.description, e.description@)
    &&& p.metadata@ == json_object_text(pairs_map(e.metadata@))
    &&& stored_map(p.metadata@) == pairs_map(e.metadata@)
}

/// Whether the entries are those that a request asks for, in the same order.
pub open spec fn entries_asked_for(
    requested: Seq<proto::EntryRequest>,
    entries: Seq<CreateEntryParams>,
) -> bool {
    &&& requested.len() == entries.len()
    &&& forall|i: int|
        0 <= i < entries.len() ==> entry_asked_for(requested[i], #[trigger] entries[i])
}

/// The version that a request expects of each account, by the account's id. A key that is no id
/// is passed over, and the last of several versions for an account counts.
pub open spec fn versions_asked_for(pairs: Seq<(String, i64)>) -> Map<u128, i64>
    decreases pairs.len(),
{
    if pairs.len() == 0 {
        Map::empty()
    } else {
        match uuid_value(pairs.last().0@) {
            Some(id) => versions_asked_for(pairs.drop_last()).insert(id, pairs.last().1),
            None => versions_asked_for(pairs.drop_last()),
        }
    }
}

/// Whether the transaction is the one that a request asks for.
pub open spec fn transaction_asked_for(
    req: proto::PostTransactionRequest,
    t: CreateTransactionParams,
) -> bool {
    &&& t.idempotency_key == req.idempotency_key
    &&& optional_text(t.reference, req.reference@)
    &&& optional_text(t.description, req.description@)
    &&& t.metadata@ == json_object_text(pairs_map(req.metadata@))
    &&& stored_map(t.metadata@) == pairs_map(req.metadata@)
}

/// A request to post a transaction that has an idempotency key and at least two entries.
#[derive(Debug)]
pub struct PostLookup {
    request: proto::PostTransactionRequest,
}

impl View for PostLookup {
    type V = proto::PostTransactionRequest;

    closed spec fn view(&self) -> proto::PostTransactionRequest {
        self.request
    }
}

/// What follows from what was stored under the idempotency key.
#[derive(Debug)]
pub enum PostStep {
    /// The request was made before, and this is the answer.
    Answered(proto::PostTransactionResponse),
    /// The accounts of the entries are to be locked.
    Lock(PendingPosting),
}

/// A transaction to be posted, and the versions that its accounts are expected to have.
pub struct PendingView {
    pub transaction: CreateTransactionParams,
    pub entries: Seq<CreateEntryParams>,
    pub versions: Map<u128, i64>,
}

/// A transaction whose entries balance, to be posted once its accounts are locked.
#[derive(Debug)]
pub struct PendingPosting {
    transaction: CreateTransactionParams,
    entries: EntrySet,
    versions: Vec<(u128, i64)>,
}

/// The map with these entries, of which the last counts where an id occurs more than once.
pub open spec fn versions_map(pairs: Seq<(u128, i64)>) -> Map<u128, i64>
    decreases pairs.len(),
{
    if pairs.len() == 0 {
        Map::empty()
    } else {
        versions_map(pairs.drop_last()).insert(pairs.last().0, pairs.last().1)
    }
}

impl View for PendingPosting {
    type V = PendingView;

    closed spec fn view(&self) -> PendingView {
        PendingView {
            transaction: self.transaction,
            entries: self.entries@,
            versions: versions_map(self.versions@),
        }
    }
}

/// The response that carries a transaction.
pub open spec fn post_response(
    response: proto::PostTransactionResponse,
    transaction: Transaction,
    entries: Seq<Entry>,
    already_existed: bool,
) -> bool {
    &&& response.already_existed == already_existed
    &&& response.transaction matches Some(m) && transaction_message(m, transaction, entries)
}

impl LedgerServiceImpl {
    /// Checks a request to post a transaction.
    pub fn post_transaction(req: proto::PostTransactionRequest) -> (r: Result<PostLookup, Status>)
        ensures
            match r {
                Ok(lookup) => request_problem(req) is None && lookup@ == req,
                Err(status) => request_problem(req) == Some(status@),
            },
    {
        if req.idempotency_key.as_str().is_empty() {
            return Err(Status::invalid_argument("idempotency_key is required"));
        }
        if req.entries.len() < 2 {
            return Err(
                Status::invalid_argument("Transaction must have at least 2 entries (double-entry)"),
            );
        }
        Ok(PostLookup { request: req })
    }
}

/// One entry of a request.
fn parse_entry(e: &proto::EntryRequest) -> (r: Result<CreateEntryParams, Status>)
    ensures
        match r {
            Ok(p) => entry_problem(*e) is None && entry_asked_for(*e, p),
            Err(status) => entry_problem(*e) == Some(status@),
        },
{
    let account_id: u128 = match parse_id(e.account_id.as_str()) {
        Some(id) => id,
        None => return Err(Status::invalid_argument("Invalid account ID in entry")),
    };
    let entry_type = match LedgerServiceImpl::proto_entry_type(e.entry_type) {
        Ok(t) => t,
        Err(status) => return Err(status),
    };
    let amount = match LedgerServiceImpl::proto_to_decimal(&e.amount) {
        Ok(d) => d,
        Err(status) => return Err(status),
    };
    if !Decimal::zero().less_than(amount) {
        return Err(Status::invalid_argument("Entry amount must be positive"));
    }
    Ok(
        CreateEntryParams {
            account_id,
            entry_type,
            amount,
            description: non_empty(e.description.clone()),
            metadata: metadata_to_json(&e.metadata),
        },
    )
}

/// All entries of a request.
fn parse_entries(requested: &Vec<proto::EntryRequest>) -> (r: Result<
    Vec<CreateEntryParams>,
    Status,
>)
    ensures
        match r {
            Ok(entries) => first_entry_problem(requested@) is None && entries_asked_for(
                requested@,
                entries@,
            ),
            Err(status) => first_entry_problem(requested@) == Some(status@),
        },
{
    let mut entries: Vec<CreateEntryParams> = Vec::new();
    let mut i: usize = 0;
    while i < requested.len()
        invariant
            i <= requested.len(),
            first_entry_problem(requested@.take(i as int)) is None,
            entries_asked_for(requested@.take(i as int), entries@),
        decreases requested.len() - i,
    {
        assert(requested@.take(i + 1).drop_last() =~= requested@.take(i as int));
        match parse_entry(&requested[i]) {
            Ok(p) => {
                let ghost before = entries@;
                entries.push(p);
                assert forall|k: int| 0 <= k < entries.len() implies entry_asked_for(
                    requested@.take(i + 1)[k],
                    #[trigger] entries[k],
                ) by {
                    if k < i {
                        assert(entry_asked_for(requested@.take(i as int)[k], before[k]));
                    }
                }
            },
            Err(status) => {
                proof {
                    lemma_problem_stays(requested@, i + 1);
                }
                return Err(status);
            },
        }
        i += 1;
    }
    assert(requested@.take(i as int) =~= requested@);
    Ok(entries)
}

/// The first problem stays the first as more entries come.
proof fn lemma_problem_stays(entries: Seq<proto::EntryRequest>, n: int)
    requires
        0 <= n <= entries.len(),
        first_entry_problem(entries.take(n)) is Some,
    ensures
        first_entry_problem(entries) == first_entry_problem(entries.take(n)),
    decreases entries.len() - n,
{
    if n == entries.len() {
        assert(entries.take(n) =~= entries);
    } else {
        assert(entries.take(n + 1).drop_last() =~= entries.take(n));
        lemma_problem_stays(entries, n + 1);
    }
}

/// The sums of the entries are those of the request.
proof fn lemma_sums_asked_for(
    requested: Seq<proto::EntryRequest>,
    entries: Seq<CreateEntryParams>,
    side: EntryType,
)
    requires
        entries_asked_for(requested, entries),
    ensures
        side_sum(entries, side) == requested_sum(requested, side),
    decreases entries.len(),
{
    if entries.len() > 0 {
        let r = requested.drop_last();
        let e = entries.drop_last();
        assert forall|i: int| 0 <= i < e.len() implies entry_asked_for(r[i], #[trigger] e[i]) by {
            assert(entry_asked_for(requested[i], entries[i]));
        }
        lemma_sums_asked_for(r, e, side);
        assert(entry_asked_for(requested[requested.len() - 1], entries[entries.len() - 1]));
    }
}

/// The versions that a request expects.
fn parse_versions(pairs: &Vec<(String, i64)>) -> (r: Vec<(u128, i64)>)
    ensures
        versions_map(r@) == versions_asked_for(pairs@),
{
    let mut versions: Vec<(u128, i64)> = Vec::new();
    let mut i: usize = 0;
    while i < pairs.len()
        invariant
            i <= pairs.len(),
            versions_map(versions@) == versions_asked_for(pairs@.take(i as int)),
        decreases pairs.len() - i,
    {
        assert(pairs@.take(i + 1).drop_last() =~= pairs@.take(i as int));
        match parse_id(pairs[i].0.as_str()) {
            Some(id) => {
                let ghost before = versions@;
                versions.push((id, pairs[i].1));
                assert(versions@.drop_last() =~= before);
            },
            None => {},
        }
        i += 1;
    }
    assert(pairs@.take(i as int) =~= pairs@);
    versions
}

impl PostLookup {
    /// What every such request keeps to.
    #[verifier::type_invariant]
    pub closed spec fn valid(self) -> bool {
        request_problem(self.request) is None
    }

    /// The key under which the transaction would be stored.
    pub fn idempotency_key(&self) -> (r: &str)
        ensures
            r@ == self@.idempotency_key@,
    {
        self.request.idempotency_key.as_str()
    }

    /// What follows from what was stored under the key: the transaction that is there is the
    /// answer, whatever the entries of this request are. Otherwise the entries are parsed. An
    /// overflow comes back where one of their sums is out of range.
    pub fn found(self, existing: Option<TransactionWithEntries>) -> (r: Result<
        Result<PostStep, Status>,
        Overflow,
    >)
        ensures
            match existing {
                Some(t) => r matches Ok(Ok(PostStep::Answered(response))) && post_response(
                    response,
                    t.transaction,
                    t.entries@,
                    true,
                ),
                None => match entries_outcome(self@.entries@) {
                    EntriesOutcome::OutOfRange => r is Err,
                    EntriesOutcome::Refused(answer) => r matches Ok(Err(status)) && status@
                        == answer,
                    EntriesOutcome::Accepted => r matches Ok(Ok(PostStep::Lock(pending))) && {
                        &&& transaction_asked_for(self@, pending@.transaction)
                        &&& entries_asked_for(self@.entries@, pending@.entries)
                        &&& entries_problem(pending@.entries) is None
                        &&& pending@.versions == versions_asked_for(self@.expected_versions@)
                    },
                },
            },
    {
        proof {
            use_type_invariant(&self);
        }
        if let Some(t) = existing {
            return Ok(
                Ok(
                    PostStep::Answered(
                        proto::PostTransactionResponse {
                            transaction: Some(
                                LedgerServiceImpl::domain_transaction_to_proto(
                                    t.transaction,
                                    t.entries,
                                ),
                            ),
                            already_existed: true,
                        },
                    ),
                ),
            );
        }
        let req = self.request;
        let entries = match parse_entries(&req.entries) {
            Ok(entries) => entries,
            Err(status) => return Ok(Err(status)),
        };
        proof {
            lemma_sums_asked_for(req.entries@, entries@, EntryType::Debit);
            lemma_sums_asked_for(req.entries@, entries@, EntryType::Credit);
        }
        let entries = match EntrySet::checked_new(entries) {
            Ok(Ok(set)) => set,
            Ok(Err(message)) => return Ok(Err(Status::invalid_argument(message))),
            Err(overflow) => return Err(overflow),
        };
        let versions = parse_versions(&req.expected_versions);
        let transaction = CreateTransactionParams {
            idempotency_key: req.idempotency_key,
            reference: non_empty(req.reference),
            description: non_empty(req.description),
            metadata: metadata_to_json(&req.metadata),
        };
        Ok(Ok(PostStep::Lock(PendingPosting { transaction, entries, versions })))
    }
}

/// The accounts of the entries, in the order of the entries.
pub open spec fn account_ids(entries: Seq<CreateEntryParams>) -> Seq<u128> {
    Seq::new(entries.len(), |i: int| entries[i].account_id)
}

/// The accounts by their ids.
pub open spec fn accounts_by_id(accounts: Seq<Account>) -> Map<u128, Account>
    decreases accounts.len(),
{
    if accounts.len() == 0 {
        Map::empty()
    } else {
        accounts_by_id(accounts.drop_last()).insert(accounts.last().id, accounts.last())
    }
}

/// Whether fewer accounts were locked than there are entries because one is missing.
pub open spec fn account_missing(entries: Seq<CreateEntryParams>, rows: Seq<Account>) -> bool {
    rows.len() != entries.len() && exists|id: u128| #[trigger]
        account_ids(entries).contains(id) && !found(rows, id)
}

/// Whether an account has another version than the request expects.
pub open spec fn version_conflict(
    versions: Map<u128, i64>,
    accounts: Map<u128, Account>,
    id: u128,
) -> bool {
    versions.contains_key(id) && accounts.contains_key(id) && accounts[id].version != versions[id]
}

/// Why an entry may not be posted, if it may not: its account is missing, is not active, or has
/// too little available for the debit.
pub open spec fn entry_refusal(accounts: Map<u128, Account>, e: CreateEntryParams) -> Option<
    LedgerErrorView,
> {
    if !accounts.contains_key(e.account_id) {
        Some(LedgerErrorView::AccountNotFound(uuid_text(e.account_id)))
    } else {
        let account = accounts[e.account_id];
        match account.status {
            AccountStatus::Frozen => Some(LedgerErrorView::AccountFrozen(uuid_text(account.id))),
            AccountStatus::Closed => Some(LedgerErrorView::AccountClosed(uuid_text(account.id))),
            AccountStatus::Active => if e.entry_type is Debit && !account.allows_debit(e.amount) {
                Some(
                    LedgerErrorView::InsufficientBalance {
                        account_id: uuid_text(account.id),
                        required: decimal_text(e.amount.spec_mantissa(), e.amount.spec_scale()),
                        available: decimal_text(
                            account.available_balance.spec_mantissa(),
                            account.available_balance.spec_scale(),
                        ),
                    },
                )
            } else {
                None
            },
        }
    }
}

/// Why the first of the entries that may not be posted may not.
pub open spec fn first_refusal(
    accounts: Map<u128, Account>,
    entries: Seq<CreateEntryParams>,
) -> Option<LedgerErrorView>
    decreases entries.len(),
{
    if entries.len() == 0 {
        None
    } else {
        match first_refusal(accounts, entries.drop_last()) {
            Some(e) => Some(e),
            None => entry_refusal(accounts, entries.last()),
        }
    }
}

/// Whether a posting may go on with the accounts that were locked.
pub open spec fn lock_accepted(pending: PendingView, rows: Seq<Account>) -> bool {
    &&& !account_missing(pending.entries, rows)
    &&& forall|id: u128|
        !(#[trigger] version_conflict(pending.versions, accounts_by_id(rows), id))
    &&& first_refusal(accounts_by_id(rows), pending.entries) is None
}

/// Whether `e` is why a posting may not go on: first comes the smallest id without an account,
/// then any of the accounts whose version is not as expected, then the first entry that may not
/// be posted.
pub open spec fn lock_refused(pending: PendingView, rows: Seq<Account>, e: LedgerErrorView) -> bool {
    let accounts = accounts_by_id(rows);
    if account_missing(pending.entries, rows) {
        exists|id: u128|
            {
                &&& #[trigger] smallest_missing(account_ids(pending.entries), rows, id)
                &&& e == LedgerErrorView::AccountNotFound(uuid_text(id))
            }
    } else if exists|id: u128| #[trigger] version_conflict(pending.versions, accounts, id) {
        exists|id: u128|
            {
                &&& #[trigger] version_conflict(pending.versions, accounts, id)
                &&& e == (LedgerErrorView::OptimisticLockError {
                    account_id: uuid_text(id),
                    expected_version: pending.versions[id],
                    actual_version: accounts[id].version,
                })
            }
    } else {
        first_refusal(accounts, pending.entries) == Some(e)
    }
}

/// A transaction that may be posted, and its accounts.
pub struct AuthorizedView {
    pub transaction: CreateTransactionParams,
    pub entries: Seq<CreateEntryParams>,
    pub accounts: Map<u128, Account>,
}

/// A transaction that may be posted: its entries balance, and its accounts are locked and allow
/// them.
#[derive(Debug)]
pub struct AuthorizedPosting {
    transaction: CreateTransactionParams,
    entries: EntrySet,
    accounts: HashMap<u128, Account>,
}

impl View for AuthorizedPosting {
    type V = AuthorizedView;

    closed spec fn view(&self) -> AuthorizedView {
        AuthorizedView {
            transaction: self.transaction,
            entries: self.entries@,
            accounts: self.accounts@,
        }
    }
}

/// The accounts by their ids.
fn map_accounts(rows: Vec<Account>) -> (r: HashMap<u128, Account>)
    ensures
        r@ == accounts_by_id(rows@),
{
    broadcast use vstd::std_specs::hash::group_hash_axioms;

    let mut accounts: HashMap<u128, Account> = HashMap::new();
    for account in it: rows
        invariant
            it.seq() == rows@,
            accounts@ == accounts_by_id(rows@.take(it.index() as int)),
    {
        assert(rows@.take(it.index() + 1).drop_last() =~= rows@.take(it.index() as int));
        accounts.insert(account.id, account);
    }
    assert(rows@.take(rows@.len() as int) =~= rows@);
    accounts
}

/// The versions by the ids of the accounts.
fn map_versions(pairs: &Vec<(u128, i64)>) -> (r: HashMap<u128, i64>)
    ensures
        r@ == versions_map(pairs@),
{
    broadcast use vstd::std_specs::hash::group_hash_axioms;

    let mut versions: HashMap<u128, i64> = HashMap::new();
    let mut i: usize = 0;
    while i < pairs.len()
        invariant
            i <= pairs.len(),
            versions@ == versions_map(pairs@.take(i as int)),
        decreases pairs.len() - i,
    {
        assert(pairs@.take(i + 1).drop_last() =~= pairs@.take(i as int));
        versions.insert(pairs[i].0, pairs[i].1);
        i += 1;
    }
    assert(pairs@.take(i as int) =~= pairs@);
    versions
}

/// Every id in the map is one of the pairs'.
proof fn lemma_versions_map_keys(pairs: Seq<(u128, i64)>, id: u128)
    requires
        versions_map(pairs).contains_key(id),
    ensures
        exists|i: int| 0 <= i < pairs.len() && (#[trigger] pairs[i]).0 == id,
    decreases pairs.len(),
{
    if pairs.last().0 != id {
        lemma_versions_map_keys(pairs.drop_last(), id);
        let i = choose|i: int|
            0 <= i < pairs.len() - 1 && (#[trigger] pairs.drop_last()[i]).0 == id;
        assert(pairs[i].0 == id);
    } else {
        assert(pairs[pairs.len() - 1].0 == id);
    }
}

/// Holds the accounts against the versions that are expected of them.
fn check_versions(pairs: &Vec<(u128, i64)>, accounts: &HashMap<u128, Account>) -> (r: Result<
    (),
    LedgerError,
>)
    ensures
        match r {
            Ok(_) => forall|id: u128|
                !(#[trigger] version_conflict(versions_map(pairs@), accounts@, id)),
            Err(e) => exists|id: u128|
                {
                    &&& #[trigger] version_conflict(versions_map(pairs@), accounts@, id)
                    &&& e@ == (LedgerErrorView::OptimisticLockError {
                        account_id: uuid_text(id),
                        expected_version: versions_map(pairs@)[id],
                        actual_version: accounts@[id].version,
                    })
                },
        },
{
    broadcast use vstd::std_specs::hash::group_hash_axioms;

    let versions = map_versions(pairs);
    let mut i: usize = 0;
    while i < pairs.len()
        invariant
            i <= pairs.len(),
            versions@ == versions_map(pairs@),
            forall|k: int|
                0 <= k < i ==> !version_conflict(
                    versions@,
                    accounts@,
                    (#[trigger] pairs@[k]).0,
                ),
        decreases pairs.len() - i,
    {
        let id = pairs[i].0;
        if let Some(expected_version) = versions.get(&id) {
            if let Some(account) = accounts.get(&id) {
                if account.version != *expected_version {
                    assert(version_conflict(versions_map(pairs@), accounts@, id));
                    return Err(
                        LedgerError::OptimisticLockError {
                            account_id: id_text(id),
                            expected_version: *expected_version,
                            actual_version: account.version,
                        },
                    );
                }
            }
        }
        i += 1;
    }
    assert forall|id: u128| !(#[trigger] version_conflict(
        versions_map(pairs@),
        accounts@,
        id,
    )) by {
        if versions_map(pairs@).contains_key(id) {
            lemma_versions_map_keys(pairs@, id);
        }
    }
    Ok(())
}

/// Holds the entries against their accounts.
fn check_entries(entries: &[CreateEntryParams], accounts: &HashMap<u128, Account>) -> (r: Result<
    (),
    LedgerError,
>)
    ensures
        match r {
            Ok(_) => first_refusal(accounts@, entries@) is None,
            Err(e) => first_refusal(accounts@, entries@) == Some(e@),
        },
{
    broadcast use vstd::std_specs::hash::group_hash_axioms;

    let mut i: usize = 0;
    while i < entries.len()
        invariant
            i <= entries.len(),
            first_refusal(accounts@, entries@.take(i as int)) is None,
        decreases entries.len() - i,
    {
        let entry = &entries[i];
        proof {
            assert(entries@.take(i + 1).drop_last() =~= entries@.take(i as int));
            if entry_refusal(accounts@, *entry) is Some {
                lemma_refusal_stays(accounts@, entries@, i + 1);
            }
        }
        match accounts.get(&entry.account_id) {
            None => return Err(LedgerError::AccountNotFound(id_text(entry.account_id))),
            Some(account) => {
                match account.status {
                    AccountStatus::Frozen => {
                        return Err(LedgerError::AccountFrozen(id_text(account.id)));
                    },
                    AccountStatus::Closed => {
                        return Err(LedgerError::AccountClosed(id_text(account.id)));
                    },
                    AccountStatus::Active => {},
                }
                if entry.entry_type == EntryType::Debit && !account.can_debit(entry.amount) {
                    return Err(
                        LedgerError::InsufficientBalance {
                            account_id: id_text(account.id),
                            required: entry.amount.to_text(),
                            available: account.available_balance.to_text(),
                        },
                    );
                }
            },
        }
        i += 1;
    }
    assert(entries@.take(i as int) =~= entries@);
    Ok(())
}

/// The first refusal stays the first as more entries come.
proof fn lemma_refusal_stays(
    accounts: Map<u128, Account>,
    entries: Seq<CreateEntryParams>,
    n: int,
)
    requires
        0 <= n <= entries.len(),
        first_refusal(accounts, entries.take(n)) is Some,
    ensures
        first_refusal(accounts, entries) == first_refusal(accounts, entries.take(n)),
    decreases entries.len() - n,
{
    if n == entries.len() {
        assert(entries.take(n) =~= entries);
    } else {
        assert(entries.take(n + 1).drop_last() =~= entries.take(n));
        lemma_refusal_stays(accounts, entries, n + 1);
    }
}

/// Where no entry is refused, each of them has its account.
pub proof fn lemma_accounts_there(accounts: Map<u128, Account>, entries: Seq<CreateEntryParams>, i: int)
    requires
        first_refusal(accounts, entries) is None,
        0 <= i < entries.len(),
    ensures
        accounts.contains_key(entries[i].account_id),
        entry_refusal(accounts, entries[i]) is None,
    decreases entries.len(),
{
    if i < entries.len() - 1 {
        lemma_accounts_there(accounts, entries.drop_last(), i);
    }
}

impl PendingPosting {
    /// The accounts to be locked, in the order in which they are to be.
    pub fn lock_order(&self) -> (r: Vec<u128>)
        ensures
            sorted(r@),
            r@.to_multiset() == account_ids(self@.entries).to_multiset(),
    {
        AccountRepository::lock_order(&self.account_ids())
    }

    fn account_ids(&self) -> (r: Vec<u128>)
        ensures
            r@ == account_ids(self@.entries),
    {
        let entries = self.entries.entries();
        let mut ids: Vec<u128> = Vec::new();
        let mut i: usize = 0;
        while i < entries.len()
            invariant
                i <= entries.len(),
                ids@ == account_ids(entries@.take(i as int)),
            decreases entries.len() - i,
        {
            ids.push(entries[i].account_id);
            i += 1;
        }
        assert(entries@.take(i as int) =~= entries@);
        ids
    }

    /// Whether the transaction may be posted, given the accounts that were locked.
    pub fn locked(self, rows: Vec<Account>) -> (r: Result<AuthorizedPosting, LedgerError>)
        ensures
            match r {
                Ok(authorized) => lock_accepted(self@, rows@) && authorized@ == (AuthorizedView {
                    transaction: self@.transaction,
                    entries: self@.entries,
                    accounts: accounts_by_id(rows@),
                }),
                Err(e) => lock_refused(self@, rows@, e@) && !lock_accepted(self@, rows@),
            },
    {
        let ids = self.account_ids();
        let rows = match AccountRepository::get_multiple_for_update(rows, &ids) {
            Ok(rows) => rows,
            Err(e) => return Err(e),
        };
        let accounts = map_accounts(rows);
        assert(!account_missing(self@.entries, rows@));
        match check_versions(&self.versions, &accounts) {
            Ok(_) => {},
            Err(e) => {
                proof {
                    let id = choose|id: u128|
                        {
                            &&& #[trigger] version_conflict(self@.versions, accounts@, id)
                            &&& e@ == (LedgerErrorView::OptimisticLockError {
                                account_id: uuid_text(id),
                                expected_version: self@.versions[id],
                                actual_version: accounts@[id].version,
                            })
                        };
                    assert(version_conflict(self@.versions, accounts_by_id(rows@), id));
                }
                return Err(e);
            },
        }
        match check_entries(self.entries.entries(), &accounts) {
            Ok(_) => {},
            Err(e) => return Err(e),
        }
        assert forall|i: int| 0 <= i < self.entries@.len() implies accounts@.contains_key(
            (#[trigger] self.entries@[i]).account_id,
        ) by {
            lemma_accounts_there(accounts@, self.entries@, i);
        }
        Ok(
            AuthorizedPosting {
                transaction: self.transaction,
                entries: self.entries,
                accounts,
            },
        )
    }
}

impl AuthorizedPosting {
    /// What every such transaction keeps to: the account of each entry is there.
    #[verifier::type_invariant]
    pub closed spec fn valid(self) -> bool {
        forall|i: int|
            0 <= i < self.entries@.len() ==> self.accounts@.contains_key(
                (#[trigger] self.entries@[i]).account_id,
            )
    }

    /// What the row of the transaction is made from.
    pub fn transaction(&self) -> (r: &CreateTransactionParams)
        ensures
            *r == self@.transaction,
    {
        &self.transaction
    }
}

/// What one entry does to its account.
#[derive(Debug)]
pub struct Posting {
    pub entry: CreateEntryParams,
    pub previous_balance: Decimal,
    pub balance_after: Decimal,
    pub change_amount: Decimal,
    pub version_before: i64,
    pub version_after: i64,
}

impl Posting {
    /// The row that records what the entry does, once the entry has an id.
    pub fn history(&self, entry_id: u128) -> (r: BalanceChange)
        ensures
            r.account_id == self.entry.account_id,
            r.entry_id == entry_id,
            r.previous_balance == self.previous_balance,
            r.new_balance == self.balance_after,
            r.change_amount == self.change_amount,
            r.version_before == self.version_before,
            r.version_after == self.version_after,
    {
        BalanceChange {
            account_id: self.entry.account_id,
            entry_id,
            previous_balance: self.previous_balance,
            new_balance: self.balance_after,
            change_amount: self.change_amount,
            version_before: self.version_before,
            version_after: self.version_after,
        }
    }
}

/// What posting a transaction writes: its entries in order, and the balance that each of its
/// accounts has in the end.
#[derive(Debug)]
pub struct PostingPlan {
    pub postings: Vec<Posting>,
    pub balances: Vec<(u128, Decimal)>,
}

/// What an entry adds to the balance of an account of this type.
pub open spec fn change_of(t: AccountType, e: CreateEntryParams) -> Decimal {
    match e.entry_type {
        EntryType::Debit => if t.debit_normal() {
            e.amount
        } else {
            e.amount.negated()
        },
        EntryType::Credit => if t.credit_normal() {
            e.amount
        } else {
            e.amount.negated()
        },
    }
}

/// The balance of an account after an entry, starting from the balance that is stored.
pub open spec fn balance_with(account: Account, e: CreateEntryParams) -> Option<Decimal> {
    match e.entry_type {
        EntryType::Debit => account.account_type.debited(account.balance, e.amount),
        EntryType::Credit => account.account_type.credited(account.balance, e.amount),
    }
}

/// The balance of an account: the one that earlier entries have left it with, or the one that is
/// stored.
pub open spec fn current_balance(
    accounts: Map<u128, Account>,
    balances: Map<u128, Decimal>,
    id: u128,
) -> Decimal {
    if balances.contains_key(id) {
        balances[id]
    } else {
        accounts[id].balance
    }
}

/// The balance that an entry leaves its account with, if it is in range. The balance with this
/// entry alone must be in range too.
pub open spec fn next_balance(
    accounts: Map<u128, Account>,
    balances: Map<u128, Decimal>,
    e: CreateEntryParams,
) -> Option<Decimal> {
    let account = accounts[e.account_id];
    if balances.contains_key(e.account_id) && balance_with(account, e) is Some {
        decimal_sum(balances[e.account_id], change_of(account.account_type, e))
    } else {
        balance_with(account, e)
    }
}

/// Whether an entry can be posted and recorded without leaving a range.
pub open spec fn entry_in_range(
    accounts: Map<u128, Account>,
    balances: Map<u128, Decimal>,
    e: CreateEntryParams,
) -> bool {
    &&& next_balance(accounts, balances, e) matches Some(next) && decimal_difference(
        next,
        current_balance(accounts, balances, e.account_id),
    ) is Some
    &&& accounts[e.account_id].version < i64::MAX
}

/// The balances of all accounts that entries have touched, if no step is out of range.
pub open spec fn balances_after(
    accounts: Map<u128, Account>,
    entries: Seq<CreateEntryParams>,
) -> Option<Map<u128, Decimal>>
    decreases entries.len(),
{
    if entries.len() == 0 {
        Some(Map::empty())
    } else {
        match balances_after(accounts, entries.drop_last()) {
            None => None,
            Some(balances) => if entry_in_range(accounts, balances, entries.last()) {
                Some(
                    balances.insert(
                        entries.last().account_id,
                        next_balance(accounts, balances, entries.last()).unwrap(),
                    ),
                )
            } else {
                None
            },
        }
    }
}

/// Whether `p` is what the entry `e` does, given the balances that earlier entries have left.
pub open spec fn posting_of(
    accounts: Map<u128, Account>,
    balances: Map<u128, Decimal>,
    e: CreateEntryParams,
    p: Posting,
) -> bool {
    &&& p.entry == e
    &&& p.previous_balance == current_balance(accounts, balances, e.account_id)
    &&& next_balance(accounts, balances, e) == Some(p.balance_after)
    &&& decimal_difference(p.balance_after, p.previous_balance) == Some(p.change_amount)
    &&& p.version_before == accounts[e.account_id].version
    &&& p.version_after == p.version_before + 1
}

/// Whether the postings are what the entries do, one after the other.
pub open spec fn postings_of(
    accounts: Map<u128, Account>,
    entries: Seq<CreateEntryParams>,
    postings: Seq<Posting>,
) -> bool {
    &&& postings.len() == entries.len()
    &&& forall|i: int|
        0 <= i < entries.len() ==> posting_of(
            accounts,
            balances_after(accounts, entries.take(i)).unwrap(),
            entries[i],
            #[trigger] postings[i],
        )
}

/// Whether the list holds each entry of the map exactly once.
pub open spec fn lists(pairs: Seq<(u128, Decimal)>, map: Map<u128, Decimal>) -> bool {
    &&& forall|i: int, j: int| 0 <= i < j < pairs.len() ==> pairs[i].0 != pairs[j].0
    &&& forall|i: int|
        0 <= i < pairs.len() ==> map.contains_key((#[trigger] pairs[i]).0) && map[pairs[i].0]
            == pairs[i].1
    &&& forall|id: u128| #[trigger]
        map.contains_key(id) ==> exists|i: int| 0 <= i < pairs.len() && (#[trigger] pairs[i]).0 == id
}

/// What leaves a range leaves it however many entries follow.
pub proof fn lemma_out_of_range_stays(
    accounts: Map<u128, Account>,
    entries: Seq<CreateEntryParams>,
    n: int,
)
    requires
        0 <= n <= entries.len(),
        balances_after(accounts, entries.take(n)) is None,
    ensures
        balances_after(accounts, entries) is None,
    decreases entries.len() - n,
{
    if n == entries.len() {
        assert(entries.take(n) =~= entries);
    } else {
        assert(entries.take(n + 1).drop_last() =~= entries.take(n));
        lemma_out_of_range_stays(accounts, entries, n + 1);
    }
}

/// The balance that an entry leaves its account with.
fn balance_after_entry(account: &Account, current: Option<Decimal>, e: &CreateEntryParams) -> (r:
    Option<Decimal>)
    ensures
        r == if current is Some && balance_with(*account, *e) is Some {
            decimal_sum(current.unwrap(), change_of(account.account_type, *e))
        } else {
            balance_with(*account, *e)
        },
{
    let alone = match e.entry_type {
        EntryType::Debit => account.checked_apply_debit(e.amount),
        EntryType::Credit => account.checked_apply_credit(e.amount),
    };
    match (current, alone) {
        (Some(current), Some(_)) => {
            let change = match e.entry_type {
                EntryType::Debit => if account.account_type.is_debit_normal() {
                    e.amount
                } else {
                    e.amount.neg()
                },
                EntryType::Credit => if account.account_type.is_credit_normal() {
                    e.amount
                } else {
                    e.amount.neg()
                },
            };
            current.checked_add(change)
        },
        _ => alone,
    }
}

/// What an entry does, or nothing where that is out of range.
fn post_entry(account: &Account, current: Option<Decimal>, e: CreateEntryParams) -> (r: Option<
    Posting,
>)
    ensures
        forall|accounts: Map<u128, Account>, balances: Map<u128, Decimal>|
            accounts.contains_key(e.account_id) && accounts[e.account_id] == *account && current
                == (if balances.contains_key(e.account_id) {
                Some(balances[e.account_id])
            } else {
                None
            }) ==> match r {
                Some(p) => #[trigger] entry_in_range(accounts, balances, e) && posting_of(
                    accounts,
                    balances,
                    e,
                    p,
                ),
                None => !entry_in_range(accounts, balances, e),
            },
{
    let previous_balance = match current {
        Some(balance) => balance,
        None => account.balance,
    };
    let balance_after = balance_after_entry(account, current, &e)?;
    let change_amount = balance_after.checked_sub(previous_balance)?;
    if account.version == i64::MAX {
        return None;
    }
    Some(
        Posting {
            entry: e,
            previous_balance,
            balance_after,
            change_amount,
            version_before: account.version,
            version_after: account.version + 1,
        },
    )
}

/// The entries of a map, in the order of a list of its keys.
fn list_balances(order: &Vec<u128>, balances: &HashMap<u128, Decimal>) -> (r: Vec<(u128, Decimal)>)
    requires
        order@.no_duplicates(),
        forall|id: u128| #[trigger] order@.contains(id) <==> balances@.contains_key(id),
    ensures
        lists(r@, balances@),
{
    broadcast use vstd::std_specs::hash::group_hash_axioms;

    let mut r: Vec<(u128, Decimal)> = Vec::new();
    let mut i: usize = 0;
    while i < order.len()
        invariant
            i <= order.len(),
            r@.len() == i,
            forall|id: u128| #[trigger] order@.contains(id) <==> balances@.contains_key(id),
            forall|k: int|
                0 <= k < i ==> (#[trigger] r@[k]).0 == order@[k] && balances@.contains_key(
                    order@[k],
                ) && balances@[order@[k]] == r@[k].1,
        decreases order.len() - i,
    {
        assert(order@.contains(order@[i as int]));
        let balance = *balances.get(&order[i]).unwrap();
        r.push((order[i], balance));
        i += 1;
    }
    assert forall|id: u128| #[trigger] balances@.contains_key(id) implies exists|k: int|
        0 <= k < r@.len() && (#[trigger] r@[k]).0 == id by {
        assert(order@.contains(id));
        let k = choose|k: int| 0 <= k < order@.len() && order@[k] == id;
        assert(r@[k].0 == id);
    }
    r
}

impl AuthorizedPosting {
    /// What posting the transaction writes, or an overflow where a balance, a change of balance
    /// or a version is out of range.
    pub fn plan(self) -> (r: Result<PostingPlan, Overflow>)
        ensures
            match (r, balances_after(self@.accounts, self@.entries)) {
                (Ok(plan), Some(balances)) => {
                    &&& postings_of(self@.accounts, self@.entries, plan.postings@)
                    &&& lists(plan.balances@, balances)
                },
                (Err(_), None) => true,
                _ => false,
            },
    {
        broadcast use vstd::std_specs::hash::group_hash_axioms;

        proof {
            use_type_invariant(&self);
        }
        let accounts = self.accounts;
        let entries = self.entries.into_entries();
        let ghost all = entries@;
        let mut postings: Vec<Posting> = Vec::new();
        let mut balances: HashMap<u128, Decimal> = HashMap::new();
        let mut touched: Vec<u128> = Vec::new();
        for entry in it: entries
            invariant
                it.seq() == all,
                accounts@ == self@.accounts,
                all == self@.entries,
                forall|i: int|
                    0 <= i < all.len() ==> accounts@.contains_key((#[trigger] all[i]).account_id),
                balances_after(accounts@, all.take(it.index() as int)) == Some(balances@),
                postings_of(accounts@, all.take(it.index() as int), postings@),
                touched@.no_duplicates(),
                forall|id: u128| #[trigger] touched@.contains(id) <==> balances@.contains_key(id),
        {
            let ghost n = it.index() as int;
            let ghost before = postings@;
            let ghost touched_before = touched@;
            let ghost balances_before = balances@;
            let id = entry.account_id;
            assert(entry == all[n]);
            assert(all.take(n + 1).drop_last() =~= all.take(n));
            let account = accounts.get(&id).unwrap();
            let current = match balances.get(&id) {
                Some(balance) => Some(*balance),
                None => None,
            };
            match post_entry(account, current, entry) {
                Some(posting) => {
                    assert(entry_in_range(accounts@, balances_before, entry));
                    if current.is_none() {
                        touched.push(id);
                    }
                    balances.insert(id, posting.balance_after);
                    postings.push(posting);
                    proof {
                        assert forall|i: int| 0 <= i < n + 1 implies posting_of(
                            accounts@,
                            balances_after(accounts@, all.take(n + 1).take(i)).unwrap(),
                            all.take(n + 1)[i],
                            #[trigger] postings@[i],
                        ) by {
                            assert(all.take(n + 1).take(i) =~= all.take(n).take(i));
                            if i < n {
                                assert(before[i] == postings@[i]);
                            } else {
                                assert(all.take(n).take(n) =~= all.take(n));
                            }
                        }
                        lemma_touched(touched_before, balances_before, id);
                        assert forall|other: u128| #[trigger]
                            touched@.contains(other) <==> balances@.contains_key(other) by {
                            if touched_before.contains(other) {
                                let k = choose|k: int|
                                    0 <= k < touched_before.len() && touched_before[k] == other;
                                assert(touched@[k] == other);
                            }
                            if other == id && !balances_before.contains_key(id) {
                                assert(touched@[touched@.len() - 1] == id);
                            }
                        }
                    }
                },
                None => {
                    proof {
                        assert(!entry_in_range(accounts@, balances_before, entry));
                        lemma_out_of_range_stays(accounts@, all, n + 1);
                    }
                    return Err(Overflow);
                },
            }
        }
        assert(all.take(all.len() as int) =~= all);
        let balances = list_balances(&touched, &balances);
        Ok(PostingPlan { postings, balances })
    }
}

/// A list stays without duplicates when an element comes that it does not have.
proof fn lemma_touched(touched: Seq<u128>, balances: Map<u128, Decimal>, id: u128)
    requires
        touched.no_duplicates(),
        forall|other: u128| #[trigger] touched.contains(other) <==> balances.contains_key(other),
    ensures
        !balances.contains_key(id) ==> touched.push(id).no_duplicates(),
{
    if !balances.contains_key(id) {
        assert forall|i: int| 0 <= i < touched.len() implies touched[i] != id by {
            assert(touched.contains(touched[i]));
        }
    }
}

/// The text of the JSON object that an event carries of a transaction that was committed.
pub open spec fn committed_payload(transaction_id: u128, entry_count: nat) -> Seq<char> {
    "{\"entry_count\":"@ + nat_text(entry_count) + ",\"status\":\"committed\",\"transaction_id\":\""@
        + uuid_text(transaction_id) + "\"}"@
}

/// Whether an event tells that a transaction with so many entries was committed.
pub open spec fn committed_event(
    event: TransactionEvent,
    transaction: Transaction,
    entry_count: nat,
    now: DateTime,
) -> bool {
    &&& event.event_type is TransactionCommitted
    &&& event.transaction_id == transaction.id
    &&& event.idempotency_key == transaction.idempotency_key
    &&& event.timestamp == now
    &&& event.payload@ == committed_payload(transaction.id, entry_count)
}

impl LedgerServiceImpl {
    /// The answer to a request whose transaction was committed, and the event that tells of it
    /// now.
    pub fn posted(transaction: Transaction, entries: Vec<Entry>) -> (r: (
        proto::PostTransactionResponse,
        TransactionEvent,
    ))
        ensures
            post_response(r.0, transaction, entries@, false),
            committed_event(r.1, transaction, entries@.len(), r.1.timestamp),
            clock_time(r.1.timestamp),
    {
        Self::posted_at(transaction, entries, clock::now())
    }

    /// The answer to a request whose transaction was committed, and the event that tells of it
    /// at the time `now`.
    pub fn posted_at(transaction: Transaction, entries: Vec<Entry>, now: DateTime) -> (r: (
        proto::PostTransactionResponse,
        TransactionEvent,
    ))
        ensures
            post_response(r.0, transaction, entries@, false),
            committed_event(r.1, transaction, entries@.len(), now),
    {
        let mut payload = "{\"entry_count\":".to_owned();
        append_u64(&mut payload, entries.len() as u64);
        payload.append(",\"status\":\"committed\",\"transaction_id\":\"");
        payload.append(id_text(transaction.id).as_str());
        payload.append("\"}");
        let event = TransactionEvent {
            event_type: TransactionEventType::TransactionCommitted,
            transaction_id: transaction.id,
            idempotency_key: transaction.idempotency_key.clone(),
            timestamp: now,
            payload,
        };
        let response = proto::PostTransactionResponse {
            transaction: Some(Self::domain_transaction_to_proto(transaction, entries)),
            already_existed: false,
        };
        (response, event)
    }
}

} // verus!
