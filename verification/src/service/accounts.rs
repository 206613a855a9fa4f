//! Requests that make accounts and ask for them.
use vstd::prelude::*;

use crate::clock;
use crate::clock::{clock_time, later_by, on_calendar, DateTime};
use crate::decimal::{decimal_parse, Decimal, Overflow};
use crate::domain::account::{Account, CreateAccountParams};
use crate::error::{invalid_argument, LedgerError, LedgerErrorView, Status, StatusView};
use crate::ids::{id_text, new_id, parse_id, uuid_digit, uuid_text, uuid_value};
use crate::json::{json_object_text, metadata_to_json, pairs_map, stored_map};
use crate::proto;
use crate::proto::{account_status_of, account_type_of, serving_status_number};
use crate::repository::account_repository::{
    account_row, AccountQuery, AccountRepository, NewAccount,
};
use crate::repository::idempotency_repository::{
    IdempotencyRecord, IdempotencyRepository, KeyClaim, NewIdempotencyKey,
};
use crate::repository::page::{page_limit, page_rows, total_count};
use crate::service::ledger_service::{
    account_message, decimal_message, invalid_decimal, timestamp_message, LedgerServiceImpl,
};
use crate::text::{
    ascii, ascii_upper, non_empty, optional_text, or_empty, to_uppercase, uppercase,
};

verus! {

/// The initial balance that a request asks for, if it can be read. Without one it is zero.
pub open spec fn requested_balance(req: proto::CreateAccountRequest) -> Option<Decimal> {
    match req.initial_balance {
        Some(m) => decimal_parse(m.value@),
        None => Some(Decimal::of(0, 0)),
    }
}

/// What a request for a new account is answered at once, if anything is wrong with it that shows
/// without looking further.
pub open spec fn create_account_problem(req: proto::CreateAccountRequest) -> Option<StatusView> {
    if req.idempotency_key@.len() == 0 {
        Some(invalid_argument("idempotency_key is required"@))
    } else if account_type_of(req.account_type) is None {
        Some(invalid_argument("Invalid account type"@))
    } else if requested_balance(req) is None {
        Some(invalid_decimal(req.initial_balance.unwrap().value@))
    } else {
        None
    }
}

/// Whether the parameters are those that a request for a new account asks for.
pub open spec fn account_asked_for(
    req: proto::CreateAccountRequest,
    params: CreateAccountParams,
) -> bool {
    &&& optional_text(params.external_id, req.external_id@)
    &&& params.name == req.name
    &&& params.currency@ == uppercase(req.currency@)
    &&& ascii(req.currency@) ==> params.currency@ == req.currency@.map_values(
        |c: char| ascii_upper(c),
    )
    &&& account_type_of(req.account_type) == Some(params.account_type)
    &&& requested_balance(req) == params.initial_balance
    &&& params.initial_balance is Some
    &&& params.metadata@ == json_object_text(pairs_map(req.metadata@))
    &&& stored_map(params.metadata@) == pairs_map(req.metadata@)
}

/// A request for a new account that can be tried.
#[derive(Debug)]
pub struct AccountClaim {
    key: String,
    params: CreateAccountParams,
}

/// The key and the parameters of a request for a new account.
pub struct AccountClaimView {
    pub key: Seq<char>,
    pub params: CreateAccountParams,
}

impl View for AccountClaim {
    type V = AccountClaimView;

    closed spec fn view(&self) -> AccountClaimView {
        AccountClaimView { key: self.key@, params: self.params }
    }
}

/// What follows from what was stored under the idempotency key.
#[derive(Debug)]
pub enum AccountStep {
    /// The request was made before: nothing is written, and the answer is the account with this
    /// id.
    Existing(u128),
    /// The key and the account are to be inserted together.
    Create(NewIdempotencyKey, NewAccount),
}

/// What to look for an account by.
#[derive(Debug)]
pub enum AccountLookup {
    ById(u128),
    ByExternalId(String),
}

/// Whether the row takes the key of a request for an account that is to have this id.
pub open spec fn account_key(key: Seq<char>, id: u128, row: NewIdempotencyKey) -> bool {
    &&& row.record.key@ == key
    &&& row.record.resource_type@ == "account"@
    &&& row.record.resource_id == id
    &&& row.record.response_data is None
}

impl AccountClaim {
    /// The key under which the request is remembered.
    pub fn idempotency_key(&self) -> (r: &str)
        ensures
            r@ == self@.key,
    {
        self.key.as_str()
    }

    /// What follows from the row that was found under the key. A request that was made before
    /// leads to its resource. Otherwise the key and the account are inserted together, or, where
    /// the parameters break a rule, nothing is. An overflow comes back where the calendar ends
    /// before the key would. When that is depends on the clock, so for a key that is free none of
    /// these is promised; [`Self::claim_at`] says what follows at a given time.
    pub fn claim(self, row: Option<IdempotencyRecord>) -> (r: Result<
        Result<AccountStep, LedgerError>,
        Overflow,
    >)
        ensures
            match (claim_outcome(stored_id(row), self@), r) {
                (ClaimOutcome::Existing(id), Ok(Ok(AccountStep::Existing(existing)))) => existing
                    == id,
                (ClaimOutcome::Refused(error), Ok(Err(e))) => e@ == error,
                (ClaimOutcome::Created, Ok(Ok(AccountStep::Create(key, account)))) => {
                    &&& account_key(self@.key, key.record.resource_id, key)
                    &&& uuid_digit(key.record.resource_id, 12) == 7
                    &&& 8 <= uuid_digit(key.record.resource_id, 16) <= 11
                    &&& exists|now: DateTime|
                        {
                            &&& clock_time(now)
                            &&& #[trigger] later_by(now, 24) == Some(key.expires_at)
                        }
                    &&& account_row(self@.params, account)
                },
                (_, Err(_)) => row is None,
                _ => false,
            },
    {
        self.claim_at(row, new_id(), clock::now())
    }

    /// What follows from the row that was found under the key at the time `now`, where a new
    /// resource gets the id `id`.
    pub fn claim_at(self, row: Option<IdempotencyRecord>, id: u128, now: DateTime) -> (r: Result<
        Result<AccountStep, LedgerError>,
        Overflow,
    >)
        ensures
            r is Err <==> row is None && (!on_calendar(now.seconds as int, now.nanos as int)
                || later_by(now, 24) is None),
            match (claim_outcome(stored_id(row), self@), r) {
                (ClaimOutcome::Existing(stored), Ok(Ok(AccountStep::Existing(existing)))) => existing
                    == stored,
                (ClaimOutcome::Refused(error), Ok(Err(e))) => e@ == error,
                (ClaimOutcome::Created, Ok(Ok(AccountStep::Create(key, account)))) => {
                    &&& account_key(self@.key, id, key)
                    &&& later_by(now, 24) == Some(key.expires_at)
                    &&& account_row(self@.params, account)
                },
                (_, Err(_)) => true,
                _ => false,
            },
    {
        let claim = match IdempotencyRepository::check_and_set_at(
            row,
            self.key.as_str(),
            "account",
            id,
            None,
            now,
        ) {
            Ok(claim) => claim,
            Err(overflow) => return Err(overflow),
        };
        match claim {
            KeyClaim::Taken(record) => Ok(Ok(AccountStep::Existing(record.resource_id))),
            KeyClaim::Insert(key) => match AccountRepository::create(&self.params) {
                Ok(account) => Ok(Ok(AccountStep::Create(key, account))),
                Err(e) => Ok(Err(e)),
            },
        }
    }
}

/// What comes of a request for a new account.
pub enum ClaimOutcome {
    /// It was made before, and this is the resource.
    Existing(u128),
    /// It is refused, and nothing is written.
    Refused(LedgerErrorView),
    /// The key and the account are written.
    Created,
}

/// The resource that a row of the idempotency keys leads to.
pub open spec fn stored_id(row: Option<IdempotencyRecord>) -> Option<u128> {
    match row {
        Some(record) => Some(record.resource_id),
        None => None,
    }
}

/// What comes of a request for a new account, given the resource that is stored under its key.
pub open spec fn claim_outcome(stored: Option<u128>, claim: AccountClaimView) -> ClaimOutcome {
    match stored {
        Some(id) => ClaimOutcome::Existing(id),
        None => match claim.params.problem() {
            Some(message) => ClaimOutcome::Refused(LedgerErrorView::ValidationError(message)),
            None => ClaimOutcome::Created,
        },
    }
}

/// The resource that is stored under a key.
pub open spec fn lookup(keys: Map<Seq<char>, u128>, key: Seq<char>) -> Option<u128> {
    if keys.contains_key(key) {
        Some(keys[key])
    } else {
        None
    }
}

/// The keys and their resources after a request for a new account, where a new resource gets the
/// id `id`.
pub open spec fn keys_after(
    keys: Map<Seq<char>, u128>,
    claim: AccountClaimView,
    id: u128,
) -> Map<Seq<char>, u128> {
    if claim_outcome(lookup(keys, claim.key), claim) is Created {
        keys.insert(claim.key, id)
    } else {
        keys
    }
}

/// A refused request leaves nothing behind: it is answered as an invalid argument, and a request
/// that follows under the same key, and breaks no rule, makes its account.
pub proof fn law_refused_accounts_leave_nothing_behind(
    keys: Map<Seq<char>, u128>,
    refused: AccountClaimView,
    next: AccountClaimView,
    id: u128,
)
    requires
        !keys.contains_key(refused.key),
        refused.params.problem() is Some,
        next.key == refused.key,
        next.params.problem() is None,
    ensures
        claim_outcome(lookup(keys, refused.key), refused) matches ClaimOutcome::Refused(e)
            && e.status() == invalid_argument(refused.params.problem().unwrap()),
        keys_after(keys, refused, id) == keys,
        claim_outcome(lookup(keys_after(keys, refused, id), next.key), next) is Created,
{
}

/// A request under a key that has made a resource leads to that resource, whatever it asks for.
pub proof fn law_repeated_accounts_lead_to_the_first(
    keys: Map<Seq<char>, u128>,
    first: AccountClaimView,
    again: AccountClaimView,
    id: u128,
)
    requires
        !keys.contains_key(first.key),
        first.params.problem() is None,
        again.key == first.key,
    ensures
        claim_outcome(lookup(keys_after(keys, first, id), again.key), again)
            == ClaimOutcome::Existing(id),
{
}

/// What a request for a list of accounts is answered at once, if anything is wrong with it.
pub open spec fn list_accounts_problem(req: proto::ListAccountsRequest) -> Option<StatusView> {
    if req.filter_type != 0 && account_type_of(req.filter_type) is None {
        Some(invalid_argument("Invalid account type"@))
    } else {
        None
    }
}

/// Whether the query is the one that a request for a list of accounts asks for. A number that
/// stands for no status, an empty currency and a token that is no id are no filters.
pub open spec fn accounts_asked_for(req: proto::ListAccountsRequest, query: AccountQuery) -> bool {
    &&& query.after == uuid_value(req.page_token@)
    &&& query.filter.account_type == account_type_of(req.filter_type)
    &&& query.filter.status == account_status_of(req.filter_status)
    &&& optional_text(query.filter.currency, req.filter_currency@)
    &&& query.max_rows == page_limit(req.page_size as int) + 1
}

/// A list of accounts in a message: each of them, in the same order.
pub open spec fn accounts_message(m: Seq<proto::Account>, accounts: Seq<Account>) -> bool {
    &&& m.len() == accounts.len()
    &&& forall|i: int| 0 <= i < m.len() ==> account_message(#[trigger] m[i], accounts[i])
}

/// The token that a response carries: the id of the last row handed out where more rows were
/// fetched than the page holds, and an empty text otherwise.
pub open spec fn next_token(fetched: nat, limit: int, last_id: u128) -> Seq<char> {
    if fetched > limit {
        uuid_text(last_id)
    } else {
        Seq::empty()
    }
}

impl LedgerServiceImpl {
    /// Checks a request for a new account. What is stored under its idempotency key is to be
    /// looked up next.
    pub fn create_account(req: proto::CreateAccountRequest) -> (r: Result<AccountClaim, Status>)
        ensures
            match r {
                Ok(claim) => create_account_problem(req) is None && claim@.key
                    == req.idempotency_key@ && account_asked_for(req, claim@.params),
                Err(status) => create_account_problem(req) == Some(status@),
            },
    {
        if req.idempotency_key.as_str().is_empty() {
            return Err(Status::invalid_argument("idempotency_key is required"));
        }
        let account_type = match Self::proto_account_type(req.account_type) {
            Ok(t) => t,
            Err(status) => return Err(status),
        };
        let initial_balance = match Self::proto_to_decimal_or_zero(&req.initial_balance) {
            Ok(d) => d,
            Err(status) => return Err(status),
        };
        let params = CreateAccountParams {
            external_id: non_empty(req.external_id),
            name: req.name,
            currency: to_uppercase(req.currency.as_str()),
            account_type,
            initial_balance: Some(initial_balance),
            metadata: metadata_to_json(&req.metadata),
        };
        Ok(AccountClaim { key: req.idempotency_key, params })
    }

    /// The answer to a request for a new account.
    pub fn create_account_response(account: Account, already_existed: bool) -> (r:
        proto::CreateAccountResponse)
        ensures
            r.already_existed == already_existed,
            r.account matches Some(m) && account_message(m, account),
    {
        proto::CreateAccountResponse {
            account: Some(Self::domain_account_to_proto(account)),
            already_existed,
        }
    }

    /// What to look for the account of a request by.
    pub fn get_account(req: proto::GetAccountRequest) -> (r: Result<AccountLookup, Status>)
        ensures
            match req.identifier {
                Some(proto::AccountIdentifier::Id(id)) => match uuid_value(id@) {
                    Some(value) => r matches Ok(AccountLookup::ById(found)) && found == value,
                    None => r matches Err(status) && status@ == invalid_argument(
                        "Invalid account ID"@,
                    ),
                },
                Some(proto::AccountIdentifier::ExternalId(external_id)) => r matches Ok(
                    AccountLookup::ByExternalId(found),
                ) && found == external_id,
                None => r matches Err(status) && status@ == invalid_argument(
                    "Account identifier required"@,
                ),
            },
    {
        match req.identifier {
            Some(proto::AccountIdentifier::Id(id)) => match parse_id(id.as_str()) {
                Some(value) => Ok(AccountLookup::ById(value)),
                None => Err(Status::invalid_argument("Invalid account ID")),
            },
            Some(proto::AccountIdentifier::ExternalId(external_id)) => Ok(
                AccountLookup::ByExternalId(external_id),
            ),
            None => Err(Status::invalid_argument("Account identifier required")),
        }
    }

    /// The answer to a request for an account.
    pub fn get_account_response(account: Account) -> (r: proto::GetAccountResponse)
        ensures
            r.account matches Some(m) && account_message(m, account),
    {
        proto::GetAccountResponse { account: Some(Self::domain_account_to_proto(account)) }
    }

    /// The account whose balance a request asks for.
    pub fn get_balance(req: &proto::GetBalanceRequest) -> (r: Result<u128, Status>)
        ensures
            match r {
                Ok(id) => uuid_value(req.account_id@) == Some(id),
                Err(status) => uuid_value(req.account_id@) is None && status@ == invalid_argument(
                    "Invalid account ID"@,
                ),
            },
    {
        match parse_id(req.account_id.as_str()) {
            Some(id) => Ok(id),
            None => Err(Status::invalid_argument("Invalid account ID")),
        }
    }

    /// The answer to a request for a balance, as of now.
    pub fn get_balance_response(account: Account) -> (r: proto::GetBalanceResponse)
        ensures
            exists|now: DateTime|
                {
                    &&& clock_time(now)
                    &&& #[trigger] balance_message(r, account, now)
                },
    {
        Self::get_balance_response_at(account, clock::now())
    }

    /// The answer to a request for a balance at the time `now`.
    pub fn get_balance_response_at(account: Account, now: DateTime) -> (r:
        proto::GetBalanceResponse)
        ensures
            balance_message(r, account, now),
    {
        proto::GetBalanceResponse {
            account_id: id_text(account.id),
            balance: Self::decimal_to_proto(account.balance),
            available_balance: Self::decimal_to_proto(account.available_balance),
            pending_balance: Self::decimal_to_proto(account.pending_balance),
            currency: account.currency,
            as_of: Self::datetime_to_timestamp(now),
        }
    }

    /// What to fetch for a request for a list of accounts.
    pub fn list_accounts(req: &proto::ListAccountsRequest) -> (r: Result<AccountQuery, Status>)
        ensures
            match r {
                Ok(query) => list_accounts_problem(*req) is None && accounts_asked_for(
                    *req,
                    query,
                ),
                Err(status) => list_accounts_problem(*req) == Some(status@),
            },
    {
        let filter_type = if req.filter_type == 0 {
            None
        } else {
            match Self::proto_account_type(req.filter_type) {
                Ok(t) => Some(t),
                Err(status) => return Err(status),
            }
        };
        let filter_status = Self::proto_account_status(req.filter_status);
        let filter_currency = if req.filter_currency.as_str().is_empty() {
            assert(req.filter_currency@ =~= Seq::empty());
            None
        } else {
            Some(req.filter_currency.as_str())
        };
        let page_token = if req.page_token.as_str().is_empty() {
            None
        } else {
            Some(req.page_token.as_str())
        };
        Ok(
            AccountRepository::list(
                req.page_size,
                page_token,
                filter_type,
                filter_status,
                filter_currency,
            ),
        )
    }

    /// The answer to a request for a list of accounts, given the rows that were fetched and how
    /// many pass the filters in all.
    pub fn list_accounts_response(page_size: i32, rows: Vec<Account>, total: Option<i32>) -> (r:
        proto::ListAccountsResponse)
        ensures
            accounts_message(r.accounts@, page_rows(rows@, page_limit(page_size as int))),
            r.next_page_token@ == next_token(
                rows@.len(),
                page_limit(page_size as int),
                page_rows(rows@, page_limit(page_size as int)).last().id,
            ),
            r.total_count == total_count(total),
    {
        let (accounts, token, total) = AccountRepository::list_page(page_size, rows, total);
        let ghost page = accounts@;
        let mut messages: Vec<proto::Account> = Vec::new();
        for account in it: accounts
            invariant
                it.seq() == page,
                accounts_message(messages@, page.take(it.index() as int)),
        {
            let m = Self::domain_account_to_proto(account);
            messages.push(m);
        }
        assert(page.take(page.len() as int) =~= page);
        proto::ListAccountsResponse {
            accounts: messages,
            next_page_token: or_empty(token),
            total_count: total,
        }
    }

    /// The answer to whether the service is working, as of now.
    pub fn health_check(database_answers: bool, version: &str) -> (r: proto::HealthCheckResponse)
        ensures
            exists|now: DateTime|
                {
                    &&& clock_time(now)
                    &&& #[trigger] health_message(r, database_answers, version@, now)
                },
    {
        Self::health_check_at(database_answers, version, clock::now())
    }

    /// The answer to whether the service is working at the time `now`.
    pub fn health_check_at(database_answers: bool, version: &str, now: DateTime) -> (r:
        proto::HealthCheckResponse)
        ensures
            health_message(r, database_answers, version@, now),
    {
        proto::HealthCheckResponse {
            status: if database_answers {
                1
            } else {
                2
            },
            version: version.to_owned(),
            timestamp: Self::datetime_to_timestamp(now),
        }
    }
}

/// The balances of an account in a message.
pub open spec fn balance_message(
    m: proto::GetBalanceResponse,
    account: Account,
    now: DateTime,
) -> bool {
    &&& m.account_id@ == uuid_text(account.id)
    &&& decimal_message(m.balance, account.balance)
    &&& decimal_message(m.available_balance, account.available_balance)
    &&& decimal_message(m.pending_balance, account.pending_balance)
    &&& m.currency == account.currency
    &&& m.as_of == Some(timestamp_message(now))
}

/// Whether the service is working, in a message.
pub open spec fn health_message(
    m: proto::HealthCheckResponse,
    database_answers: bool,
    version: Seq<char>,
    now: DateTime,
) -> bool {
    &&& m.status == serving_status_number(database_answers)
    &&& m.version@ == version
    &&& m.timestamp == Some(timestamp_message(now))
}

/// Whatever is wrong with a request about accounts, it is answered as an invalid argument.
pub proof fn law_bad_account_requests_are_invalid_arguments(
    create: proto::CreateAccountRequest,
    list: proto::ListAccountsRequest,
)
    ensures
        create_account_problem(create) matches Some(status) ==> status.code is InvalidArgument,
        list_accounts_problem(list) matches Some(status) ==> status.code is InvalidArgument,
{
}

/// The total is the same on every page: two requests with the same filters count the same
/// accounts, whatever their page sizes and tokens are.
pub proof fn law_account_total_is_the_same_on_every_page(
    a: proto::ListAccountsRequest,
    b: proto::ListAccountsRequest,
    a_query: AccountQuery,
    b_query: AccountQuery,
    accounts: Seq<Account>,
)
    requires
        a.filter_type == b.filter_type,
        a.filter_status == b.filter_status,
        a.filter_currency@ == b.filter_currency@,
        accounts_asked_for(a, a_query),
        accounts_asked_for(b, b_query),
    ensures
        a_query.filter.count(accounts) == b_query.filter.count(accounts),
    decreases accounts.len(),
{
    if accounts.len() > 0 {
        law_account_total_is_the_same_on_every_page(
            a,
            b,
            a_query,
            b_query,
            accounts.drop_last(),
        );
    }
}

} // verus!
