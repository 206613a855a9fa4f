//! Requests that make accounts and ask for them.
use vstd::prelude::*;
use vstd::utf8::encode_utf8;

use crate::clock::{DateTime, MAX_SECONDS, MIN_SECONDS};
use crate::decimal::{decimal_parse, Overflow};
use crate::domain::account::{Account, CreateAccountParams};
use crate::error::{LedgerError, Status};
use crate::ids::{law_id_text_parses_back, uuid_digit, uuid_value};
use crate::laws::messages::{
    lemma_account_message, lemma_zero, tells_of_account,
};
use crate::laws::metadata::{holds_metadata, lemma_holds};
use crate::proto;
use crate::repository::account_repository::{AccountQuery, AccountRepository, NewAccount};
use crate::repository::idempotency_repository::{IdempotencyRecord, NewIdempotencyKey};
use crate::service::accounts::{AccountClaim, AccountLookup, AccountStep};
use crate::service::ledger_service::LedgerServiceImpl;
use crate::text::uppercase;

verus! {

/// Whether the row of a new account is the one that a request asks for: it has the request's
/// external id, name, currency in upper case, type, balance and metadata, is active, and all of
/// its balance is available.
pub open spec fn row_asked_for(req: proto::CreateAccountRequest, row: NewAccount) -> bool {
    &&& match row.external_id {
        Some(t) => t@ == req.external_id@ && req.external_id@.len() > 0,
        None => req.external_id@.len() == 0,
    }
    &&& row.name@ == req.name@
    &&& row.currency@ == uppercase(req.currency@)
    &&& upper_case_of(row.currency@, req.currency@)
    &&& req.account_type == 1 <==> row.account_type is Asset
    &&& req.account_type == 2 <==> row.account_type is Liability
    &&& req.account_type == 3 <==> row.account_type is Equity
    &&& req.account_type == 4 <==> row.account_type is Revenue
    &&& req.account_type == 5 <==> row.account_type is Expense
    &&& row.status is Active
    &&& match req.initial_balance {
        Some(m) => decimal_parse(m.value@) == Some(row.balance),
        None => row.balance.units() == 0,
    }
    &&& row.balance.units() >= 0
    &&& row.available_balance == row.balance
    &&& row.pending_balance.units() == 0
    &&& holds_metadata(row.metadata@, req.metadata@)
}

/// Whether a text is another in upper case, as far as that is a matter of ASCII letters: where the
/// other has ASCII characters only, `a` to `z` have become `A` to `Z`, and the rest has stayed.
pub open spec fn upper_case_of(upper: Seq<char>, text: Seq<char>) -> bool {
    (forall|i: int| 0 <= i < text.len() ==> ((#[trigger] text[i]) as int) < 128) ==> {
        &&& upper.len() == text.len()
        &&& forall|i: int|
            0 <= i < text.len() ==> if 'a' <= text[i] <= 'z' {
                (#[trigger] upper[i]) as int == text[i] as int - 'a' as int + 'A' as int
            } else {
                upper[i] == text[i]
            }
    }
}

/// Whether a request for a new account breaks no rule.
pub open spec fn breaks_no_rule(req: proto::CreateAccountRequest) -> bool {
    &&& req.idempotency_key@.len() > 0
    &&& 1 <= req.account_type <= 5
    &&& req.initial_balance matches Some(m) ==> (decimal_parse(m.value@) matches Some(d)
        && d.units() >= 0)
    &&& req.name@.len() > 0
    &&& encode_utf8(uppercase(req.currency@)).len() == 3
}

/// The account that is made for a request is the one that it asks for, and the request's key is
/// taken for it, for a day.
pub proof fn law_the_account_asked_for_is_made(
    req: proto::CreateAccountRequest,
    claim: AccountClaim,
    id: u128,
    now: DateTime,
    key: NewIdempotencyKey,
    row: NewAccount,
)
    requires
        call_ensures(LedgerServiceImpl::create_account, (req,), Ok(claim)),
        call_ensures(
            AccountClaim::claim_at,
            (claim, None, id, now),
            Ok(Ok(AccountStep::Create(key, row))),
        ),
    ensures
        breaks_no_rule(req),
        row_asked_for(req, row),
        key.record.key@ == req.idempotency_key@,
        key.record.resource_type@ == "account"@,
        key.record.resource_id == id,
        key.record.response_data is None,
        key.expires_at.seconds == now.seconds + 24 * 60 * 60,
        key.expires_at.seconds <= MAX_SECONDS,
        now.nanos < 1_000_000_000 ==> key.expires_at.nanos == now.nanos,
{
    lemma_zero();
    lemma_holds(row.metadata@, req.metadata@);
}

/// The same holds of an account that is made now, under an id that is a version 7 UUID.
pub proof fn law_the_account_asked_for_is_made_now(
    req: proto::CreateAccountRequest,
    claim: AccountClaim,
    key: NewIdempotencyKey,
    row: NewAccount,
)
    requires
        call_ensures(LedgerServiceImpl::create_account, (req,), Ok(claim)),
        call_ensures(AccountClaim::claim, (claim, None), Ok(Ok(AccountStep::Create(key, row)))),
    ensures
        breaks_no_rule(req),
        row_asked_for(req, row),
        key.record.key@ == req.idempotency_key@,
        key.record.resource_type@ == "account"@,
        key.record.response_data is None,
        uuid_digit(key.record.resource_id, 12) == 7,
        24 * 60 * 60 <= key.expires_at.seconds <= MAX_SECONDS,
        key.expires_at.nanos < 1_000_000_000,
{
    lemma_zero();
    lemma_holds(row.metadata@, req.metadata@);
}

/// A request that breaks no rule makes its account where its key is free, at any time that the
/// calendar has another day after.
pub proof fn law_good_requests_make_their_account(
    req: proto::CreateAccountRequest,
    r: Result<AccountClaim, Status>,
    id: u128,
    now: DateTime,
    step: Result<Result<AccountStep, LedgerError>, Overflow>,
)
    requires
        breaks_no_rule(req),
        call_ensures(LedgerServiceImpl::create_account, (req,), r),
        r matches Ok(claim) ==> call_ensures(AccountClaim::claim_at, (claim, None, id, now), step),
        MIN_SECONDS <= now.seconds <= MAX_SECONDS - 24 * 60 * 60,
        now.nanos < 1_000_000_000,
    ensures
        r is Ok,
        step matches Ok(Ok(AccountStep::Create(_, _))),
{
    lemma_zero();
}

/// A request that breaks a rule is told which: first comes the key, then the type, then the text
/// of the balance.
pub proof fn law_bad_requests_are_told_why(
    req: proto::CreateAccountRequest,
    r: Result<AccountClaim, Status>,
)
    requires
        call_ensures(LedgerServiceImpl::create_account, (req,), r),
    ensures
        r is Err <==> req.idempotency_key@.len() == 0 || !(1 <= req.account_type <= 5) || (
        req.initial_balance matches Some(m) && decimal_parse(m.value@) is None),
        r matches Err(status) ==> status.code is InvalidArgument,
        req.idempotency_key@.len() == 0 ==> (r matches Err(status) && status.message@
            == "idempotency_key is required"@),
        req.idempotency_key@.len() > 0 && !(1 <= req.account_type <= 5) ==> (r matches Err(status)
            && status.message@ == "Invalid account type"@),
        req.idempotency_key@.len() > 0 && 1 <= req.account_type <= 5 ==> (
        req.initial_balance matches Some(m) ==> (decimal_parse(m.value@) is None ==> (
        r matches Err(status) && status.message@ == "Invalid decimal: "@ + m.value@))),
{
}

/// Parameters that break a rule make no account, and are told which rule it is: first comes the
/// name, then the currency, then the balance.
pub proof fn law_bad_parameters_make_no_account(
    req: proto::CreateAccountRequest,
    claim: AccountClaim,
    id: u128,
    now: DateTime,
    step: Result<Result<AccountStep, LedgerError>, Overflow>,
)
    requires
        call_ensures(LedgerServiceImpl::create_account, (req,), Ok(claim)),
        call_ensures(AccountClaim::claim_at, (claim, None, id, now), step),
        MIN_SECONDS <= now.seconds <= MAX_SECONDS - 24 * 60 * 60,
        now.nanos < 1_000_000_000,
    ensures
        step matches Ok(Err(_)) <==> !breaks_no_rule(req),
        req.name@.len() == 0 ==> (step matches Ok(Err(LedgerError::ValidationError(m))) && m@
            == "Account name cannot be empty"@),
        req.name@.len() > 0 && encode_utf8(uppercase(req.currency@)).len() != 3 ==> (
        step matches Ok(Err(LedgerError::ValidationError(m))) && m@
            == "Currency must be 3 characters (ISO 4217)"@),
        req.name@.len() > 0 && encode_utf8(uppercase(req.currency@)).len() == 3
            && !breaks_no_rule(req) ==> (step matches Ok(Err(LedgerError::ValidationError(m))) && m@
            == "Initial balance cannot be negative"@),
{
    lemma_zero();
}

/// A request under a key that is taken makes nothing: it leads to what was made under that key,
/// whatever it asks for, at any time.
pub proof fn law_a_taken_key_leads_to_its_account(
    claim: AccountClaim,
    record: IdempotencyRecord,
    id: u128,
    now: DateTime,
    at: Result<Result<AccountStep, LedgerError>, Overflow>,
    step: Result<Result<AccountStep, LedgerError>, Overflow>,
)
    requires
        call_ensures(AccountClaim::claim_at, (claim, Some(record), id, now), at),
        call_ensures(AccountClaim::claim, (claim, Some(record)), step),
    ensures
        at matches Ok(Ok(AccountStep::Existing(existing))) && existing == record.resource_id,
        step matches Ok(Ok(AccountStep::Existing(existing))) && existing == record.resource_id,
{
}

/// Making an account twice makes it once: where a request is repeated under the key that its
/// account was stored under, the answer is that account.
pub proof fn law_accounts_are_made_once(
    claim: AccountClaim,
    id: u128,
    now: DateTime,
    key: NewIdempotencyKey,
    row: NewAccount,
    again: AccountClaim,
    other_id: u128,
    later: DateTime,
    step: Result<Result<AccountStep, LedgerError>, Overflow>,
)
    requires
        call_ensures(
            AccountClaim::claim_at,
            (claim, None, id, now),
            Ok(Ok(AccountStep::Create(key, row))),
        ),
        call_ensures(AccountClaim::claim_at, (again, Some(key.record), other_id, later), step),
    ensures
        step matches Ok(Ok(AccountStep::Existing(existing))) && existing == id,
{
}

/// Claiming a key now and claiming it at a given time come to the same: the same account that is
/// there, the same error, or the same row of a new account.
pub proof fn law_claiming_now_is_claiming_at_some_time(
    claim: AccountClaim,
    record: Option<IdempotencyRecord>,
    id: u128,
    now: DateTime,
    at: Result<AccountStep, LedgerError>,
    step: Result<AccountStep, LedgerError>,
)
    requires
        call_ensures(AccountClaim::claim_at, (claim, record, id, now), Ok(at)),
        call_ensures(AccountClaim::claim, (claim, record), Ok(step)),
    ensures
        match at {
            Ok(AccountStep::Existing(existing)) => step matches Ok(AccountStep::Existing(other))
                && other == existing,
            Ok(AccountStep::Create(key, row)) => step matches Ok(AccountStep::Create(k, r)) && {
                &&& k.record.key@ == key.record.key@
                &&& k.record.resource_type@ == key.record.resource_type@
                &&& r == row
            },
            Err(e) => step matches Err(other) && other@ == e@,
        },
{
}

/// The key under which a request is remembered is the one that it names.
pub proof fn law_requests_are_remembered_under_their_key(
    req: proto::CreateAccountRequest,
    claim: AccountClaim,
    key: &str,
)
    requires
        call_ensures(LedgerServiceImpl::create_account, (req,), Ok(claim)),
        call_ensures(AccountClaim::idempotency_key, (&claim,), key),
    ensures
        key@ == req.idempotency_key@,
{
}

/// An account is found by its external id: what a client gives as the external id of a new
/// account is what its row is stored under, what looking for that external id looks for, and what
/// the account's message gives back.
pub proof fn law_accounts_are_found_by_their_external_id(
    req: proto::CreateAccountRequest,
    claim: AccountClaim,
    id: u128,
    now: DateTime,
    key: NewIdempotencyKey,
    row: NewAccount,
    external_id: String,
    lookup: Result<AccountLookup, Status>,
    account: Account,
    m: proto::Account,
)
    requires
        call_ensures(LedgerServiceImpl::create_account, (req,), Ok(claim)),
        call_ensures(
            AccountClaim::claim_at,
            (claim, None, id, now),
            Ok(Ok(AccountStep::Create(key, row))),
        ),
        req.external_id@.len() > 0,
        external_id@ == req.external_id@,
        call_ensures(
            LedgerServiceImpl::get_account,
            (proto::GetAccountRequest {
                identifier: Some(proto::AccountIdentifier::ExternalId(external_id)),
            },),
            lookup,
        ),
        account.external_id == row.external_id,
        call_ensures(LedgerServiceImpl::domain_account_to_proto, (account,), m),
    ensures
        row.external_id matches Some(stored) && lookup matches Ok(
            AccountLookup::ByExternalId(looked_for),
        ) && stored@ == looked_for@,
        m.external_id@ == req.external_id@,
{
    lemma_account_message(account, m);
}

/// A new account is shown as it was asked for: its message carries the request's name, type,
/// balance and metadata.
pub proof fn law_new_accounts_are_shown_as_asked_for(
    req: proto::CreateAccountRequest,
    claim: AccountClaim,
    id: u128,
    now: DateTime,
    key: NewIdempotencyKey,
    row: NewAccount,
    account: Account,
    r: proto::CreateAccountResponse,
)
    requires
        call_ensures(LedgerServiceImpl::create_account, (req,), Ok(claim)),
        call_ensures(
            AccountClaim::claim_at,
            (claim, None, id, now),
            Ok(Ok(AccountStep::Create(key, row))),
        ),
        account.external_id == row.external_id,
        account.name == row.name,
        account.currency == row.currency,
        account.account_type == row.account_type,
        account.status == row.status,
        account.balance == row.balance,
        account.available_balance == row.available_balance,
        account.pending_balance == row.pending_balance,
        account.metadata == row.metadata,
        call_ensures(LedgerServiceImpl::create_account_response, (account, false), r),
    ensures
        !r.already_existed,
        r.account matches Some(m) && {
            &&& m.external_id@ == req.external_id@
            &&& m.name@ == req.name@
            &&& m.currency@ == uppercase(req.currency@)
            &&& m.account_type == req.account_type
            &&& m.status == 1
            &&& m.balance matches Some(b) && m.available_balance matches Some(a) && b.value@
                == a.value@
            &&& req.initial_balance matches Some(asked) ==> (m.balance matches Some(b)
                && decimal_parse(b.value@) == decimal_parse(asked.value@))
            &&& tells_of_account(m, account)
        },
{
    lemma_account_message(account, r.account.unwrap());
    if row.external_id is None {
        assert(r.account.unwrap().external_id@ =~= req.external_id@);
    }
}

/// An account is looked for by the id or the external id that a request names. An id that is none
/// and a request that names nothing are refused.
pub proof fn law_accounts_are_looked_for_as_named(
    req: proto::GetAccountRequest,
    r: Result<AccountLookup, Status>,
)
    requires
        call_ensures(LedgerServiceImpl::get_account, (req,), r),
    ensures
        r matches Err(status) ==> status.code is InvalidArgument,
        req.identifier is None ==> r is Err,
        req.identifier matches Some(proto::AccountIdentifier::ExternalId(e)) ==> (r matches Ok(
            AccountLookup::ByExternalId(f),
        ) && f@ == e@),
        req.identifier matches Some(proto::AccountIdentifier::Id(text)) ==> match uuid_value(
            text@,
        ) {
            Some(id) => r matches Ok(AccountLookup::ById(f)) && f == id,
            None => r is Err,
        },
{
}

/// The id that a message shows leads back to the account: looking for it, and asking for the
/// balance under it, look for that account.
pub proof fn law_shown_ids_lead_back(
    account: Account,
    m: proto::Account,
    text: String,
    lookup: Result<AccountLookup, Status>,
    req: proto::GetBalanceRequest,
    id: Result<u128, Status>,
)
    requires
        call_ensures(LedgerServiceImpl::domain_account_to_proto, (account,), m),
        text@ == m.id@,
        call_ensures(
            LedgerServiceImpl::get_account,
            (proto::GetAccountRequest { identifier: Some(proto::AccountIdentifier::Id(text)) },),
            lookup,
        ),
        req.account_id@ == m.id@,
        call_ensures(LedgerServiceImpl::get_balance, (&req,), id),
    ensures
        lookup matches Ok(AccountLookup::ById(found)) && found == account.id,
        id matches Ok(found) && found == account.id,
{
    law_id_text_parses_back(account.id);
}

/// The balance of an account is asked for under its id; what is no id is refused.
pub proof fn law_balances_are_asked_for_by_id(
    req: proto::GetBalanceRequest,
    r: Result<u128, Status>,
)
    requires
        call_ensures(LedgerServiceImpl::get_balance, (&req,), r),
    ensures
        match uuid_value(req.account_id@) {
            Some(id) => r matches Ok(found) && found == id,
            None => r matches Err(status) && status.code is InvalidArgument,
        },
{
}

/// What was looked for is what is found, and what was not found is named in the error.
pub proof fn law_found_accounts_are_handed_out(
    row: Option<Account>,
    id: u128,
    external_id: &str,
    by_id: Result<Account, LedgerError>,
    for_update: Result<Account, LedgerError>,
    by_external_id: Result<Account, LedgerError>,
)
    requires
        call_ensures(AccountRepository::get_by_id, (row, id), by_id),
        call_ensures(AccountRepository::get_for_update, (row, id), for_update),
        call_ensures(AccountRepository::get_by_external_id, (row, external_id), by_external_id),
    ensures
        row matches Some(account) ==> {
            &&& by_id matches Ok(a) && a == account
            &&& for_update matches Ok(a) && a == account
            &&& by_external_id matches Ok(a) && a == account
        },
        row is None ==> {
            &&& by_id matches Err(LedgerError::AccountNotFound(text)) && uuid_value(text@) == Some(
                id,
            )
            &&& for_update matches Err(LedgerError::AccountNotFound(text)) && uuid_value(text@)
                == Some(id)
            &&& by_external_id matches Err(LedgerError::AccountNotFound(text)) && text@
                == external_id@
        },
{
    law_id_text_parses_back(id);
}

/// The accounts that a request for a list selects are exactly those that it asks for: behind the
/// account that the token names, of the type, in the status and in the currency that it gives. A
/// type of zero, a number that stands for no status, an empty currency and a token that is no id
/// leave out none.
pub proof fn law_the_accounts_asked_for_are_listed(
    req: proto::ListAccountsRequest,
    r: Result<AccountQuery, Status>,
    a: Account,
    m: proto::Account,
)
    requires
        call_ensures(LedgerServiceImpl::list_accounts, (&req,), r),
        call_ensures(LedgerServiceImpl::domain_account_to_proto, (a,), m),
    ensures
        r is Ok <==> 0 <= req.filter_type <= 5,
        r matches Err(status) ==> status.code is InvalidArgument,
        r matches Ok(query) ==> {
            &&& query.filter.passes(a) <==> {
                &&& req.filter_type == 0 || m.account_type == req.filter_type
                &&& 1 <= req.filter_status <= 3 ==> m.status == req.filter_status
                &&& req.filter_currency@.len() > 0 ==> a.currency@ == req.filter_currency@
            }
            &&& query.selects(a) <==> query.filter.passes(a) && (uuid_value(
                req.page_token@,
            ) matches Some(id) ==> a.id > id)
            &&& query.after == uuid_value(req.page_token@)
            &&& query.filter.account_type is Some <==> req.filter_type != 0
            &&& query.filter.status is Some <==> 1 <= req.filter_status <= 3
            &&& query.filter.currency is Some <==> req.filter_currency@.len() > 0
        },
{
}

/// A page of accounts holds as many rows as the request asks for, but at least 1 and at most 100,
/// and one row more is fetched.
pub proof fn law_pages_of_accounts(
    req: proto::ListAccountsRequest,
    query: AccountQuery,
    rows: Vec<Account>,
    total: Option<i32>,
    r: proto::ListAccountsResponse,
)
    requires
        call_ensures(LedgerServiceImpl::list_accounts, (&req,), Ok(query)),
        call_ensures(LedgerServiceImpl::list_accounts_response, (req.page_size, rows, total), r),
    ensures
        2 <= query.max_rows <= 101,
        1 <= req.page_size <= 100 ==> query.max_rows == req.page_size + 1,
        req.page_size < 1 ==> query.max_rows == 2,
        req.page_size > 100 ==> query.max_rows == 101,
        r.accounts.len() == if rows.len() < query.max_rows {
            rows.len() as int
        } else {
            query.max_rows - 1
        },
        forall|i: int|
            0 <= i < r.accounts.len() ==> tells_of_account(#[trigger] r.accounts@[i], rows@[i]),
        rows.len() < query.max_rows ==> r.next_page_token@.len() == 0,
        rows.len() >= query.max_rows ==> uuid_value(r.next_page_token@) == Some(
            rows@[r.accounts.len() - 1].id,
        ),
        total matches Some(n) ==> r.total_count == n,
        total is None ==> r.total_count == 0,
{
    assert forall|i: int| 0 <= i < r.accounts.len() implies tells_of_account(
        #[trigger] r.accounts@[i],
        rows@[i],
    ) by {
        lemma_account_message(rows@[i], r.accounts@[i]);
    }
    if rows.len() >= query.max_rows {
        law_id_text_parses_back(rows@[r.accounts.len() - 1].id);
    }
}

/// The next page goes on where the last one ended: the token of a page, given to the next request,
/// selects accounts behind the last one that was handed out, and the filters stay what they are.
pub proof fn law_the_next_page_of_accounts(
    req: proto::ListAccountsRequest,
    query: AccountQuery,
    rows: Vec<Account>,
    total: Option<i32>,
    r: proto::ListAccountsResponse,
    next: proto::ListAccountsRequest,
    next_query: AccountQuery,
    a: Account,
)
    requires
        call_ensures(LedgerServiceImpl::list_accounts, (&req,), Ok(query)),
        call_ensures(LedgerServiceImpl::list_accounts_response, (req.page_size, rows, total), r),
        rows.len() >= query.max_rows,
        next.page_token@ == r.next_page_token@,
        next.filter_type == req.filter_type,
        next.filter_status == req.filter_status,
        next.filter_currency@ == req.filter_currency@,
        call_ensures(LedgerServiceImpl::list_accounts, (&next,), Ok(next_query)),
    ensures
        r.accounts.len() > 0,
        next_query.filter.passes(a) <==> query.filter.passes(a),
        next_query.selects(a) <==> query.filter.passes(a) && a.id > rows@[r.accounts.len() - 1].id,
{
    law_id_text_parses_back(rows@[r.accounts.len() - 1].id);
}

/// The row of a new account has its parameters, however they came about.
pub proof fn law_new_rows_have_their_parameters(
    params: CreateAccountParams,
    r: Result<NewAccount, LedgerError>,
)
    requires
        call_ensures(AccountRepository::create, (&params,), r),
    ensures
        r is Ok <==> params.name@.len() > 0 && encode_utf8(params.currency@).len() == 3 && (
        params.initial_balance matches Some(b) ==> b.units() >= 0),
        r matches Err(e) ==> e is ValidationError,
        r matches Ok(row) ==> {
            &&& row.external_id == params.external_id
            &&& row.name@ == params.name@
            &&& row.currency@ == params.currency@
            &&& row.account_type == params.account_type
            &&& row.status is Active
            &&& params.initial_balance matches Some(b) ==> row.balance == b
            &&& params.initial_balance is None ==> row.balance.units() == 0
            &&& row.available_balance == row.balance
            &&& row.pending_balance.units() == 0
            &&& row.metadata@ == params.metadata@
        },
{
    lemma_zero();
}

} // verus!
