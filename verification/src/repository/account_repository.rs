//! Accounts in the database.
use std::collections::HashSet;
use vstd::prelude::*;
use vstd::seq_lib::lemma_sorted_unique;

use crate::decimal::{decimal_difference, Decimal, Overflow};
use crate::domain::account::{Account, AccountStatus, AccountType, CreateAccountParams};
use crate::error::{LedgerError, LedgerErrorView, Result};
use crate::ids::{id_text, uuid_text, uuid_value};
use crate::repository::page::{
    count_or_zero, cut, limit_of, page_limit, page_rows, token_id, token_to_id, total_count,
};

verus! {

pub struct AccountRepository;

/// A row to be inserted into the accounts. The database gives it its id, version and dates.
#[derive(Debug)]
pub struct NewAccount {
    pub external_id: Option<String>,
    pub name: String,
    pub currency: String,
    pub account_type: AccountType,
    pub status: AccountStatus,
    pub balance: Decimal,
    pub available_balance: Decimal,
    pub pending_balance: Decimal,
    pub metadata: String,
}

/// Whether the row is that of a new account with these parameters: active, with all of its
/// initial balance available.
pub open spec fn account_row(params: CreateAccountParams, row: NewAccount) -> bool {
    &&& row.external_id == params.external_id
    &&& row.name == params.name
    &&& row.currency == params.currency
    &&& row.account_type == params.account_type
    &&& row.status is Active
    &&& row.balance == match params.initial_balance {
        Some(balance) => balance,
        None => Decimal::of(0, 0),
    }
    &&& row.available_balance == row.balance
    &&& row.pending_balance == Decimal::of(0, 0)
    &&& row.metadata == params.metadata
}

/// A new balance for an account: the available balance becomes what is left of it without the
/// pending one, and the version goes up by one. With an expected version, the update is to
/// happen only at that version.
#[derive(Debug, Clone, Copy)]
pub struct BalanceUpdate {
    pub id: u128,
    pub new_balance: Decimal,
    pub expected_version: Option<i64>,
}

impl BalanceUpdate {
    /// Whether there is a row to be updated.
    pub open spec fn finds(self, accounts: Map<u128, Account>) -> bool {
        &&& accounts.contains_key(self.id)
        &&& self.expected_version matches Some(v) ==> accounts[self.id].version == v
    }

    /// How the row changes.
    pub open spec fn writes(self, before: Account, after: Account) -> bool {
        &&& after.balance.units() == self.new_balance.units()
        &&& after.available_balance.units() == self.new_balance.units()
            - before.pending_balance.units()
        &&& after.version == before.version + 1
        &&& after.id == before.id
        &&& after.external_id == before.external_id
        &&& after.name == before.name
        &&& after.currency == before.currency
        &&& after.account_type == before.account_type
        &&& after.status == before.status
        &&& after.pending_balance == before.pending_balance
        &&& after.metadata == before.metadata
        &&& after.created_at == before.created_at
    }

    /// What the update makes of the accounts: it changes its own row where it finds it, and
    /// nothing else.
    pub open spec fn makes(
        self,
        before: Map<u128, Account>,
        after: Map<u128, Account>,
    ) -> bool {
        if self.finds(before) {
            &&& after.dom() == before.dom()
            &&& self.writes(before[self.id], after[self.id])
            &&& forall|other: u128|
                other != self.id && before.contains_key(other) ==> #[trigger] after[other]
                    == before[other]
        } else {
            after == before
        }
    }

    /// What comes of the update.
    pub open spec fn outcome(self, accounts: Map<u128, Account>) -> OptimisticUpdate {
        if self.finds(accounts) {
            OptimisticUpdate::Updated((accounts[self.id].version + 1) as i64)
        } else if accounts.contains_key(self.id) {
            OptimisticUpdate::Refused(Some(accounts[self.id].version))
        } else {
            OptimisticUpdate::Refused(None)
        }
    }
}

/// The error that an update at an expected version amounts to, if it was refused.
pub open spec fn optimistic_error(
    id: u128,
    expected_version: i64,
    outcome: OptimisticUpdate,
) -> Option<LedgerErrorView> {
    match outcome {
        OptimisticUpdate::Updated(_) => None,
        OptimisticUpdate::Refused(Some(actual_version)) => Some(
            LedgerErrorView::OptimisticLockError {
                account_id: uuid_text(id),
                expected_version,
                actual_version,
            },
        ),
        OptimisticUpdate::Refused(None) => Some(LedgerErrorView::AccountNotFound(uuid_text(id))),
    }
}

/// What came of an update that is to happen only at a given version.
#[derive(Debug, Clone, Copy)]
pub enum OptimisticUpdate {
    /// The row was there with that version, and has this one now.
    Updated(i64),
    /// Nothing was updated. The row has this version, if there is one.
    Refused(Option<i64>),
}

/// A row to be inserted into the balance history.
#[derive(Debug, Clone, Copy)]
pub struct BalanceChange {
    pub account_id: u128,
    pub entry_id: u128,
    pub previous_balance: Decimal,
    pub new_balance: Decimal,
    pub change_amount: Decimal,
    pub version_before: i64,
    pub version_after: i64,
}

/// Which accounts to list, whatever the page.
#[derive(Debug)]
pub struct AccountFilter {
    pub account_type: Option<AccountType>,
    pub status: Option<AccountStatus>,
    pub currency: Option<String>,
}

/// Which accounts to fetch, in ascending order of their ids. All that pass the filter are
/// counted.
#[derive(Debug)]
pub struct AccountQuery {
    pub after: Option<u128>,
    pub filter: AccountFilter,
    pub max_rows: i32,
}

impl AccountFilter {
    /// Whether an account passes the filter.
    pub open spec fn passes(self, account: Account) -> bool {
        &&& self.account_type matches Some(t) ==> account.account_type == t
        &&& self.status matches Some(s) ==> account.status == s
        &&& self.currency matches Some(c) ==> account.currency@ == c@
    }

    /// How many of the accounts pass the filter.
    pub open spec fn count(self, accounts: Seq<Account>) -> nat
        decreases accounts.len(),
    {
        if accounts.len() == 0 {
            0
        } else {
            self.count(accounts.drop_last()) + if self.passes(accounts.last()) {
                1nat
            } else {
                0
            }
        }
    }
}

impl AccountQuery {
    /// Whether an account is among those that are asked for.
    pub open spec fn selects(self, account: Account) -> bool {
        &&& self.after matches Some(id) ==> account.id > id
        &&& self.filter.passes(account)
    }
}

/// Whether ids are in ascending order.
pub open spec fn sorted(ids: Seq<u128>) -> bool {
    forall|i: int, j: int| 0 <= i <= j < ids.len() ==> ids[i] <= ids[j]
}

/// Whether an account with this id was found.
pub open spec fn found(accounts: Seq<Account>, id: u128) -> bool {
    exists|i: int| 0 <= i < accounts.len() && (#[trigger] accounts[i]).id == id
}

/// Whether `id` is the smallest of the ids for which no account was found.
pub open spec fn smallest_missing(ids: Seq<u128>, accounts: Seq<Account>, id: u128) -> bool {
    &&& ids.contains(id)
    &&& !found(accounts, id)
    &&& forall|other: u128|
        #[trigger] ids.contains(other) && !found(accounts, other) ==> id <= other
}

impl AccountRepository {
    /// The row of a new account: active, with all of its initial balance available.
    pub fn create(params: &CreateAccountParams) -> (r: Result<NewAccount>)
        ensures
            match r {
                Ok(row) => params.problem() is None && account_row(*params, row),
                Err(e) => params.problem() matches Some(message) && e@
                    == LedgerErrorView::ValidationError(message),
            },
    {
        match params.validate() {
            Ok(_) => {},
            Err(message) => return Err(LedgerError::ValidationError(message.to_owned())),
        }
        let initial_balance = match params.initial_balance {
            Some(balance) => balance,
            None => Decimal::zero(),
        };
        let external_id = params.external_id.clone();
        assert(external_id == params.external_id);
        Ok(
            NewAccount {
                external_id,
                name: params.name.clone(),
                currency: params.currency.clone(),
                account_type: params.account_type,
                status: AccountStatus::Active,
                balance: initial_balance,
                available_balance: initial_balance,
                pending_balance: Decimal::zero(),
                metadata: params.metadata.clone(),
            },
        )
    }

    /// The account that was looked for by its id.
    pub fn get_by_id(row: Option<Account>, id: u128) -> (r: Result<Account>)
        ensures
            match (row, r) {
                (Some(account), Ok(a)) => a == account,
                (None, Err(e)) => e@ == LedgerErrorView::AccountNotFound(uuid_text(id)),
                _ => false,
            },
    {
        match row {
            Some(account) => Ok(account),
            None => Err(LedgerError::AccountNotFound(id_text(id))),
        }
    }

    /// The account that was looked for by its external id.
    pub fn get_by_external_id(row: Option<Account>, external_id: &str) -> (r: Result<Account>)
        ensures
            match (row, r) {
                (Some(account), Ok(a)) => a == account,
                (None, Err(e)) => e@ == LedgerErrorView::AccountNotFound(external_id@),
                _ => false,
            },
    {
        match row {
            Some(account) => Ok(account),
            None => Err(LedgerError::AccountNotFound(external_id.to_owned())),
        }
    }

    /// The account that was looked for by its id, to be updated.
    pub fn get_for_update(row: Option<Account>, id: u128) -> (r: Result<Account>)
        ensures
            match (row, r) {
                (Some(account), Ok(a)) => a == account,
                (None, Err(e)) => e@ == LedgerErrorView::AccountNotFound(uuid_text(id)),
                _ => false,
            },
    {
        Self::get_by_id(row, id)
    }

    /// The order in which accounts are locked: that of their ids, which is the same for every
    /// transaction.
    pub fn lock_order(ids: &Vec<u128>) -> (r: Vec<u128>)
        ensures
            sorted(r@),
            r@.to_multiset() == ids@.to_multiset(),
    {
        broadcast use vstd::seq_lib::group_to_multiset_ensures;

        let mut out: Vec<u128> = Vec::new();
        let mut i: usize = 0;
        assert(ids@.take(0) =~= out@);
        while i < ids.len()
            invariant
                i <= ids.len(),
                sorted(out@),
                out@.len() == i,
                out@.to_multiset() == ids@.take(i as int).to_multiset(),
            decreases ids.len() - i,
        {
            let id = ids[i];
            let mut j: usize = out.len();
            while j > 0 && out[j - 1] > id
                invariant
                    j <= out.len(),
                    sorted(out@),
                    forall|k: int| j <= k < out.len() ==> #[trigger] out[k] > id,
                decreases j,
            {
                j -= 1;
            }
            proof {
                assert(ids@.take(i + 1) =~= ids@.take(i as int).push(id));
                vstd::seq_lib::to_multiset_insert(out@, j as int, id);
                ids@.take(i as int).to_multiset_ensures();
            }
            out.insert(j, id);
            i += 1;
        }
        assert(ids@.take(i as int) =~= ids@);
        out
    }

    /// The accounts that were locked. That there are fewer of them than ids is an error where
    /// it comes from an account that is missing, and none where an id was named twice.
    pub fn get_multiple_for_update(rows: Vec<Account>, ids: &Vec<u128>) -> (r: Result<Vec<Account>>)
        ensures
            match r {
                Ok(accounts) => accounts == rows && (rows.len() == ids.len() || forall|id: u128| #[trigger]
                    ids@.contains(id) ==> found(rows@, id)),
                Err(e) => rows.len() != ids.len() && exists|id: u128|
                    {
                        &&& #[trigger] smallest_missing(ids@, rows@, id)
                        &&& e@ == LedgerErrorView::AccountNotFound(uuid_text(id))
                    },
            },
    {
        broadcast use vstd::std_specs::hash::group_hash_axioms;
        broadcast use vstd::seq_lib::group_to_multiset_ensures;

        let sorted_ids = Self::lock_order(ids);
        proof {
            lemma_same_elements(sorted_ids@, ids@);
        }
        if rows.len() != ids.len() {
            let mut found_ids: HashSet<u128> = HashSet::new();
            let mut i: usize = 0;
            while i < rows.len()
                invariant
                    i <= rows.len(),
                    forall|id: u128| #[trigger]
                        found_ids@.contains(id) <==> found(rows@.take(i as int), id),
                decreases rows.len() - i,
            {
                let ghost before = found_ids@;
                found_ids.insert(rows[i].id);
                proof {
                    assert forall|id: u128| #[trigger] found_ids@.contains(id) <==> found(
                        rows@.take(i + 1),
                        id,
                    ) by {
                        if before.contains(id) {
                            let k = choose|k: int|
                                0 <= k < i && (#[trigger] rows@.take(i as int)[k]).id == id;
                            assert(rows@.take(i + 1)[k].id == id);
                        }
                        if id == rows@[i as int].id {
                            assert(rows@.take(i + 1)[i as int].id == id);
                        }
                        if found(rows@.take(i + 1), id) {
                            let k = choose|k: int|
                                0 <= k < i + 1 && (#[trigger] rows@.take(i + 1)[k]).id == id;
                            if k < i {
                                assert(rows@.take(i as int)[k].id == id);
                            }
                        }
                    }
                }
                i += 1;
            }
            assert(rows@.take(i as int) =~= rows@);
            let mut j: usize = 0;
            while j < sorted_ids.len()
                invariant
                    j <= sorted_ids.len(),
                    rows.len() != ids.len(),
                    sorted(sorted_ids@),
                    forall|id: u128| #[trigger] found_ids@.contains(id) <==> found(rows@, id),
                    forall|id: u128| #[trigger] ids@.contains(id) <==> sorted_ids@.contains(id),
                    forall|k: int| 0 <= k < j ==> found(rows@, #[trigger] sorted_ids@[k]),
                decreases sorted_ids.len() - j,
            {
                let id = sorted_ids[j];
                if !found_ids.contains(&id) {
                    assert(sorted_ids@.contains(id));
                    assert forall|other: u128| #[trigger]
                        ids@.contains(other) && !found(rows@, other) implies id <= other by {
                        let k = choose|k: int|
                            0 <= k < sorted_ids.len() && #[trigger] sorted_ids@[k] == other;
                        assert(k >= j);
                    }
                    assert(smallest_missing(ids@, rows@, id));
                    return Err(LedgerError::AccountNotFound(id_text(id)));
                }
                j += 1;
            }
        }
        Ok(rows)
    }

    /// The update that sets the balance of an account whose row is locked.
    pub fn update_balance_locked(id: u128, new_balance: Decimal) -> (r: BalanceUpdate)
        ensures
            r == (BalanceUpdate { id, new_balance, expected_version: None }),
    {
        BalanceUpdate { id, new_balance, expected_version: None }
    }

    /// The update that sets the balance of an account only at `expected_version`.
    pub fn balance_update_at(id: u128, new_balance: Decimal, expected_version: i64) -> (r:
        BalanceUpdate)
        ensures
            r == (BalanceUpdate { id, new_balance, expected_version: Some(expected_version) }),
    {
        BalanceUpdate { id, new_balance, expected_version: Some(expected_version) }
    }

    /// What an update that is to happen only at `expected_version` amounts to.
    pub fn update_balance_optimistic(
        id: u128,
        expected_version: i64,
        outcome: OptimisticUpdate,
    ) -> (r: Result<()>)
        ensures
            match r {
                Ok(_) => optimistic_error(id, expected_version, outcome) is None,
                Err(e) => optimistic_error(id, expected_version, outcome) == Some(e@),
            },
    {
        match outcome {
            OptimisticUpdate::Updated(_) => Ok(()),
            OptimisticUpdate::Refused(current) => match current {
                Some(actual_version) => Err(
                    LedgerError::OptimisticLockError {
                        account_id: id_text(id),
                        expected_version,
                        actual_version,
                    },
                ),
                None => Err(LedgerError::AccountNotFound(id_text(id))),
            },
        }
    }

    /// The row that records a change of balance, of which the amount must be in range.
    pub fn record_balance_history(
        account_id: u128,
        entry_id: u128,
        previous_balance: Decimal,
        new_balance: Decimal,
        version_before: i64,
        version_after: i64,
    ) -> (r: BalanceChange)
        requires
            decimal_difference(new_balance, previous_balance) is Some,
        ensures
            r.account_id == account_id,
            r.entry_id == entry_id,
            r.previous_balance == previous_balance,
            r.new_balance == new_balance,
            decimal_difference(new_balance, previous_balance) == Some(r.change_amount),
            r.version_before == version_before,
            r.version_after == version_after,
    {
        BalanceChange {
            account_id,
            entry_id,
            previous_balance,
            new_balance,
            change_amount: new_balance.sub(previous_balance),
            version_before,
            version_after,
        }
    }

    /// The row that records a change of balance, or an overflow where the amount is out of
    /// range.
    pub fn checked_record_balance_history(
        account_id: u128,
        entry_id: u128,
        previous_balance: Decimal,
        new_balance: Decimal,
        version_before: i64,
        version_after: i64,
    ) -> (r: std::result::Result<BalanceChange, Overflow>)
        ensures
            match r {
                Ok(row) => {
                    &&& row.account_id == account_id
                    &&& row.entry_id == entry_id
                    &&& row.previous_balance == previous_balance
                    &&& row.new_balance == new_balance
                    &&& decimal_difference(new_balance, previous_balance) == Some(row.change_amount)
                    &&& row.version_before == version_before
                    &&& row.version_after == version_after
                },
                Err(_) => decimal_difference(new_balance, previous_balance) is None,
            },
    {
        if new_balance.checked_sub(previous_balance).is_none() {
            return Err(Overflow);
        }
        Ok(
            Self::record_balance_history(
                account_id,
                entry_id,
                previous_balance,
                new_balance,
                version_before,
                version_after,
            ),
        )
    }

    /// What to fetch for a page of accounts: those behind the token that pass the filters, and
    /// one more than the page holds.
    pub fn list(
        page_size: i32,
        page_token: Option<&str>,
        filter_type: Option<AccountType>,
        filter_status: Option<AccountStatus>,
        filter_currency: Option<&str>,
    ) -> (r: AccountQuery)
        ensures
            r.after == token_id(page_token),
            r.filter.account_type == filter_type,
            r.filter.status == filter_status,
            match (filter_currency, r.filter.currency) {
                (Some(c), Some(currency)) => currency@ == c@,
                (None, None) => true,
                _ => false,
            },
            r.max_rows == page_limit(page_size as int) + 1,
    {
        AccountQuery {
            after: token_to_id(page_token),
            filter: AccountFilter {
                account_type: filter_type,
                status: filter_status,
                currency: match filter_currency {
                    Some(c) => Some(c.to_owned()),
                    None => None,
                },
            },
            max_rows: limit_of(page_size) + 1,
        }
    }

    /// A page of accounts, the token for the next page if there is one, and how many accounts
    /// pass the filters in all.
    pub fn list_page(page_size: i32, rows: Vec<Account>, total: Option<i32>) -> (r: (
        Vec<Account>,
        Option<String>,
        i32,
    ))
        ensures
            r.0@ == page_rows(rows@, page_limit(page_size as int)),
            match r.1 {
                Some(token) => rows.len() > page_limit(page_size as int) && token@ == uuid_text(
                    r.0@.last().id,
                ) && uuid_value(token@) == Some(r.0@.last().id),
                None => rows.len() <= page_limit(page_size as int),
            },
            r.2 == total_count(total),
    {
        let (page, has_more) = cut(page_size, rows);
        let next_token = if has_more {
            Some(id_text(page[page.len() - 1].id))
        } else {
            None
        };
        (page, next_token, count_or_zero(total))
    }
}

/// Two lists with the same multiset of elements have the same elements.
proof fn lemma_same_elements(a: Seq<u128>, b: Seq<u128>)
    requires
        a.to_multiset() == b.to_multiset(),
    ensures
        forall|id: u128| #[trigger] b.contains(id) <==> a.contains(id),
{
    broadcast use vstd::seq_lib::group_to_multiset_ensures;

    assert forall|id: u128| #[trigger] b.contains(id) <==> a.contains(id) by {
        assert(a.contains(id) <==> a.to_multiset().count(id) > 0);
        assert(b.contains(id) <==> b.to_multiset().count(id) > 0);
    }
}

/// Accounts are locked in the same order however a request lists them.
pub proof fn law_lock_order_is_unique(a: Seq<u128>, b: Seq<u128>)
    requires
        sorted(a),
        sorted(b),
        a.to_multiset() == b.to_multiset(),
    ensures
        a == b,
{
    let leq = |x: u128, y: u128| x <= y;
    assert(vstd::relations::sorted_by(a, leq));
    assert(vstd::relations::sorted_by(b, leq));
    assert(vstd::relations::total_ordering(leq));
    lemma_sorted_unique(a, b, leq);
}

/// No two transactions wait for each other: of two accounts that both of them lock, both lock
/// the same one first.
pub proof fn law_locks_never_cross(a: Seq<u128>, b: Seq<u128>, i: int, j: int, p: int, q: int)
    requires
        sorted(a),
        sorted(b),
        0 <= i < j < a.len(),
        a[i] != a[j],
        0 <= p < b.len(),
        0 <= q < b.len(),
        b[p] == a[i],
        b[q] == a[j],
    ensures
        p < q,
{
}

/// The next page goes on where the last one ended: of the accounts that pass the filters, in
/// ascending order of their ids, a query with the id of one of them as its token selects exactly
/// those that follow it.
pub proof fn law_next_accounts_follow_the_token(
    accounts: Seq<Account>,
    next: AccountQuery,
    n: int,
    i: int,
)
    requires
        forall|p: int, q: int| 0 <= p < q < accounts.len() ==> accounts[p].id < accounts[q].id,
        forall|p: int|
            0 <= p < accounts.len() ==> next.filter.passes(#[trigger] accounts[p]),
        0 < n <= accounts.len(),
        next.after == Some(accounts[n - 1].id),
        0 <= i < accounts.len(),
    ensures
        next.selects(accounts[i]) <==> i >= n,
{
}

/// Optimistic locking: an update at an expected version goes through where the account has that
/// version, changes that account alone and raises its version. Where the account has another
/// version, or is not there, the error says so and nothing changes.
pub proof fn law_optimistic_updates(
    update: BalanceUpdate,
    expected_version: i64,
    before: Map<u128, Account>,
    after: Map<u128, Account>,
)
    requires
        update.expected_version == Some(expected_version),
        update.makes(before, after),
    ensures
        !before.contains_key(update.id) ==> after == before && optimistic_error(
            update.id,
            expected_version,
            update.outcome(before),
        ) == Some(LedgerErrorView::AccountNotFound(uuid_text(update.id))),
        before.contains_key(update.id) && before[update.id].version != expected_version ==> after
            == before && optimistic_error(update.id, expected_version, update.outcome(before))
            == Some(
            LedgerErrorView::OptimisticLockError {
                account_id: uuid_text(update.id),
                expected_version,
                actual_version: before[update.id].version,
            },
        ),
        before.contains_key(update.id) && before[update.id].version == expected_version ==> {
            &&& optimistic_error(update.id, expected_version, update.outcome(before)) is None
            &&& update.writes(before[update.id], after[update.id])
            &&& after[update.id].version == expected_version + 1
            &&& forall|other: u128|
                other != update.id && before.contains_key(other) ==> #[trigger] after[other]
                    == before[other]
        },
{
}

/// Of two updates at the same version the second is refused, whatever balance it would set.
pub proof fn law_second_update_at_a_version_is_refused(
    first: BalanceUpdate,
    second: BalanceUpdate,
    expected_version: i64,
    before: Map<u128, Account>,
    after: Map<u128, Account>,
)
    requires
        first.expected_version == Some(expected_version),
        second.expected_version == Some(expected_version),
        second.id == first.id,
        first.finds(before),
        first.makes(before, after),
    ensures
        !second.finds(after),
        optimistic_error(second.id, expected_version, second.outcome(after)) == Some(
            LedgerErrorView::OptimisticLockError {
                account_id: uuid_text(second.id),
                expected_version,
                actual_version: (expected_version + 1) as i64,
            },
        ),
{
    assert(after.dom().contains(first.id));
}

} // verus!
