//! Requests to post a transaction: which are taken on, which are refused at once, and what is
//! made of their entries.
use vstd::prelude::*;

use crate::decimal::{
    decimal_parse, law_representable_sums_are_exact, representable, Overflow,
};
use crate::domain::entry::{side_sum, CreateEntryParams, EntrySet, EntryType};
use crate::domain::transaction::TransactionWithEntries;
use crate::error::Status;
use crate::ids::uuid_value;
use crate::laws::messages::{lemma_transaction_message, lemma_zero, tells_of_transaction};
use crate::laws::metadata::{holds_metadata, lemma_holds};
use crate::laws::postings::waits;
use crate::proto;
use crate::service::ledger_service::LedgerServiceImpl;
use crate::service::posting::{
    entry_asked_for, entry_problem, first_entry_problem, requested_sum, PendingPosting, PostLookup,
    PostStep,
};

verus! {

/// Whether nothing is wrong with an entry by itself: its account is an id, its side is a debit or
/// a credit, and its amount is more than zero.
pub open spec fn well_formed(e: proto::EntryRequest) -> bool {
    &&& uuid_value(e.account_id@) is Some
    &&& e.entry_type == 1 || e.entry_type == 2
    &&& e.amount matches Some(m) && decimal_parse(m.value@) matches Some(amount) && amount.valid()
        && amount.units() > 0
}

/// What the first `n` entries of a request on one side are worth together.
pub open spec fn side_total(entries: Seq<proto::EntryRequest>, side: i32, n: int) -> int
    decreases n,
{
    if n <= 0 {
        0
    } else {
        side_total(entries, side, n - 1) + if entries[n - 1].entry_type == side {
            decimal_parse(entries[n - 1].amount.unwrap().value@).unwrap().units()
        } else {
            0
        }
    }
}

/// Whether some decimal is worth each partial sum of a side, so that adding up rounds nothing.
pub open spec fn adds_up(entries: Seq<proto::EntryRequest>, side: i32) -> bool {
    forall|n: int|
        0 <= n <= entries.len() ==> representable(#[trigger] side_total(entries, side, n))
}

proof fn lemma_no_problem(entries: Seq<proto::EntryRequest>)
    requires
        forall|i: int| 0 <= i < entries.len() ==> entry_problem(#[trigger] entries[i]) is None,
    ensures
        first_entry_problem(entries) is None,
    decreases entries.len(),
{
    if entries.len() > 0 {
        let before = entries.drop_last();
        assert forall|i: int| 0 <= i < before.len() implies entry_problem(
            #[trigger] before[i],
        ) is None by {
            assert(entry_problem(entries[i]) is None);
        }
        lemma_no_problem(before);
        assert(entry_problem(entries[entries.len() - 1]) is None);
    }
}

proof fn lemma_first_problem(entries: Seq<proto::EntryRequest>, i: int)
    requires
        0 <= i < entries.len(),
        forall|j: int| 0 <= j < i ==> entry_problem(#[trigger] entries[j]) is None,
        entry_problem(entries[i]) is Some,
    ensures
        first_entry_problem(entries) == entry_problem(entries[i]),
    decreases entries.len(),
{
    let before = entries.drop_last();
    if i == entries.len() - 1 {
        assert forall|j: int| 0 <= j < before.len() implies entry_problem(
            #[trigger] before[j],
        ) is None by {
            assert(entry_problem(entries[j]) is None);
        }
        lemma_no_problem(before);
    } else {
        assert forall|j: int| 0 <= j < i implies entry_problem(#[trigger] before[j]) is None by {
            assert(entry_problem(entries[j]) is None);
        }
        lemma_first_problem(before, i);
    }
}

proof fn lemma_total_of_prefix(
    entries: Seq<proto::EntryRequest>,
    shorter: Seq<proto::EntryRequest>,
    side: i32,
    n: int,
)
    requires
        n <= shorter.len() <= entries.len(),
        forall|i: int| 0 <= i < shorter.len() ==> shorter[i] == entries[i],
    ensures
        side_total(entries, side, n) == side_total(shorter, side, n),
    decreases n,
{
    if n > 0 {
        lemma_total_of_prefix(entries, shorter, side, n - 1);
        assert(shorter[n - 1] == entries[n - 1]);
    }
}

proof fn lemma_sum(entries: Seq<proto::EntryRequest>, side: EntryType, number: i32)
    requires
        number == 1 <==> side is Debit,
        number == 2 <==> side is Credit,
        forall|i: int| 0 <= i < entries.len() ==> well_formed(#[trigger] entries[i]),
        adds_up(entries, number),
    ensures
        requested_sum(entries, side) matches Some(sum) && sum.valid() && sum.units()
            == side_total(entries, number, entries.len() as int),
    decreases entries.len(),
{
    if entries.len() == 0 {
        lemma_zero();
    } else {
        let before = entries.drop_last();
        let n = entries.len() as int;
        assert forall|i: int| 0 <= i < before.len() implies well_formed(#[trigger] before[i]) by {
            assert(well_formed(entries[i]));
        }
        assert forall|k: int| 0 <= k <= before.len() implies representable(
            #[trigger] side_total(before, number, k),
        ) by {
            lemma_total_of_prefix(entries, before, number, k);
            assert(representable(side_total(entries, number, k)));
        }
        lemma_sum(before, side, number);
        lemma_total_of_prefix(entries, before, number, n - 1);
        let last = entries[n - 1];
        assert(well_formed(last));
        if last.entry_type == number {
            let amount = decimal_parse(last.amount.unwrap().value@).unwrap();
            assert(representable(side_total(entries, number, n)));
            law_representable_sums_are_exact(requested_sum(before, side).unwrap(), amount);
        }
    }
}

/// A request is refused at once exactly where it has no key or fewer than two entries, and is told
/// which. The key comes first.
pub proof fn law_requests_need_a_key_and_two_entries(
    req: proto::PostTransactionRequest,
    r: Result<PostLookup, Status>,
)
    requires
        call_ensures(LedgerServiceImpl::post_transaction, (req,), r),
    ensures
        r is Ok <==> req.idempotency_key@.len() > 0 && req.entries.len() >= 2,
        r matches Err(status) ==> status.code is InvalidArgument,
        req.idempotency_key@.len() == 0 ==> (r matches Err(status) && status.message@
            == "idempotency_key is required"@),
        req.idempotency_key@.len() > 0 && req.entries.len() < 2 ==> (r matches Err(status)
            && status.message@ == "Transaction must have at least 2 entries (double-entry)"@),
{
}

/// The key under which a transaction is looked for is the one that its request names.
pub proof fn law_postings_are_remembered_under_their_key(
    req: proto::PostTransactionRequest,
    lookup: PostLookup,
    key: &str,
)
    requires
        call_ensures(LedgerServiceImpl::post_transaction, (req,), Ok(lookup)),
        call_ensures(PostLookup::idempotency_key, (&lookup,), key),
    ensures
        key@ == req.idempotency_key@,
{
}

/// A request under a key that has posted a transaction is answered with that transaction and its
/// entries, whatever its own entries are, and nothing is posted.
pub proof fn law_repeated_postings_are_answered_with_the_first(
    lookup: PostLookup,
    existing: TransactionWithEntries,
    r: Result<Result<PostStep, Status>, Overflow>,
)
    requires
        call_ensures(PostLookup::found, (lookup, Some(existing)), r),
    ensures
        r matches Ok(Ok(PostStep::Answered(response))) && {
            &&& response.already_existed
            &&& response.transaction matches Some(m) && tells_of_transaction(
                m,
                existing.transaction,
                existing.entries@,
            )
        },
{
    let response = r->Ok_0->Ok_0->Answered_0;
    lemma_transaction_message(
        existing.transaction,
        existing.entries@,
        response.transaction.unwrap(),
    );
}

/// Double entry: where every entry is well-formed and no sum has to be rounded, a request is taken
/// on exactly where its debits are worth as much as its credits. Otherwise it is told that they
/// are not.
pub proof fn law_a_request_is_taken_on_where_it_balances(
    req: proto::PostTransactionRequest,
    lookup: PostLookup,
    r: Result<Result<PostStep, Status>, Overflow>,
)
    requires
        call_ensures(LedgerServiceImpl::post_transaction, (req,), Ok(lookup)),
        call_ensures(PostLookup::found, (lookup, None), r),
        forall|i: int| 0 <= i < req.entries.len() ==> well_formed(#[trigger] req.entries@[i]),
        adds_up(req.entries@, 1),
        adds_up(req.entries@, 2),
    ensures
        side_total(req.entries@, 1, req.entries.len() as int) == side_total(
            req.entries@,
            2,
            req.entries.len() as int,
        ) <==> r matches Ok(Ok(PostStep::Lock(_))),
        side_total(req.entries@, 1, req.entries.len() as int) != side_total(
            req.entries@,
            2,
            req.entries.len() as int,
        ) ==> (r matches Ok(Err(status)) && status.code is InvalidArgument && status.message@
            == "Debits must equal credits (double-entry balance violation)"@),
{
    assert forall|i: int| 0 <= i < req.entries.len() implies entry_problem(
        #[trigger] req.entries@[i],
    ) is None by {
        assert(well_formed(req.entries@[i]));
    }
    lemma_no_problem(req.entries@);
    lemma_sum(req.entries@, EntryType::Debit, 1);
    lemma_sum(req.entries@, EntryType::Credit, 2);
}

/// Rounded or not, a request whose entries are well-formed is taken on exactly where these entries
/// are a set, and overflows exactly where adding them up does.
pub proof fn law_requests_balance_where_their_entries_do(
    req: proto::PostTransactionRequest,
    lookup: PostLookup,
    r: Result<Result<PostStep, Status>, Overflow>,
    entries: Vec<CreateEntryParams>,
    set: Result<Result<EntrySet, &'static str>, Overflow>,
)
    requires
        call_ensures(LedgerServiceImpl::post_transaction, (req,), Ok(lookup)),
        call_ensures(PostLookup::found, (lookup, None), r),
        forall|i: int| 0 <= i < req.entries.len() ==> well_formed(#[trigger] req.entries@[i]),
        entries.len() == req.entries.len(),
        forall|i: int|
            0 <= i < entries.len() ==> {
                let p = #[trigger] entries@[i];
                let e = req.entries@[i];
                &&& e.entry_type == 1 <==> p.entry_type is Debit
                &&& e.amount matches Some(m) && decimal_parse(m.value@) == Some(p.amount)
            },
        call_ensures(EntrySet::checked_new, (entries,), set),
    ensures
        r is Err <==> set is Err,
        r matches Ok(Ok(PostStep::Lock(_))) <==> set matches Ok(Ok(_)),
        r matches Ok(Err(status)) ==> (set matches Ok(Err(m)) && status.message@ == m@),
{
    assert forall|i: int| 0 <= i < req.entries.len() implies entry_problem(
        #[trigger] req.entries@[i],
    ) is None by {
        assert(well_formed(req.entries@[i]));
    }
    lemma_no_problem(req.entries@);
    lemma_same_sums(req.entries@, entries@, EntryType::Debit);
    lemma_same_sums(req.entries@, entries@, EntryType::Credit);
}

proof fn lemma_same_sums(
    requested: Seq<proto::EntryRequest>,
    entries: Seq<CreateEntryParams>,
    side: EntryType,
)
    requires
        requested.len() == entries.len(),
        forall|i: int| 0 <= i < requested.len() ==> well_formed(#[trigger] requested[i]),
        forall|i: int|
            0 <= i < entries.len() ==> {
                let p = #[trigger] entries[i];
                let e = requested[i];
                &&& e.entry_type == 1 <==> p.entry_type is Debit
                &&& e.amount matches Some(m) && decimal_parse(m.value@) == Some(p.amount)
            },
    ensures
        side_sum(entries, side) == requested_sum(requested, side),
    decreases entries.len(),
{
    if entries.len() > 0 {
        let r = requested.drop_last();
        let p = entries.drop_last();
        let n = entries.len() - 1;
        assert forall|i: int| 0 <= i < r.len() implies well_formed(#[trigger] r[i]) by {
            assert(well_formed(requested[i]));
        }
        assert forall|i: int| 0 <= i < p.len() implies {
            let q = #[trigger] p[i];
            let e = r[i];
            &&& e.entry_type == 1 <==> q.entry_type is Debit
            &&& e.amount matches Some(m) && decimal_parse(m.value@) == Some(q.amount)
        } by {
            assert(entries[i] == p[i]);
        }
        lemma_same_sums(r, p, side);
        assert(well_formed(requested[n]));
        assert(entries[n] == entries.last());
    }
}

/// A request whose entries are not all well-formed is refused for the first of them that is not,
/// and told what is wrong with it: first comes the account, then the side, then the amount.
pub proof fn law_a_request_is_refused_for_its_first_bad_entry(
    req: proto::PostTransactionRequest,
    lookup: PostLookup,
    r: Result<Result<PostStep, Status>, Overflow>,
    i: int,
)
    requires
        call_ensures(LedgerServiceImpl::post_transaction, (req,), Ok(lookup)),
        call_ensures(PostLookup::found, (lookup, None), r),
        0 <= i < req.entries.len(),
        forall|j: int| 0 <= j < i ==> well_formed(#[trigger] req.entries@[j]),
        req.entries@[i].amount matches Some(m) ==> (decimal_parse(m.value@) matches Some(amount)
            ==> amount.valid()),
        !well_formed(req.entries@[i]),
    ensures
        r matches Ok(Err(status)) && status.code is InvalidArgument && {
            let e = req.entries@[i];
            if uuid_value(e.account_id@) is None {
                status.message@ == "Invalid account ID in entry"@
            } else if e.entry_type != 1 && e.entry_type != 2 {
                status.message@ == "Invalid entry type"@
            } else if e.amount is None {
                status.message@ == "Decimal value required"@
            } else if decimal_parse(e.amount.unwrap().value@) is None {
                status.message@ == "Invalid decimal: "@ + e.amount.unwrap().value@
            } else {
                status.message@ == "Entry amount must be positive"@
            }
        },
{
    assert forall|j: int| 0 <= j < i implies entry_problem(#[trigger] req.entries@[j]) is None by {
        assert(well_formed(req.entries@[j]));
    }
    lemma_first_problem(req.entries@, i);
}

/// What is posted is what was asked for: the transaction has the request's key, reference,
/// description and metadata, and its entries are those of the request, in their order, each with
/// its account, side, amount, description and metadata.
pub proof fn law_the_entries_asked_for_are_posted(
    req: proto::PostTransactionRequest,
    lookup: PostLookup,
    pending: PendingPosting,
)
    requires
        waits(req, lookup, pending),
    ensures
        pending@.transaction.idempotency_key@ == req.idempotency_key@,
        stands_for(pending@.transaction.reference, req.reference@),
        stands_for(pending@.transaction.description, req.description@),
        holds_metadata(pending@.transaction.metadata@, req.metadata@),
        pending@.entries.len() == req.entries.len(),
        req.entries.len() >= 2,
        forall|i: int|
            0 <= i < req.entries.len() ==> {
                let e = #[trigger] req.entries@[i];
                let p = pending@.entries[i];
                &&& uuid_value(e.account_id@) == Some(p.account_id)
                &&& e.entry_type == 1 <==> p.entry_type is Debit
                &&& e.entry_type == 2 <==> p.entry_type is Credit
                &&& e.amount matches Some(m) && decimal_parse(m.value@) == Some(p.amount)
                &&& p.amount.units() > 0
                &&& stands_for(p.description, e.description@)
                &&& holds_metadata(p.metadata@, e.metadata@)
            },
{
    lemma_holds(pending@.transaction.metadata@, req.metadata@);
    assert forall|i: int| 0 <= i < req.entries.len() implies {
        let e = #[trigger] req.entries@[i];
        let p = pending@.entries[i];
        &&& uuid_value(e.account_id@) == Some(p.account_id)
        &&& e.entry_type == 1 <==> p.entry_type is Debit
        &&& e.entry_type == 2 <==> p.entry_type is Credit
        &&& e.amount matches Some(m) && decimal_parse(m.value@) == Some(p.amount)
        &&& p.amount.units() > 0
        &&& stands_for(p.description, e.description@)
        &&& holds_metadata(p.metadata@, e.metadata@)
    } by {
        assert(entry_asked_for(req.entries@[i], pending@.entries[i]));
        lemma_holds(pending@.entries[i].metadata@, req.entries@[i].metadata@);
    }
}

/// Whether an optional text is what a message's text stands for: none where that is empty.
pub open spec fn stands_for(text: Option<String>, message: Seq<char>) -> bool {
    match text {
        Some(t) => t@ == message && message.len() > 0,
        None => message.len() == 0,
    }
}

} // verus!
