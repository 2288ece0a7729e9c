//! What holds of the services, whatever the ledger and the request.

use vstd::prelude::*;
use crate::account::{
    account_currency_check,
    account_type_check,
    changed_account,
    create_account_outcome,
    delete_account_outcome,
    get_account_outcome,
    update_account_outcome,
    CreateAccountRequestView,
    UpdateAccountRequestView,
};
use crate::amount::lemma_order_transitive;
use crate::error::Failure;
use crate::holdings::{
    already_held,
    bounds_check,
    create_holdings_outcome,
    delete_holdings_outcome,
    get_holdings_outcome,
    update_holdings_outcome,
    CreateHoldingsRequestView,
    UpdateHoldingsRequestView,
};
use crate::ledger::{
    held_in,
    lemma_filter_keeps_iff_some_passes,
    refers_to,
    touches_account,
    LedgerView,
};
use crate::lookup::{
    lemma_account_found_at,
    lemma_accounts_after_push,
    lemma_holdings_after_push,
    lemma_transactions_after_push,
    lemma_transactions_after_remove,
};
use crate::query::{
    by_newest,
    lemma_by_newest_sorts,
    list_transactions_outcome,
    newest_first,
    page_of,
    page_size_of,
    page_window,
    selected,
    selects,
    TransactionQueryView,
};
use crate::records::{AccountView, AssetType, HoldingsView, TransactionView, TxnKind};
use crate::soundness::owns_account;
use crate::text::{is_currency_code, lower_code, trimmed, upper_code};
use crate::transaction::{
    create_transaction_outcome,
    delete_transaction_outcome,
    get_transaction_outcome,
    update_transaction_outcome,
    CreateTransactionRequestView,
    UpdateTransactionRequestView,
};

verus! {

/// Some transaction takes from the account or gives to it, or some position
/// is held in it.
pub open spec fn account_in_use(lv: LedgerView, account_id: u128) -> bool {
    ||| exists|i: int|
        0 <= i < lv.transactions.len() && (#[trigger] lv.transactions[i]).from_account_id == Some(
            account_id,
        )
    ||| exists|i: int|
        0 <= i < lv.transactions.len() && (#[trigger] lv.transactions[i]).to_account_id == Some(
            account_id,
        )
    ||| exists|i: int| 0 <= i < lv.holdings.len() && (#[trigger] lv.holdings[i]).account_id == account_id
}

/// Closing an account that its owner asks to close fails as a conflict
/// exactly when a transaction or a position refers to the account. Where
/// none does, the account is closed: it is gone from the ledger, and nothing
/// else has changed.
pub proof fn law_account_closes_unless_in_use(lv: LedgerView, user_id: u128, account_id: u128)
    requires
        lv.wf(),
        get_account_outcome(lv, user_id, account_id) is Ok,
    ensures
        delete_account_outcome(lv, user_id, account_id) matches Err(Failure::Conflict(_))
            <==> account_in_use(lv, account_id),
        !account_in_use(lv, account_id) ==> delete_account_outcome(lv, user_id, account_id) == Ok::<
            LedgerView,
            Failure,
        >(lv.without_account(account_id)),
        lv.without_account(account_id).wf(),
        !lv.without_account(account_id).has_account(account_id),
        lv.without_account(account_id).transactions == lv.transactions,
        lv.without_account(account_id).holdings == lv.holdings,
{
    lemma_filter_keeps_iff_some_passes(lv.transactions, touches_account(account_id));
    lemma_filter_keeps_iff_some_passes(lv.holdings, held_in(account_id));
    if lv.transactions_touching(account_id).len() > 0 {
        let i = choose|i: int|
            0 <= i < lv.transactions.len() && touches_account(account_id)(
                #[trigger] lv.transactions[i],
            );
        assert(lv.transactions[i].from_account_id == Some(account_id)
            || lv.transactions[i].to_account_id == Some(account_id));
    }
    if lv.holdings_in(account_id).len() > 0 {
        let i = choose|i: int|
            0 <= i < lv.holdings.len() && held_in(account_id)(#[trigger] lv.holdings[i]);
        assert(lv.holdings[i].account_id == account_id);
    }
    if account_in_use(lv, account_id) {
        if exists|i: int|
            0 <= i < lv.transactions.len() && (#[trigger] lv.transactions[i]).from_account_id
                == Some(account_id) {
            let i = choose|i: int|
                0 <= i < lv.transactions.len() && (#[trigger] lv.transactions[i]).from_account_id
                    == Some(account_id);
            assert(touches_account(account_id)(lv.transactions[i]));
        } else if exists|i: int|
            0 <= i < lv.transactions.len() && (#[trigger] lv.transactions[i]).to_account_id == Some(
                account_id,
            ) {
            let i = choose|i: int|
                0 <= i < lv.transactions.len() && (#[trigger] lv.transactions[i]).to_account_id
                    == Some(account_id);
            assert(touches_account(account_id)(lv.transactions[i]));
        } else {
            let i = choose|i: int|
                0 <= i < lv.holdings.len() && (#[trigger] lv.holdings[i]).account_id == account_id;
            assert(held_in(account_id)(lv.holdings[i]));
        }
    }
    let k = lv.account_index(account_id);
    let rest = lv.without_account(account_id);
    assert(lv.accounts[k].id == account_id);
    assert forall|i: int| 0 <= i < rest.accounts.len() implies (#[trigger] rest.accounts[i]).id
        != account_id by {
        if i < k {
            assert(rest.accounts[i] == lv.accounts[i]);
            assert(lv.accounts[i].id != lv.accounts[k].id);
        } else {
            assert(rest.accounts[i] == lv.accounts[i + 1]);
            assert(lv.accounts[k].id != lv.accounts[i + 1].id);
        }
    }
    assert forall|i: int, j: int| 0 <= i < j < rest.accounts.len() implies (
    #[trigger] rest.accounts[i]).id != (#[trigger] rest.accounts[j]).id by {
        let a = if i < k {
            i
        } else {
            i + 1
        };
        let b = if j < k {
            j
        } else {
            j + 1
        };
        assert(rest.accounts[i] == lv.accounts[a]);
        assert(rest.accounts[j] == lv.accounts[b]);
        assert(lv.accounts[a].id != lv.accounts[b].id);
    }
}

/// A transfer that is recorded names two accounts, which differ, and no
/// reference; it is found in the ledger afterwards. A transfer that names
/// fewer than two accounts, the same account twice, or an account that is
/// not the caller's, is not recorded.
pub proof fn law_transfer_joins_two_owned_accounts(
    lv: LedgerView,
    user_id: u128,
    req: CreateTransactionRequestView,
    id: u128,
    now: i64,
)
    requires
        lv.wf(),
        TxnKind::of_code(lower_code(req.txn_type)) == Some(TxnKind::Transfer),
    ensures
        create_transaction_outcome(lv, user_id, req, id, now) matches Ok((after, t)) ==> {
            &&& t.txn_type == TxnKind::Transfer
            &&& t.from_account_id is Some
            &&& t.to_account_id is Some
            &&& t.from_account_id != t.to_account_id
            &&& t.from_account_id == req.from_account_id
            &&& t.to_account_id == req.to_account_id
            &&& t.ref_transaction_id is None
            &&& lv.find_account(t.from_account_id->0) matches Some(a) && a.user_id == user_id
            &&& lv.find_account(t.to_account_id->0) matches Some(a) && a.user_id == user_id
            &&& after.wf()
            &&& after.find_transaction(id) == Some(t)
        },
        req.from_account_id is None || req.to_account_id is None || req.from_account_id
            == req.to_account_id ==> create_transaction_outcome(lv, user_id, req, id, now) is Err,
        req.from_account_id matches Some(a) && !(lv.find_account(a) matches Some(found)
            && found.user_id == user_id) ==> create_transaction_outcome(
            lv,
            user_id,
            req,
            id,
            now,
        ) is Err,
        req.to_account_id matches Some(a) && !(lv.find_account(a) matches Some(found)
            && found.user_id == user_id) ==> create_transaction_outcome(
            lv,
            user_id,
            req,
            id,
            now,
        ) is Err,
{
    if create_transaction_outcome(lv, user_id, req, id, now) is Ok {
        let (after, t) = create_transaction_outcome(lv, user_id, req, id, now)->Ok_0;
        lemma_transactions_after_push(lv, t, id);
    }
}

/// A refund or an adjustment is recorded only if it names exactly one
/// account and refers to a transaction that is the caller's and is in the
/// same currency. The record keeps the reference.
pub proof fn law_correction_refers_to_own_transaction(
    lv: LedgerView,
    user_id: u128,
    req: CreateTransactionRequestView,
    id: u128,
    now: i64,
)
    requires
        lv.wf(),
        TxnKind::of_code(lower_code(req.txn_type)) matches Some(kind) && kind.corrects(),
    ensures
        create_transaction_outcome(lv, user_id, req, id, now) matches Ok((after, t)) ==> {
            &&& (req.from_account_id is Some) != (req.to_account_id is Some)
            &&& req.ref_transaction_id is Some
            &&& lv.find_transaction(req.ref_transaction_id->0) matches Some(original)
                && original.user_id == user_id && original.currency_code == upper_code(
                req.currency_code,
            )
            &&& t.ref_transaction_id == req.ref_transaction_id
            &&& t.currency_code == upper_code(req.currency_code)
            &&& t.from_account_id == req.from_account_id
            &&& t.to_account_id == req.to_account_id
            &&& t.to_amount is None
            &&& t.to_currency_code is None
        },
{
}

/// An account that has just been opened is read back as it was stored, by
/// its owner, however often it is read.
pub proof fn law_account_reads_back(
    lv: LedgerView,
    user_id: u128,
    req: CreateAccountRequestView,
    id: u128,
    now: i64,
)
    requires
        lv.wf(),
        create_account_outcome(lv, user_id, req, id, now) is Ok,
    ensures
        ({
            let (after, a) = create_account_outcome(lv, user_id, req, id, now)->Ok_0;
            after.wf() && a.id == id && a.user_id == user_id && get_account_outcome(after, user_id, id)
                == Ok::<AccountView, Failure>(a)
        }),
{
    let (after, a) = create_account_outcome(lv, user_id, req, id, now)->Ok_0;
    lemma_accounts_after_push(lv, a, id);
}

/// A transaction that has just been recorded is read back as it was stored,
/// by its owner, however often it is read.
pub proof fn law_transaction_reads_back(
    lv: LedgerView,
    user_id: u128,
    req: CreateTransactionRequestView,
    id: u128,
    now: i64,
)
    requires
        lv.wf(),
        create_transaction_outcome(lv, user_id, req, id, now) is Ok,
    ensures
        ({
            let (after, t) = create_transaction_outcome(lv, user_id, req, id, now)->Ok_0;
            after.wf() && t.id == id && t.user_id == user_id && get_transaction_outcome(
                after,
                user_id,
                id,
            ) == Ok::<TransactionView, Failure>(t)
        }),
{
    let (after, t) = create_transaction_outcome(lv, user_id, req, id, now)->Ok_0;
    lemma_transactions_after_push(lv, t, id);
}

/// A position that has just been opened is read back as it was stored, by
/// its owner, however often it is read.
pub proof fn law_holdings_read_back(
    lv: LedgerView,
    user_id: u128,
    req: CreateHoldingsRequestView,
    id: u128,
    now: i64,
)
    requires
        lv.wf(),
        create_holdings_outcome(lv, user_id, req, id, now) is Ok,
    ensures
        ({
            let (after, h) = create_holdings_outcome(lv, user_id, req, id, now)->Ok_0;
            after.wf() && h.id == id && h.user_id == user_id && get_holdings_outcome(
                after,
                user_id,
                id,
            ) == Ok::<HoldingsView, Failure>(h)
        }),
{
    let (after, h) = create_holdings_outcome(lv, user_id, req, id, now)->Ok_0;
    lemma_holdings_after_push(lv, h);
}

/// Changing the name of an account changes its name and the time of its last
/// change, and nothing else: not another field of the account, not another
/// account, not a transaction, not a position.
pub proof fn law_rename_changes_name_only(
    lv: LedgerView,
    user_id: u128,
    account_id: u128,
    name: Seq<char>,
    now: i64,
)
    requires
        lv.wf(),
        update_account_outcome(
            lv,
            user_id,
            account_id,
            UpdateAccountRequestView { name: Some(name), account_type: None, currency_code: None },
            now,
        ) is Ok,
    ensures
        ({
            let req = UpdateAccountRequestView {
                name: Some(name),
                account_type: None,
                currency_code: None,
            };
            let (after, b) = update_account_outcome(lv, user_id, account_id, req, now)->Ok_0;
            let a = lv.find_account(account_id)->0;
            &&& lv.find_account(account_id) is Some
            &&& b == AccountView { name: trimmed(name), updated_at: now, ..a }
            &&& after.wf()
            &&& after.find_account(account_id) == Some(b)
            &&& after.accounts.len() == lv.accounts.len()
            &&& forall|i: int|
                0 <= i < lv.accounts.len() && (#[trigger] lv.accounts[i]).id != account_id
                    ==> after.accounts[i] == lv.accounts[i]
            &&& after.transactions == lv.transactions
            &&& after.holdings == lv.holdings
        }),
{
    let req = UpdateAccountRequestView { name: Some(name), account_type: None, currency_code: None };
    let (after, b) = update_account_outcome(lv, user_id, account_id, req, now)->Ok_0;
    let a = lv.find_account(account_id)->0;
    let k = lv.account_index(account_id);
    assert(lv.accounts[k].id == account_id);
    assert(b == changed_account(a, req, now));
    assert(after.accounts == lv.accounts.update(k, b));
    assert forall|i: int, j: int| 0 <= i < j < after.accounts.len() implies (
    #[trigger] after.accounts[i]).id != (#[trigger] after.accounts[j]).id by {
        assert(after.accounts[i].id == lv.accounts[i].id);
        assert(after.accounts[j].id == lv.accounts[j].id);
    }
    lemma_account_found_at(after, k);
    assert forall|i: int|
        0 <= i < lv.accounts.len() && (#[trigger] lv.accounts[i]).id != account_id implies after.accounts[i]
        == lv.accounts[i] by {
        assert(i != k);
    }
}

/// Some transaction refers to this one.
pub open spec fn referred_to(lv: LedgerView, txn_id: u128) -> bool {
    exists|i: int|
        0 <= i < lv.transactions.len() && (#[trigger] lv.transactions[i]).ref_transaction_id
            == Some(txn_id)
}

/// Removing a transaction that its owner asks to remove fails as a conflict
/// exactly when another transaction refers to it. Where none does, it is
/// removed: it is gone from the ledger, and nothing else has changed.
pub proof fn law_transaction_goes_unless_referred_to(lv: LedgerView, user_id: u128, txn_id: u128)
    requires
        lv.wf(),
        get_transaction_outcome(lv, user_id, txn_id) is Ok,
    ensures
        delete_transaction_outcome(lv, user_id, txn_id) matches Err(Failure::Conflict(_))
            <==> referred_to(lv, txn_id),
        !referred_to(lv, txn_id) ==> delete_transaction_outcome(lv, user_id, txn_id) == Ok::<
            LedgerView,
            Failure,
        >(lv.without_transaction(txn_id)),
        lv.without_transaction(txn_id).wf(),
        !lv.without_transaction(txn_id).has_transaction(txn_id),
        lv.without_transaction(txn_id).accounts == lv.accounts,
        lv.without_transaction(txn_id).holdings == lv.holdings,
{
    lemma_filter_keeps_iff_some_passes(lv.transactions, refers_to(txn_id));
    if lv.transactions_referring(txn_id).len() > 0 {
        let i = choose|i: int|
            0 <= i < lv.transactions.len() && refers_to(txn_id)(#[trigger] lv.transactions[i]);
        assert(lv.transactions[i].ref_transaction_id == Some(txn_id));
    }
    if referred_to(lv, txn_id) {
        let i = choose|i: int|
            0 <= i < lv.transactions.len() && (#[trigger] lv.transactions[i]).ref_transaction_id
                == Some(txn_id);
        assert(refers_to(txn_id)(lv.transactions[i]));
    }
    lemma_transactions_after_remove(lv, txn_id, txn_id);
}

/// A position is stored once: after it has been opened, opening it again,
/// under whatever identifier and at whatever time, is a conflict.
pub proof fn law_position_is_stored_once(
    lv: LedgerView,
    user_id: u128,
    req: CreateHoldingsRequestView,
    id: u128,
    now: i64,
    other_id: u128,
    later: i64,
)
    requires
        lv.wf(),
        create_holdings_outcome(lv, user_id, req, id, now) is Ok,
    ensures
        create_holdings_outcome(
            create_holdings_outcome(lv, user_id, req, id, now)->Ok_0.0,
            user_id,
            req,
            other_id,
            later,
        ) == Err::<(LedgerView, HoldingsView), Failure>(already_held()),
{
    let (after, h) = create_holdings_outcome(lv, user_id, req, id, now)->Ok_0;
    assert(after.accounts == lv.accounts);
    assert(after.find_account(req.account_id) == lv.find_account(req.account_id));
    let n = lv.holdings.len() as int;
    assert(after.holdings[n] == h);
    let again = crate::holdings::opened_holdings(
        crate::ownership::account_owner(after.find_account(req.account_id)),
        user_id,
        req,
        other_id,
        later,
    );
    assert(again is Ok);
    assert(crate::ledger::same_position(after.holdings[n], again->Ok_0));
}

/// What belongs to one user is closed to every other: reading, changing or
/// removing it is forbidden, and the ledger stays as it is.
pub proof fn law_foreign_records_are_forbidden(
    lv: LedgerView,
    owner: u128,
    intruder: u128,
    id: u128,
    account_change: UpdateAccountRequestView,
    transaction_change: UpdateTransactionRequestView,
    holdings_change: UpdateHoldingsRequestView,
    now: i64,
)
    requires
        lv.wf(),
        owner != intruder,
    ensures
        get_account_outcome(lv, owner, id) is Ok ==> {
            &&& get_account_outcome(lv, intruder, id) == Err::<AccountView, Failure>(
                Failure::Forbidden,
            )
            &&& update_account_outcome(lv, intruder, id, account_change, now) == Err::<
                (LedgerView, AccountView),
                Failure,
            >(Failure::Forbidden)
            &&& delete_account_outcome(lv, intruder, id) == Err::<LedgerView, Failure>(
                Failure::Forbidden,
            )
        },
        get_transaction_outcome(lv, owner, id) is Ok ==> {
            &&& get_transaction_outcome(lv, intruder, id) == Err::<TransactionView, Failure>(
                Failure::Forbidden,
            )
            &&& update_transaction_outcome(lv, intruder, id, transaction_change, now) == Err::<
                (LedgerView, TransactionView),
                Failure,
            >(Failure::Forbidden)
            &&& delete_transaction_outcome(lv, intruder, id) == Err::<LedgerView, Failure>(
                Failure::Forbidden,
            )
        },
        get_holdings_outcome(lv, owner, id) is Ok ==> {
            &&& get_holdings_outcome(lv, intruder, id) == Err::<HoldingsView, Failure>(
                Failure::Forbidden,
            )
            &&& update_holdings_outcome(lv, intruder, id, holdings_change, now) == Err::<
                (LedgerView, HoldingsView),
                Failure,
            >(Failure::Forbidden)
            &&& delete_holdings_outcome(lv, intruder, id) == Err::<LedgerView, Failure>(
                Failure::Forbidden,
            )
        },
{
}

/// What is absent is reported as absent, to whoever asks.
pub proof fn law_absent_records_are_not_found(lv: LedgerView, user_id: u128, id: u128)
    ensures
        !lv.has_account(id) ==> get_account_outcome(lv, user_id, id) == Err::<AccountView, Failure>(
            Failure::NotFound,
        ),
        !lv.has_transaction(id) ==> get_transaction_outcome(lv, user_id, id) == Err::<
            TransactionView,
            Failure,
        >(Failure::NotFound),
        !lv.has_holdings(id) ==> get_holdings_outcome(lv, user_id, id) == Err::<
            HoldingsView,
            Failure,
        >(Failure::NotFound),
{
}

/// Opening an account leaves every account that was there as it was.
pub proof fn law_opening_leaves_other_accounts(
    lv: LedgerView,
    user_id: u128,
    req: CreateAccountRequestView,
    id: u128,
    now: i64,
    reader: u128,
    other: u128,
)
    requires
        lv.wf(),
        create_account_outcome(lv, user_id, req, id, now) is Ok,
        other != id,
    ensures
        get_account_outcome(create_account_outcome(lv, user_id, req, id, now)->Ok_0.0, reader, other)
            == get_account_outcome(lv, reader, other),
{
    let (after, a) = create_account_outcome(lv, user_id, req, id, now)->Ok_0;
    lemma_accounts_after_push(lv, a, other);
}

/// A listing shows transactions of the ledger that belong to the caller and
/// that the query selects, from the latest to the earliest, and no more of
/// them than a page holds.
pub proof fn law_listing_shows_own_selected_newest_first(
    lv: LedgerView,
    user_id: u128,
    q: TransactionQueryView,
)
    requires
        q.check() is Ok,
    ensures
        list_transactions_outcome(lv, user_id, q) is Ok,
        ({
            let found = list_transactions_outcome(lv, user_id, q)->Ok_0;
            &&& found.len() <= q.page_size()
            &&& found.len() <= 500
            &&& newest_first(found)
            &&& forall|i: int|
                0 <= i < found.len() ==> lv.transactions.contains(#[trigger] found[i])
                    && found[i].user_id == user_id && selects(user_id, q, found[i])
        }),
{
    broadcast use vstd::seq_lib::group_to_multiset_ensures;

    let chosen = lv.transactions.filter(selected(user_id, q));
    let sorted = by_newest(chosen);
    let page = q.page()->0;
    let found = page_window(sorted, page as nat, q.page_size() as nat);
    lemma_by_newest_sorts(chosen);
    let first = if page * q.page_size() < sorted.len() {
        page * q.page_size()
    } else {
        sorted.len() as int
    };
    assert forall|i: int, j: int| 0 <= i < j < found.len() implies found[i].occurred_at
        >= found[j].occurred_at by {
        assert(found[i] == sorted[first + i]);
        assert(found[j] == sorted[first + j]);
    }
    assert forall|i: int| 0 <= i < found.len() implies lv.transactions.contains(
        #[trigger] found[i],
    ) && found[i].user_id == user_id && selects(user_id, q, found[i]) by {
        let x = found[i];
        assert(x == sorted[first + i]);
        assert(sorted.contains(x));
        assert(sorted.to_multiset().count(x) > 0);
        assert(chosen.to_multiset().count(x) > 0);
        assert(chosen.contains(x));
        let k = choose|k: int| 0 <= k < chosen.len() && chosen[k] == x;
        lv.transactions.lemma_filter_pred(selected(user_id, q), k);
        lv.transactions.lemma_filter_contains_rev(selected(user_id, q), x);
    }
}

/// Of the offset a listing reads the page only: two offsets within the same
/// page show the same records.
pub proof fn law_offset_within_a_page_shows_the_page(
    lv: LedgerView,
    user_id: u128,
    q: TransactionQueryView,
    offset: u64,
)
    requires
        page_of(Some(offset), q.limit) == page_of(q.offset, q.limit),
    ensures
        list_transactions_outcome(lv, user_id, TransactionQueryView { offset: Some(offset), ..q })
            == list_transactions_outcome(lv, user_id, q),
{
    let moved = TransactionQueryView { offset: Some(offset), ..q };
    assert forall|t: TransactionView| #[trigger]
        selects(user_id, moved, t) == selects(user_id, q, t) by {}
    assert(selected(user_id, moved) =~= selected(user_id, q));
}

/// Every request to list is answered: with a page, or with the refusal of a
/// keyword of more than a hundred characters or of a page size of zero. A
/// keyword of at most a hundred characters is never refused for its length,
/// however many bytes it takes.
pub proof fn law_listing_is_answered(lv: LedgerView, user_id: u128, q: TransactionQueryView)
    ensures
        q.keyword_too_long() ==> list_transactions_outcome(lv, user_id, q) == Err::<
            Seq<TransactionView>,
            Failure,
        >(Failure::Validation("Keyword too long"@)),
        !q.keyword_too_long() && q.limit == Some(0u64) ==> list_transactions_outcome(
            lv,
            user_id,
            q,
        ) == Err::<Seq<TransactionView>, Failure>(Failure::Validation("Limit must be positive"@)),
        !q.keyword_too_long() && q.limit != Some(0u64) ==> list_transactions_outcome(
            lv,
            user_id,
            q,
        ) is Ok,
{
}

/// The page is counted in pages of the size that is shown: the size asked
/// for or the default, and never more than the largest. The page of an
/// offset begins at or before the offset, less than one page before it, and
/// the offset of that beginning is on the same page.
pub proof fn law_page_begins_at_or_before_offset(offset: u64, limit: Option<u64>)
    requires
        limit != Some(0u64),
    ensures
        page_of(Some(offset), limit) is Some,
        0 < page_size_of(limit) <= 500,
        (page_of(Some(offset), limit)->0) * page_size_of(limit) <= offset,
        offset < ((page_of(Some(offset), limit)->0) + 1) * page_size_of(limit),
        0 <= offset - offset % page_size_of(limit) <= offset,
        page_of(Some(offset), limit) == page_of(
            Some((offset - offset % page_size_of(limit)) as u64),
            limit,
        ),
{
    let x = offset as int;
    let d = page_size_of(limit) as int;
    let page = x / d;
    let rest = x % d;
    vstd::arithmetic::div_mod::lemma_fundamental_div_mod(x, d);
    vstd::arithmetic::div_mod::lemma_mod_pos_bound(x, d);
    vstd::arithmetic::div_mod::lemma_div_pos_is_pos(x, d);
    vstd::arithmetic::div_mod::lemma_div_nonincreasing(x, d);
    vstd::arithmetic::div_mod::lemma_div_multiples_vanish(page, d);
    assert(x == d * page + rest);
    assert(x - rest == d * page);
    assert((d * page) / d == page);
    assert(d * page == page * d) by (nonlinear_arith);
    assert((page + 1) * d == page * d + d) by (nonlinear_arith);
}

/// A page size above the largest is cut to the largest before the page is
/// counted: whatever is asked for beyond five hundred, the pages are pages
/// of five hundred.
pub proof fn law_page_is_counted_by_the_capped_size(offset: u64, limit: u64)
    requires
        limit >= 500,
    ensures
        page_size_of(Some(limit)) == 500,
        page_of(Some(offset), Some(limit)) == Some((offset / 500) as u64),
{
}

/// A request that names exactly one account, which is the caller's.
pub open spec fn names_one_own_account(
    lv: LedgerView,
    user_id: u128,
    req: CreateTransactionRequestView,
) -> bool {
    &&& (req.from_account_id is Some) != (req.to_account_id is Some)
    &&& req.from_account_id is Some ==> owns_account(lv, user_id, req.from_account_id->0)
    &&& req.to_account_id is Some ==> owns_account(lv, user_id, req.to_account_id->0)
}

/// What makes a request to record a transaction valid, said at once rather
/// than check by check: a positive amount, one of the five types, a currency
/// of three letters, and what the type asks for.
pub open spec fn valid_transaction_request(
    lv: LedgerView,
    user_id: u128,
    req: CreateTransactionRequestView,
) -> bool {
    let kind = TxnKind::of_code(lower_code(req.txn_type));
    let currency = upper_code(req.currency_code);
    &&& req.amount.positive()
    &&& kind is Some
    &&& is_currency_code(currency)
    &&& if kind->0 == TxnKind::Transfer {
        &&& req.from_account_id is Some
        &&& req.to_account_id is Some
        &&& req.from_account_id != req.to_account_id
        &&& owns_account(lv, user_id, req.from_account_id->0)
        &&& owns_account(lv, user_id, req.to_account_id->0)
        &&& (req.to_amount is Some) == (req.to_currency_code is Some)
        &&& req.to_amount is Some ==> (req.to_amount->0).positive()
        &&& req.to_currency_code is Some ==> is_currency_code(upper_code(req.to_currency_code->0))
    } else if (kind->0).corrects() {
        &&& req.to_amount is None
        &&& req.to_currency_code is None
        &&& req.ref_transaction_id is Some
        &&& lv.find_transaction(req.ref_transaction_id->0) matches Some(original)
            && original.user_id == user_id && original.currency_code == currency
        &&& names_one_own_account(lv, user_id, req)
    } else {
        &&& req.to_amount is None
        &&& req.to_currency_code is None
        &&& req.ref_transaction_id is None
        &&& names_one_own_account(lv, user_id, req)
    }
}

/// A transaction is recorded exactly when the request is valid and the
/// identifier is free. The record then is the request's own: its fields as
/// given, its type and currencies normalised, under the identifier, for the
/// caller, created and last changed at the instant given.
pub proof fn law_transaction_is_recorded_exactly_when_valid(
    lv: LedgerView,
    user_id: u128,
    req: CreateTransactionRequestView,
    id: u128,
    now: i64,
)
    ensures
        create_transaction_outcome(lv, user_id, req, id, now) is Ok <==> valid_transaction_request(
            lv,
            user_id,
            req,
        ) && !lv.has_transaction(id),
        create_transaction_outcome(lv, user_id, req, id, now) matches Ok((after, t)) ==> {
            &&& after == lv.with_transaction(t)
            &&& t.id == id
            &&& t.user_id == user_id
            &&& Some(t.txn_type) == TxnKind::of_code(lower_code(req.txn_type))
            &&& t.amount == req.amount
            &&& t.currency_code == upper_code(req.currency_code)
            &&& t.from_account_id == req.from_account_id
            &&& t.to_account_id == req.to_account_id
            &&& t.to_amount == req.to_amount
            &&& t.to_currency_code == (match req.to_currency_code {
                Some(c) => Some(upper_code(c)),
                None => None,
            })
            &&& t.ref_transaction_id == (if t.txn_type == TxnKind::Transfer {
                None
            } else {
                req.ref_transaction_id
            })
            &&& t.category == req.category
            &&& t.note == req.note
            &&& t.merchant == req.merchant
            &&& t.occurred_at == req.occurred_at
            &&& t.created_at == now
            &&& t.updated_at == now
        },
{
}

/// An account is opened exactly when its name is not blank, its type is not
/// blank, its currency passes the check of accounts, and the identifier is
/// free.
pub proof fn law_account_is_opened_exactly_when_valid(
    lv: LedgerView,
    user_id: u128,
    req: CreateAccountRequestView,
    id: u128,
    now: i64,
)
    ensures
        create_account_outcome(lv, user_id, req, id, now) is Ok <==> {
            &&& trimmed(req.name).len() > 0
            &&& account_type_check(lower_code(req.account_type)) is Ok
            &&& account_currency_check(upper_code(req.currency_code)) is Ok
            &&& !lv.has_account(id)
        },
{
}

/// A position is opened exactly when its account is the caller's, none of
/// its amounts is below zero, its asset type is one of the six, its currency
/// is three letters, its symbol is not blank, the identifier is free and the
/// position is not stored already.
pub proof fn law_position_is_opened_exactly_when_valid(
    lv: LedgerView,
    user_id: u128,
    req: CreateHoldingsRequestView,
    id: u128,
    now: i64,
)
    ensures
        create_holdings_outcome(lv, user_id, req, id, now) matches Ok((after, h)) ==> {
            &&& owns_account(lv, user_id, req.account_id)
            &&& bounds_check(
                Some(req.quantity),
                Some(req.cost_basis_total),
                req.last_price,
                req.market_value,
            ) is Ok
            &&& AssetType::of_code(lower_code(req.asset_type)) == Some(h.asset_type)
            &&& is_currency_code(upper_code(req.currency_code))
            &&& upper_code(req.symbol).len() > 0
            &&& !lv.has_holdings(id)
            &&& !lv.position_taken(h)
            &&& h.symbol == upper_code(req.symbol)
            &&& h.currency_code == upper_code(req.currency_code)
            &&& h.user_id == user_id
            &&& h.account_id == req.account_id
        },
        owns_account(lv, user_id, req.account_id) && bounds_check(
            Some(req.quantity),
            Some(req.cost_basis_total),
            req.last_price,
            req.market_value,
        ) is Ok && AssetType::of_code(lower_code(req.asset_type)) is Some && is_currency_code(
            upper_code(req.currency_code),
        ) && upper_code(req.symbol).len() > 0 ==> (create_holdings_outcome(
            lv,
            user_id,
            req,
            id,
            now,
        ) is Ok <==> !lv.has_holdings(id) && !lv.position_taken(
            crate::holdings::opened_holdings(Some(user_id), user_id, req, id, now)->Ok_0,
        )),
{
}

/// Whatever a request to change an account asks for, the account keeps its
/// identifier, its owner, its balance and the time of its creation.
pub proof fn law_account_update_keeps_balance(
    lv: LedgerView,
    user_id: u128,
    account_id: u128,
    req: UpdateAccountRequestView,
    now: i64,
)
    requires
        update_account_outcome(lv, user_id, account_id, req, now) is Ok,
    ensures
        ({
            let (after, b) = update_account_outcome(lv, user_id, account_id, req, now)->Ok_0;
            let a = lv.find_account(account_id)->0;
            &&& lv.find_account(account_id) is Some
            &&& b.id == a.id
            &&& b.user_id == a.user_id
            &&& b.balance == a.balance
            &&& b.created_at == a.created_at
            &&& b.updated_at == now
            &&& after.transactions == lv.transactions
            &&& after.holdings == lv.holdings
        }),
{
}

/// Whatever a request to change a transaction asks for, the transaction
/// keeps its type, its amounts, its currencies, its accounts and its
/// reference: only category, note, time of occurrence, merchant and the time
/// of the last change can differ.
pub proof fn law_transaction_update_keeps_what_is_fixed(
    lv: LedgerView,
    user_id: u128,
    txn_id: u128,
    req: UpdateTransactionRequestView,
    now: i64,
)
    requires
        update_transaction_outcome(lv, user_id, txn_id, req, now) is Ok,
    ensures
        ({
            let (after, u) = update_transaction_outcome(lv, user_id, txn_id, req, now)->Ok_0;
            let t = lv.find_transaction(txn_id)->0;
            &&& lv.find_transaction(txn_id) is Some
            &&& u == TransactionView {
                category: u.category,
                note: u.note,
                occurred_at: u.occurred_at,
                merchant: u.merchant,
                updated_at: now,
                ..t
            }
            &&& req.category is None ==> u.category == t.category
            &&& req.note is None ==> u.note == t.note
            &&& req.occurred_at is None ==> u.occurred_at == t.occurred_at
            &&& req.merchant is None ==> u.merchant == t.merchant
            &&& after.accounts == lv.accounts
            &&& after.holdings == lv.holdings
        }),
{
}

/// Recording a transaction posts nothing: every account, and so every
/// balance, stays as it was.
pub proof fn law_recording_leaves_balances(
    lv: LedgerView,
    user_id: u128,
    req: CreateTransactionRequestView,
    id: u128,
    now: i64,
)
    requires
        create_transaction_outcome(lv, user_id, req, id, now) is Ok,
    ensures
        create_transaction_outcome(lv, user_id, req, id, now)->Ok_0.0.accounts == lv.accounts,
        create_transaction_outcome(lv, user_id, req, id, now)->Ok_0.0.holdings == lv.holdings,
{
}

/// Whatever a request to change a position asks for, the position keeps its
/// identifier, its owner, its account, its asset type, its symbol and its
/// currency.
pub proof fn law_position_update_keeps_its_key(
    lv: LedgerView,
    user_id: u128,
    holdings_id: u128,
    req: UpdateHoldingsRequestView,
    now: i64,
)
    requires
        update_holdings_outcome(lv, user_id, holdings_id, req, now) is Ok,
    ensures
        ({
            let (after, c) = update_holdings_outcome(lv, user_id, holdings_id, req, now)->Ok_0;
            let h = lv.find_holdings(holdings_id)->0;
            &&& lv.find_holdings(holdings_id) is Some
            &&& c.id == h.id
            &&& c.user_id == h.user_id
            &&& crate::ledger::same_position(c, h)
            &&& c.currency_code == h.currency_code
            &&& c.created_at == h.created_at
            &&& c.updated_at == now
            &&& after.accounts == lv.accounts
            &&& after.transactions == lv.transactions
        }),
{
}

/// A query whose largest amount is below its smallest selects nothing, and
/// its listing is empty.
pub proof fn law_empty_amount_range_selects_nothing(
    lv: LedgerView,
    user_id: u128,
    q: TransactionQueryView,
)
    requires
        q.min_amount is Some,
        q.max_amount is Some,
        (q.max_amount->0).below(q.min_amount->0),
        q.check() is Ok,
    ensures
        forall|t: TransactionView| !selects(user_id, q, t),
        list_transactions_outcome(lv, user_id, q) == Ok::<Seq<TransactionView>, Failure>(
            Seq::empty(),
        ),
{
    assert forall|t: TransactionView| !selects(user_id, q, t) by {
        if selects(user_id, q, t) {
            lemma_order_transitive(q.min_amount->0, t.amount, q.max_amount->0);
        }
    }
    law_listing_shows_own_selected_newest_first(lv, user_id, q);
    let found = list_transactions_outcome(lv, user_id, q)->Ok_0;
    if found.len() > 0 {
        assert(selects(user_id, q, found[0]));
    }
    assert(found =~= Seq::empty());
}

/// A transfer between two different accounts of the caller, with a positive
/// amount and a currency of three letters, without a second amount or
/// currency, is recorded under a free identifier: the ledger gains that one
/// record, which joins the two accounts, refers to nothing, and carries the
/// request's own fields.
pub proof fn law_transfer_between_own_accounts_is_recorded(
    lv: LedgerView,
    user_id: u128,
    req: CreateTransactionRequestView,
    id: u128,
    now: i64,
)
    requires
        TxnKind::of_code(lower_code(req.txn_type)) == Some(TxnKind::Transfer),
        req.amount.positive(),
        is_currency_code(upper_code(req.currency_code)),
        req.from_account_id is Some,
        req.to_account_id is Some,
        req.from_account_id != req.to_account_id,
        owns_account(lv, user_id, req.from_account_id->0),
        owns_account(lv, user_id, req.to_account_id->0),
        req.to_amount is None,
        req.to_currency_code is None,
        !lv.has_transaction(id),
    ensures
        create_transaction_outcome(lv, user_id, req, id, now) is Ok,
        ({
            let (after, t) = create_transaction_outcome(lv, user_id, req, id, now)->Ok_0;
            &&& after.transactions == lv.transactions.push(t)
            &&& after.accounts == lv.accounts
            &&& after.holdings == lv.holdings
            &&& t.id == id
            &&& t.user_id == user_id
            &&& t.txn_type == TxnKind::Transfer
            &&& t.amount == req.amount
            &&& t.currency_code == upper_code(req.currency_code)
            &&& t.from_account_id == req.from_account_id
            &&& t.to_account_id == req.to_account_id
            &&& t.to_amount is None
            &&& t.to_currency_code is None
            &&& t.ref_transaction_id is None
            &&& t.created_at == now
            &&& t.updated_at == now
        }),
{
}

/// The same transfer from an account that is another user's is forbidden,
/// and the ledger stays as it is.
pub proof fn law_transfer_from_foreign_account_is_forbidden(
    lv: LedgerView,
    user_id: u128,
    req: CreateTransactionRequestView,
    id: u128,
    now: i64,
)
    requires
        TxnKind::of_code(lower_code(req.txn_type)) == Some(TxnKind::Transfer),
        req.amount.positive(),
        is_currency_code(upper_code(req.currency_code)),
        req.from_account_id is Some,
        req.to_account_id is Some,
        req.from_account_id != req.to_account_id,
        lv.find_account(req.from_account_id->0) matches Some(a) && a.user_id != user_id,
    ensures
        create_transaction_outcome(lv, user_id, req, id, now) == Err::<
            (LedgerView, TransactionView),
            Failure,
        >(Failure::Forbidden),
{
}

} // verus!
