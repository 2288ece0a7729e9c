//! The invariant of a ledger that only the services have written, and the
//! proof that every service keeps it.
//!
//! In a sound ledger every record has the shape that its kind asks for, and
//! whatever a record refers to is there and belongs to the record's owner.

use vstd::prelude::*;
use crate::account::{
    account_currency_check,
    account_type_check,
    create_account_outcome,
    delete_account_outcome,
    update_account_outcome,
    CreateAccountRequestView,
    UpdateAccountRequestView,
};
use crate::holdings::{
    create_holdings_outcome,
    delete_holdings_outcome,
    update_holdings_outcome,
    CreateHoldingsRequestView,
    UpdateHoldingsRequestView,
};
use crate::ledger::{
    held_in,
    lemma_filter_keeps_iff_some_passes,
    refers_to,
    same_position,
    touches_account,
    LedgerView,
};
use crate::lookup::{
    lemma_holdings_after_push,
    lemma_accounts_after_push,
    lemma_accounts_after_remove,
    lemma_accounts_after_replace,
    lemma_transactions_after_push,
    lemma_transactions_after_remove,
    lemma_transactions_after_replace,
};
use crate::records::{AccountView, HoldingsView, TransactionView, TxnKind};
use crate::text::is_currency_code;
use crate::transaction::{
    create_transaction_outcome,
    delete_transaction_outcome,
    update_transaction_outcome,
    CreateTransactionRequestView,
    UpdateTransactionRequestView,
};

verus! {

/// An account as the services store it: named, typed, and in a currency
/// that passes the check of accounts.
pub open spec fn account_well_formed(a: AccountView) -> bool {
    &&& a.name.len() > 0
    &&& account_type_check(a.account_type) is Ok
    &&& account_currency_check(a.currency_code) is Ok
}

/// A transaction of the shape that its kind asks for. The amount is above
/// zero and the currency is three letters. A transfer joins two different
/// accounts, refers to nothing, and has a second amount exactly if it has a
/// second currency. Every other kind names exactly one account and has no
/// second amount or currency; a refund or an adjustment refers to a
/// transaction, an expense or an income to none.
pub open spec fn transaction_well_shaped(t: TransactionView) -> bool {
    &&& t.amount.positive()
    &&& is_currency_code(t.currency_code)
    &&& if t.txn_type == TxnKind::Transfer {
        &&& t.from_account_id is Some
        &&& t.to_account_id is Some
        &&& t.from_account_id != t.to_account_id
        &&& t.ref_transaction_id is None
        &&& (t.to_amount is Some) == (t.to_currency_code is Some)
        &&& t.to_amount is Some ==> (t.to_amount->0).positive()
        &&& t.to_currency_code is Some ==> is_currency_code(t.to_currency_code->0)
    } else {
        &&& (t.from_account_id is Some) != (t.to_account_id is Some)
        &&& t.to_amount is None
        &&& t.to_currency_code is None
        &&& (t.ref_transaction_id is Some) == t.txn_type.corrects()
    }
}

/// A position as the services store it: no amount below zero, a currency of
/// three letters, a symbol.
pub open spec fn holdings_well_formed(h: HoldingsView) -> bool {
    &&& !h.quantity.negative()
    &&& !h.cost_basis_total.negative()
    &&& h.last_price is Some ==> !(h.last_price->0).negative()
    &&& h.market_value is Some ==> !(h.market_value->0).negative()
    &&& is_currency_code(h.currency_code)
    &&& h.symbol.len() > 0
}

/// The account is in the ledger and belongs to the user.
pub open spec fn owns_account(lv: LedgerView, user_id: u128, account_id: u128) -> bool {
    lv.find_account(account_id) matches Some(a) && a.user_id == user_id
}

/// A transaction whose links hold: its accounts are its owner's, and what
/// it refers to is a transaction of its owner's in its own currency.
pub open spec fn transaction_linked(lv: LedgerView, t: TransactionView) -> bool {
    &&& t.from_account_id is Some ==> owns_account(lv, t.user_id, t.from_account_id->0)
    &&& t.to_account_id is Some ==> owns_account(lv, t.user_id, t.to_account_id->0)
    &&& t.ref_transaction_id is Some ==> (lv.find_transaction(
        t.ref_transaction_id->0,
    ) matches Some(original) && original.user_id == t.user_id && original.currency_code
        == t.currency_code)
}

/// The ledger is well formed, every record has its shape, and every link
/// holds.
pub open spec fn sound(lv: LedgerView) -> bool {
    &&& lv.wf()
    &&& forall|i: int| 0 <= i < lv.accounts.len() ==> account_well_formed(#[trigger] lv.accounts[i])
    &&& forall|i: int|
        0 <= i < lv.transactions.len() ==> transaction_well_shaped(#[trigger] lv.transactions[i])
            && transaction_linked(lv, lv.transactions[i])
    &&& forall|i: int|
        0 <= i < lv.holdings.len() ==> holdings_well_formed(#[trigger] lv.holdings[i])
            && owns_account(lv, lv.holdings[i].user_id, lv.holdings[i].account_id)
}

/// The empty ledger is sound.
pub proof fn law_empty_ledger_is_sound()
    ensures
        sound(LedgerView::empty()),
{
}

/// Opening an account keeps the ledger sound.
pub proof fn law_create_account_keeps_sound(
    lv: LedgerView,
    user_id: u128,
    req: CreateAccountRequestView,
    id: u128,
    now: i64,
)
    requires
        sound(lv),
        create_account_outcome(lv, user_id, req, id, now) is Ok,
    ensures
        sound(create_account_outcome(lv, user_id, req, id, now)->Ok_0.0),
{
    let (after, a) = create_account_outcome(lv, user_id, req, id, now)->Ok_0;
    lemma_accounts_after_push(lv, a, id);
    assert forall|i: int| 0 <= i < after.accounts.len() implies account_well_formed(
        #[trigger] after.accounts[i],
    ) by {
        if i < lv.accounts.len() {
            assert(after.accounts[i] == lv.accounts[i]);
        }
    }
    assert forall|i: int| 0 <= i < after.transactions.len() implies transaction_well_shaped(
        #[trigger] after.transactions[i],
    ) && transaction_linked(after, after.transactions[i]) by {
        let t = lv.transactions[i];
        assert(transaction_linked(lv, t));
        if t.from_account_id is Some {
            lemma_accounts_after_push(lv, a, t.from_account_id->0);
        }
        if t.to_account_id is Some {
            lemma_accounts_after_push(lv, a, t.to_account_id->0);
        }
    }
    assert forall|i: int| 0 <= i < after.holdings.len() implies holdings_well_formed(
        #[trigger] after.holdings[i],
    ) && owns_account(after, after.holdings[i].user_id, after.holdings[i].account_id) by {
        let h = lv.holdings[i];
        assert(owns_account(lv, h.user_id, h.account_id));
        lemma_accounts_after_push(lv, a, h.account_id);
    }
}

/// Changing an account keeps the ledger sound.
pub proof fn law_update_account_keeps_sound(
    lv: LedgerView,
    user_id: u128,
    account_id: u128,
    req: UpdateAccountRequestView,
    now: i64,
)
    requires
        sound(lv),
        update_account_outcome(lv, user_id, account_id, req, now) is Ok,
    ensures
        sound(update_account_outcome(lv, user_id, account_id, req, now)->Ok_0.0),
{
    let (after, b) = update_account_outcome(lv, user_id, account_id, req, now)->Ok_0;
    let k = lv.account_index(account_id);
    let a = lv.accounts[k];
    assert(a.id == account_id);
    assert(account_well_formed(a));
    lemma_accounts_after_replace(lv, b, account_id);
    assert(after.accounts == lv.accounts.update(k, b));
    assert forall|i: int| 0 <= i < after.accounts.len() implies account_well_formed(
        #[trigger] after.accounts[i],
    ) by {
        if i != k {
            assert(after.accounts[i] == lv.accounts[i]);
        }
    }
    assert forall|i: int| 0 <= i < after.transactions.len() implies transaction_well_shaped(
        #[trigger] after.transactions[i],
    ) && transaction_linked(after, after.transactions[i]) by {
        let t = lv.transactions[i];
        assert(transaction_linked(lv, t));
        if t.from_account_id is Some {
            lemma_accounts_after_replace(lv, b, t.from_account_id->0);
        }
        if t.to_account_id is Some {
            lemma_accounts_after_replace(lv, b, t.to_account_id->0);
        }
    }
    assert forall|i: int| 0 <= i < after.holdings.len() implies holdings_well_formed(
        #[trigger] after.holdings[i],
    ) && owns_account(after, after.holdings[i].user_id, after.holdings[i].account_id) by {
        let h = lv.holdings[i];
        assert(owns_account(lv, h.user_id, h.account_id));
        lemma_accounts_after_replace(lv, b, h.account_id);
    }
}

/// Closing an account keeps the ledger sound: nothing referred to it.
pub proof fn law_delete_account_keeps_sound(lv: LedgerView, user_id: u128, account_id: u128)
    requires
        sound(lv),
        delete_account_outcome(lv, user_id, account_id) is Ok,
    ensures
        sound(delete_account_outcome(lv, user_id, account_id)->Ok_0),
{
    let after = delete_account_outcome(lv, user_id, account_id)->Ok_0;
    let k = lv.account_index(account_id);
    lemma_accounts_after_remove(lv, account_id, account_id);
    lemma_filter_keeps_iff_some_passes(lv.transactions, touches_account(account_id));
    lemma_filter_keeps_iff_some_passes(lv.holdings, held_in(account_id));
    assert forall|i: int| 0 <= i < after.accounts.len() implies account_well_formed(
        #[trigger] after.accounts[i],
    ) by {
        if i < k {
            assert(after.accounts[i] == lv.accounts[i]);
        } else {
            assert(after.accounts[i] == lv.accounts[i + 1]);
        }
    }
    assert forall|i: int| 0 <= i < after.transactions.len() implies transaction_well_shaped(
        #[trigger] after.transactions[i],
    ) && transaction_linked(after, after.transactions[i]) by {
        let t = lv.transactions[i];
        assert(transaction_linked(lv, t));
        assert(!touches_account(account_id)(t));
        if t.from_account_id is Some {
            lemma_accounts_after_remove(lv, account_id, t.from_account_id->0);
        }
        if t.to_account_id is Some {
            lemma_accounts_after_remove(lv, account_id, t.to_account_id->0);
        }
    }
    assert forall|i: int| 0 <= i < after.holdings.len() implies holdings_well_formed(
        #[trigger] after.holdings[i],
    ) && owns_account(after, after.holdings[i].user_id, after.holdings[i].account_id) by {
        let h = lv.holdings[i];
        assert(owns_account(lv, h.user_id, h.account_id));
        assert(!held_in(account_id)(h));
        lemma_accounts_after_remove(lv, account_id, h.account_id);
    }
}

/// Recording a transaction keeps the ledger sound: what was accepted has
/// its shape, and its links were checked.
pub proof fn law_create_transaction_keeps_sound(
    lv: LedgerView,
    user_id: u128,
    req: CreateTransactionRequestView,
    id: u128,
    now: i64,
)
    requires
        sound(lv),
        create_transaction_outcome(lv, user_id, req, id, now) is Ok,
    ensures
        sound(create_transaction_outcome(lv, user_id, req, id, now)->Ok_0.0),
        transaction_well_shaped(create_transaction_outcome(lv, user_id, req, id, now)->Ok_0.1),
{
    let (after, t) = create_transaction_outcome(lv, user_id, req, id, now)->Ok_0;
    let n = lv.transactions.len() as int;
    lemma_transactions_after_push(lv, t, id);
    assert(transaction_well_shaped(t));
    assert(transaction_linked(lv, t));
    assert forall|i: int| 0 <= i < after.transactions.len() implies transaction_well_shaped(
        #[trigger] after.transactions[i],
    ) && transaction_linked(after, after.transactions[i]) by {
        let x = after.transactions[i];
        if i < n {
            assert(x == lv.transactions[i]);
        } else {
            assert(x == t);
        }
        assert(transaction_linked(lv, x));
        assert(after.accounts == lv.accounts);
        if x.ref_transaction_id is Some {
            lemma_transactions_after_push(lv, t, x.ref_transaction_id->0);
        }
    }
}

/// Changing a transaction keeps the ledger sound: what may change is no
/// part of its shape or of its links.
pub proof fn law_update_transaction_keeps_sound(
    lv: LedgerView,
    user_id: u128,
    txn_id: u128,
    req: UpdateTransactionRequestView,
    now: i64,
)
    requires
        sound(lv),
        update_transaction_outcome(lv, user_id, txn_id, req, now) is Ok,
    ensures
        sound(update_transaction_outcome(lv, user_id, txn_id, req, now)->Ok_0.0),
{
    let (after, u) = update_transaction_outcome(lv, user_id, txn_id, req, now)->Ok_0;
    let k = lv.transaction_index(txn_id);
    let t = lv.transactions[k];
    assert(t.id == txn_id);
    assert(transaction_well_shaped(t) && transaction_linked(lv, t));
    lemma_transactions_after_replace(lv, u, txn_id);
    assert(after.transactions == lv.transactions.update(k, u));
    assert forall|i: int| 0 <= i < after.transactions.len() implies transaction_well_shaped(
        #[trigger] after.transactions[i],
    ) && transaction_linked(after, after.transactions[i]) by {
        let x = after.transactions[i];
        let before = lv.transactions[i];
        assert(transaction_well_shaped(before) && transaction_linked(lv, before));
        assert(after.accounts == lv.accounts);
        if x.ref_transaction_id is Some {
            lemma_transactions_after_replace(lv, u, x.ref_transaction_id->0);
        }
    }
}

/// Removing a transaction keeps the ledger sound: nothing referred to it.
pub proof fn law_delete_transaction_keeps_sound(lv: LedgerView, user_id: u128, txn_id: u128)
    requires
        sound(lv),
        delete_transaction_outcome(lv, user_id, txn_id) is Ok,
    ensures
        sound(delete_transaction_outcome(lv, user_id, txn_id)->Ok_0),
{
    let after = delete_transaction_outcome(lv, user_id, txn_id)->Ok_0;
    let k = lv.transaction_index(txn_id);
    lemma_transactions_after_remove(lv, txn_id, txn_id);
    lemma_filter_keeps_iff_some_passes(lv.transactions, refers_to(txn_id));
    assert forall|i: int| 0 <= i < after.transactions.len() implies transaction_well_shaped(
        #[trigger] after.transactions[i],
    ) && transaction_linked(after, after.transactions[i]) by {
        let j = if i < k {
            i
        } else {
            i + 1
        };
        let x = lv.transactions[j];
        assert(after.transactions[i] == x);
        assert(transaction_well_shaped(x) && transaction_linked(lv, x));
        assert(!refers_to(txn_id)(x));
        assert(after.accounts == lv.accounts);
        if x.ref_transaction_id is Some {
            lemma_transactions_after_remove(lv, txn_id, x.ref_transaction_id->0);
        }
    }
    assert(after.accounts == lv.accounts);
    assert(after.holdings == lv.holdings);
    assert forall|i: int| 0 <= i < after.holdings.len() implies holdings_well_formed(
        #[trigger] after.holdings[i],
    ) && owns_account(after, after.holdings[i].user_id, after.holdings[i].account_id) by {
        assert(owns_account(lv, lv.holdings[i].user_id, lv.holdings[i].account_id));
    }
}

/// Opening a position keeps the ledger sound.
pub proof fn law_create_holdings_keeps_sound(
    lv: LedgerView,
    user_id: u128,
    req: CreateHoldingsRequestView,
    id: u128,
    now: i64,
)
    requires
        sound(lv),
        create_holdings_outcome(lv, user_id, req, id, now) is Ok,
    ensures
        sound(create_holdings_outcome(lv, user_id, req, id, now)->Ok_0.0),
{
    let (after, h) = create_holdings_outcome(lv, user_id, req, id, now)->Ok_0;
    let n = lv.holdings.len() as int;
    lemma_holdings_after_push(lv, h);
    assert forall|i: int| 0 <= i < after.holdings.len() implies holdings_well_formed(
        #[trigger] after.holdings[i],
    ) && owns_account(after, after.holdings[i].user_id, after.holdings[i].account_id) by {
        if i < n {
            assert(after.holdings[i] == lv.holdings[i]);
            assert(owns_account(lv, lv.holdings[i].user_id, lv.holdings[i].account_id));
        } else {
            assert(after.holdings[i] == h);
        }
    }
    assert forall|i: int| 0 <= i < after.transactions.len() implies transaction_well_shaped(
        #[trigger] after.transactions[i],
    ) && transaction_linked(after, after.transactions[i]) by {
        assert(transaction_linked(lv, lv.transactions[i]));
        assert(after.accounts == lv.accounts);
        assert(after.transactions == lv.transactions);
    }
}

/// Changing a position keeps the ledger sound.
pub proof fn law_update_holdings_keeps_sound(
    lv: LedgerView,
    user_id: u128,
    holdings_id: u128,
    req: UpdateHoldingsRequestView,
    now: i64,
)
    requires
        sound(lv),
        update_holdings_outcome(lv, user_id, holdings_id, req, now) is Ok,
    ensures
        sound(update_holdings_outcome(lv, user_id, holdings_id, req, now)->Ok_0.0),
{
    let (after, c) = update_holdings_outcome(lv, user_id, holdings_id, req, now)->Ok_0;
    let k = lv.holdings_index(holdings_id);
    let h = lv.holdings[k];
    assert(h.id == holdings_id);
    assert(holdings_well_formed(h) && owns_account(lv, h.user_id, h.account_id));
    assert(after.holdings == lv.holdings.update(k, c));
    assert forall|i: int, j: int| 0 <= i < j < after.holdings.len() implies (
    #[trigger] after.holdings[i]).id != (#[trigger] after.holdings[j]).id by {
        assert(after.holdings[i].id == lv.holdings[i].id);
        assert(after.holdings[j].id == lv.holdings[j].id);
    }
    assert forall|i: int, j: int|
        0 <= i < j < after.holdings.len() implies !same_position(
        #[trigger] after.holdings[i],
        #[trigger] after.holdings[j],
    ) by {
        assert(same_position(after.holdings[i], lv.holdings[i]));
        assert(same_position(after.holdings[j], lv.holdings[j]));
        assert(!same_position(lv.holdings[i], lv.holdings[j]));
    }
    assert forall|i: int| 0 <= i < after.holdings.len() implies holdings_well_formed(
        #[trigger] after.holdings[i],
    ) && owns_account(after, after.holdings[i].user_id, after.holdings[i].account_id) by {
        let before = lv.holdings[i];
        assert(holdings_well_formed(before) && owns_account(lv, before.user_id, before.account_id));
        assert(after.accounts == lv.accounts);
    }
    assert forall|i: int| 0 <= i < after.transactions.len() implies transaction_well_shaped(
        #[trigger] after.transactions[i],
    ) && transaction_linked(after, after.transactions[i]) by {
        assert(transaction_linked(lv, lv.transactions[i]));
        assert(after.accounts == lv.accounts);
        assert(after.transactions == lv.transactions);
    }
}

/// Removing a position keeps the ledger sound.
pub proof fn law_delete_holdings_keeps_sound(lv: LedgerView, user_id: u128, holdings_id: u128)
    requires
        sound(lv),
        delete_holdings_outcome(lv, user_id, holdings_id) is Ok,
    ensures
        sound(delete_holdings_outcome(lv, user_id, holdings_id)->Ok_0),
{
    let after = delete_holdings_outcome(lv, user_id, holdings_id)->Ok_0;
    let k = lv.holdings_index(holdings_id);
    assert(lv.holdings[k].id == holdings_id);
    assert forall|i: int, j: int| 0 <= i < j < after.holdings.len() implies (
    #[trigger] after.holdings[i]).id != (#[trigger] after.holdings[j]).id by {
        let x = if i < k {
            i
        } else {
            i + 1
        };
        let y = if j < k {
            j
        } else {
            j + 1
        };
        assert(lv.holdings[x].id != lv.holdings[y].id);
    }
    assert forall|i: int, j: int|
        0 <= i < j < after.holdings.len() implies !same_position(
        #[trigger] after.holdings[i],
        #[trigger] after.holdings[j],
    ) by {
        let x = if i < k {
            i
        } else {
            i + 1
        };
        let y = if j < k {
            j
        } else {
            j + 1
        };
        assert(!same_position(lv.holdings[x], lv.holdings[y]));
    }
    assert forall|i: int| 0 <= i < after.holdings.len() implies holdings_well_formed(
        #[trigger] after.holdings[i],
    ) && owns_account(after, after.holdings[i].user_id, after.holdings[i].account_id) by {
        let x = if i < k {
            i
        } else {
            i + 1
        };
        let before = lv.holdings[x];
        assert(holdings_well_formed(before) && owns_account(lv, before.user_id, before.account_id));
        assert(after.accounts == lv.accounts);
    }
    assert forall|i: int| 0 <= i < after.transactions.len() implies transaction_well_shaped(
        #[trigger] after.transactions[i],
    ) && transaction_linked(after, after.transactions[i]) by {
        assert(transaction_linked(lv, lv.transactions[i]));
        assert(after.accounts == lv.accounts);
        assert(after.transactions == lv.transactions);
    }
}

} // verus!
