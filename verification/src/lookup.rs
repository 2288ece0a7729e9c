//! How the lookups of a ledger change when a record is added, replaced or
//! removed: the record itself apart, they do not.

use vstd::prelude::*;
use crate::ledger::{same_position, LedgerView};
use crate::records::{AccountView, HoldingsView, TransactionView};

verus! {

/// In a well-formed ledger, an identifier finds the record that stands
/// anywhere under it.
pub proof fn lemma_account_found_at(lv: LedgerView, i: int)
    requires
        lv.wf(),
        0 <= i < lv.accounts.len(),
    ensures
        lv.has_account(lv.accounts[i].id),
        lv.account_index(lv.accounts[i].id) == i,
        lv.find_account(lv.accounts[i].id) == Some(lv.accounts[i]),
{
    let id = lv.accounts[i].id;
    let k = lv.account_index(id);
    assert(lv.accounts[k].id == id);
    if k < i {
        assert(lv.accounts[k].id != lv.accounts[i].id);
    } else if i < k {
        assert(lv.accounts[i].id != lv.accounts[k].id);
    }
}

/// In a well-formed ledger, an identifier finds the record that stands
/// anywhere under it.
pub proof fn lemma_transaction_found_at(lv: LedgerView, i: int)
    requires
        lv.wf(),
        0 <= i < lv.transactions.len(),
    ensures
        lv.has_transaction(lv.transactions[i].id),
        lv.transaction_index(lv.transactions[i].id) == i,
        lv.find_transaction(lv.transactions[i].id) == Some(lv.transactions[i]),
{
    let id = lv.transactions[i].id;
    let k = lv.transaction_index(id);
    assert(lv.transactions[k].id == id);
    if k < i {
        assert(lv.transactions[k].id != lv.transactions[i].id);
    } else if i < k {
        assert(lv.transactions[i].id != lv.transactions[k].id);
    }
}

/// Adding an account under a free identifier keeps the ledger well formed;
/// the new identifier finds the new account, every other what it found.
pub proof fn lemma_accounts_after_push(lv: LedgerView, a: AccountView, id: u128)
    requires
        lv.wf(),
        !lv.has_account(a.id),
    ensures
        lv.with_account(a).wf(),
        lv.with_account(a).find_account(id) == (if id == a.id {
            Some(a)
        } else {
            lv.find_account(id)
        }),
{
    let after = lv.with_account(a);
    let n = lv.accounts.len() as int;
    assert(after.accounts[n] == a);
    assert forall|i: int, j: int| 0 <= i < j < after.accounts.len() implies (
    #[trigger] after.accounts[i]).id != (#[trigger] after.accounts[j]).id by {
        assert(after.accounts[i] == lv.accounts[i]);
        if j < n {
            assert(after.accounts[j] == lv.accounts[j]);
        }
    }
    if id == a.id {
        lemma_account_found_at(after, n);
    } else if lv.has_account(id) {
        let k = lv.account_index(id);
        assert(after.accounts[k] == lv.accounts[k]);
        lemma_account_found_at(after, k);
    } else {
        if after.has_account(id) {
            let k = after.account_index(id);
            assert(k < n);
            assert(lv.accounts[k].id == id);
        }
    }
}

/// Replacing an account by one of the same identifier keeps the ledger well
/// formed; that identifier finds the new account, every other what it
/// found.
pub proof fn lemma_accounts_after_replace(lv: LedgerView, b: AccountView, id: u128)
    requires
        lv.wf(),
        lv.has_account(b.id),
    ensures
        lv.with_account_replaced(b).wf(),
        lv.with_account_replaced(b).find_account(id) == (if id == b.id {
            Some(b)
        } else {
            lv.find_account(id)
        }),
        lv.with_account_replaced(b).accounts.len() == lv.accounts.len(),
{
    let after = lv.with_account_replaced(b);
    let k = lv.account_index(b.id);
    assert(lv.accounts[k].id == b.id);
    assert(after.accounts[k] == b);
    assert forall|i: int, j: int| 0 <= i < j < after.accounts.len() implies (
    #[trigger] after.accounts[i]).id != (#[trigger] after.accounts[j]).id by {
        assert(after.accounts[i].id == lv.accounts[i].id);
        assert(after.accounts[j].id == lv.accounts[j].id);
    }
    if id == b.id {
        lemma_account_found_at(after, k);
    } else if lv.has_account(id) {
        let m = lv.account_index(id);
        assert(m != k);
        assert(after.accounts[m] == lv.accounts[m]);
        lemma_account_found_at(after, m);
    } else {
        if after.has_account(id) {
            let m = after.account_index(id);
            assert(after.accounts[m].id == lv.accounts[m].id);
        }
    }
}

/// Removing an account keeps the ledger well formed; its identifier finds
/// nothing, every other what it found.
pub proof fn lemma_accounts_after_remove(lv: LedgerView, gone: u128, id: u128)
    requires
        lv.wf(),
        lv.has_account(gone),
    ensures
        lv.without_account(gone).wf(),
        lv.without_account(gone).find_account(id) == (if id == gone {
            None
        } else {
            lv.find_account(id)
        }),
{
    let after = lv.without_account(gone);
    let k = lv.account_index(gone);
    assert(lv.accounts[k].id == gone);
    assert forall|i: int, j: int| 0 <= i < j < after.accounts.len() implies (
    #[trigger] after.accounts[i]).id != (#[trigger] after.accounts[j]).id by {
        let x = if i < k {
            i
        } else {
            i + 1
        };
        let y = if j < k {
            j
        } else {
            j + 1
        };
        assert(after.accounts[i] == lv.accounts[x]);
        assert(after.accounts[j] == lv.accounts[y]);
        assert(lv.accounts[x].id != lv.accounts[y].id);
    }
    if id == gone {
        if after.has_account(id) {
            let m = after.account_index(id);
            let x = if m < k {
                m
            } else {
                m + 1
            };
            assert(after.accounts[m] == lv.accounts[x]);
            if x < k {
                assert(lv.accounts[x].id != lv.accounts[k].id);
            } else {
                assert(lv.accounts[k].id != lv.accounts[x].id);
            }
        }
    } else if lv.has_account(id) {
        let m = lv.account_index(id);
        assert(m != k);
        let y = if m < k {
            m
        } else {
            m - 1
        };
        assert(after.accounts[y] == lv.accounts[m]);
        lemma_account_found_at(after, y);
    } else {
        if after.has_account(id) {
            let m = after.account_index(id);
            let x = if m < k {
                m
            } else {
                m + 1
            };
            assert(after.accounts[m] == lv.accounts[x]);
            assert(lv.accounts[x].id == id);
        }
    }
}

/// Adding a transaction under a free identifier keeps the ledger well
/// formed; the new identifier finds the new transaction, every other what it
/// found.
pub proof fn lemma_transactions_after_push(lv: LedgerView, t: TransactionView, id: u128)
    requires
        lv.wf(),
        !lv.has_transaction(t.id),
    ensures
        lv.with_transaction(t).wf(),
        lv.with_transaction(t).find_transaction(id) == (if id == t.id {
            Some(t)
        } else {
            lv.find_transaction(id)
        }),
{
    let after = lv.with_transaction(t);
    let n = lv.transactions.len() as int;
    assert(after.transactions[n] == t);
    assert forall|i: int, j: int| 0 <= i < j < after.transactions.len() implies (
    #[trigger] after.transactions[i]).id != (#[trigger] after.transactions[j]).id by {
        assert(after.transactions[i] == lv.transactions[i]);
        if j < n {
            assert(after.transactions[j] == lv.transactions[j]);
        }
    }
    if id == t.id {
        lemma_transaction_found_at(after, n);
    } else if lv.has_transaction(id) {
        let k = lv.transaction_index(id);
        assert(after.transactions[k] == lv.transactions[k]);
        lemma_transaction_found_at(after, k);
    } else {
        if after.has_transaction(id) {
            let k = after.transaction_index(id);
            assert(k < n);
            assert(lv.transactions[k].id == id);
        }
    }
}

/// Replacing a transaction by one of the same identifier keeps the ledger
/// well formed; that identifier finds the new transaction, every other what
/// it found.
pub proof fn lemma_transactions_after_replace(lv: LedgerView, u: TransactionView, id: u128)
    requires
        lv.wf(),
        lv.has_transaction(u.id),
    ensures
        lv.with_transaction_replaced(u).wf(),
        lv.with_transaction_replaced(u).find_transaction(id) == (if id == u.id {
            Some(u)
        } else {
            lv.find_transaction(id)
        }),
        lv.with_transaction_replaced(u).transactions.len() == lv.transactions.len(),
{
    let after = lv.with_transaction_replaced(u);
    let k = lv.transaction_index(u.id);
    assert(lv.transactions[k].id == u.id);
    assert(after.transactions[k] == u);
    assert forall|i: int, j: int| 0 <= i < j < after.transactions.len() implies (
    #[trigger] after.transactions[i]).id != (#[trigger] after.transactions[j]).id by {
        assert(after.transactions[i].id == lv.transactions[i].id);
        assert(after.transactions[j].id == lv.transactions[j].id);
    }
    if id == u.id {
        lemma_transaction_found_at(after, k);
    } else if lv.has_transaction(id) {
        let m = lv.transaction_index(id);
        assert(m != k);
        assert(after.transactions[m] == lv.transactions[m]);
        lemma_transaction_found_at(after, m);
    } else {
        if after.has_transaction(id) {
            let m = after.transaction_index(id);
            assert(after.transactions[m].id == lv.transactions[m].id);
        }
    }
}

/// Removing a transaction keeps the ledger well formed; its identifier
/// finds nothing, every other what it found.
pub proof fn lemma_transactions_after_remove(lv: LedgerView, gone: u128, id: u128)
    requires
        lv.wf(),
        lv.has_transaction(gone),
    ensures
        lv.without_transaction(gone).wf(),
        lv.without_transaction(gone).find_transaction(id) == (if id == gone {
            None
        } else {
            lv.find_transaction(id)
        }),
{
    let after = lv.without_transaction(gone);
    let k = lv.transaction_index(gone);
    assert(lv.transactions[k].id == gone);
    assert forall|i: int, j: int| 0 <= i < j < after.transactions.len() implies (
    #[trigger] after.transactions[i]).id != (#[trigger] after.transactions[j]).id by {
        let x = if i < k {
            i
        } else {
            i + 1
        };
        let y = if j < k {
            j
        } else {
            j + 1
        };
        assert(after.transactions[i] == lv.transactions[x]);
        assert(after.transactions[j] == lv.transactions[y]);
        assert(lv.transactions[x].id != lv.transactions[y].id);
    }
    if id == gone {
        if after.has_transaction(id) {
            let m = after.transaction_index(id);
            let x = if m < k {
                m
            } else {
                m + 1
            };
            assert(after.transactions[m] == lv.transactions[x]);
            if x < k {
                assert(lv.transactions[x].id != lv.transactions[k].id);
            } else {
                assert(lv.transactions[k].id != lv.transactions[x].id);
            }
        }
    } else if lv.has_transaction(id) {
        let m = lv.transaction_index(id);
        assert(m != k);
        let y = if m < k {
            m
        } else {
            m - 1
        };
        assert(after.transactions[y] == lv.transactions[m]);
        lemma_transaction_found_at(after, y);
    } else {
        if after.has_transaction(id) {
            let m = after.transaction_index(id);
            let x = if m < k {
                m
            } else {
                m + 1
            };
            assert(after.transactions[m] == lv.transactions[x]);
            assert(lv.transactions[x].id == id);
        }
    }
}

/// In a well-formed ledger, an identifier finds the record that stands
/// anywhere under it.
pub proof fn lemma_holdings_found_at(lv: LedgerView, i: int)
    requires
        lv.wf(),
        0 <= i < lv.holdings.len(),
    ensures
        lv.has_holdings(lv.holdings[i].id),
        lv.holdings_index(lv.holdings[i].id) == i,
        lv.find_holdings(lv.holdings[i].id) == Some(lv.holdings[i]),
{
    let id = lv.holdings[i].id;
    let k = lv.holdings_index(id);
    assert(lv.holdings[k].id == id);
    if k < i {
        assert(lv.holdings[k].id != lv.holdings[i].id);
    } else if i < k {
        assert(lv.holdings[i].id != lv.holdings[k].id);
    }
}

/// A position that is added under a free identifier, and that is not stored
/// already, is found under its identifier, and the ledger stays well formed.
pub proof fn lemma_holdings_after_push(lv: LedgerView, h: HoldingsView)
    requires
        lv.wf(),
        !lv.has_holdings(h.id),
        !lv.position_taken(h),
    ensures
        lv.with_holdings(h).wf(),
        lv.with_holdings(h).find_holdings(h.id) == Some(h),
{
    let after = lv.with_holdings(h);
    let n = lv.holdings.len() as int;
    assert(after.holdings[n] == h);
    assert forall|i: int, j: int| 0 <= i < j < after.holdings.len() implies (
    #[trigger] after.holdings[i]).id != (#[trigger] after.holdings[j]).id by {
        assert(after.holdings[i] == lv.holdings[i]);
        if j < n {
            assert(after.holdings[j] == lv.holdings[j]);
        }
    }
    assert forall|i: int, j: int|
        0 <= i < j < after.holdings.len() implies !same_position(
        #[trigger] after.holdings[i],
        #[trigger] after.holdings[j],
    ) by {
        assert(after.holdings[i] == lv.holdings[i]);
        if j < n {
            assert(after.holdings[j] == lv.holdings[j]);
        }
    }
    lemma_holdings_found_at(after, n);
}

} // verus!
