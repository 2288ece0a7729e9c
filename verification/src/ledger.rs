//! The ledger: three tables of records, held in memory.
//!
//! The ledger keeps what a relational store would: no two records of a table
//! share an identifier, and no two positions share user, account, asset type
//! and symbol. Its operations find, count, insert, replace and remove records
//! and do nothing else; the rules on who may change what stand in the
//! services built upon them.

use vstd::prelude::*;
use vstd::string::*;
use crate::records::{Account, AccountView, Holdings, HoldingsView, Transaction, TransactionView};
use crate::error::{duplicate_key, no_such_record, StoreFault};
use crate::text::same_text;

verus! {

/// The views of a sequence of accounts.
pub open spec fn account_views(s: Seq<Account>) -> Seq<AccountView> {
    Seq::new(s.len(), |i: int| s[i]@)
}

/// The views of a sequence of transactions.
pub open spec fn transaction_views(s: Seq<Transaction>) -> Seq<TransactionView> {
    Seq::new(s.len(), |i: int| s[i]@)
}

/// The views of a sequence of positions.
pub open spec fn holdings_views(s: Seq<Holdings>) -> Seq<HoldingsView> {
    Seq::new(s.len(), |i: int| s[i]@)
}

/// The accounts of one user.
pub open spec fn account_of_user(user_id: u128) -> spec_fn(AccountView) -> bool {
    |a: AccountView| a.user_id == user_id
}

/// The transactions that take from, or give to, one account.
pub open spec fn touches_account(account_id: u128) -> spec_fn(TransactionView) -> bool {
    |t: TransactionView|
        t.from_account_id == Some(account_id) || t.to_account_id == Some(account_id)
}

/// The transactions that refer to one earlier transaction.
pub open spec fn refers_to(txn_id: u128) -> spec_fn(TransactionView) -> bool {
    |t: TransactionView| t.ref_transaction_id == Some(txn_id)
}

/// The positions held in one account.
pub open spec fn held_in(account_id: u128) -> spec_fn(HoldingsView) -> bool {
    |h: HoldingsView| h.account_id == account_id
}

/// Two positions that may not both be stored: the same user, account, asset
/// type and symbol.
pub open spec fn same_position(a: HoldingsView, b: HoldingsView) -> bool {
    &&& a.user_id == b.user_id
    &&& a.account_id == b.account_id
    &&& a.asset_type == b.asset_type
    &&& a.symbol == b.symbol
}

/// What a ledger holds, record by record, in the order of insertion.
pub struct LedgerView {
    pub accounts: Seq<AccountView>,
    pub transactions: Seq<TransactionView>,
    pub holdings: Seq<HoldingsView>,
}

impl LedgerView {
    /// What the store enforces: identifiers are unique within each table, and
    /// no two positions are the same position.
    pub open spec fn wf(self) -> bool {
        &&& forall|i: int, j: int|
            0 <= i < j < self.accounts.len() ==> (#[trigger] self.accounts[i]).id != (
            #[trigger] self.accounts[j]).id
        &&& forall|i: int, j: int|
            0 <= i < j < self.transactions.len() ==> (#[trigger] self.transactions[i]).id != (
            #[trigger] self.transactions[j]).id
        &&& forall|i: int, j: int|
            0 <= i < j < self.holdings.len() ==> (#[trigger] self.holdings[i]).id != (
            #[trigger] self.holdings[j]).id
        &&& forall|i: int, j: int|
            0 <= i < j < self.holdings.len() ==> !same_position(
                #[trigger] self.holdings[i],
                #[trigger] self.holdings[j],
            )
    }

    /// The ledger with nothing in it.
    pub open spec fn empty() -> LedgerView {
        LedgerView { accounts: Seq::empty(), transactions: Seq::empty(), holdings: Seq::empty() }
    }

    // ----- accounts -----

    /// Some account has this identifier.
    pub open spec fn has_account(self, id: u128) -> bool {
        exists|i: int| 0 <= i < self.accounts.len() && (#[trigger] self.accounts[i]).id == id
    }

    /// Where the account with this identifier stands.
    pub open spec fn account_index(self, id: u128) -> int {
        choose|i: int| 0 <= i < self.accounts.len() && (#[trigger] self.accounts[i]).id == id
    }

    /// The account with this identifier, if there is one.
    pub open spec fn find_account(self, id: u128) -> Option<AccountView> {
        if self.has_account(id) {
            Some(self.accounts[self.account_index(id)])
        } else {
            None
        }
    }

    /// The accounts of one user, in the order of insertion.
    pub open spec fn accounts_of(self, user_id: u128) -> Seq<AccountView> {
        self.accounts.filter(account_of_user(user_id))
    }

    /// The ledger with one more account.
    pub open spec fn with_account(self, a: AccountView) -> LedgerView {
        LedgerView { accounts: self.accounts.push(a), ..self }
    }

    /// The ledger with `a` in the place of the account of the same identifier.
    pub open spec fn with_account_replaced(self, a: AccountView) -> LedgerView {
        LedgerView { accounts: self.accounts.update(self.account_index(a.id), a), ..self }
    }

    /// The ledger without the account of this identifier.
    pub open spec fn without_account(self, id: u128) -> LedgerView {
        LedgerView { accounts: self.accounts.remove(self.account_index(id)), ..self }
    }

    // ----- transactions -----

    /// Some transaction has this identifier.
    pub open spec fn has_transaction(self, id: u128) -> bool {
        exists|i: int|
            0 <= i < self.transactions.len() && (#[trigger] self.transactions[i]).id == id
    }

    /// Where the transaction with this identifier stands.
    pub open spec fn transaction_index(self, id: u128) -> int {
        choose|i: int|
            0 <= i < self.transactions.len() && (#[trigger] self.transactions[i]).id == id
    }

    /// The transaction with this identifier, if there is one.
    pub open spec fn find_transaction(self, id: u128) -> Option<TransactionView> {
        if self.has_transaction(id) {
            Some(self.transactions[self.transaction_index(id)])
        } else {
            None
        }
    }

    /// The transactions that take from, or give to, the account.
    pub open spec fn transactions_touching(self, account_id: u128) -> Seq<TransactionView> {
        self.transactions.filter(touches_account(account_id))
    }

    /// The transactions that refer to the transaction.
    pub open spec fn transactions_referring(self, txn_id: u128) -> Seq<TransactionView> {
        self.transactions.filter(refers_to(txn_id))
    }

    /// The ledger with one more transaction.
    pub open spec fn with_transaction(self, t: TransactionView) -> LedgerView {
        LedgerView { transactions: self.transactions.push(t), ..self }
    }

    /// The ledger with `t` in the place of the transaction of the same
    /// identifier.
    pub open spec fn with_transaction_replaced(self, t: TransactionView) -> LedgerView {
        LedgerView {
            transactions: self.transactions.update(self.transaction_index(t.id), t),
            ..self
        }
    }

    /// The ledger without the transaction of this identifier.
    pub open spec fn without_transaction(self, id: u128) -> LedgerView {
        LedgerView {
            transactions: self.transactions.remove(self.transaction_index(id)),
            ..self
        }
    }

    // ----- positions -----

    /// Some position has this identifier.
    pub open spec fn has_holdings(self, id: u128) -> bool {
        exists|i: int| 0 <= i < self.holdings.len() && (#[trigger] self.holdings[i]).id == id
    }

    /// Where the position with this identifier stands.
    pub open spec fn holdings_index(self, id: u128) -> int {
        choose|i: int| 0 <= i < self.holdings.len() && (#[trigger] self.holdings[i]).id == id
    }

    /// The position with this identifier, if there is one.
    pub open spec fn find_holdings(self, id: u128) -> Option<HoldingsView> {
        if self.has_holdings(id) {
            Some(self.holdings[self.holdings_index(id)])
        } else {
            None
        }
    }

    /// Some stored position is the same position as `h`.
    pub open spec fn position_taken(self, h: HoldingsView) -> bool {
        exists|i: int|
            0 <= i < self.holdings.len() && same_position(#[trigger] self.holdings[i], h)
    }

    /// The positions held in the account.
    pub open spec fn holdings_in(self, account_id: u128) -> Seq<HoldingsView> {
        self.holdings.filter(held_in(account_id))
    }

    /// The ledger with one more position.
    pub open spec fn with_holdings(self, h: HoldingsView) -> LedgerView {
        LedgerView { holdings: self.holdings.push(h), ..self }
    }

    /// The ledger with `h` in the place of the position of the same
    /// identifier.
    pub open spec fn with_holdings_replaced(self, h: HoldingsView) -> LedgerView {
        LedgerView { holdings: self.holdings.update(self.holdings_index(h.id), h), ..self }
    }

    /// The ledger without the position of this identifier.
    pub open spec fn without_holdings(self, id: u128) -> LedgerView {
        LedgerView { holdings: self.holdings.remove(self.holdings_index(id)), ..self }
    }
}

/// A filter keeps something exactly when some element passes it.
pub proof fn lemma_filter_keeps_iff_some_passes<A>(s: Seq<A>, pred: spec_fn(A) -> bool)
    ensures
        s.filter(pred).len() > 0 <==> exists|i: int| 0 <= i < s.len() && pred(#[trigger] s[i]),
    decreases s.len(),
{
    reveal(Seq::filter);
    if s.len() > 0 {
        let front = s.drop_last();
        lemma_filter_keeps_iff_some_passes(front, pred);
        if pred(s.last()) {
            assert(pred(s[s.len() - 1]));
        } else if exists|i: int| 0 <= i < s.len() && pred(#[trigger] s[i]) {
            let i = choose|i: int| 0 <= i < s.len() && pred(#[trigger] s[i]);
            assert(pred(front[i]));
        } else if exists|i: int| 0 <= i < front.len() && pred(#[trigger] front[i]) {
            let i = choose|i: int| 0 <= i < front.len() && pred(#[trigger] front[i]);
            assert(pred(s[i]));
        }
    }
}

/// A ledger of accounts, transactions and positions.
pub struct Ledger {
    accounts: Vec<Account>,
    transactions: Vec<Transaction>,
    holdings: Vec<Holdings>,
}

impl View for Ledger {
    type V = LedgerView;

    closed spec fn view(&self) -> LedgerView {
        LedgerView {
            accounts: account_views(self.accounts@),
            transactions: transaction_views(self.transactions@),
            holdings: holdings_views(self.holdings@),
        }
    }
}

impl Ledger {
    /// The ledger keeps what the store enforces.
    pub open spec fn wf(&self) -> bool {
        self@.wf()
    }

    /// A ledger with nothing in it.
    pub fn new() -> (r: Ledger)
        ensures
            r.wf(),
            r@ == LedgerView::empty(),
    {
        let r = Ledger { accounts: Vec::new(), transactions: Vec::new(), holdings: Vec::new() };
        assert(r@.accounts =~= Seq::empty());
        assert(r@.transactions =~= Seq::empty());
        assert(r@.holdings =~= Seq::empty());
        r
    }

    // ----- accounts -----

    fn account_position(&self, id: u128) -> (r: Option<usize>)
        ensures
            match r {
                Some(i) => i < self.accounts.len() && self.accounts[i as int].id == id,
                None => forall|j: int| 0 <= j < self.accounts.len() ==> self.accounts[j].id != id,
            },
    {
        let n = self.accounts.len();
        let mut i: usize = 0;
        while i < n
            invariant
                n == self.accounts.len(),
                i <= n,
                forall|j: int| 0 <= j < i ==> self.accounts[j].id != id,
            decreases n - i,
        {
            if self.accounts[i].id == id {
                return Some(i);
            }
            i = i + 1;
        }
        None
    }

    /// Finds the account with this identifier.
    pub fn find_account(&self, id: u128) -> (r: Option<Account>)
        requires
            self.wf(),
        ensures
            match r {
                Some(a) => self@.find_account(id) == Some(a@),
                None => self@.find_account(id) is None,
            },
    {
        match self.account_position(id) {
            Some(i) => {
                assert(self@.accounts[i as int].id == id);
                Some(self.accounts[i].clone())
            },
            None => {
                assert forall|j: int| 0 <= j < self@.accounts.len() implies (
                #[trigger] self@.accounts[j]).id != id by {
                    assert(self.accounts[j].id != id);
                }
                None
            },
        }
    }

    /// The accounts of one user, in the order of insertion.
    pub fn accounts_of(&self, user_id: u128) -> (r: Vec<Account>)
        ensures
            account_views(r@) == self@.accounts_of(user_id),
    {
        let n = self.accounts.len();
        let mut out: Vec<Account> = Vec::new();
        let mut i: usize = 0;
        assert(self@.accounts.take(0).filter(account_of_user(user_id)) =~= Seq::empty()) by {
            reveal(Seq::filter);
        }
        while i < n
            invariant
                n == self.accounts.len(),
                i <= n,
                account_views(out@) == self@.accounts.take(i as int).filter(
                    account_of_user(user_id),
                ),
            decreases n - i,
        {
            let ghost before = self@.accounts.take(i as int);
            let ghost after = self@.accounts.take(i + 1);
            proof {
                reveal(Seq::filter);
                assert(after.drop_last() =~= before);
                assert(after.last() == self.accounts[i as int]@);
            }
            if self.accounts[i].user_id == user_id {
                let ghost prior = account_views(out@);
                out.push(self.accounts[i].clone());
                assert(account_views(out@) =~= prior.push(self.accounts[i as int]@));
            }
            i = i + 1;
        }
        assert(self@.accounts.take(n as int) =~= self@.accounts);
        out
    }

    /// Inserts an account, unless its identifier is taken.
    pub fn insert_account(&mut self, account: Account) -> (r: Result<(), StoreFault>)
        requires
            old(self).wf(),
        ensures
            final(self).wf(),
            r is Ok <==> !old(self)@.has_account(account.id),
            r is Ok ==> final(self)@ == old(self)@.with_account(account@),
            r matches Err(f) ==> final(self)@ == old(self)@ && f@ == duplicate_key(),
    {
        match self.account_position(account.id) {
            Some(i) => {
                assert(self@.accounts[i as int].id == account.id);
                Err(StoreFault::Unique("duplicate key value violates unique constraint".to_owned()))
            },
            None => {
                let ghost before = self@;
                assert forall|j: int| 0 <= j < before.accounts.len() implies (
                #[trigger] before.accounts[j]).id != account.id by {
                    assert(self.accounts[j].id != account.id);
                }
                self.accounts.push(account);
                assert(self@.accounts =~= before.accounts.push(account@));
                Ok(())
            },
        }
    }

    /// Puts `account` in the place of the account of the same identifier.
    pub fn replace_account(&mut self, account: Account) -> (r: Result<(), StoreFault>)
        requires
            old(self).wf(),
        ensures
            final(self).wf(),
            r is Ok <==> old(self)@.has_account(account.id),
            r is Ok ==> final(self)@ == old(self)@.with_account_replaced(account@),
            r matches Err(f) ==> final(self)@ == old(self)@ && f@ == no_such_record(),
    {
        match self.account_position(account.id) {
            Some(i) => {
                let ghost before = self@;
                assert(before.accounts[i as int].id == account.id);
                assert(before.account_index(account.id) == i);
                self.accounts.set(i, account);
                assert(self@.accounts =~= before.accounts.update(i as int, account@));
                Ok(())
            },
            None => {
                assert forall|j: int| 0 <= j < self@.accounts.len() implies (
                #[trigger] self@.accounts[j]).id != account.id by {
                    assert(self.accounts[j].id != account.id);
                }
                Err(StoreFault::Other("None of the records are updated".to_owned()))
            },
        }
    }

    /// Removes the account with this identifier.
    pub fn remove_account(&mut self, id: u128) -> (r: Result<(), StoreFault>)
        requires
            old(self).wf(),
        ensures
            final(self).wf(),
            r is Ok <==> old(self)@.has_account(id),
            r is Ok ==> final(self)@ == old(self)@.without_account(id),
            r matches Err(f) ==> final(self)@ == old(self)@ && f@ == no_such_record(),
    {
        match self.account_position(id) {
            Some(i) => {
                let ghost before = self@;
                assert(before.accounts[i as int].id == id);
                assert(before.account_index(id) == i);
                self.accounts.remove(i);
                assert(self@.accounts =~= before.accounts.remove(i as int));
                Ok(())
            },
            None => {
                assert forall|j: int| 0 <= j < self@.accounts.len() implies (
                #[trigger] self@.accounts[j]).id != id by {
                    assert(self.accounts[j].id != id);
                }
                Err(StoreFault::Other("None of the records are updated".to_owned()))
            },
        }
    }
}

impl Ledger {
    // ----- transactions -----

    fn transaction_position(&self, id: u128) -> (r: Option<usize>)
        ensures
            match r {
                Some(i) => i < self.transactions.len() && self.transactions[i as int].id == id,
                None => forall|j: int|
                    0 <= j < self.transactions.len() ==> self.transactions[j].id != id,
            },
    {
        let n = self.transactions.len();
        let mut i: usize = 0;
        while i < n
            invariant
                n == self.transactions.len(),
                i <= n,
                forall|j: int| 0 <= j < i ==> self.transactions[j].id != id,
            decreases n - i,
        {
            if self.transactions[i].id == id {
                return Some(i);
            }
            i = i + 1;
        }
        None
    }

    /// Finds the transaction with this identifier.
    pub fn find_transaction(&self, id: u128) -> (r: Option<Transaction>)
        requires
            self.wf(),
        ensures
            match r {
                Some(t) => self@.find_transaction(id) == Some(t@),
                None => self@.find_transaction(id) is None,
            },
    {
        match self.transaction_position(id) {
            Some(i) => {
                assert(self@.transactions[i as int].id == id);
                Some(self.transactions[i].clone())
            },
            None => {
                assert forall|j: int| 0 <= j < self@.transactions.len() implies (
                #[trigger] self@.transactions[j]).id != id by {
                    assert(self.transactions[j].id != id);
                }
                None
            },
        }
    }

    /// Every transaction, in the order of insertion.
    pub fn all_transactions(&self) -> (r: Vec<Transaction>)
        ensures
            transaction_views(r@) == self@.transactions,
    {
        let n = self.transactions.len();
        let mut out: Vec<Transaction> = Vec::new();
        let mut i: usize = 0;
        while i < n
            invariant
                n == self.transactions.len(),
                i <= n,
                out.len() == i,
                forall|j: int| 0 <= j < i ==> out[j]@ == self.transactions[j]@,
            decreases n - i,
        {
            out.push(self.transactions[i].clone());
            i = i + 1;
        }
        assert(transaction_views(out@) =~= self@.transactions);
        out
    }

    /// How many transactions take from, or give to, the account.
    pub fn count_transactions_touching(&self, account_id: u128) -> (r: usize)
        ensures
            r == self@.transactions_touching(account_id).len(),
    {
        let n = self.transactions.len();
        let mut count: usize = 0;
        let mut i: usize = 0;
        assert(self@.transactions.take(0).filter(touches_account(account_id)) =~= Seq::empty())
            by {
            reveal(Seq::filter);
        }
        while i < n
            invariant
                n == self.transactions.len(),
                i <= n,
                count <= i,
                count == self@.transactions.take(i as int).filter(
                    touches_account(account_id),
                ).len(),
            decreases n - i,
        {
            proof {
                reveal(Seq::filter);
                assert(self@.transactions.take(i + 1).drop_last() =~= self@.transactions.take(
                    i as int,
                ));
                assert(self@.transactions.take(i + 1).last() == self.transactions[i as int]@);
            }
            let t = &self.transactions[i];
            let from_it = match t.from_account_id {
                Some(a) => a == account_id,
                None => false,
            };
            let to_it = match t.to_account_id {
                Some(a) => a == account_id,
                None => false,
            };
            if from_it || to_it {
                count = count + 1;
            }
            i = i + 1;
        }
        assert(self@.transactions.take(n as int) =~= self@.transactions);
        count
    }

    /// How many transactions refer to the transaction.
    pub fn count_transactions_referring(&self, txn_id: u128) -> (r: usize)
        ensures
            r == self@.transactions_referring(txn_id).len(),
    {
        let n = self.transactions.len();
        let mut count: usize = 0;
        let mut i: usize = 0;
        assert(self@.transactions.take(0).filter(refers_to(txn_id)) =~= Seq::empty()) by {
            reveal(Seq::filter);
        }
        while i < n
            invariant
                n == self.transactions.len(),
                i <= n,
                count <= i,
                count == self@.transactions.take(i as int).filter(refers_to(txn_id)).len(),
            decreases n - i,
        {
            proof {
                reveal(Seq::filter);
                assert(self@.transactions.take(i + 1).drop_last() =~= self@.transactions.take(
                    i as int,
                ));
                assert(self@.transactions.take(i + 1).last() == self.transactions[i as int]@);
            }
            let refers = match self.transactions[i].ref_transaction_id {
                Some(t) => t == txn_id,
                None => false,
            };
            if refers {
                count = count + 1;
            }
            i = i + 1;
        }
        assert(self@.transactions.take(n as int) =~= self@.transactions);
        count
    }

    /// Inserts a transaction, unless its identifier is taken.
    pub fn insert_transaction(&mut self, txn: Transaction) -> (r: Result<(), StoreFault>)
        requires
            old(self).wf(),
        ensures
            final(self).wf(),
            r is Ok <==> !old(self)@.has_transaction(txn.id),
            r is Ok ==> final(self)@ == old(self)@.with_transaction(txn@),
            r matches Err(f) ==> final(self)@ == old(self)@ && f@ == duplicate_key(),
    {
        match self.transaction_position(txn.id) {
            Some(i) => {
                assert(self@.transactions[i as int].id == txn.id);
                Err(StoreFault::Unique("duplicate key value violates unique constraint".to_owned()))
            },
            None => {
                let ghost before = self@;
                assert forall|j: int| 0 <= j < before.transactions.len() implies (
                #[trigger] before.transactions[j]).id != txn.id by {
                    assert(self.transactions[j].id != txn.id);
                }
                self.transactions.push(txn);
                assert(self@.transactions =~= before.transactions.push(txn@));
                assert(self@.accounts == before.accounts);
                Ok(())
            },
        }
    }

    /// Puts `txn` in the place of the transaction of the same identifier.
    pub fn replace_transaction(&mut self, txn: Transaction) -> (r: Result<(), StoreFault>)
        requires
            old(self).wf(),
        ensures
            final(self).wf(),
            r is Ok <==> old(self)@.has_transaction(txn.id),
            r is Ok ==> final(self)@ == old(self)@.with_transaction_replaced(txn@),
            r matches Err(f) ==> final(self)@ == old(self)@ && f@ == no_such_record(),
    {
        match self.transaction_position(txn.id) {
            Some(i) => {
                let ghost before = self@;
                assert(before.transactions[i as int].id == txn.id);
                assert(before.transaction_index(txn.id) == i);
                self.transactions.set(i, txn);
                assert(self@.transactions =~= before.transactions.update(i as int, txn@));
                assert(self@.accounts == before.accounts);
                Ok(())
            },
            None => {
                assert forall|j: int| 0 <= j < self@.transactions.len() implies (
                #[trigger] self@.transactions[j]).id != txn.id by {
                    assert(self.transactions[j].id != txn.id);
                }
                Err(StoreFault::Other("None of the records are updated".to_owned()))
            },
        }
    }

    /// Removes the transaction with this identifier.
    pub fn remove_transaction(&mut self, id: u128) -> (r: Result<(), StoreFault>)
        requires
            old(self).wf(),
        ensures
            final(self).wf(),
            r is Ok <==> old(self)@.has_transaction(id),
            r is Ok ==> final(self)@ == old(self)@.without_transaction(id),
            r matches Err(f) ==> final(self)@ == old(self)@ && f@ == no_such_record(),
    {
        match self.transaction_position(id) {
            Some(i) => {
                let ghost before = self@;
                assert(before.transactions[i as int].id == id);
                assert(before.transaction_index(id) == i);
                self.transactions.remove(i);
                assert(self@.transactions =~= before.transactions.remove(i as int));
                assert(self@.accounts == before.accounts);
                Ok(())
            },
            None => {
                assert forall|j: int| 0 <= j < self@.transactions.len() implies (
                #[trigger] self@.transactions[j]).id != id by {
                    assert(self.transactions[j].id != id);
                }
                Err(StoreFault::Other("None of the records are updated".to_owned()))
            },
        }
    }
}

/// Tells whether two positions are the same position.
pub fn is_same_position(a: &Holdings, b: &Holdings) -> (r: bool)
    ensures
        r == same_position(a@, b@),
{
    a.user_id == b.user_id && a.account_id == b.account_id && a.asset_type == b.asset_type
        && same_text(a.symbol.as_str(), b.symbol.as_str())
}

impl LedgerView {
    /// Some stored position other than the one with `h`'s identifier is the
    /// same position as `h`.
    pub open spec fn position_taken_by_other(self, h: HoldingsView) -> bool {
        exists|i: int|
            0 <= i < self.holdings.len() && (#[trigger] self.holdings[i]).id != h.id
                && same_position(self.holdings[i], h)
    }
}

impl Ledger {
    // ----- positions -----

    fn holdings_position(&self, id: u128) -> (r: Option<usize>)
        ensures
            match r {
                Some(i) => i < self.holdings.len() && self.holdings[i as int].id == id,
                None => forall|j: int| 0 <= j < self.holdings.len() ==> self.holdings[j].id != id,
            },
    {
        let n = self.holdings.len();
        let mut i: usize = 0;
        while i < n
            invariant
                n == self.holdings.len(),
                i <= n,
                forall|j: int| 0 <= j < i ==> self.holdings[j].id != id,
            decreases n - i,
        {
            if self.holdings[i].id == id {
                return Some(i);
            }
            i = i + 1;
        }
        None
    }

    /// Whether a stored position with another identifier is the same
    /// position as `h`.
    fn other_holds_position(&self, h: &Holdings) -> (r: bool)
        ensures
            r == self@.position_taken_by_other(h@),
    {
        let n = self.holdings.len();
        let mut i: usize = 0;
        while i < n
            invariant
                n == self.holdings.len(),
                i <= n,
                forall|j: int|
                    0 <= j < i ==> !((#[trigger] self@.holdings[j]).id != h.id && same_position(
                        self@.holdings[j],
                        h@,
                    )),
            decreases n - i,
        {
            if self.holdings[i].id != h.id && is_same_position(&self.holdings[i], h) {
                assert(self@.holdings[i as int].id != h.id && same_position(
                    self@.holdings[i as int],
                    h@,
                ));
                return true;
            }
            assert(self@.holdings[i as int] == self.holdings[i as int]@);
            i = i + 1;
        }
        false
    }

    /// Finds the position with this identifier.
    pub fn find_holdings(&self, id: u128) -> (r: Option<Holdings>)
        requires
            self.wf(),
        ensures
            match r {
                Some(h) => self@.find_holdings(id) == Some(h@),
                None => self@.find_holdings(id) is None,
            },
    {
        match self.holdings_position(id) {
            Some(i) => {
                assert(self@.holdings[i as int].id == id);
                Some(self.holdings[i].clone())
            },
            None => {
                assert forall|j: int| 0 <= j < self@.holdings.len() implies (
                #[trigger] self@.holdings[j]).id != id by {
                    assert(self.holdings[j].id != id);
                }
                None
            },
        }
    }

    /// Every position, in the order of insertion.
    pub fn all_holdings(&self) -> (r: Vec<Holdings>)
        ensures
            holdings_views(r@) == self@.holdings,
    {
        let n = self.holdings.len();
        let mut out: Vec<Holdings> = Vec::new();
        let mut i: usize = 0;
        while i < n
            invariant
                n == self.holdings.len(),
                i <= n,
                out.len() == i,
                forall|j: int| 0 <= j < i ==> out[j]@ == self.holdings[j]@,
            decreases n - i,
        {
            out.push(self.holdings[i].clone());
            i = i + 1;
        }
        assert(holdings_views(out@) =~= self@.holdings);
        out
    }

    /// How many positions are held in the account.
    pub fn count_holdings_in(&self, account_id: u128) -> (r: usize)
        ensures
            r == self@.holdings_in(account_id).len(),
    {
        let n = self.holdings.len();
        let mut count: usize = 0;
        let mut i: usize = 0;
        assert(self@.holdings.take(0).filter(held_in(account_id)) =~= Seq::empty()) by {
            reveal(Seq::filter);
        }
        while i < n
            invariant
                n == self.holdings.len(),
                i <= n,
                count <= i,
                count == self@.holdings.take(i as int).filter(held_in(account_id)).len(),
            decreases n - i,
        {
            proof {
                reveal(Seq::filter);
                assert(self@.holdings.take(i + 1).drop_last() =~= self@.holdings.take(i as int));
                assert(self@.holdings.take(i + 1).last() == self.holdings[i as int]@);
            }
            if self.holdings[i].account_id == account_id {
                count = count + 1;
            }
            i = i + 1;
        }
        assert(self@.holdings.take(n as int) =~= self@.holdings);
        count
    }

    /// Inserts a position, unless its identifier is taken or a stored
    /// position is the same position.
    pub fn insert_holdings(&mut self, h: Holdings) -> (r: Result<(), StoreFault>)
        requires
            old(self).wf(),
        ensures
            final(self).wf(),
            r is Ok <==> !old(self)@.has_holdings(h.id) && !old(self)@.position_taken(h@),
            r is Ok ==> final(self)@ == old(self)@.with_holdings(h@),
            r matches Err(f) ==> final(self)@ == old(self)@ && f@ == duplicate_key(),
    {
        match self.holdings_position(h.id) {
            Some(i) => {
                assert(self@.holdings[i as int].id == h.id);
                Err(StoreFault::Unique("duplicate key value violates unique constraint".to_owned()))
            },
            None => {
                let ghost before = self@;
                assert forall|j: int| 0 <= j < before.holdings.len() implies (
                #[trigger] before.holdings[j]).id != h.id by {
                    assert(self.holdings[j].id != h.id);
                }
                if self.other_holds_position(&h) {
                    Err(
                        StoreFault::Unique(
                            "duplicate key value violates unique constraint".to_owned(),
                        ),
                    )
                } else {
                    assert forall|j: int| 0 <= j < before.holdings.len() implies !same_position(
                        #[trigger] before.holdings[j],
                        h@,
                    ) by {
                        assert(before.holdings[j].id != h.id);
                    }
                    self.holdings.push(h);
                    assert(self@.holdings =~= before.holdings.push(h@));
                    assert(self@.accounts == before.accounts);
                    Ok(())
                }
            },
        }
    }

    /// Puts `h` in the place of the position of the same identifier, unless
    /// another stored position is the same position.
    pub fn replace_holdings(&mut self, h: Holdings) -> (r: Result<(), StoreFault>)
        requires
            old(self).wf(),
        ensures
            final(self).wf(),
            r is Ok <==> old(self)@.has_holdings(h.id) && !old(self)@.position_taken_by_other(h@),
            r is Ok ==> final(self)@ == old(self)@.with_holdings_replaced(h@),
            r matches Err(f) ==> final(self)@ == old(self)@ && f@ == (if old(self)@.has_holdings(
                h.id,
            ) {
                duplicate_key()
            } else {
                no_such_record()
            }),
    {
        match self.holdings_position(h.id) {
            Some(i) => {
                let ghost before = self@;
                assert(before.holdings[i as int].id == h.id);
                assert(before.holdings_index(h.id) == i);
                if self.other_holds_position(&h) {
                    Err(
                        StoreFault::Unique(
                            "duplicate key value violates unique constraint".to_owned(),
                        ),
                    )
                } else {
                    self.holdings.set(i, h);
                    assert(self@.holdings =~= before.holdings.update(i as int, h@));
                    assert(self@.accounts == before.accounts);
                    assert forall|a: int, b: int|
                        0 <= a < b < self@.holdings.len() implies !same_position(
                        #[trigger] self@.holdings[a],
                        #[trigger] self@.holdings[b],
                    ) by {
                        assert(before.holdings[a].id != before.holdings[b].id);
                        if a != i && b != i {
                            assert(!same_position(before.holdings[a], before.holdings[b]));
                        } else if a == i {
                            assert(before.holdings[b].id != h.id);
                        } else {
                            assert(before.holdings[a].id != h.id);
                        }
                    }
                    Ok(())
                }
            },
            None => {
                assert forall|j: int| 0 <= j < self@.holdings.len() implies (
                #[trigger] self@.holdings[j]).id != h.id by {
                    assert(self.holdings[j].id != h.id);
                }
                Err(StoreFault::Other("None of the records are updated".to_owned()))
            },
        }
    }

    /// Removes the position with this identifier.
    pub fn remove_holdings(&mut self, id: u128) -> (r: Result<(), StoreFault>)
        requires
            old(self).wf(),
        ensures
            final(self).wf(),
            r is Ok <==> old(self)@.has_holdings(id),
            r is Ok ==> final(self)@ == old(self)@.without_holdings(id),
            r matches Err(f) ==> final(self)@ == old(self)@ && f@ == no_such_record(),
    {
        match self.holdings_position(id) {
            Some(i) => {
                let ghost before = self@;
                assert(before.holdings[i as int].id == id);
                assert(before.holdings_index(id) == i);
                self.holdings.remove(i);
                assert(self@.holdings =~= before.holdings.remove(i as int));
                assert(self@.accounts == before.accounts);
                Ok(())
            },
            None => {
                assert forall|j: int| 0 <= j < self@.holdings.len() implies (
                #[trigger] self@.holdings[j]).id != id by {
                    assert(self.holdings[j].id != id);
                }
                Err(StoreFault::Other("None of the records are updated".to_owned()))
            },
        }
    }
}

} // verus!
