//! Listing transactions: which are selected, in what order, and which page
//! of them is shown.

use vstd::prelude::*;
use vstd::string::*;
use crate::amount::Amount;
use crate::error::{Failure, ServiceError};
use crate::ledger::{transaction_views, Ledger, LedgerView};
use crate::records::{text_view, Transaction, TransactionView};
use crate::text::{contains, lowercased, occurs_in, push_char, same_text, to_lowercase};
use crate::transaction::{shown_transaction, TransactionResponse, TransactionResponseView};

verus! {

/// The page size where none is asked for.
pub const DEFAULT_LIMIT: u64 = 100;

/// The largest page size.
pub const MAX_LIMIT: u64 = 500;

/// The longest keyword, in characters.
pub const MAX_KEYWORD_CHARS: usize = 100;

/// What to list: every condition that is given must hold.
#[derive(Debug)]
pub struct TransactionQuery {
    pub start: Option<i64>,
    pub end: Option<i64>,
    pub category: Option<String>,
    pub account_id: Option<u128>,
    pub min_amount: Option<Amount>,
    pub max_amount: Option<Amount>,
    pub keyword: Option<String>,
    pub txn_type: Option<String>,
    pub limit: Option<u64>,
    pub offset: Option<u64>,
}

/// A query, with its texts as sequences of characters.
pub struct TransactionQueryView {
    pub start: Option<i64>,
    pub end: Option<i64>,
    pub category: Option<Seq<char>>,
    pub account_id: Option<u128>,
    pub min_amount: Option<Amount>,
    pub max_amount: Option<Amount>,
    pub keyword: Option<Seq<char>>,
    pub txn_type: Option<Seq<char>>,
    pub limit: Option<u64>,
    pub offset: Option<u64>,
}

impl View for TransactionQuery {
    type V = TransactionQueryView;

    open spec fn view(&self) -> TransactionQueryView {
        TransactionQueryView {
            start: self.start,
            end: self.end,
            category: text_view(self.category),
            account_id: self.account_id,
            min_amount: self.min_amount,
            max_amount: self.max_amount,
            keyword: text_view(self.keyword),
            txn_type: text_view(self.txn_type),
            limit: self.limit,
            offset: self.offset,
        }
    }
}

impl TransactionQueryView {
    /// The keyword has more characters than a keyword may have.
    pub open spec fn keyword_too_long(self) -> bool {
        self.keyword is Some && (self.keyword->0).len() > MAX_KEYWORD_CHARS
    }

    /// The page size of the query.
    pub open spec fn page_size(self) -> u64 {
        page_size_of(self.limit)
    }

    /// The page of the query, where its page size is not zero.
    pub open spec fn page(self) -> Option<u64> {
        page_of(self.offset, self.limit)
    }

    /// What is wrong with the query, if anything: a keyword that is too
    /// long, or else a page size of zero.
    pub open spec fn check(self) -> Result<(), Failure> {
        if self.keyword_too_long() {
            Err(Failure::Validation("Keyword too long"@))
        } else if self.page() is None {
            Err(Failure::Validation("Limit must be positive"@))
        } else {
            Ok(())
        }
    }

    /// The type that is asked for, lower-cased.
    pub open spec fn wanted_type(self) -> Option<Seq<char>> {
        match self.txn_type {
            Some(t) => Some(lowercased(t)),
            None => None,
        }
    }
}

/// The page size: what is asked for, or the default, and never more than
/// the largest.
pub open spec fn page_size_of(limit: Option<u64>) -> u64 {
    let asked = match limit {
        Some(l) => l,
        None => DEFAULT_LIMIT,
    };
    if asked < MAX_LIMIT {
        asked
    } else {
        MAX_LIMIT
    }
}

/// The page: the offset divided by the page size, rounded down. An offset
/// within a page shows that page from its start. A page size of zero has no
/// pages.
pub open spec fn page_of(offset: Option<u64>, limit: Option<u64>) -> Option<u64> {
    let size = page_size_of(limit);
    let start = match offset {
        Some(o) => o,
        None => 0,
    };
    if size == 0 {
        None
    } else {
        Some((start / size) as u64)
    }
}

/// A text that is there and holds the keyword.
pub open spec fn mentions(text: Option<Seq<char>>, keyword: Seq<char>) -> bool {
    text is Some && occurs_in(keyword, text->0)
}

/// Whether a query selects a transaction for a user.
pub open spec fn selects(user_id: u128, q: TransactionQueryView, t: TransactionView) -> bool {
    &&& t.user_id == user_id
    &&& q.start is Some ==> t.occurred_at >= q.start->0
    &&& q.end is Some ==> t.occurred_at <= q.end->0
    &&& q.category is Some ==> t.category == q.category
    &&& q.account_id is Some ==> (t.from_account_id == q.account_id || t.to_account_id
        == q.account_id)
    &&& q.min_amount is Some ==> (q.min_amount->0).at_most(t.amount)
    &&& q.max_amount is Some ==> t.amount.at_most(q.max_amount->0)
    &&& q.keyword is Some ==> (mentions(t.note, q.keyword->0) || mentions(
        t.merchant,
        q.keyword->0,
    ))
    &&& q.txn_type is Some ==> t.txn_type.code() == lowercased(q.txn_type->0)
}

/// The transactions that a query selects for a user.
pub open spec fn selected(user_id: u128, q: TransactionQueryView) -> spec_fn(TransactionView) -> bool {
    |t: TransactionView| selects(user_id, q, t)
}

/// A sequence in which no transaction occurred later than one before it.
pub open spec fn newest_first(s: Seq<TransactionView>) -> bool {
    forall|i: int, j: int| 0 <= i < j < s.len() ==> s[i].occurred_at >= s[j].occurred_at
}

/// `sorted` with `t` put behind every transaction that occurred no earlier.
pub open spec fn placed(sorted: Seq<TransactionView>, t: TransactionView) -> Seq<TransactionView>
    decreases sorted.len(),
{
    if sorted.len() == 0 {
        seq![t]
    } else if sorted.last().occurred_at >= t.occurred_at {
        sorted.push(t)
    } else {
        placed(sorted.drop_last(), t).push(sorted.last())
    }
}

/// The transactions of `s` from the latest to the earliest; those that
/// occurred at the same instant stay in the order they have in `s`.
pub open spec fn by_newest(s: Seq<TransactionView>) -> Seq<TransactionView>
    decreases s.len(),
{
    if s.len() == 0 {
        Seq::empty()
    } else {
        placed(by_newest(s.drop_last()), s.last())
    }
}

/// The part of `s` that a page shows: `size` records from record
/// `page * size` on, as far as `s` has them.
pub open spec fn page_window<T>(s: Seq<T>, page: nat, size: nat) -> Seq<T> {
    let first = if page * size < s.len() {
        page * size
    } else {
        s.len()
    };
    let end = if first + size < s.len() {
        first + size
    } else {
        s.len()
    };
    s.subrange(first as int, end as int)
}

/// A keyword with every `%` and `_` made literal by a backslash in front.
pub open spec fn escaped(s: Seq<char>) -> Seq<char>
    decreases s.len(),
{
    if s.len() == 0 {
        Seq::empty()
    } else if s.last() == '%' || s.last() == '_' {
        escaped(s.drop_last()).push('\\').push(s.last())
    } else {
        escaped(s.drop_last()).push(s.last())
    }
}

/// The pattern that finds a keyword anywhere in a text: the escaped keyword
/// between two wildcards.
pub open spec fn pattern_of(keyword: Seq<char>) -> Seq<char> {
    seq!['%'] + escaped(keyword) + seq!['%']
}

/// Putting a transaction in place keeps the order.
pub proof fn lemma_placed_keeps_order(sorted: Seq<TransactionView>, t: TransactionView)
    requires
        newest_first(sorted),
    ensures
        newest_first(placed(sorted, t)),
        placed(sorted, t).len() == sorted.len() + 1,
        placed(sorted, t).to_multiset() == sorted.to_multiset().insert(t),
        forall|i: int|
            0 <= i < placed(sorted, t).len() ==> (#[trigger] placed(sorted, t)[i]) == t
                || sorted.contains(placed(sorted, t)[i]),
    decreases sorted.len(),
{
    broadcast use vstd::seq_lib::group_to_multiset_ensures;

    if sorted.len() == 0 {
        assert(sorted =~= Seq::empty());
        assert(seq![t] =~= Seq::<TransactionView>::empty().push(t));
    } else if sorted.last().occurred_at >= t.occurred_at {
        let out = sorted.push(t);
        assert forall|i: int| 0 <= i < out.len() implies (#[trigger] out[i]) == t || sorted.contains(
            out[i],
        ) by {
            if i < sorted.len() {
                assert(sorted[i] == out[i]);
            }
        }
    } else {
        let front = sorted.drop_last();
        let last = sorted.last();
        assert(sorted =~= front.push(last));
        assert(newest_first(front)) by {
            assert forall|i: int, j: int| 0 <= i < j < front.len() implies front[i].occurred_at
                >= front[j].occurred_at by {
                assert(sorted[i].occurred_at >= sorted[j].occurred_at);
            }
        }
        lemma_placed_keeps_order(front, t);
        let inner = placed(front, t);
        let out = inner.push(last);
        assert forall|i: int| 0 <= i < inner.len() implies (#[trigger] inner[i]).occurred_at
            >= last.occurred_at by {
            if inner[i] != t {
                assert(front.contains(inner[i]));
                let k = choose|k: int| 0 <= k < front.len() && front[k] == inner[i];
                assert(sorted[k].occurred_at >= sorted[sorted.len() - 1].occurred_at);
            }
        }
        assert forall|i: int, j: int| 0 <= i < j < out.len() implies out[i].occurred_at
            >= out[j].occurred_at by {
            if j < inner.len() {
                assert(inner[i].occurred_at >= inner[j].occurred_at);
            }
        }
        assert forall|i: int| 0 <= i < out.len() implies (#[trigger] out[i]) == t || sorted.contains(
            out[i],
        ) by {
            if i < inner.len() {
                if inner[i] != t {
                    assert(front.contains(inner[i]));
                    let k = choose|k: int| 0 <= k < front.len() && front[k] == inner[i];
                    assert(sorted[k] == inner[i]);
                }
            } else {
                assert(sorted[sorted.len() - 1] == out[i]);
            }
        }
        assert(out.to_multiset() =~= sorted.to_multiset().insert(t)) by {
            assert(inner.to_multiset() == front.to_multiset().insert(t));
            assert(sorted.to_multiset() == front.to_multiset().insert(last));
        }
    }
}

/// Sorting gives the same transactions, each as often as before, from the
/// latest to the earliest.
pub proof fn lemma_by_newest_sorts(s: Seq<TransactionView>)
    ensures
        newest_first(by_newest(s)),
        by_newest(s).len() == s.len(),
        by_newest(s).to_multiset() == s.to_multiset(),
    decreases s.len(),
{
    broadcast use vstd::seq_lib::group_to_multiset_ensures;

    if s.len() == 0 {
        assert(s =~= Seq::empty());
    } else {
        lemma_by_newest_sorts(s.drop_last());
        lemma_placed_keeps_order(by_newest(s.drop_last()), s.last());
        assert(s =~= s.drop_last().push(s.last()));
    }
}

/// Where `t` goes in `sorted`: putting it there is putting it in place.
proof fn lemma_placed_is_insert(sorted: Seq<TransactionView>, t: TransactionView, pos: int)
    requires
        0 <= pos <= sorted.len(),
        forall|k: int| pos <= k < sorted.len() ==> sorted[k].occurred_at < t.occurred_at,
        pos > 0 ==> sorted[pos - 1].occurred_at >= t.occurred_at,
    ensures
        placed(sorted, t) == sorted.insert(pos, t),
    decreases sorted.len(),
{
    if sorted.len() == 0 {
        assert(sorted.insert(pos, t) =~= seq![t]);
    } else if pos == sorted.len() {
        assert(sorted.insert(pos, t) =~= sorted.push(t));
    } else {
        let front = sorted.drop_last();
        lemma_placed_is_insert(front, t, pos);
        assert(sorted.insert(pos, t) =~= front.insert(pos, t).push(sorted.last()));
    }
}

/// Puts a transaction in its place among sorted ones.
fn place(sorted: &mut Vec<Transaction>, t: Transaction)
    ensures
        transaction_views(final(sorted)@) == placed(transaction_views(old(sorted)@), t@),
{
    let ghost before = transaction_views(sorted@);
    let mut pos = sorted.len();
    while pos > 0 && sorted[pos - 1].occurred_at < t.occurred_at
        invariant
            pos <= sorted.len(),
            before == transaction_views(sorted@),
            forall|k: int| pos <= k < sorted.len() ==> before[k].occurred_at < t.occurred_at,
        decreases pos,
    {
        pos = pos - 1;
    }
    proof {
        lemma_placed_is_insert(before, t@, pos as int);
    }
    sorted.insert(pos, t);
    assert(transaction_views(sorted@) =~= before.insert(pos as int, t@));
}

/// Sorts transactions from the latest to the earliest, keeping the order of
/// those that occurred at the same instant.
pub fn sort_by_newest(items: Vec<Transaction>) -> (r: Vec<Transaction>)
    ensures
        transaction_views(r@) == by_newest(transaction_views(items@)),
{
    let ghost all = transaction_views(items@);
    let n = items.len();
    let mut out: Vec<Transaction> = Vec::new();
    let mut i: usize = 0;
    assert(all.take(0) =~= Seq::empty());
    assert(transaction_views(out@) =~= Seq::empty());
    while i < n
        invariant
            n == items.len(),
            i <= n,
            all == transaction_views(items@),
            transaction_views(out@) == by_newest(all.take(i as int)),
        decreases n - i,
    {
        proof {
            assert(all.take(i + 1).drop_last() =~= all.take(i as int));
            assert(all.take(i + 1).last() == items[i as int]@);
        }
        place(&mut out, items[i].clone());
        i = i + 1;
    }
    assert(all.take(n as int) =~= all);
    out
}

/// The page size of a query.
pub fn page_size(limit: Option<u64>) -> (r: u64)
    ensures
        r == page_size_of(limit),
        r <= MAX_LIMIT,
{
    let asked = match limit {
        Some(l) => l,
        None => DEFAULT_LIMIT,
    };
    if asked < MAX_LIMIT {
        asked
    } else {
        MAX_LIMIT
    }
}

/// The page of a query, or `None` where the page size is zero.
pub fn page_number(offset: Option<u64>, limit: Option<u64>) -> (r: Option<u64>)
    ensures
        r == page_of(offset, limit),
{
    let size = page_size(limit);
    let start = match offset {
        Some(o) => o,
        None => 0,
    };
    if size == 0 {
        None
    } else {
        Some(start / size)
    }
}

/// Makes the pattern that finds a keyword anywhere in a text, with the
/// keyword's own `%` and `_` made literal.
pub fn like_pattern(keyword: &str) -> (r: String)
    ensures
        r@ == pattern_of(keyword@),
{
    let n = keyword.unicode_len();
    let mut out = "%".to_owned();
    proof {
        reveal_strlit("%");
        assert("%"@ =~= seq!['%']);
        assert(keyword@.take(0) =~= Seq::empty());
        assert(out@ =~= seq!['%'] + escaped(keyword@.take(0)));
    }
    let mut i: usize = 0;
    while i < n
        invariant
            n == keyword@.len(),
            i <= n,
            out@ == seq!['%'] + escaped(keyword@.take(i as int)),
        decreases n - i,
    {
        let c = keyword.get_char(i);
        let ghost done = escaped(keyword@.take(i as int));
        proof {
            assert(keyword@.take(i + 1).drop_last() =~= keyword@.take(i as int));
            assert(keyword@.take(i + 1).last() == c);
        }
        if c == '%' || c == '_' {
            push_char(&mut out, '\\');
            push_char(&mut out, c);
            assert(out@ =~= seq!['%'] + done.push('\\').push(c));
        } else {
            push_char(&mut out, c);
            assert(out@ =~= seq!['%'] + done.push(c));
        }
        i = i + 1;
    }
    assert(keyword@.take(n as int) =~= keyword@);
    push_char(&mut out, '%');
    assert(out@ =~= pattern_of(keyword@));
    out
}

/// What a store needs to know to run a listing: the pattern of the
/// keyword, the type in lower case, and the page with its size.
#[derive(Debug)]
pub struct ListingPlan {
    pub pattern: Option<String>,
    pub txn_type: Option<String>,
    pub page: u64,
    pub page_size: u64,
}

/// The pattern of the keyword that a query gives, if it gives one.
pub open spec fn wanted_pattern(q: TransactionQueryView) -> Option<Seq<char>> {
    match q.keyword {
        Some(k) => Some(pattern_of(k)),
        None => None,
    }
}

/// Prepares a listing for a store: refuses a keyword of more than a hundred
/// characters and a page size of zero, and works out the pattern, the type
/// and the page.
pub fn plan_listing(filter: &TransactionQuery) -> (r: Result<ListingPlan, ServiceError>)
    ensures
        match r {
            Ok(plan) => {
                &&& filter@.check() is Ok
                &&& text_view(plan.pattern) == wanted_pattern(filter@)
                &&& text_view(plan.txn_type) == filter@.wanted_type()
                &&& Some(plan.page) == filter@.page()
                &&& plan.page_size == filter@.page_size()
                &&& 0 < plan.page_size <= MAX_LIMIT
            },
            Err(e) => filter@.check() == Err::<(), Failure>(e@),
        },
{
    let pattern = match &filter.keyword {
        Some(keyword) => {
            if keyword.as_str().unicode_len() > MAX_KEYWORD_CHARS {
                return Err(ServiceError::validation("Keyword too long"));
            }
            Some(like_pattern(keyword.as_str()))
        },
        None => None,
    };
    let page = match page_number(filter.offset, filter.limit) {
        Some(p) => p,
        None => {
            return Err(ServiceError::validation("Limit must be positive"));
        },
    };
    let txn_type = match &filter.txn_type {
        Some(t) => Some(to_lowercase(t.as_str())),
        None => None,
    };
    Ok(ListingPlan { pattern, txn_type, page, page_size: page_size(filter.limit) })
}

/// Tells whether a text is there and holds the keyword.
fn is_mentioned(text: &Option<String>, keyword: &str) -> (r: bool)
    ensures
        r == mentions(text_view(*text), keyword@),
{
    match text {
        Some(t) => contains(t.as_str(), keyword),
        None => false,
    }
}

/// Tells whether a query selects a transaction for a user, given the type
/// that the query asks for, lower-cased.
fn is_selected(
    t: &Transaction,
    user_id: u128,
    q: &TransactionQuery,
    wanted_type: &Option<String>,
) -> (r: bool)
    requires
        text_view(*wanted_type) == q@.wanted_type(),
    ensures
        r == selects(user_id, q@, t@),
{
    if t.user_id != user_id {
        return false;
    }
    if let Some(start) = q.start {
        if t.occurred_at < start {
            return false;
        }
    }
    if let Some(end) = q.end {
        if t.occurred_at > end {
            return false;
        }
    }
    if let Some(category) = &q.category {
        let same = match &t.category {
            Some(c) => same_text(c.as_str(), category.as_str()),
            None => false,
        };
        if !same {
            return false;
        }
    }
    if let Some(account_id) = q.account_id {
        let from_it = match t.from_account_id {
            Some(a) => a == account_id,
            None => false,
        };
        let to_it = match t.to_account_id {
            Some(a) => a == account_id,
            None => false,
        };
        if !from_it && !to_it {
            return false;
        }
    }
    if let Some(min) = &q.min_amount {
        if !min.le(&t.amount) {
            return false;
        }
    }
    if let Some(max) = &q.max_amount {
        if !t.amount.le(max) {
            return false;
        }
    }
    if let Some(keyword) = &q.keyword {
        if !is_mentioned(&t.note, keyword.as_str()) && !is_mentioned(
            &t.merchant,
            keyword.as_str(),
        ) {
            return false;
        }
    }
    if let Some(wanted) = wanted_type {
        if !same_text(t.txn_type.as_str(), wanted.as_str()) {
            return false;
        }
    }
    true
}

/// What comes of listing transactions: the page of those that the query
/// selects, from the latest to the earliest, or why not.
pub open spec fn list_transactions_outcome(
    lv: LedgerView,
    user_id: u128,
    q: TransactionQueryView,
) -> Result<Seq<TransactionView>, Failure> {
    match q.check() {
        Err(f) => Err(f),
        Ok(()) => Ok(
            page_window(
                by_newest(lv.transactions.filter(selected(user_id, q))),
                q.page()->0 as nat,
                q.page_size() as nat,
            ),
        ),
    }
}

/// How stored transactions are shown, one by one.
pub open spec fn shown_transactions(s: Seq<TransactionView>) -> Seq<TransactionResponseView> {
    Seq::new(s.len(), |i: int| shown_transaction(s[i]))
}

/// The views of a sequence of shown transactions.
pub open spec fn response_views(s: Seq<TransactionResponse>) -> Seq<TransactionResponseView> {
    Seq::new(s.len(), |i: int| s[i]@)
}

/// Lists the transactions of a user that a query selects: sorted from the
/// latest to the earliest, one page of them.
pub fn list_transactions(ledger: &Ledger, user_id: u128, filter: TransactionQuery) -> (r: Result<
    Vec<TransactionResponse>,
    ServiceError,
>)
    requires
        ledger.wf(),
    ensures
        match r {
            Ok(shown) => list_transactions_outcome(ledger@, user_id, filter@) matches Ok(found)
                && response_views(shown@) == shown_transactions(found),
            Err(e) => list_transactions_outcome(ledger@, user_id, filter@) == Err::<
                Seq<TransactionView>,
                Failure,
            >(e@),
        },
{
    let plan = match plan_listing(&filter) {
        Ok(p) => p,
        Err(e) => {
            return Err(e);
        },
    };
    let wanted_type = plan.txn_type;
    let all = ledger.all_transactions();
    let ghost stored = ledger@.transactions;
    let ghost wanted = selected(user_id, filter@);
    let n = all.len();
    let mut chosen: Vec<Transaction> = Vec::new();
    let mut i: usize = 0;
    assert(stored.take(0).filter(wanted) =~= Seq::empty()) by {
        reveal(Seq::filter);
    }
    assert(transaction_views(chosen@) =~= Seq::empty());
    while i < n
        invariant
            n == all.len(),
            i <= n,
            stored == transaction_views(all@),
            wanted == selected(user_id, filter@),
            text_view(wanted_type) == filter@.wanted_type(),
            transaction_views(chosen@) == stored.take(i as int).filter(wanted),
        decreases n - i,
    {
        proof {
            reveal(Seq::filter);
            assert(stored.take(i + 1).drop_last() =~= stored.take(i as int));
            assert(stored.take(i + 1).last() == all[i as int]@);
        }
        if is_selected(&all[i], user_id, &filter, &wanted_type) {
            let ghost prior = transaction_views(chosen@);
            chosen.push(all[i].clone());
            assert(transaction_views(chosen@) =~= prior.push(all[i as int]@));
        }
        i = i + 1;
    }
    assert(stored.take(n as int) =~= stored);
    let sorted = sort_by_newest(chosen);
    let ghost ordered = transaction_views(sorted@);
    let size = plan.page_size;
    let page = plan.page;
    let total = sorted.len();
    let mut out: Vec<TransactionResponse> = Vec::new();
    // The first record of the page: `page * size`, or the end where the
    // page lies beyond it.
    assert(page * size <= 0xFFFF_FFFF_FFFF_FFFF * 500) by (nonlinear_arith)
        requires
            0 <= page <= 0xFFFF_FFFF_FFFF_FFFF,
            0 <= size <= 500,
    ;
    let skip: u128 = (page as u128) * (size as u128);
    let first: usize = if skip < total as u128 {
        skip as usize
    } else {
        total
    };
    let end: usize = if (size as u128) < (total - first) as u128 {
        first + size as usize
    } else {
        total
    };
    let ghost window = page_window(ordered, page as nat, size as nat);
    assert(window == ordered.subrange(first as int, end as int)) by {
        assert(skip == page * size) by (nonlinear_arith)
            requires
                skip == (page as u128) * (size as u128),
                page <= u64::MAX,
                size <= 500,
        ;
    }
    let mut k: usize = first;
    while k < end
        invariant
            first <= k <= end,
            end <= total,
            total == sorted.len(),
            ordered == transaction_views(sorted@),
            out.len() == k - first,
            forall|j: int| 0 <= j < out.len() ==> out[j]@ == shown_transaction(ordered[first + j]),
        decreases end - k,
    {
        out.push(TransactionResponse::from_record(sorted[k].clone()));
        k = k + 1;
    }
    assert(response_views(out@) =~= shown_transactions(window));
    Ok(out)
}

} // verus!
