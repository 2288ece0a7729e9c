//! Transactions: how one is created, read, changed and removed.
//!
//! Creation is decided in steps. What a request needs to know of the store
//! (who owns the accounts it names, and the transaction it refers to) is
//! handed in as far as it is known; the decision either asks for the next
//! piece, rejects the request, or accepts it with the record to store.

use vstd::prelude::*;
use vstd::string::*;
use crate::amount::Amount;
use crate::error::{duplicate_key, join, outcome_view, Failure, ServiceError};
use crate::ledger::{Ledger, LedgerView};
use crate::ownership::{
    account_missing,
    format_uuid,
    load_owned_transaction,
    subject_check,
    transaction_owner,
};
use crate::stamp::{fresh_id, now_micros};
use crate::records::{
    copy_text,
    lemma_txn_kind_code_round_trip,
    text_view,
    Transaction,
    TransactionView,
    TxnKind,
};
use crate::text::{
    is_currency_code,
    lower_code,
    normalize_lower,
    normalize_upper,
    three_letters,
    upper_code,
};

verus! {

/// A request to record a transaction.
#[derive(Debug)]
pub struct CreateTransactionRequest {
    pub from_account_id: Option<u128>,
    pub to_account_id: Option<u128>,
    pub txn_type: String,
    pub amount: Amount,
    pub currency_code: String,
    pub to_amount: Option<Amount>,
    pub to_currency_code: Option<String>,
    pub category: Option<String>,
    pub note: Option<String>,
    pub occurred_at: i64,
    pub ref_transaction_id: Option<u128>,
    pub merchant: Option<String>,
}

/// A request to record a transaction, with its texts as sequences of
/// characters.
pub struct CreateTransactionRequestView {
    pub from_account_id: Option<u128>,
    pub to_account_id: Option<u128>,
    pub txn_type: Seq<char>,
    pub amount: Amount,
    pub currency_code: Seq<char>,
    pub to_amount: Option<Amount>,
    pub to_currency_code: Option<Seq<char>>,
    pub category: Option<Seq<char>>,
    pub note: Option<Seq<char>>,
    pub occurred_at: i64,
    pub ref_transaction_id: Option<u128>,
    pub merchant: Option<Seq<char>>,
}

impl View for CreateTransactionRequest {
    type V = CreateTransactionRequestView;

    open spec fn view(&self) -> CreateTransactionRequestView {
        CreateTransactionRequestView {
            from_account_id: self.from_account_id,
            to_account_id: self.to_account_id,
            txn_type: self.txn_type@,
            amount: self.amount,
            currency_code: self.currency_code@,
            to_amount: self.to_amount,
            to_currency_code: text_view(self.to_currency_code),
            category: text_view(self.category),
            note: text_view(self.note),
            occurred_at: self.occurred_at,
            ref_transaction_id: self.ref_transaction_id,
            merchant: text_view(self.merchant),
        }
    }
}

/// A transaction that has passed every check and lacks only its identifier,
/// its owner and its time stamps.
#[derive(Debug)]
pub struct TransactionDraft {
    pub from_account_id: Option<u128>,
    pub to_account_id: Option<u128>,
    pub txn_type: TxnKind,
    pub amount: Amount,
    pub currency_code: String,
    pub to_amount: Option<Amount>,
    pub to_currency_code: Option<String>,
    pub category: Option<String>,
    pub note: Option<String>,
    pub occurred_at: i64,
    pub ref_transaction_id: Option<u128>,
    pub merchant: Option<String>,
}

/// A draft, with its texts as sequences of characters.
pub struct TransactionDraftView {
    pub from_account_id: Option<u128>,
    pub to_account_id: Option<u128>,
    pub txn_type: TxnKind,
    pub amount: Amount,
    pub currency_code: Seq<char>,
    pub to_amount: Option<Amount>,
    pub to_currency_code: Option<Seq<char>>,
    pub category: Option<Seq<char>>,
    pub note: Option<Seq<char>>,
    pub occurred_at: i64,
    pub ref_transaction_id: Option<u128>,
    pub merchant: Option<Seq<char>>,
}

impl View for TransactionDraft {
    type V = TransactionDraftView;

    open spec fn view(&self) -> TransactionDraftView {
        TransactionDraftView {
            from_account_id: self.from_account_id,
            to_account_id: self.to_account_id,
            txn_type: self.txn_type,
            amount: self.amount,
            currency_code: self.currency_code@,
            to_amount: self.to_amount,
            to_currency_code: text_view(self.to_currency_code),
            category: text_view(self.category),
            note: text_view(self.note),
            occurred_at: self.occurred_at,
            ref_transaction_id: self.ref_transaction_id,
            merchant: text_view(self.merchant),
        }
    }
}

impl TransactionDraftView {
    /// The record that the draft becomes for a user, under an identifier, at
    /// an instant.
    pub open spec fn stamped(self, id: u128, user_id: u128, now: i64) -> TransactionView {
        TransactionView {
            id,
            user_id,
            from_account_id: self.from_account_id,
            to_account_id: self.to_account_id,
            txn_type: self.txn_type,
            amount: self.amount,
            currency_code: self.currency_code,
            to_amount: self.to_amount,
            to_currency_code: self.to_currency_code,
            category: self.category,
            note: self.note,
            occurred_at: self.occurred_at,
            ref_transaction_id: self.ref_transaction_id,
            merchant: self.merchant,
            created_at: now,
            updated_at: now,
        }
    }
}

impl TransactionDraft {
    /// Makes the record: the draft for a user, under an identifier, created
    /// and last changed at `now`.
    pub fn stamp(self, id: u128, user_id: u128, now: i64) -> (r: Transaction)
        ensures
            r@ == self@.stamped(id, user_id, now),
    {
        Transaction {
            id,
            user_id,
            from_account_id: self.from_account_id,
            to_account_id: self.to_account_id,
            txn_type: self.txn_type,
            amount: self.amount,
            currency_code: self.currency_code,
            to_amount: self.to_amount,
            to_currency_code: self.to_currency_code,
            category: self.category,
            note: self.note,
            occurred_at: self.occurred_at,
            ref_transaction_id: self.ref_transaction_id,
            merchant: self.merchant,
            created_at: now,
            updated_at: now,
        }
    }
}

/// What is known of an account that a request names.
#[derive(Debug, Clone, Copy, PartialEq, Eq, Structural)]
pub enum AccountLookup {
    /// The store has not been asked yet.
    Unknown,
    /// The store has no such account.
    Missing,
    /// The account exists and belongs to this user.
    Owner(u128),
}

/// What is known of the transaction that a request refers to.
#[derive(Debug)]
pub enum ReferenceLookup {
    /// The store has not been asked yet.
    Unknown,
    /// The store has no such transaction.
    Missing,
    /// The transaction exists, belongs to `user_id` and is in this
    /// currency.
    Found { user_id: u128, currency_code: String },
}

/// What is known of a referred transaction, with its text as a sequence of
/// characters.
pub enum ReferenceLookupView {
    Unknown,
    Missing,
    Found { user_id: u128, currency_code: Seq<char> },
}

impl View for ReferenceLookup {
    type V = ReferenceLookupView;

    open spec fn view(&self) -> ReferenceLookupView {
        match self {
            ReferenceLookup::Unknown => ReferenceLookupView::Unknown,
            ReferenceLookup::Missing => ReferenceLookupView::Missing,
            ReferenceLookup::Found { user_id, currency_code } => ReferenceLookupView::Found {
                user_id: *user_id,
                currency_code: currency_code@,
            },
        }
    }
}

/// What is known of the store while a request is being decided.
#[derive(Debug)]
pub struct Known {
    pub from_account: AccountLookup,
    pub to_account: AccountLookup,
    pub reference: ReferenceLookup,
}

/// What is known of the store, with its texts as sequences of characters.
pub struct KnownView {
    pub from_account: AccountLookup,
    pub to_account: AccountLookup,
    pub reference: ReferenceLookupView,
}

impl View for Known {
    type V = KnownView;

    open spec fn view(&self) -> KnownView {
        KnownView {
            from_account: self.from_account,
            to_account: self.to_account,
            reference: self.reference@,
        }
    }
}

impl Known {
    /// Nothing is known yet.
    pub fn nothing() -> (r: Known)
        ensures
            r@ == KnownView::nothing(),
    {
        Known {
            from_account: AccountLookup::Unknown,
            to_account: AccountLookup::Unknown,
            reference: ReferenceLookup::Unknown,
        }
    }
}

impl KnownView {
    /// Nothing is known yet.
    pub open spec fn nothing() -> KnownView {
        KnownView {
            from_account: AccountLookup::Unknown,
            to_account: AccountLookup::Unknown,
            reference: ReferenceLookupView::Unknown,
        }
    }
}

/// The next step in deciding a request.
#[derive(Debug)]
pub enum Step {
    /// Look up the account that the money leaves, and ask again.
    AskFromAccount(u128),
    /// Look up the account that the money reaches, and ask again.
    AskToAccount(u128),
    /// Look up the transaction that the request refers to, and ask again.
    AskReference(u128),
    /// The request is refused.
    Reject(ServiceError),
    /// The request is accepted: store this.
    Accept(TransactionDraft),
}

/// A step, with its texts as sequences of characters.
pub enum StepView {
    AskFromAccount(u128),
    AskToAccount(u128),
    AskReference(u128),
    Reject(Failure),
    Accept(TransactionDraftView),
}

impl View for Step {
    type V = StepView;

    open spec fn view(&self) -> StepView {
        match self {
            Step::AskFromAccount(id) => StepView::AskFromAccount(*id),
            Step::AskToAccount(id) => StepView::AskToAccount(*id),
            Step::AskReference(id) => StepView::AskReference(*id),
            Step::Reject(e) => StepView::Reject(e@),
            Step::Accept(d) => StepView::Accept(d@),
        }
    }
}

impl StepView {
    /// The step ends the decision: the request is refused or accepted.
    pub open spec fn settled(self) -> bool {
        self is Reject || self is Accept
    }
}

/// A refusal with a text that says what is wrong with the request.
pub open spec fn refuse(message: Seq<char>) -> StepView {
    StepView::Reject(Failure::Validation(message))
}

/// What the check of a transaction's type says of a code.
pub open spec fn txn_type_check(code: Seq<char>) -> Result<(), Failure> {
    if TxnKind::of_code(code) is Some {
        Ok(())
    } else {
        Err(Failure::Validation("Invalid transaction type: "@ + code))
    }
}

/// What the check of a transaction's currency says of a code.
pub open spec fn currency_check(code: Seq<char>) -> Result<(), Failure> {
    if is_currency_code(code) {
        Ok(())
    } else {
        Err(Failure::Validation("Currency code must be 3 letters"@))
    }
}

/// Checks that a code is one of the five transaction types.
pub fn validate_txn_type(t: &str) -> (r: Result<(), ServiceError>)
    ensures
        outcome_view(r) == txn_type_check(t@),
{
    match TxnKind::parse(t) {
        Some(_) => Ok(()),
        None => Err(ServiceError::Validation(join("Invalid transaction type: ", t))),
    }
}

/// Checks that a currency code is exactly three ASCII letters.
pub fn validate_currency_code(code: &str) -> (r: Result<(), ServiceError>)
    ensures
        outcome_view(r) == currency_check(code@),
{
    if three_letters(code) {
        Ok(())
    } else {
        Err(ServiceError::validation("Currency code must be 3 letters"))
    }
}

/// What is to be done about an account that a request names: ask for it,
/// refuse the request, or nothing, where the account is the caller's.
pub open spec fn account_step(
    lookup: AccountLookup,
    user_id: u128,
    account_id: u128,
    ask: StepView,
) -> Option<StepView> {
    match lookup {
        AccountLookup::Unknown => Some(ask),
        AccountLookup::Missing => Some(StepView::Reject(account_missing(account_id))),
        AccountLookup::Owner(o) => if o != user_id {
            Some(StepView::Reject(Failure::Forbidden))
        } else {
            None
        },
    }
}

/// What is to be done about the accounts of a request that names at most
/// one: first the account that the money leaves, then the one it reaches.
pub open spec fn accounts_step(
    user_id: u128,
    req: CreateTransactionRequestView,
    known: KnownView,
) -> Option<StepView> {
    let from_step = match req.from_account_id {
        Some(id) => account_step(known.from_account, user_id, id, StepView::AskFromAccount(id)),
        None => None,
    };
    if from_step is Some {
        from_step
    } else {
        match req.to_account_id {
            Some(id) => account_step(known.to_account, user_id, id, StepView::AskToAccount(id)),
            None => None,
        }
    }
}

/// The upper-cased second currency of a request, if it has one.
pub open spec fn second_currency(req: CreateTransactionRequestView) -> Option<Seq<char>> {
    match req.to_currency_code {
        Some(c) => Some(upper_code(c)),
        None => None,
    }
}

/// The draft of a request of the given kind: the request's own fields, its
/// currency as `currency`, its second amount and currency and its reference
/// as given.
pub open spec fn draft_of(
    req: CreateTransactionRequestView,
    kind: TxnKind,
    currency: Seq<char>,
    to_amount: Option<Amount>,
    to_currency: Option<Seq<char>>,
    reference: Option<u128>,
) -> TransactionDraftView {
    TransactionDraftView {
        from_account_id: req.from_account_id,
        to_account_id: req.to_account_id,
        txn_type: kind,
        amount: req.amount,
        currency_code: currency,
        to_amount: to_amount,
        to_currency_code: to_currency,
        category: req.category,
        note: req.note,
        occurred_at: req.occurred_at,
        ref_transaction_id: reference,
        merchant: req.merchant,
    }
}

/// The decision on a transfer. Both accounts are named, differ and are the
/// caller's; a second amount comes with a second currency or not at all, and
/// is above zero; a reference is dropped.
pub open spec fn planned_transfer(
    user_id: u128,
    req: CreateTransactionRequestView,
    known: KnownView,
    currency: Seq<char>,
) -> StepView {
    if req.from_account_id is None {
        refuse("Transfer must have from_account_id"@)
    } else if req.to_account_id is None {
        refuse("Transfer must have to_account_id"@)
    } else {
        let from = req.from_account_id->0;
        let to = req.to_account_id->0;
        let from_step = account_step(
            known.from_account,
            user_id,
            from,
            StepView::AskFromAccount(from),
        );
        let to_step = account_step(known.to_account, user_id, to, StepView::AskToAccount(to));
        let to_currency = second_currency(req);
        if from == to {
            refuse("Transfer from and to accounts must be different"@)
        } else if from_step is Some {
            from_step->0
        } else if to_step is Some {
            to_step->0
        } else if to_currency is Some && !is_currency_code(to_currency->0) {
            refuse("Currency code must be 3 letters"@)
        } else if (req.to_amount is Some) != (to_currency is Some) {
            refuse("to_amount and to_currency_code must both be present or both be absent"@)
        } else if req.to_amount is Some && !(req.to_amount->0).positive() {
            refuse("To amount must be positive"@)
        } else {
            StepView::Accept(
                draft_of(req, TxnKind::Transfer, currency, req.to_amount, to_currency, None),
            )
        }
    }
}

/// The decision on a refund or an adjustment. It has no second amount or
/// currency; it refers to a transaction of the caller's in the same
/// currency; it names exactly one account, which is the caller's.
pub open spec fn planned_correction(
    user_id: u128,
    req: CreateTransactionRequestView,
    known: KnownView,
    kind: TxnKind,
    currency: Seq<char>,
) -> StepView {
    if req.to_amount is Some || req.to_currency_code is Some {
        refuse("Refund/adjustment cannot have to_amount or to_currency_code"@)
    } else if req.ref_transaction_id is None {
        refuse(kind.code() + " must have ref_transaction_id"@)
    } else {
        match known.reference {
            ReferenceLookupView::Unknown => StepView::AskReference(req.ref_transaction_id->0),
            ReferenceLookupView::Missing => StepView::Reject(Failure::NotFound),
            ReferenceLookupView::Found { user_id: owner, currency_code } => {
                if owner != user_id {
                    StepView::Reject(Failure::Forbidden)
                } else if currency_code != currency {
                    refuse("Refund/adjustment currency must match original transaction"@)
                } else if req.from_account_id is Some && req.to_account_id is Some {
                    refuse(
                        "Refund/adjustment must have only one of from_account_id or to_account_id"@,
                    )
                } else if req.from_account_id is None && req.to_account_id is None {
                    refuse("Refund/adjustment must have from_account_id or to_account_id"@)
                } else if accounts_step(user_id, req, known) is Some {
                    accounts_step(user_id, req, known)->0
                } else {
                    StepView::Accept(
                        draft_of(req, kind, currency, None, None, req.ref_transaction_id),
                    )
                }
            },
        }
    }
}

/// The decision on an expense or an income. It has no second amount or
/// currency and no reference; it names exactly one account, which is the
/// caller's.
pub open spec fn planned_plain(
    user_id: u128,
    req: CreateTransactionRequestView,
    known: KnownView,
    kind: TxnKind,
    currency: Seq<char>,
) -> StepView {
    if req.to_amount is Some || req.to_currency_code is Some {
        refuse("Non-transfer transaction cannot have to_amount or to_currency_code"@)
    } else if req.ref_transaction_id is Some {
        refuse("Non-refund/adjustment transaction cannot have ref_transaction_id"@)
    } else if req.from_account_id is Some && req.to_account_id is Some {
        refuse("Non-transfer transaction cannot have both from and to accounts"@)
    } else if req.from_account_id is None && req.to_account_id is None {
        refuse("Transaction must have from_account_id or to_account_id"@)
    } else if accounts_step(user_id, req, known) is Some {
        accounts_step(user_id, req, known)->0
    } else {
        StepView::Accept(draft_of(req, kind, currency, None, None, None))
    }
}

/// The decision on a request, given what is known of the store: the amount
/// is above zero, the type is one of the five, the currency is three
/// letters, and then what the type asks for.
pub open spec fn planned(
    user_id: u128,
    req: CreateTransactionRequestView,
    known: KnownView,
) -> StepView {
    let kind_code = lower_code(req.txn_type);
    let currency = upper_code(req.currency_code);
    if !req.amount.positive() {
        refuse("Amount must be positive"@)
    } else if TxnKind::of_code(kind_code) is None {
        refuse("Invalid transaction type: "@ + kind_code)
    } else if !is_currency_code(currency) {
        refuse("Currency code must be 3 letters"@)
    } else {
        let kind = TxnKind::of_code(kind_code)->0;
        if kind == TxnKind::Transfer {
            planned_transfer(user_id, req, known, currency)
        } else if kind.corrects() {
            planned_correction(user_id, req, known, kind, currency)
        } else {
            planned_plain(user_id, req, known, kind, currency)
        }
    }
}

/// A refusal with the given text.
fn reject(message: &str) -> (r: Step)
    ensures
        r@ == refuse(message@),
{
    Step::Reject(ServiceError::validation(message))
}

/// Decides what to do about one account that a request names.
fn check_account(lookup: AccountLookup, user_id: u128, account_id: u128, ask: Step) -> (r: Option<
    Step,
>)
    ensures
        match r {
            Some(s) => account_step(lookup, user_id, account_id, ask@) == Some(s@),
            None => account_step(lookup, user_id, account_id, ask@) is None,
        },
{
    match lookup {
        AccountLookup::Unknown => Some(ask),
        AccountLookup::Missing => {
            let id_text = format_uuid(account_id);
            let mut message = join("Account ", id_text.as_str());
            message.append(" not found");
            Some(Step::Reject(ServiceError::Validation(message)))
        },
        AccountLookup::Owner(o) => if o != user_id {
            Some(Step::Reject(ServiceError::Forbidden))
        } else {
            None
        },
    }
}

/// Decides what to do about the accounts of a request that names at most
/// one.
fn check_accounts(user_id: u128, req: &CreateTransactionRequest, known: &Known) -> (r: Option<
    Step,
>)
    ensures
        match r {
            Some(s) => accounts_step(user_id, req@, known@) == Some(s@),
            None => accounts_step(user_id, req@, known@) is None,
        },
{
    if let Some(id) = req.from_account_id {
        let step = check_account(known.from_account, user_id, id, Step::AskFromAccount(id));
        if step.is_some() {
            return step;
        }
    }
    if let Some(id) = req.to_account_id {
        return check_account(known.to_account, user_id, id, Step::AskToAccount(id));
    }
    None
}

/// Makes the draft of a request.
fn draft(
    req: &CreateTransactionRequest,
    kind: TxnKind,
    currency: String,
    to_amount: Option<Amount>,
    to_currency: Option<String>,
    reference: Option<u128>,
) -> (r: TransactionDraft)
    ensures
        r@ == draft_of(req@, kind, currency@, to_amount, text_view(to_currency), reference),
{
    TransactionDraft {
        from_account_id: req.from_account_id,
        to_account_id: req.to_account_id,
        txn_type: kind,
        amount: req.amount,
        currency_code: currency,
        to_amount,
        to_currency_code: to_currency,
        category: copy_text(&req.category),
        note: copy_text(&req.note),
        occurred_at: req.occurred_at,
        ref_transaction_id: reference,
        merchant: copy_text(&req.merchant),
    }
}

/// Decides a transfer.
fn plan_transfer(user_id: u128, req: &CreateTransactionRequest, known: &Known, currency: String) -> (r:
    Step)
    ensures
        r@ == planned_transfer(user_id, req@, known@, currency@),
{
    let from = match req.from_account_id {
        Some(id) => id,
        None => {
            return reject("Transfer must have from_account_id");
        },
    };
    let to = match req.to_account_id {
        Some(id) => id,
        None => {
            return reject("Transfer must have to_account_id");
        },
    };
    if from == to {
        return reject("Transfer from and to accounts must be different");
    }
    if let Some(step) = check_account(known.from_account, user_id, from, Step::AskFromAccount(from)) {
        return step;
    }
    if let Some(step) = check_account(known.to_account, user_id, to, Step::AskToAccount(to)) {
        return step;
    }
    let to_currency = match &req.to_currency_code {
        Some(c) => Some(normalize_upper(c.as_str())),
        None => None,
    };
    if let Some(tc) = &to_currency {
        if !three_letters(tc.as_str()) {
            return reject("Currency code must be 3 letters");
        }
    }
    if req.to_amount.is_some() != to_currency.is_some() {
        return reject("to_amount and to_currency_code must both be present or both be absent");
    }
    if let Some(to_amount) = req.to_amount {
        if !to_amount.is_positive() {
            return reject("To amount must be positive");
        }
    }
    Step::Accept(draft(req, TxnKind::Transfer, currency, req.to_amount, to_currency, None))
}

/// Decides a refund or an adjustment.
fn plan_correction(
    user_id: u128,
    req: &CreateTransactionRequest,
    known: &Known,
    kind: TxnKind,
    currency: String,
) -> (r: Step)
    ensures
        r@ == planned_correction(user_id, req@, known@, kind, currency@),
{
    if req.to_amount.is_some() || req.to_currency_code.is_some() {
        return reject("Refund/adjustment cannot have to_amount or to_currency_code");
    }
    let reference = match req.ref_transaction_id {
        Some(id) => id,
        None => {
            return Step::Reject(
                ServiceError::Validation(join(kind.as_str(), " must have ref_transaction_id")),
            );
        },
    };
    match &known.reference {
        ReferenceLookup::Unknown => Step::AskReference(reference),
        ReferenceLookup::Missing => Step::Reject(ServiceError::NotFound),
        ReferenceLookup::Found { user_id: owner, currency_code } => {
            if *owner != user_id {
                return Step::Reject(ServiceError::Forbidden);
            }
            if *currency_code != currency {
                return reject("Refund/adjustment currency must match original transaction");
            }
            if req.from_account_id.is_some() && req.to_account_id.is_some() {
                return reject(
                    "Refund/adjustment must have only one of from_account_id or to_account_id",
                );
            }
            if req.from_account_id.is_none() && req.to_account_id.is_none() {
                return reject("Refund/adjustment must have from_account_id or to_account_id");
            }
            if let Some(step) = check_accounts(user_id, req, known) {
                return step;
            }
            Step::Accept(draft(req, kind, currency, None, None, Some(reference)))
        },
    }
}

/// Decides an expense or an income.
fn plan_plain(
    user_id: u128,
    req: &CreateTransactionRequest,
    known: &Known,
    kind: TxnKind,
    currency: String,
) -> (r: Step)
    ensures
        r@ == planned_plain(user_id, req@, known@, kind, currency@),
{
    if req.to_amount.is_some() || req.to_currency_code.is_some() {
        return reject("Non-transfer transaction cannot have to_amount or to_currency_code");
    }
    if req.ref_transaction_id.is_some() {
        return reject("Non-refund/adjustment transaction cannot have ref_transaction_id");
    }
    if req.from_account_id.is_some() && req.to_account_id.is_some() {
        return reject("Non-transfer transaction cannot have both from and to accounts");
    }
    if req.from_account_id.is_none() && req.to_account_id.is_none() {
        return reject("Transaction must have from_account_id or to_account_id");
    }
    if let Some(step) = check_accounts(user_id, req, known) {
        return step;
    }
    Step::Accept(draft(req, kind, currency, None, None, None))
}

/// Decides a request to record a transaction, given what is known of the
/// store so far: asks for what is still needed, refuses the request, or
/// accepts it with the draft to store.
pub fn plan_transaction(user_id: u128, req: &CreateTransactionRequest, known: &Known) -> (r: Step)
    ensures
        r@ == planned(user_id, req@, known@),
{
    if !req.amount.is_positive() {
        return reject("Amount must be positive");
    }
    let kind_code = normalize_lower(req.txn_type.as_str());
    let kind = match TxnKind::parse(kind_code.as_str()) {
        Some(k) => k,
        None => {
            return Step::Reject(
                ServiceError::Validation(join("Invalid transaction type: ", kind_code.as_str())),
            );
        },
    };
    let currency = normalize_upper(req.currency_code.as_str());
    if !three_letters(currency.as_str()) {
        return reject("Currency code must be 3 letters");
    }
    match kind {
        TxnKind::Transfer => plan_transfer(user_id, req, known, currency),
        TxnKind::Refund => plan_correction(user_id, req, known, kind, currency),
        TxnKind::Adjustment => plan_correction(user_id, req, known, kind, currency),
        TxnKind::Expense => plan_plain(user_id, req, known, kind, currency),
        TxnKind::Income => plan_plain(user_id, req, known, kind, currency),
    }
}

/// A request to change what may change of a transaction.
#[derive(Debug)]
pub struct UpdateTransactionRequest {
    pub category: Option<String>,
    pub note: Option<String>,
    pub occurred_at: Option<i64>,
    pub merchant: Option<String>,
}

/// A request to change a transaction, with its texts as sequences of
/// characters.
pub struct UpdateTransactionRequestView {
    pub category: Option<Seq<char>>,
    pub note: Option<Seq<char>>,
    pub occurred_at: Option<i64>,
    pub merchant: Option<Seq<char>>,
}

impl View for UpdateTransactionRequest {
    type V = UpdateTransactionRequestView;

    open spec fn view(&self) -> UpdateTransactionRequestView {
        UpdateTransactionRequestView {
            category: text_view(self.category),
            note: text_view(self.note),
            occurred_at: self.occurred_at,
            merchant: text_view(self.merchant),
        }
    }
}

/// A transaction as it is shown to its owner.
#[derive(Debug)]
pub struct TransactionResponse {
    pub id: u128,
    pub user_id: u128,
    pub from_account_id: Option<u128>,
    pub to_account_id: Option<u128>,
    pub txn_type: String,
    pub amount: Amount,
    pub currency_code: String,
    pub to_amount: Option<Amount>,
    pub to_currency_code: Option<String>,
    pub category: Option<String>,
    pub note: Option<String>,
    pub occurred_at: i64,
    pub ref_transaction_id: Option<u128>,
    pub merchant: Option<String>,
    pub created_at: i64,
    pub updated_at: i64,
}

/// A shown transaction, with its texts as sequences of characters.
pub struct TransactionResponseView {
    pub id: u128,
    pub user_id: u128,
    pub from_account_id: Option<u128>,
    pub to_account_id: Option<u128>,
    pub txn_type: Seq<char>,
    pub amount: Amount,
    pub currency_code: Seq<char>,
    pub to_amount: Option<Amount>,
    pub to_currency_code: Option<Seq<char>>,
    pub category: Option<Seq<char>>,
    pub note: Option<Seq<char>>,
    pub occurred_at: i64,
    pub ref_transaction_id: Option<u128>,
    pub merchant: Option<Seq<char>>,
    pub created_at: i64,
    pub updated_at: i64,
}

impl View for TransactionResponse {
    type V = TransactionResponseView;

    open spec fn view(&self) -> TransactionResponseView {
        TransactionResponseView {
            id: self.id,
            user_id: self.user_id,
            from_account_id: self.from_account_id,
            to_account_id: self.to_account_id,
            txn_type: self.txn_type@,
            amount: self.amount,
            currency_code: self.currency_code@,
            to_amount: self.to_amount,
            to_currency_code: text_view(self.to_currency_code),
            category: text_view(self.category),
            note: text_view(self.note),
            occurred_at: self.occurred_at,
            ref_transaction_id: self.ref_transaction_id,
            merchant: text_view(self.merchant),
            created_at: self.created_at,
            updated_at: self.updated_at,
        }
    }
}

/// How a stored transaction is shown: field by field, its kind by its code.
pub open spec fn shown_transaction(t: TransactionView) -> TransactionResponseView {
    TransactionResponseView {
        id: t.id,
        user_id: t.user_id,
        from_account_id: t.from_account_id,
        to_account_id: t.to_account_id,
        txn_type: t.txn_type.code(),
        amount: t.amount,
        currency_code: t.currency_code,
        to_amount: t.to_amount,
        to_currency_code: t.to_currency_code,
        category: t.category,
        note: t.note,
        occurred_at: t.occurred_at,
        ref_transaction_id: t.ref_transaction_id,
        merchant: t.merchant,
        created_at: t.created_at,
        updated_at: t.updated_at,
    }
}

impl TransactionResponse {
    /// Shows a stored transaction. The type that is shown reads back as the
    /// kind that is stored.
    pub fn from_record(t: Transaction) -> (r: TransactionResponse)
        ensures
            r@ == shown_transaction(t@),
            TxnKind::of_code(r.txn_type@) == Some(t.txn_type),
    {
        proof {
            lemma_txn_kind_code_round_trip(t.txn_type);
        }
        TransactionResponse {
            id: t.id,
            user_id: t.user_id,
            from_account_id: t.from_account_id,
            to_account_id: t.to_account_id,
            txn_type: t.txn_type.as_str().to_owned(),
            amount: t.amount,
            currency_code: t.currency_code,
            to_amount: t.to_amount,
            to_currency_code: t.to_currency_code,
            category: t.category,
            note: t.note,
            occurred_at: t.occurred_at,
            ref_transaction_id: t.ref_transaction_id,
            merchant: t.merchant,
            created_at: t.created_at,
            updated_at: t.updated_at,
        }
    }
}

/// What the ledger knows of an account.
pub open spec fn account_lookup_in(lv: LedgerView, account_id: u128) -> AccountLookup {
    match lv.find_account(account_id) {
        Some(a) => AccountLookup::Owner(a.user_id),
        None => AccountLookup::Missing,
    }
}

/// What the ledger knows of a transaction that a request refers to.
pub open spec fn reference_lookup_in(lv: LedgerView, txn_id: u128) -> ReferenceLookupView {
    match lv.find_transaction(txn_id) {
        Some(t) => ReferenceLookupView::Found { user_id: t.user_id, currency_code: t.currency_code },
        None => ReferenceLookupView::Missing,
    }
}

/// All that the ledger knows of what a request names. Of what the request
/// does not name, nothing is known, and nothing is asked.
pub open spec fn known_in(lv: LedgerView, req: CreateTransactionRequestView) -> KnownView {
    KnownView {
        from_account: match req.from_account_id {
            Some(id) => account_lookup_in(lv, id),
            None => AccountLookup::Unknown,
        },
        to_account: match req.to_account_id {
            Some(id) => account_lookup_in(lv, id),
            None => AccountLookup::Unknown,
        },
        reference: match req.ref_transaction_id {
            Some(id) => reference_lookup_in(lv, id),
            None => ReferenceLookupView::Unknown,
        },
    }
}

impl KnownView {
    /// Whatever `self` knows, `full` knows the same.
    pub open spec fn within(self, full: KnownView) -> bool {
        &&& self.from_account == AccountLookup::Unknown || self.from_account == full.from_account
        &&& self.to_account == AccountLookup::Unknown || self.to_account == full.to_account
        &&& self.reference is Unknown || self.reference == full.reference
    }

    /// How many of the three pieces are not known.
    pub open spec fn gaps(self) -> nat {
        let a: nat = if self.from_account == AccountLookup::Unknown {
            1
        } else {
            0
        };
        let b: nat = if self.to_account == AccountLookup::Unknown {
            1
        } else {
            0
        };
        let c: nat = if self.reference is Unknown {
            1
        } else {
            0
        };
        a + b + c
    }
}

/// A decision asks only for what the request names and is not known yet.
pub proof fn lemma_asks_for_a_gap(
    user_id: u128,
    req: CreateTransactionRequestView,
    known: KnownView,
)
    ensures
        planned(user_id, req, known) matches StepView::AskFromAccount(id) ==> req.from_account_id
            == Some(id) && known.from_account == AccountLookup::Unknown,
        planned(user_id, req, known) matches StepView::AskToAccount(id) ==> req.to_account_id
            == Some(id) && known.to_account == AccountLookup::Unknown,
        planned(user_id, req, known) matches StepView::AskReference(id) ==> req.ref_transaction_id
            == Some(id) && known.reference is Unknown,
{
}

/// Once a request is refused or accepted, knowing more changes nothing.
pub proof fn lemma_settled_stays(
    user_id: u128,
    req: CreateTransactionRequestView,
    known: KnownView,
    more: KnownView,
)
    requires
        known.within(more),
        planned(user_id, req, known).settled(),
    ensures
        planned(user_id, req, more) == planned(user_id, req, known),
{
}

/// What comes of recording a transaction for a user, under an identifier, at
/// an instant: the ledger with the new record and the record itself, or why
/// not. The ledger answers what the decision asks; an accepted draft is
/// stored unless the identifier is taken.
pub open spec fn create_transaction_outcome(
    lv: LedgerView,
    user_id: u128,
    req: CreateTransactionRequestView,
    id: u128,
    now: i64,
) -> Result<(LedgerView, TransactionView), Failure> {
    match planned(user_id, req, known_in(lv, req)) {
        StepView::Accept(d) => {
            let t = d.stamped(id, user_id, now);
            if lv.has_transaction(id) {
                Err(Failure::Database(duplicate_key().text()))
            } else {
                Ok((lv.with_transaction(t), t))
            }
        },
        StepView::Reject(f) => Err(f),
        _ => Err(Failure::NotFound),
    }
}

/// What comes of reading a transaction: the record, or why not.
pub open spec fn get_transaction_outcome(lv: LedgerView, user_id: u128, txn_id: u128) -> Result<
    TransactionView,
    Failure,
> {
    match subject_check(transaction_owner(lv.find_transaction(txn_id)), user_id) {
        Err(f) => Err(f),
        Ok(()) => Ok(lv.find_transaction(txn_id)->0),
    }
}

/// A transaction after a change: category, note, time of occurrence and
/// merchant as the request gives them, where it gives them; the time of the
/// last change as `now`; all else as before.
pub open spec fn changed_transaction(
    t: TransactionView,
    req: UpdateTransactionRequestView,
    now: i64,
) -> TransactionView {
    TransactionView {
        category: if req.category is Some {
            req.category
        } else {
            t.category
        },
        note: if req.note is Some {
            req.note
        } else {
            t.note
        },
        occurred_at: if req.occurred_at is Some {
            req.occurred_at->0
        } else {
            t.occurred_at
        },
        merchant: if req.merchant is Some {
            req.merchant
        } else {
            t.merchant
        },
        updated_at: now,
        ..t
    }
}

/// What comes of changing a transaction: the ledger with the changed record
/// and the record itself, or why not.
pub open spec fn update_transaction_outcome(
    lv: LedgerView,
    user_id: u128,
    txn_id: u128,
    req: UpdateTransactionRequestView,
    now: i64,
) -> Result<(LedgerView, TransactionView), Failure> {
    match get_transaction_outcome(lv, user_id, txn_id) {
        Err(f) => Err(f),
        Ok(t) => {
            let u = changed_transaction(t, req, now);
            Ok((lv.with_transaction_replaced(u), u))
        },
    }
}

/// The refusal to remove a transaction that others refer to.
pub open spec fn has_refunds() -> Failure {
    Failure::Conflict("Cannot delete transaction with existing refunds"@)
}

/// Whether a transaction may be removed, given how many others refer to
/// it: only if none does.
pub open spec fn removal_check(referring: nat) -> Result<(), Failure> {
    if referring > 0 {
        Err(has_refunds())
    } else {
        Ok(())
    }
}

/// What comes of removing a transaction: the ledger without it, or why not.
/// A transaction that another refers to stays.
pub open spec fn delete_transaction_outcome(lv: LedgerView, user_id: u128, txn_id: u128) -> Result<
    LedgerView,
    Failure,
> {
    match get_transaction_outcome(lv, user_id, txn_id) {
        Err(f) => Err(f),
        Ok(_) => match removal_check(lv.transactions_referring(txn_id).len()) {
            Err(f) => Err(f),
            Ok(()) => Ok(lv.without_transaction(txn_id)),
        },
    }
}

/// Decides whether a transaction may be removed, given how many others
/// refer to it.
pub fn check_removal(referring: u64) -> (r: Result<(), ServiceError>)
    ensures
        outcome_view(r) == removal_check(referring as nat),
{
    if referring > 0 {
        return Err(ServiceError::conflict("Cannot delete transaction with existing refunds"));
    }
    Ok(())
}

/// Asks the ledger about an account.
pub fn lookup_account(ledger: &Ledger, account_id: u128) -> (r: AccountLookup)
    requires
        ledger.wf(),
    ensures
        r == account_lookup_in(ledger@, account_id),
{
    match ledger.find_account(account_id) {
        Some(a) => AccountLookup::Owner(a.user_id),
        None => AccountLookup::Missing,
    }
}

/// Asks the ledger about a transaction that a request refers to.
pub fn lookup_reference(ledger: &Ledger, txn_id: u128) -> (r: ReferenceLookup)
    requires
        ledger.wf(),
    ensures
        r@ == reference_lookup_in(ledger@, txn_id),
{
    match ledger.find_transaction(txn_id) {
        Some(t) => ReferenceLookup::Found { user_id: t.user_id, currency_code: t.currency_code },
        None => ReferenceLookup::Missing,
    }
}

/// Decides a request against a ledger, asking the ledger for each piece
/// when the decision first needs it.
pub fn settle_transaction(ledger: &Ledger, user_id: u128, req: &CreateTransactionRequest) -> (r:
    Result<TransactionDraft, ServiceError>)
    requires
        ledger.wf(),
    ensures
        match r {
            Ok(d) => planned(user_id, req@, known_in(ledger@, req@)) == StepView::Accept(d@),
            Err(e) => planned(user_id, req@, known_in(ledger@, req@)) == StepView::Reject(e@),
        },
{
    let mut known = Known::nothing();
    loop
        invariant
            ledger.wf(),
            known@.within(known_in(ledger@, req@)),
        decreases known@.gaps(),
    {
        let step = plan_transaction(user_id, req, &known);
        proof {
            lemma_asks_for_a_gap(user_id, req@, known@);
            if step@.settled() {
                lemma_settled_stays(user_id, req@, known@, known_in(ledger@, req@));
            }
        }
        match step {
            Step::AskFromAccount(id) => {
                known.from_account = lookup_account(ledger, id);
            },
            Step::AskToAccount(id) => {
                known.to_account = lookup_account(ledger, id);
            },
            Step::AskReference(id) => {
                known.reference = lookup_reference(ledger, id);
            },
            Step::Reject(e) => {
                return Err(e);
            },
            Step::Accept(d) => {
                return Ok(d);
            },
        }
    }
}

/// Records a transaction for a user under the given identifier, created at
/// `now`.
pub fn create_transaction_at(
    ledger: &mut Ledger,
    user_id: u128,
    req: CreateTransactionRequest,
    id: u128,
    now: i64,
) -> (r: Result<TransactionResponse, ServiceError>)
    requires
        old(ledger).wf(),
    ensures
        final(ledger).wf(),
        match r {
            Ok(shown) => create_transaction_outcome(old(ledger)@, user_id, req@, id, now) matches Ok(
                (after, t),
            ) && final(ledger)@ == after && shown@ == shown_transaction(t),
            Err(e) => create_transaction_outcome(old(ledger)@, user_id, req@, id, now) == Err::<
                (LedgerView, TransactionView),
                Failure,
            >(e@) && final(ledger)@ == old(ledger)@,
        },
{
    let record = match settle_transaction(ledger, user_id, &req) {
        Ok(d) => d.stamp(id, user_id, now),
        Err(e) => {
            return Err(e);
        },
    };
    match ledger.insert_transaction(record.clone()) {
        Ok(()) => Ok(TransactionResponse::from_record(record)),
        Err(fault) => Err(ServiceError::from_store(fault)),
    }
}

/// Records a transaction for a user, under a fresh identifier, created now.
pub fn create_transaction(ledger: &mut Ledger, user_id: u128, req: CreateTransactionRequest) -> (r:
    Result<TransactionResponse, ServiceError>)
    requires
        old(ledger).wf(),
    ensures
        final(ledger).wf(),
        exists|id: u128, now: i64|
            match r {
                Ok(shown) => #[trigger] create_transaction_outcome(
                    old(ledger)@,
                    user_id,
                    req@,
                    id,
                    now,
                ) matches Ok((after, t)) && final(ledger)@ == after && shown@ == shown_transaction(t),
                Err(e) => create_transaction_outcome(old(ledger)@, user_id, req@, id, now) == Err::<
                    (LedgerView, TransactionView),
                    Failure,
                >(e@) && final(ledger)@ == old(ledger)@,
            },
{
    let id = fresh_id();
    let now = now_micros();
    let ghost before = ledger@;
    let ghost asked = req@;
    let r = create_transaction_at(ledger, user_id, req, id, now);
    proof {
        let outcome = create_transaction_outcome(before, user_id, asked, id, now);
        assert(match r {
            Ok(shown) => outcome matches Ok((after, t)) && ledger@ == after && shown@
                == shown_transaction(t),
            Err(e) => outcome == Err::<(LedgerView, TransactionView), Failure>(e@) && ledger@
                == before,
        });
    }
    r
}

/// Reads a transaction for its owner.
pub fn get_transaction(ledger: &Ledger, user_id: u128, txn_id: u128) -> (r: Result<
    TransactionResponse,
    ServiceError,
>)
    requires
        ledger.wf(),
    ensures
        match r {
            Ok(shown) => get_transaction_outcome(ledger@, user_id, txn_id) matches Ok(t) && shown@
                == shown_transaction(t),
            Err(e) => get_transaction_outcome(ledger@, user_id, txn_id) == Err::<
                TransactionView,
                Failure,
            >(e@),
        },
{
    match load_owned_transaction(ledger, user_id, txn_id) {
        Ok(t) => Ok(TransactionResponse::from_record(t)),
        Err(e) => Err(e),
    }
}

/// Applies a request to a transaction.
pub fn apply_transaction_update(txn: Transaction, req: UpdateTransactionRequest, now: i64) -> (r:
    Transaction)
    ensures
        r@ == changed_transaction(txn@, req@, now),
{
    let mut txn = txn;
    if let Some(category) = req.category {
        txn.category = Some(category);
    }
    if let Some(note) = req.note {
        txn.note = Some(note);
    }
    if let Some(occurred_at) = req.occurred_at {
        txn.occurred_at = occurred_at;
    }
    if let Some(merchant) = req.merchant {
        txn.merchant = Some(merchant);
    }
    txn.updated_at = now;
    txn
}

/// Changes what may change of a transaction, for its owner, at `now`.
pub fn update_transaction_at(
    ledger: &mut Ledger,
    user_id: u128,
    txn_id: u128,
    req: UpdateTransactionRequest,
    now: i64,
) -> (r: Result<TransactionResponse, ServiceError>)
    requires
        old(ledger).wf(),
    ensures
        final(ledger).wf(),
        match r {
            Ok(shown) => update_transaction_outcome(old(ledger)@, user_id, txn_id, req@, now) matches Ok(
                (after, t),
            ) && final(ledger)@ == after && shown@ == shown_transaction(t),
            Err(e) => update_transaction_outcome(old(ledger)@, user_id, txn_id, req@, now) == Err::<
                (LedgerView, TransactionView),
                Failure,
            >(e@) && final(ledger)@ == old(ledger)@,
        },
{
    let loaded = match load_owned_transaction(ledger, user_id, txn_id) {
        Ok(t) => t,
        Err(e) => {
            return Err(e);
        },
    };
    let txn = apply_transaction_update(loaded, req, now);
    match ledger.replace_transaction(txn.clone()) {
        Ok(()) => Ok(TransactionResponse::from_record(txn)),
        Err(fault) => Err(ServiceError::from_store(fault)),
    }
}

/// Changes what may change of a transaction, for its owner, now.
pub fn update_transaction(
    ledger: &mut Ledger,
    user_id: u128,
    txn_id: u128,
    req: UpdateTransactionRequest,
) -> (r: Result<TransactionResponse, ServiceError>)
    requires
        old(ledger).wf(),
    ensures
        final(ledger).wf(),
        exists|now: i64|
            match r {
                Ok(shown) => #[trigger] update_transaction_outcome(
                    old(ledger)@,
                    user_id,
                    txn_id,
                    req@,
                    now,
                ) matches Ok((after, t)) && final(ledger)@ == after && shown@ == shown_transaction(t),
                Err(e) => update_transaction_outcome(old(ledger)@, user_id, txn_id, req@, now)
                    == Err::<(LedgerView, TransactionView), Failure>(e@) && final(ledger)@ == old(
                    ledger,
                )@,
            },
{
    let now = now_micros();
    let ghost before = ledger@;
    let ghost asked = req@;
    let r = update_transaction_at(ledger, user_id, txn_id, req, now);
    proof {
        let outcome = update_transaction_outcome(before, user_id, txn_id, asked, now);
        assert(match r {
            Ok(shown) => outcome matches Ok((after, t)) && ledger@ == after && shown@
                == shown_transaction(t),
            Err(e) => outcome == Err::<(LedgerView, TransactionView), Failure>(e@) && ledger@
                == before,
        });
    }
    r
}

/// Removes a transaction for its owner, unless another refers to it.
pub fn delete_transaction(ledger: &mut Ledger, user_id: u128, txn_id: u128) -> (r: Result<
    (),
    ServiceError,
>)
    requires
        old(ledger).wf(),
    ensures
        final(ledger).wf(),
        match r {
            Ok(()) => delete_transaction_outcome(old(ledger)@, user_id, txn_id) == Ok::<
                LedgerView,
                Failure,
            >(final(ledger)@),
            Err(e) => delete_transaction_outcome(old(ledger)@, user_id, txn_id) == Err::<
                LedgerView,
                Failure,
            >(e@) && final(ledger)@ == old(ledger)@,
        },
{
    match load_owned_transaction(ledger, user_id, txn_id) {
        Ok(_) => {},
        Err(e) => {
            return Err(e);
        },
    }
    let refund_count = ledger.count_transactions_referring(txn_id);
    match check_removal(refund_count as u64) {
        Ok(()) => {},
        Err(e) => {
            return Err(e);
        },
    }
    match ledger.remove_transaction(txn_id) {
        Ok(()) => Ok(()),
        Err(fault) => Err(ServiceError::from_store(fault)),
    }
}

} // verus!
