//! Accounts: how one is opened, read, listed, changed and closed.

use vstd::prelude::*;
use vstd::string::*;
use crate::amount::Amount;
use crate::error::{duplicate_key, outcome_view, Failure, ServiceError};
use crate::ledger::{Ledger, LedgerView};
use crate::ownership::{account_owner, load_owned_account, subject_check};
use crate::records::{text_view, Account, AccountView};
use crate::stamp::{fresh_id, now_micros};
use crate::text::{
    all_letters_or_digits,
    lower_code,
    normalize_lower,
    normalize_upper,
    only_letters_or_digits,
    trim,
    trimmed,
    upper_code,
};

verus! {

/// A request to open an account.
#[derive(Debug)]
pub struct CreateAccountRequest {
    pub name: String,
    pub account_type: String,
    pub currency_code: String,
    pub initial_balance: Option<Amount>,
}

/// A request to open an account, with its texts as sequences of characters.
pub struct CreateAccountRequestView {
    pub name: Seq<char>,
    pub account_type: Seq<char>,
    pub currency_code: Seq<char>,
    pub initial_balance: Option<Amount>,
}

impl View for CreateAccountRequest {
    type V = CreateAccountRequestView;

    open spec fn view(&self) -> CreateAccountRequestView {
        CreateAccountRequestView {
            name: self.name@,
            account_type: self.account_type@,
            currency_code: self.currency_code@,
            initial_balance: self.initial_balance,
        }
    }
}

/// A request to change an account: each field that is given replaces the
/// stored one.
#[derive(Debug)]
pub struct UpdateAccountRequest {
    pub name: Option<String>,
    pub account_type: Option<String>,
    pub currency_code: Option<String>,
}

/// A request to change an account, with its texts as sequences of
/// characters.
pub struct UpdateAccountRequestView {
    pub name: Option<Seq<char>>,
    pub account_type: Option<Seq<char>>,
    pub currency_code: Option<Seq<char>>,
}

impl View for UpdateAccountRequest {
    type V = UpdateAccountRequestView;

    open spec fn view(&self) -> UpdateAccountRequestView {
        UpdateAccountRequestView {
            name: text_view(self.name),
            account_type: text_view(self.account_type),
            currency_code: text_view(self.currency_code),
        }
    }
}

/// An account as it is shown to its owner.
#[derive(Debug)]
pub struct AccountResponse {
    pub id: u128,
    pub name: String,
    pub account_type: String,
    pub balance: Amount,
    pub currency_code: String,
    pub created_at: i64,
    pub updated_at: i64,
}

/// A shown account, with its texts as sequences of characters.
pub struct AccountResponseView {
    pub id: u128,
    pub name: Seq<char>,
    pub account_type: Seq<char>,
    pub balance: Amount,
    pub currency_code: Seq<char>,
    pub created_at: i64,
    pub updated_at: i64,
}

impl View for AccountResponse {
    type V = AccountResponseView;

    open spec fn view(&self) -> AccountResponseView {
        AccountResponseView {
            id: self.id,
            name: self.name@,
            account_type: self.account_type@,
            balance: self.balance,
            currency_code: self.currency_code@,
            created_at: self.created_at,
            updated_at: self.updated_at,
        }
    }
}

/// How a stored account is shown: all of it but its owner.
pub open spec fn shown_account(a: AccountView) -> AccountResponseView {
    AccountResponseView {
        id: a.id,
        name: a.name,
        account_type: a.account_type,
        balance: a.balance,
        currency_code: a.currency_code,
        created_at: a.created_at,
        updated_at: a.updated_at,
    }
}

/// How stored accounts are shown, one by one.
pub open spec fn shown_accounts(s: Seq<AccountView>) -> Seq<AccountResponseView> {
    Seq::new(s.len(), |i: int| shown_account(s[i]))
}

/// The views of a sequence of shown accounts.
pub open spec fn response_views(s: Seq<AccountResponse>) -> Seq<AccountResponseView> {
    Seq::new(s.len(), |i: int| s[i]@)
}

impl AccountResponse {
    /// Shows a stored account.
    pub fn from_record(a: Account) -> (r: AccountResponse)
        ensures
            r@ == shown_account(a@),
    {
        AccountResponse {
            id: a.id,
            name: a.name,
            account_type: a.account_type,
            balance: a.balance,
            currency_code: a.currency_code,
            created_at: a.created_at,
            updated_at: a.updated_at,
        }
    }
}

/// A refusal with a text that says what is wrong with the request.
pub open spec fn invalid(message: Seq<char>) -> Result<(), Failure> {
    Err(Failure::Validation(message))
}

/// What the check of an account's type says of a code: it must not be
/// blank.
pub open spec fn account_type_check(code: Seq<char>) -> Result<(), Failure> {
    if trimmed(code).len() == 0 {
        invalid("Account type cannot be empty"@)
    } else {
        Ok(())
    }
}

/// What the check of an account's currency says of a code: not blank, at
/// most ten characters, letters and digits only.
pub open spec fn account_currency_check(code: Seq<char>) -> Result<(), Failure> {
    if trimmed(code).len() == 0 {
        invalid("Currency code cannot be empty"@)
    } else if code.len() > 10 {
        invalid("Currency code too long (max 10 chars)"@)
    } else if !all_letters_or_digits(code) {
        invalid("Currency code must be alphanumeric"@)
    } else {
        Ok(())
    }
}

/// What the check of an account's name says of a name: it must not be
/// blank.
pub open spec fn account_name_check(name: Seq<char>) -> Result<(), Failure> {
    if trimmed(name).len() == 0 {
        invalid("Account name cannot be empty"@)
    } else {
        Ok(())
    }
}

/// Checks that an account's type is not blank.
pub fn validate_account_type(t: &str) -> (r: Result<(), ServiceError>)
    ensures
        outcome_view(r) == account_type_check(t@),
{
    if trim(t).is_empty() {
        return Err(ServiceError::validation("Account type cannot be empty"));
    }
    Ok(())
}

/// Checks an account's currency code: not blank, at most ten characters,
/// letters and digits only.
pub fn validate_currency_code(code: &str) -> (r: Result<(), ServiceError>)
    ensures
        outcome_view(r) == account_currency_check(code@),
{
    if trim(code).is_empty() {
        return Err(ServiceError::validation("Currency code cannot be empty"));
    }
    if code.unicode_len() > 10 {
        return Err(ServiceError::validation("Currency code too long (max 10 chars)"));
    }
    if !only_letters_or_digits(code) {
        return Err(ServiceError::validation("Currency code must be alphanumeric"));
    }
    Ok(())
}

/// Checks that an account's name is not blank.
pub fn validate_account_name(name: &str) -> (r: Result<(), ServiceError>)
    ensures
        outcome_view(r) == account_name_check(name@),
{
    if trim(name).is_empty() {
        return Err(ServiceError::validation("Account name cannot be empty"));
    }
    Ok(())
}

/// The account that a request opens, or why the request is refused. Name,
/// type and currency are checked in this order; the name is stored trimmed,
/// the type lower-cased, the currency upper-cased; the balance is the one
/// asked for, or zero.
pub open spec fn opened_account(
    user_id: u128,
    req: CreateAccountRequestView,
    id: u128,
    now: i64,
) -> Result<AccountView, Failure> {
    let name = trimmed(req.name);
    let account_type = lower_code(req.account_type);
    let currency = upper_code(req.currency_code);
    if name.len() == 0 {
        Err(Failure::Validation("Account name cannot be empty"@))
    } else if account_type_check(account_type) is Err {
        Err(account_type_check(account_type)->Err_0)
    } else if account_currency_check(currency) is Err {
        Err(account_currency_check(currency)->Err_0)
    } else {
        Ok(
            AccountView {
                id,
                user_id,
                name,
                account_type,
                balance: match req.initial_balance {
                    Some(b) => b,
                    None => Amount::nil(),
                },
                currency_code: currency,
                created_at: now,
                updated_at: now,
            },
        )
    }
}

/// What comes of opening an account: the ledger with the new account and
/// the account itself, or why not.
pub open spec fn create_account_outcome(
    lv: LedgerView,
    user_id: u128,
    req: CreateAccountRequestView,
    id: u128,
    now: i64,
) -> Result<(LedgerView, AccountView), Failure> {
    match opened_account(user_id, req, id, now) {
        Err(f) => Err(f),
        Ok(a) => if lv.has_account(id) {
            Err(Failure::Database(duplicate_key().text()))
        } else {
            Ok((lv.with_account(a), a))
        },
    }
}

/// What comes of reading an account: the record, or why not.
pub open spec fn get_account_outcome(lv: LedgerView, user_id: u128, account_id: u128) -> Result<
    AccountView,
    Failure,
> {
    match subject_check(account_owner(lv.find_account(account_id)), user_id) {
        Err(f) => Err(f),
        Ok(()) => Ok(lv.find_account(account_id)->0),
    }
}

/// What is wrong with a request to change an account, if anything: type,
/// currency and name are checked in this order, each only where given.
pub open spec fn update_account_check(req: UpdateAccountRequestView) -> Result<(), Failure> {
    if req.account_type is Some && account_type_check(lower_code(req.account_type->0)) is Err {
        account_type_check(lower_code(req.account_type->0))
    } else if req.currency_code is Some && account_currency_check(
        upper_code(req.currency_code->0),
    ) is Err {
        account_currency_check(upper_code(req.currency_code->0))
    } else if req.name is Some {
        account_name_check(req.name->0)
    } else {
        Ok(())
    }
}

/// An account after a change: name, type and currency as the request gives
/// them, where it gives them, normalised as at opening; the time of the last
/// change as `now`; all else as before.
pub open spec fn changed_account(a: AccountView, req: UpdateAccountRequestView, now: i64) -> AccountView {
    AccountView {
        name: if req.name is Some {
            trimmed(req.name->0)
        } else {
            a.name
        },
        account_type: if req.account_type is Some {
            lower_code(req.account_type->0)
        } else {
            a.account_type
        },
        currency_code: if req.currency_code is Some {
            upper_code(req.currency_code->0)
        } else {
            a.currency_code
        },
        updated_at: now,
        ..a
    }
}

/// What comes of changing an account: the ledger with the changed account
/// and the account itself, or why not.
pub open spec fn update_account_outcome(
    lv: LedgerView,
    user_id: u128,
    account_id: u128,
    req: UpdateAccountRequestView,
    now: i64,
) -> Result<(LedgerView, AccountView), Failure> {
    match get_account_outcome(lv, user_id, account_id) {
        Err(f) => Err(f),
        Ok(a) => match update_account_check(req) {
            Err(f) => Err(f),
            Ok(()) => {
                let b = changed_account(a, req, now);
                Ok((lv.with_account_replaced(b), b))
            },
        },
    }
}

/// The refusal to close an account that transactions touch.
pub open spec fn has_transactions() -> Failure {
    Failure::Conflict("Cannot delete account with existing transactions"@)
}

/// The refusal to close an account that holds positions.
pub open spec fn has_positions() -> Failure {
    Failure::Conflict("Cannot delete account with existing holdings"@)
}

/// Whether an account may be closed, given how many transactions touch it
/// and how many positions it holds: only if none does.
pub open spec fn closing_check(transactions: nat, positions: nat) -> Result<(), Failure> {
    if transactions > 0 {
        Err(has_transactions())
    } else if positions > 0 {
        Err(has_positions())
    } else {
        Ok(())
    }
}

/// What comes of closing an account: the ledger without it, or why not. An
/// account that a transaction touches or that holds a position stays.
pub open spec fn delete_account_outcome(lv: LedgerView, user_id: u128, account_id: u128) -> Result<
    LedgerView,
    Failure,
> {
    match get_account_outcome(lv, user_id, account_id) {
        Err(f) => Err(f),
        Ok(_) => match closing_check(
            lv.transactions_touching(account_id).len(),
            lv.holdings_in(account_id).len(),
        ) {
            Err(f) => Err(f),
            Ok(()) => Ok(lv.without_account(account_id)),
        },
    }
}

/// Decides whether an account may be closed, given how many transactions
/// touch it and how many positions it holds.
pub fn check_closing(transactions: u64, positions: u64) -> (r: Result<(), ServiceError>)
    ensures
        outcome_view(r) == closing_check(transactions as nat, positions as nat),
{
    if transactions > 0 {
        return Err(ServiceError::conflict("Cannot delete account with existing transactions"));
    }
    if positions > 0 {
        return Err(ServiceError::conflict("Cannot delete account with existing holdings"));
    }
    Ok(())
}

/// Checks a request to open an account and makes the account.
pub fn open_account(user_id: u128, req: CreateAccountRequest, id: u128, now: i64) -> (r: Result<
    Account,
    ServiceError,
>)
    ensures
        match r {
            Ok(a) => opened_account(user_id, req@, id, now) == Ok::<AccountView, Failure>(a@),
            Err(e) => opened_account(user_id, req@, id, now) == Err::<AccountView, Failure>(e@),
        },
{
    let name = trim(req.name.as_str());
    if name.is_empty() {
        return Err(ServiceError::validation("Account name cannot be empty"));
    }
    let account_type = normalize_lower(req.account_type.as_str());
    match validate_account_type(account_type.as_str()) {
        Ok(()) => {},
        Err(e) => {
            return Err(e);
        },
    }
    let currency = normalize_upper(req.currency_code.as_str());
    match validate_currency_code(currency.as_str()) {
        Ok(()) => {},
        Err(e) => {
            return Err(e);
        },
    }
    let balance = match req.initial_balance {
        Some(b) => b,
        None => Amount::zero(),
    };
    Ok(
        Account {
            id,
            user_id,
            name: name.to_owned(),
            account_type,
            balance,
            currency_code: currency,
            created_at: now,
            updated_at: now,
        },
    )
}

/// Opens an account for a user under the given identifier, created at
/// `now`.
pub fn create_account_at(
    ledger: &mut Ledger,
    user_id: u128,
    req: CreateAccountRequest,
    id: u128,
    now: i64,
) -> (r: Result<AccountResponse, ServiceError>)
    requires
        old(ledger).wf(),
    ensures
        final(ledger).wf(),
        match r {
            Ok(shown) => create_account_outcome(old(ledger)@, user_id, req@, id, now) matches Ok(
                (after, a),
            ) && final(ledger)@ == after && shown@ == shown_account(a),
            Err(e) => create_account_outcome(old(ledger)@, user_id, req@, id, now) == Err::<
                (LedgerView, AccountView),
                Failure,
            >(e@) && final(ledger)@ == old(ledger)@,
        },
{
    let account = match open_account(user_id, req, id, now) {
        Ok(a) => a,
        Err(e) => {
            return Err(e);
        },
    };
    match ledger.insert_account(account.clone()) {
        Ok(()) => Ok(AccountResponse::from_record(account)),
        Err(fault) => Err(ServiceError::from_store(fault)),
    }
}

/// Opens an account for a user, under a fresh identifier, created now.
pub fn create_account(ledger: &mut Ledger, user_id: u128, req: CreateAccountRequest) -> (r: Result<
    AccountResponse,
    ServiceError,
>)
    requires
        old(ledger).wf(),
    ensures
        final(ledger).wf(),
        exists|id: u128, now: i64|
            match r {
                Ok(shown) => #[trigger] create_account_outcome(
                    old(ledger)@,
                    user_id,
                    req@,
                    id,
                    now,
                ) matches Ok((after, a)) && final(ledger)@ == after && shown@ == shown_account(a),
                Err(e) => create_account_outcome(old(ledger)@, user_id, req@, id, now) == Err::<
                    (LedgerView, AccountView),
                    Failure,
                >(e@) && final(ledger)@ == old(ledger)@,
            },
{
    let id = fresh_id();
    let now = now_micros();
    let ghost before = ledger@;
    let ghost asked = req@;
    let r = create_account_at(ledger, user_id, req, id, now);
    proof {
        let outcome = create_account_outcome(before, user_id, asked, id, now);
        assert(match r {
            Ok(shown) => outcome matches Ok((after, a)) && ledger@ == after && shown@
                == shown_account(a),
            Err(e) => outcome == Err::<(LedgerView, AccountView), Failure>(e@) && ledger@ == before,
        });
    }
    r
}

/// Reads an account for its owner.
pub fn get_account(ledger: &Ledger, user_id: u128, account_id: u128) -> (r: Result<
    AccountResponse,
    ServiceError,
>)
    requires
        ledger.wf(),
    ensures
        match r {
            Ok(shown) => get_account_outcome(ledger@, user_id, account_id) matches Ok(a) && shown@
                == shown_account(a),
            Err(e) => get_account_outcome(ledger@, user_id, account_id) == Err::<
                AccountView,
                Failure,
            >(e@),
        },
{
    match load_owned_account(ledger, user_id, account_id) {
        Ok(a) => Ok(AccountResponse::from_record(a)),
        Err(e) => Err(e),
    }
}

/// Lists the accounts of a user, in the order in which they were opened.
pub fn list_accounts(ledger: &Ledger, user_id: u128) -> (r: Vec<AccountResponse>)
    requires
        ledger.wf(),
    ensures
        response_views(r@) == shown_accounts(ledger@.accounts_of(user_id)),
{
    let accounts = ledger.accounts_of(user_id);
    let ghost stored = crate::ledger::account_views(accounts@);
    let n = accounts.len();
    let mut out: Vec<AccountResponse> = Vec::new();
    let mut i: usize = 0;
    while i < n
        invariant
            n == accounts.len(),
            i <= n,
            out.len() == i,
            forall|j: int| 0 <= j < i ==> out[j]@ == shown_account(accounts[j]@),
        decreases n - i,
    {
        out.push(AccountResponse::from_record(accounts[i].clone()));
        i = i + 1;
    }
    assert(response_views(out@) =~= shown_accounts(stored));
    out
}

/// Checks a request to change an account.
pub fn check_account_update(req: &UpdateAccountRequest) -> (r: Result<(), ServiceError>)
    ensures
        outcome_view(r) == update_account_check(req@),
{
    if let Some(t) = &req.account_type {
        let normalized = normalize_lower(t.as_str());
        match validate_account_type(normalized.as_str()) {
            Ok(()) => {},
            Err(e) => {
                return Err(e);
            },
        }
    }
    if let Some(c) = &req.currency_code {
        let normalized = normalize_upper(c.as_str());
        match validate_currency_code(normalized.as_str()) {
            Ok(()) => {},
            Err(e) => {
                return Err(e);
            },
        }
    }
    if let Some(n) = &req.name {
        return validate_account_name(n.as_str());
    }
    Ok(())
}

/// Applies a checked request to an account.
pub fn apply_account_update(account: Account, req: UpdateAccountRequest, now: i64) -> (r: Account)
    ensures
        r@ == changed_account(account@, req@, now),
{
    let mut account = account;
    if let Some(name) = req.name {
        account.name = trim(name.as_str()).to_owned();
    }
    if let Some(t) = req.account_type {
        account.account_type = normalize_lower(t.as_str());
    }
    if let Some(c) = req.currency_code {
        account.currency_code = normalize_upper(c.as_str());
    }
    account.updated_at = now;
    account
}

/// Changes an account for its owner, at `now`.
pub fn update_account_at(
    ledger: &mut Ledger,
    user_id: u128,
    account_id: u128,
    req: UpdateAccountRequest,
    now: i64,
) -> (r: Result<AccountResponse, ServiceError>)
    requires
        old(ledger).wf(),
    ensures
        final(ledger).wf(),
        match r {
            Ok(shown) => update_account_outcome(old(ledger)@, user_id, account_id, req@, now) matches Ok(
                (after, a),
            ) && final(ledger)@ == after && shown@ == shown_account(a),
            Err(e) => update_account_outcome(old(ledger)@, user_id, account_id, req@, now) == Err::<
                (LedgerView, AccountView),
                Failure,
            >(e@) && final(ledger)@ == old(ledger)@,
        },
{
    let account = match load_owned_account(ledger, user_id, account_id) {
        Ok(a) => a,
        Err(e) => {
            return Err(e);
        },
    };
    match check_account_update(&req) {
        Ok(()) => {},
        Err(e) => {
            return Err(e);
        },
    }
    let changed = apply_account_update(account, req, now);
    match ledger.replace_account(changed.clone()) {
        Ok(()) => Ok(AccountResponse::from_record(changed)),
        Err(fault) => Err(ServiceError::from_store(fault)),
    }
}

/// Changes an account for its owner, now.
pub fn update_account(
    ledger: &mut Ledger,
    user_id: u128,
    account_id: u128,
    req: UpdateAccountRequest,
) -> (r: Result<AccountResponse, ServiceError>)
    requires
        old(ledger).wf(),
    ensures
        final(ledger).wf(),
        exists|now: i64|
            match r {
                Ok(shown) => #[trigger] update_account_outcome(
                    old(ledger)@,
                    user_id,
                    account_id,
                    req@,
                    now,
                ) matches Ok((after, a)) && final(ledger)@ == after && shown@ == shown_account(a),
                Err(e) => update_account_outcome(old(ledger)@, user_id, account_id, req@, now)
                    == Err::<(LedgerView, AccountView), Failure>(e@) && final(ledger)@ == old(
                    ledger,
                )@,
            },
{
    let now = now_micros();
    let ghost before = ledger@;
    let ghost asked = req@;
    let r = update_account_at(ledger, user_id, account_id, req, now);
    proof {
        let outcome = update_account_outcome(before, user_id, account_id, asked, now);
        assert(match r {
            Ok(shown) => outcome matches Ok((after, a)) && ledger@ == after && shown@
                == shown_account(a),
            Err(e) => outcome == Err::<(LedgerView, AccountView), Failure>(e@) && ledger@ == before,
        });
    }
    r
}

/// Closes an account for its owner, unless a transaction touches it or it
/// holds a position.
pub fn delete_account(ledger: &mut Ledger, user_id: u128, account_id: u128) -> (r: Result<
    (),
    ServiceError,
>)
    requires
        old(ledger).wf(),
    ensures
        final(ledger).wf(),
        match r {
            Ok(()) => delete_account_outcome(old(ledger)@, user_id, account_id) == Ok::<
                LedgerView,
                Failure,
            >(final(ledger)@),
            Err(e) => delete_account_outcome(old(ledger)@, user_id, account_id) == Err::<
                LedgerView,
                Failure,
            >(e@) && final(ledger)@ == old(ledger)@,
        },
{
    match load_owned_account(ledger, user_id, account_id) {
        Ok(_) => {},
        Err(e) => {
            return Err(e);
        },
    }
    let txn_count = ledger.count_transactions_touching(account_id);
    let holdings_count = ledger.count_holdings_in(account_id);
    match check_closing(txn_count as u64, holdings_count as u64) {
        Ok(()) => {},
        Err(e) => {
            return Err(e);
        },
    }
    match ledger.remove_account(account_id) {
        Ok(()) => Ok(()),
        Err(fault) => Err(ServiceError::from_store(fault)),
    }
}

} // verus!
