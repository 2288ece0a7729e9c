//! The ownership guard: who may read or change a record.
//!
//! A record that is the subject of a request is either absent (`NotFound`),
//! somebody else's (`Forbidden`) or the caller's. An account that a request
//! merely refers to is treated alike, except that its absence is a fault of
//! the request, which names it.

use vstd::prelude::*;
use vstd::string::*;
use crate::error::{join, outcome_view, Failure, ServiceError};
use crate::ledger::Ledger;
use crate::records::{Account, AccountView, Holdings, HoldingsView, Transaction, TransactionView};

verus! {

/// The text that `uuid` prints for an identifier: 32 lower-case hexadecimal
/// digits in five groups, with hyphens between them.
pub uninterp spec fn uuid_text(id: u128) -> Seq<char>;

/// Prints an identifier as `uuid::Uuid` does. Trusted: the result is the
/// text named `uuid_text`.
#[verifier::external_body]
pub(crate) fn format_uuid(id: u128) -> (r: String)
    ensures
        r@ == uuid_text(id),
{
    uuid::Uuid::from_u128(id).to_string()
}

/// The fault of a request that refers to an account that is not there.
pub open spec fn account_missing(account_id: u128) -> Failure {
    Failure::Validation("Account "@ + uuid_text(account_id) + " not found"@)
}

/// What the guard says of the subject of a request, given its owner if it
/// exists.
pub open spec fn subject_check(owner: Option<u128>, user_id: u128) -> Result<(), Failure> {
    match owner {
        None => Err(Failure::NotFound),
        Some(o) => if o != user_id {
            Err(Failure::Forbidden)
        } else {
            Ok(())
        },
    }
}

/// What the guard says of an account that a request refers to, given its
/// owner if it exists.
pub open spec fn link_check(owner: Option<u128>, user_id: u128, account_id: u128) -> Result<
    (),
    Failure,
> {
    match owner {
        None => Err(account_missing(account_id)),
        Some(o) => if o != user_id {
            Err(Failure::Forbidden)
        } else {
            Ok(())
        },
    }
}

/// The owner of the account with this identifier, if there is one.
pub open spec fn account_owner(found: Option<AccountView>) -> Option<u128> {
    match found {
        Some(a) => Some(a.user_id),
        None => None,
    }
}

/// The owner of the transaction with this identifier, if there is one.
pub open spec fn transaction_owner(found: Option<TransactionView>) -> Option<u128> {
    match found {
        Some(t) => Some(t.user_id),
        None => None,
    }
}

/// The owner of the position with this identifier, if there is one.
pub open spec fn holdings_owner(found: Option<HoldingsView>) -> Option<u128> {
    match found {
        Some(h) => Some(h.user_id),
        None => None,
    }
}

/// Guards the subject of a request: absent, somebody else's, or the
/// caller's.
pub fn check_subject(owner: Option<u128>, user_id: u128) -> (r: Result<(), ServiceError>)
    ensures
        outcome_view(r) == subject_check(owner, user_id),
{
    match owner {
        None => Err(ServiceError::NotFound),
        Some(o) => if o != user_id {
            Err(ServiceError::Forbidden)
        } else {
            Ok(())
        },
    }
}

/// Guards an account that a request refers to.
pub fn check_link(owner: Option<u128>, user_id: u128, account_id: u128) -> (r: Result<
    (),
    ServiceError,
>)
    ensures
        outcome_view(r) == link_check(owner, user_id, account_id),
{
    match owner {
        None => {
            let id_text = format_uuid(account_id);
            let mut message = join("Account ", id_text.as_str());
            message.append(" not found");
            Err(ServiceError::Validation(message))
        },
        Some(o) => if o != user_id {
            Err(ServiceError::Forbidden)
        } else {
            Ok(())
        },
    }
}

/// Loads an account for its owner.
pub fn load_owned_account(ledger: &Ledger, user_id: u128, account_id: u128) -> (r: Result<
    Account,
    ServiceError,
>)
    requires
        ledger.wf(),
    ensures
        match r {
            Ok(a) => ledger@.find_account(account_id) == Some(a@) && a.user_id == user_id,
            Err(e) => Err::<(), Failure>(e@) == subject_check(
                account_owner(ledger@.find_account(account_id)),
                user_id,
            ),
        },
{
    match ledger.find_account(account_id) {
        None => Err(ServiceError::NotFound),
        Some(a) => if a.user_id != user_id {
            Err(ServiceError::Forbidden)
        } else {
            Ok(a)
        },
    }
}

/// Loads a transaction for its owner.
pub fn load_owned_transaction(ledger: &Ledger, user_id: u128, txn_id: u128) -> (r: Result<
    Transaction,
    ServiceError,
>)
    requires
        ledger.wf(),
    ensures
        match r {
            Ok(t) => ledger@.find_transaction(txn_id) == Some(t@) && t.user_id == user_id,
            Err(e) => Err::<(), Failure>(e@) == subject_check(
                transaction_owner(ledger@.find_transaction(txn_id)),
                user_id,
            ),
        },
{
    match ledger.find_transaction(txn_id) {
        None => Err(ServiceError::NotFound),
        Some(t) => if t.user_id != user_id {
            Err(ServiceError::Forbidden)
        } else {
            Ok(t)
        },
    }
}

/// Loads a position for its owner.
pub fn load_owned_holdings(ledger: &Ledger, user_id: u128, holdings_id: u128) -> (r: Result<
    Holdings,
    ServiceError,
>)
    requires
        ledger.wf(),
    ensures
        match r {
            Ok(h) => ledger@.find_holdings(holdings_id) == Some(h@) && h.user_id == user_id,
            Err(e) => Err::<(), Failure>(e@) == subject_check(
                holdings_owner(ledger@.find_holdings(holdings_id)),
                user_id,
            ),
        },
{
    match ledger.find_holdings(holdings_id) {
        None => Err(ServiceError::NotFound),
        Some(h) => if h.user_id != user_id {
            Err(ServiceError::Forbidden)
        } else {
            Ok(h)
        },
    }
}

/// Checks that an account which a request refers to is the caller's.
pub fn verify_account_ownership(ledger: &Ledger, user_id: u128, account_id: u128) -> (r: Result<
    (),
    ServiceError,
>)
    requires
        ledger.wf(),
    ensures
        outcome_view(r) == link_check(
            account_owner(ledger@.find_account(account_id)),
            user_id,
            account_id,
        ),
{
    let owner = match ledger.find_account(account_id) {
        Some(a) => Some(a.user_id),
        None => None,
    };
    check_link(owner, user_id, account_id)
}

} // verus!
