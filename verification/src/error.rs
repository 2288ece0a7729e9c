//! The failures that the ledger's operations report.

use vstd::prelude::*;
use vstd::string::*;

verus! {

/// Why an operation on the ledger failed.
#[derive(Debug)]
pub enum ServiceError {
    /// The store itself failed; the text is for the log, not for the caller.
    Database(String),
    /// No such record.
    NotFound,
    /// The record exists and belongs to somebody else.
    Forbidden,
    /// The request is malformed or inconsistent; the text says how.
    Validation(String),
    /// The change would break a reference or a uniqueness rule.
    Conflict(String),
}

/// A failure with its texts as sequences of characters.
pub enum Failure {
    Database(Seq<char>),
    NotFound,
    Forbidden,
    Validation(Seq<char>),
    Conflict(Seq<char>),
}

impl View for ServiceError {
    type V = Failure;

    open spec fn view(&self) -> Failure {
        match self {
            ServiceError::Database(m) => Failure::Database(m@),
            ServiceError::NotFound => Failure::NotFound,
            ServiceError::Forbidden => Failure::Forbidden,
            ServiceError::Validation(m) => Failure::Validation(m@),
            ServiceError::Conflict(m) => Failure::Conflict(m@),
        }
    }
}

impl Failure {
    /// The HTTP status that stands for the failure.
    pub open spec fn status(self) -> u16 {
        match self {
            Failure::NotFound => 404,
            Failure::Forbidden => 403,
            Failure::Validation(_) => 400,
            Failure::Conflict(_) => 409,
            Failure::Database(_) => 500,
        }
    }

    /// The text shown to the caller: specific for what the caller can mend,
    /// generic for a failure of the store.
    pub open spec fn shown(self) -> Seq<char> {
        match self {
            Failure::NotFound => "Resource not found"@,
            Failure::Forbidden => "Access forbidden"@,
            Failure::Validation(m) => m,
            Failure::Conflict(m) => m,
            Failure::Database(_) => "Internal server error"@,
        }
    }

    /// The failure written out in full, for the log.
    pub open spec fn described(self) -> Seq<char> {
        match self {
            Failure::NotFound => "Resource not found"@,
            Failure::Forbidden => "Access forbidden"@,
            Failure::Validation(m) => "Validation error: "@ + m,
            Failure::Conflict(m) => "Conflict: "@ + m,
            Failure::Database(m) => "Database error: "@ + m,
        }
    }
}

/// The text `prefix` followed by `rest`.
pub fn join(prefix: &str, rest: &str) -> (r: String)
    ensures
        r@ == prefix@ + rest@,
{
    let mut out = prefix.to_owned();
    out.append(rest);
    out
}

impl ServiceError {
    /// A validation failure with the given text.
    pub fn validation(message: &str) -> (r: ServiceError)
        ensures
            r@ == Failure::Validation(message@),
    {
        ServiceError::Validation(message.to_owned())
    }

    /// A conflict with the given text.
    pub fn conflict(message: &str) -> (r: ServiceError)
        ensures
            r@ == Failure::Conflict(message@),
    {
        ServiceError::Conflict(message.to_owned())
    }

    /// The HTTP status that stands for the failure.
    pub fn status_code(&self) -> (r: u16)
        ensures
            r == self@.status(),
    {
        match self {
            ServiceError::NotFound => 404,
            ServiceError::Forbidden => 403,
            ServiceError::Validation(_) => 400,
            ServiceError::Conflict(_) => 409,
            ServiceError::Database(_) => 500,
        }
    }

    /// The text shown to the caller.
    pub fn public_message(&self) -> (r: String)
        ensures
            r@ == self@.shown(),
    {
        match self {
            ServiceError::NotFound => "Resource not found".to_owned(),
            ServiceError::Forbidden => "Access forbidden".to_owned(),
            ServiceError::Validation(m) => m.clone(),
            ServiceError::Conflict(m) => m.clone(),
            ServiceError::Database(_) => "Internal server error".to_owned(),
        }
    }

    /// The failure written out in full.
    pub fn describe(&self) -> (r: String)
        ensures
            r@ == self@.described(),
    {
        match self {
            ServiceError::NotFound => "Resource not found".to_owned(),
            ServiceError::Forbidden => "Access forbidden".to_owned(),
            ServiceError::Validation(m) => join("Validation error: ", m.as_str()),
            ServiceError::Conflict(m) => join("Conflict: ", m.as_str()),
            ServiceError::Database(m) => join("Database error: ", m.as_str()),
        }
    }
}

/// How the store refused an operation.
#[derive(Debug)]
pub enum StoreFault {
    /// A uniqueness rule refused the record: its key is taken.
    Unique(String),
    /// A statement was refused while it ran, for another cause.
    Exec(String),
    /// A query was refused, for another cause.
    Query(String),
    /// Anything else: the connection, the data, a record that is not there.
    Other(String),
}

/// A store fault, with its text as a sequence of characters.
pub enum StoreFaultView {
    Unique(Seq<char>),
    Exec(Seq<char>),
    Query(Seq<char>),
    Other(Seq<char>),
}

impl View for StoreFault {
    type V = StoreFaultView;

    open spec fn view(&self) -> StoreFaultView {
        match self {
            StoreFault::Unique(m) => StoreFaultView::Unique(m@),
            StoreFault::Exec(m) => StoreFaultView::Exec(m@),
            StoreFault::Query(m) => StoreFaultView::Query(m@),
            StoreFault::Other(m) => StoreFaultView::Other(m@),
        }
    }
}

impl StoreFaultView {
    /// The text that the fault carries.
    pub open spec fn text(self) -> Seq<char> {
        match self {
            StoreFaultView::Unique(m) => m,
            StoreFaultView::Exec(m) => m,
            StoreFaultView::Query(m) => m,
            StoreFaultView::Other(m) => m,
        }
    }
}

/// The fault of inserting a record whose key is taken.
pub open spec fn duplicate_key() -> StoreFaultView {
    StoreFaultView::Unique("duplicate key value violates unique constraint"@)
}

/// The fault of replacing or removing a record that is not there.
pub open spec fn no_such_record() -> StoreFaultView {
    StoreFaultView::Other("None of the records are updated"@)
}

impl ServiceError {
    /// The failure that a store fault becomes when nothing more is known of
    /// it: a failure of the store, with the fault's text.
    pub fn from_store(fault: StoreFault) -> (r: ServiceError)
        ensures
            r@ == Failure::Database(fault@.text()),
    {
        match fault {
            StoreFault::Unique(m) => ServiceError::Database(m),
            StoreFault::Exec(m) => ServiceError::Database(m),
            StoreFault::Query(m) => ServiceError::Database(m),
            StoreFault::Other(m) => ServiceError::Database(m),
        }
    }
}

/// The view of a result that carries nothing on success.
pub open spec fn outcome_view(r: Result<(), ServiceError>) -> Result<(), Failure> {
    match r {
        Ok(()) => Ok(()),
        Err(e) => Err(e@),
    }
}

} // verus!
