//! The rules of a personal-finance ledger.
//!
//! Users hold accounts, record transactions against them and track
//! investment positions. This crate holds what is decided about them: which
//! requests are valid, who may read or change a record, which records refer
//! to which, and what may not be removed while something refers to it.
//!
//! - [`records`], [`amount`] and [`error`]: the records, decimal amounts and
//!   failures that everything else speaks of.
//! - [`text`]: normalisation of codes and the character classes of the
//!   validators.
//! - [`ownership`]: the guard that tells an absent record from a foreign
//!   one.
//! - [`ledger`]: the store, with the uniqueness rules that a relational
//!   store enforces; [`lookup`] says how its lookups change.
//! - [`account`], [`transaction`], [`holdings`] and [`query`]: the
//!   services. Each has a specification of its outcome over the view of the
//!   ledger, and pure decisions for a caller that keeps the records
//!   elsewhere.
//! - [`laws`] and [`soundness`]: what holds of the services whatever the
//!   ledger and the request.
//! - [`auth`], [`session`], [`notify`] and [`config`]: what is decided at
//!   the edges of the server and of the desktop client.

pub mod account;
pub mod amount;
pub mod auth;
pub mod config;
pub mod error;
pub mod holdings;
pub mod laws;
pub mod ledger;
pub mod lookup;
pub mod notify;
pub mod ownership;
pub mod query;
pub mod records;
pub mod session;
pub mod soundness;
mod stamp;
pub mod text;
pub mod transaction;
