//! The three kinds of record that a ledger holds, and the closed sets of
//! codes that classify them.
//!
//! Identifiers are 128-bit numbers and instants are microseconds since the
//! Unix epoch. Each record has a view in which its texts are sequences of
//! characters; contracts speak of the views.

use vstd::prelude::*;
use vstd::string::*;
use crate::amount::Amount;
use crate::text::same_text;

verus! {

/// What a transaction does.
#[derive(Debug, Clone, Copy, PartialEq, Eq, Structural)]
pub enum TxnKind {
    Expense,
    Income,
    Transfer,
    Refund,
    Adjustment,
}

/// What an investment position is made of.
#[derive(Debug, Clone, Copy, PartialEq, Eq, Structural)]
pub enum AssetType {
    Stock,
    Fund,
    Crypto,
    Bond,
    Cash,
    Other,
}

impl TxnKind {
    /// The code under which the kind is stored and shown.
    pub open spec fn code(self) -> Seq<char> {
        match self {
            TxnKind::Expense => "expense"@,
            TxnKind::Income => "income"@,
            TxnKind::Transfer => "transfer"@,
            TxnKind::Refund => "refund"@,
            TxnKind::Adjustment => "adjustment"@,
        }
    }

    /// The kind that a code stands for, if any.
    pub open spec fn of_code(s: Seq<char>) -> Option<TxnKind> {
        if s == "expense"@ {
            Some(TxnKind::Expense)
        } else if s == "income"@ {
            Some(TxnKind::Income)
        } else if s == "transfer"@ {
            Some(TxnKind::Transfer)
        } else if s == "refund"@ {
            Some(TxnKind::Refund)
        } else if s == "adjustment"@ {
            Some(TxnKind::Adjustment)
        } else {
            None
        }
    }

    /// A refund or an adjustment: a correction of an earlier transaction.
    pub open spec fn corrects(self) -> bool {
        self == TxnKind::Refund || self == TxnKind::Adjustment
    }

    /// The code under which the kind is stored and shown.
    pub fn as_str(&self) -> (r: &'static str)
        ensures
            r@ == self.code(),
    {
        match self {
            TxnKind::Expense => "expense",
            TxnKind::Income => "income",
            TxnKind::Transfer => "transfer",
            TxnKind::Refund => "refund",
            TxnKind::Adjustment => "adjustment",
        }
    }

    /// Reads a code; `None` for a text that is none of the five codes.
    pub fn parse(s: &str) -> (r: Option<TxnKind>)
        ensures
            r == TxnKind::of_code(s@),
    {
        if same_text(s, "expense") {
            Some(TxnKind::Expense)
        } else if same_text(s, "income") {
            Some(TxnKind::Income)
        } else if same_text(s, "transfer") {
            Some(TxnKind::Transfer)
        } else if same_text(s, "refund") {
            Some(TxnKind::Refund)
        } else if same_text(s, "adjustment") {
            Some(TxnKind::Adjustment)
        } else {
            None
        }
    }

    /// Tells whether the kind is a refund or an adjustment.
    pub fn is_correction(&self) -> (r: bool)
        ensures
            r == self.corrects(),
    {
        match self {
            TxnKind::Refund => true,
            TxnKind::Adjustment => true,
            _ => false,
        }
    }
}

impl AssetType {
    /// The code under which the asset type is stored and shown.
    pub open spec fn code(self) -> Seq<char> {
        match self {
            AssetType::Stock => "stock"@,
            AssetType::Fund => "fund"@,
            AssetType::Crypto => "crypto"@,
            AssetType::Bond => "bond"@,
            AssetType::Cash => "cash"@,
            AssetType::Other => "other"@,
        }
    }

    /// The asset type that a code stands for, if any.
    pub open spec fn of_code(s: Seq<char>) -> Option<AssetType> {
        if s == "stock"@ {
            Some(AssetType::Stock)
        } else if s == "fund"@ {
            Some(AssetType::Fund)
        } else if s == "crypto"@ {
            Some(AssetType::Crypto)
        } else if s == "bond"@ {
            Some(AssetType::Bond)
        } else if s == "cash"@ {
            Some(AssetType::Cash)
        } else if s == "other"@ {
            Some(AssetType::Other)
        } else {
            None
        }
    }

    /// The code under which the asset type is stored and shown.
    pub fn as_str(&self) -> (r: &'static str)
        ensures
            r@ == self.code(),
    {
        match self {
            AssetType::Stock => "stock",
            AssetType::Fund => "fund",
            AssetType::Crypto => "crypto",
            AssetType::Bond => "bond",
            AssetType::Cash => "cash",
            AssetType::Other => "other",
        }
    }

    /// Reads a code; `None` for a text that is none of the six codes.
    pub fn parse(s: &str) -> (r: Option<AssetType>)
        ensures
            r == AssetType::of_code(s@),
    {
        if same_text(s, "stock") {
            Some(AssetType::Stock)
        } else if same_text(s, "fund") {
            Some(AssetType::Fund)
        } else if same_text(s, "crypto") {
            Some(AssetType::Crypto)
        } else if same_text(s, "bond") {
            Some(AssetType::Bond)
        } else if same_text(s, "cash") {
            Some(AssetType::Cash)
        } else if same_text(s, "other") {
            Some(AssetType::Other)
        } else {
            None
        }
    }
}

/// Every kind is read back from its own code.
pub proof fn lemma_txn_kind_code_round_trip(kind: TxnKind)
    ensures
        TxnKind::of_code(kind.code()) == Some(kind),
{
    reveal_strlit("expense");
    reveal_strlit("income");
    reveal_strlit("transfer");
    reveal_strlit("refund");
    reveal_strlit("adjustment");
    assert("expense"@.len() == 7);
    assert("income"@.len() == 6);
    assert("transfer"@.len() == 8);
    assert("refund"@[0] == 'r');
    assert("income"@[0] == 'i');
    assert("adjustment"@.len() == 10);
}

/// Every asset type is read back from its own code.
pub proof fn lemma_asset_type_code_round_trip(asset: AssetType)
    ensures
        AssetType::of_code(asset.code()) == Some(asset),
{
    reveal_strlit("stock");
    reveal_strlit("fund");
    reveal_strlit("crypto");
    reveal_strlit("bond");
    reveal_strlit("cash");
    reveal_strlit("other");
    assert("stock"@[0] == 's');
    assert("other"@[0] == 'o');
    assert("fund"@[0] == 'f');
    assert("bond"@[0] == 'b');
    assert("cash"@[0] == 'c');
    assert("crypto"@.len() == 6);
}

/// A copy of an optional text.
pub fn copy_text(t: &Option<String>) -> (r: Option<String>)
    ensures
        r == *t,
{
    match t {
        Some(s) => Some(s.clone()),
        None => None,
    }
}

/// The view of an optional text.
pub open spec fn text_view(t: Option<String>) -> Option<Seq<char>> {
    match t {
        Some(s) => Some(s@),
        None => None,
    }
}

/// An account: a place where a user's money is held.
#[derive(Debug)]
pub struct Account {
    pub id: u128,
    pub user_id: u128,
    pub name: String,
    pub account_type: String,
    pub balance: Amount,
    pub currency_code: String,
    pub created_at: i64,
    pub updated_at: i64,
}

/// An account, with its texts as sequences of characters.
pub struct AccountView {
    pub id: u128,
    pub user_id: u128,
    pub name: Seq<char>,
    pub account_type: Seq<char>,
    pub balance: Amount,
    pub currency_code: Seq<char>,
    pub created_at: i64,
    pub updated_at: i64,
}

impl View for Account {
    type V = AccountView;

    open spec fn view(&self) -> AccountView {
        AccountView {
            id: self.id,
            user_id: self.user_id,
            name: self.name@,
            account_type: self.account_type@,
            balance: self.balance,
            currency_code: self.currency_code@,
            created_at: self.created_at,
            updated_at: self.updated_at,
        }
    }
}

impl Clone for Account {
    fn clone(&self) -> (r: Account)
        ensures
            r == *self,
    {
        Account {
            id: self.id,
            user_id: self.user_id,
            name: self.name.clone(),
            account_type: self.account_type.clone(),
            balance: self.balance,
            currency_code: self.currency_code.clone(),
            created_at: self.created_at,
            updated_at: self.updated_at,
        }
    }
}

/// A transaction: money that left an account, reached one, or both.
#[derive(Debug)]
pub struct Transaction {
    pub id: u128,
    pub user_id: u128,
    pub from_account_id: Option<u128>,
    pub to_account_id: Option<u128>,
    pub txn_type: TxnKind,
    pub amount: Amount,
    pub currency_code: String,
    pub to_amount: Option<Amount>,
    pub to_currency_code: Option<String>,
    pub category: Option<String>,
    pub note: Option<String>,
    pub occurred_at: i64,
    pub ref_transaction_id: Option<u128>,
    pub merchant: Option<String>,
    pub created_at: i64,
    pub updated_at: i64,
}

/// A transaction, with its texts as sequences of characters.
pub struct TransactionView {
    pub id: u128,
    pub user_id: u128,
    pub from_account_id: Option<u128>,
    pub to_account_id: Option<u128>,
    pub txn_type: TxnKind,
    pub amount: Amount,
    pub currency_code: Seq<char>,
    pub to_amount: Option<Amount>,
    pub to_currency_code: Option<Seq<char>>,
    pub category: Option<Seq<char>>,
    pub note: Option<Seq<char>>,
    pub occurred_at: i64,
    pub ref_transaction_id: Option<u128>,
    pub merchant: Option<Seq<char>>,
    pub created_at: i64,
    pub updated_at: i64,
}

impl View for Transaction {
    type V = TransactionView;

    open spec fn view(&self) -> TransactionView {
        TransactionView {
            id: self.id,
            user_id: self.user_id,
            from_account_id: self.from_account_id,
            to_account_id: self.to_account_id,
            txn_type: self.txn_type,
            amount: self.amount,
            currency_code: self.currency_code@,
            to_amount: self.to_amount,
            to_currency_code: text_view(self.to_currency_code),
            category: text_view(self.category),
            note: text_view(self.note),
            occurred_at: self.occurred_at,
            ref_transaction_id: self.ref_transaction_id,
            merchant: text_view(self.merchant),
            created_at: self.created_at,
            updated_at: self.updated_at,
        }
    }
}

impl Clone for Transaction {
    fn clone(&self) -> (r: Transaction)
        ensures
            r == *self,
    {
        Transaction {
            id: self.id,
            user_id: self.user_id,
            from_account_id: self.from_account_id,
            to_account_id: self.to_account_id,
            txn_type: self.txn_type,
            amount: self.amount,
            currency_code: self.currency_code.clone(),
            to_amount: self.to_amount,
            to_currency_code: copy_text(&self.to_currency_code),
            category: copy_text(&self.category),
            note: copy_text(&self.note),
            occurred_at: self.occurred_at,
            ref_transaction_id: self.ref_transaction_id,
            merchant: copy_text(&self.merchant),
            created_at: self.created_at,
            updated_at: self.updated_at,
        }
    }
}

/// An investment position held in an account.
#[derive(Debug)]
pub struct Holdings {
    pub id: u128,
    pub user_id: u128,
    pub account_id: u128,
    pub asset_type: AssetType,
    pub symbol: String,
    pub name: Option<String>,
    pub quantity: Amount,
    pub cost_basis_total: Amount,
    pub currency_code: String,
    pub last_price: Option<Amount>,
    pub last_price_at: Option<i64>,
    pub market_value: Option<Amount>,
    pub created_at: i64,
    pub updated_at: i64,
}

/// A position, with its texts as sequences of characters.
pub struct HoldingsView {
    pub id: u128,
    pub user_id: u128,
    pub account_id: u128,
    pub asset_type: AssetType,
    pub symbol: Seq<char>,
    pub name: Option<Seq<char>>,
    pub quantity: Amount,
    pub cost_basis_total: Amount,
    pub currency_code: Seq<char>,
    pub last_price: Option<Amount>,
    pub last_price_at: Option<i64>,
    pub market_value: Option<Amount>,
    pub created_at: i64,
    pub updated_at: i64,
}

impl View for Holdings {
    type V = HoldingsView;

    open spec fn view(&self) -> HoldingsView {
        HoldingsView {
            id: self.id,
            user_id: self.user_id,
            account_id: self.account_id,
            asset_type: self.asset_type,
            symbol: self.symbol@,
            name: text_view(self.name),
            quantity: self.quantity,
            cost_basis_total: self.cost_basis_total,
            currency_code: self.currency_code@,
            last_price: self.last_price,
            last_price_at: self.last_price_at,
            market_value: self.market_value,
            created_at: self.created_at,
            updated_at: self.updated_at,
        }
    }
}

impl Clone for Holdings {
    fn clone(&self) -> (r: Holdings)
        ensures
            r == *self,
    {
        Holdings {
            id: self.id,
            user_id: self.user_id,
            account_id: self.account_id,
            asset_type: self.asset_type,
            symbol: self.symbol.clone(),
            name: copy_text(&self.name),
            quantity: self.quantity,
            cost_basis_total: self.cost_basis_total,
            currency_code: self.currency_code.clone(),
            last_price: self.last_price,
            last_price_at: self.last_price_at,
            market_value: self.market_value,
            created_at: self.created_at,
            updated_at: self.updated_at,
        }
    }
}

} // verus!
