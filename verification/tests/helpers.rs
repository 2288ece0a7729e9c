use ledger_core::account::{
    apply_account_update, check_account_update, check_closing, create_account_at, open_account,
    validate_account_name, CreateAccountRequest, UpdateAccountRequest,
};
use ledger_core::amount::Amount;
use ledger_core::error::ServiceError;
use ledger_core::holdings::{
    apply_holdings_update, read_wanted_asset, validate_bounds, UpdateHoldingsRequest,
};
use ledger_core::ledger::{is_same_position, Ledger};
use ledger_core::ownership::{
    load_owned_account, load_owned_holdings, load_owned_transaction, verify_account_ownership,
};
use ledger_core::query::{plan_listing, TransactionQuery};
use ledger_core::records::{copy_text, Account, AssetType, Holdings, Transaction, TxnKind};
use ledger_core::transaction::{
    apply_transaction_update, check_removal, lookup_account, lookup_reference, AccountLookup,
    ReferenceLookup, TransactionResponse, UpdateTransactionRequest,
};

fn amt(units: i128, places: u32) -> Amount {
    Amount::new(units, places).unwrap()
}

fn account(id: u128, user_id: u128) -> Account {
    Account {
        id,
        user_id,
        name: "A".to_string(),
        account_type: "cash".to_string(),
        balance: amt(0, 0),
        currency_code: "USD".to_string(),
        created_at: 1,
        updated_at: 1,
    }
}

fn transaction(id: u128, user_id: u128, from: u128) -> Transaction {
    Transaction {
        id,
        user_id,
        from_account_id: Some(from),
        to_account_id: None,
        txn_type: TxnKind::Expense,
        amount: amt(5, 0),
        currency_code: "EUR".to_string(),
        to_amount: None,
        to_currency_code: None,
        category: Some("food".to_string()),
        note: None,
        occurred_at: 10,
        ref_transaction_id: None,
        merchant: None,
        created_at: 1,
        updated_at: 1,
    }
}

fn position(id: u128, user_id: u128, account_id: u128, symbol: &str) -> Holdings {
    Holdings {
        id,
        user_id,
        account_id,
        asset_type: AssetType::Stock,
        symbol: symbol.to_string(),
        name: None,
        quantity: amt(1, 0),
        cost_basis_total: amt(1, 0),
        currency_code: "USD".to_string(),
        last_price: None,
        last_price_at: None,
        market_value: None,
        created_at: 1,
        updated_at: 1,
    }
}

fn conflict_text(e: &ServiceError) -> String {
    match e {
        ServiceError::Conflict(m) => m.clone(),
        other => panic!("expected a conflict, got {:?}", other),
    }
}

#[test]
fn store_inserts_replaces_and_removes() {
    let mut ledger = Ledger::new();
    assert!(ledger.insert_account(account(1, 7)).is_ok());
    assert!(ledger.insert_account(account(1, 8)).is_err());
    assert!(ledger.insert_account(account(2, 8)).is_ok());
    assert_eq!(ledger.accounts_of(7).len(), 1);
    assert_eq!(ledger.accounts_of(8).len(), 1);
    assert_eq!(ledger.accounts_of(9).len(), 0);

    let mut renamed = account(1, 7);
    renamed.name = "B".to_string();
    assert!(ledger.replace_account(renamed).is_ok());
    assert_eq!(ledger.find_account(1).unwrap().name, "B");
    assert!(ledger.replace_account(account(3, 7)).is_err());
    assert!(ledger.find_account(3).is_none());

    assert!(ledger.insert_transaction(transaction(10, 7, 1)).is_ok());
    assert!(ledger.insert_transaction(transaction(10, 7, 1)).is_err());
    let mut refund = transaction(11, 7, 1);
    refund.txn_type = TxnKind::Refund;
    refund.ref_transaction_id = Some(10);
    assert!(ledger.insert_transaction(refund).is_ok());
    assert_eq!(ledger.count_transactions_touching(1), 2);
    assert_eq!(ledger.count_transactions_touching(2), 0);
    assert_eq!(ledger.count_transactions_referring(10), 1);
    assert_eq!(ledger.count_transactions_referring(11), 0);
    let mut moved = transaction(10, 7, 2);
    moved.to_account_id = Some(1);
    assert!(ledger.replace_transaction(moved).is_ok());
    assert_eq!(ledger.count_transactions_touching(2), 1);
    assert_eq!(ledger.count_transactions_touching(1), 2);
    assert!(ledger.replace_transaction(transaction(12, 7, 1)).is_err());
    assert!(ledger.remove_transaction(12).is_err());
    assert!(ledger.remove_transaction(11).is_ok());
    assert_eq!(ledger.all_transactions().len(), 1);

    assert!(ledger.insert_holdings(position(20, 7, 1, "AAPL")).is_ok());
    assert!(ledger.insert_holdings(position(20, 7, 1, "MSFT")).is_err());
    assert!(ledger.insert_holdings(position(21, 7, 1, "AAPL")).is_err());
    assert!(ledger.insert_holdings(position(21, 7, 1, "MSFT")).is_ok());
    assert_eq!(ledger.count_holdings_in(1), 2);
    assert_eq!(ledger.count_holdings_in(2), 0);
    // A position may be replaced by itself, but not by another's position.
    assert!(ledger.replace_holdings(position(20, 7, 1, "AAPL")).is_ok());
    assert!(ledger.replace_holdings(position(20, 7, 1, "MSFT")).is_err());
    assert!(ledger.replace_holdings(position(20, 7, 1, "GOOG")).is_ok());
    assert_eq!(ledger.find_holdings(20).unwrap().symbol, "GOOG");
    assert!(ledger.replace_holdings(position(22, 7, 1, "X")).is_err());
    assert!(ledger.remove_holdings(22).is_err());
    assert!(ledger.remove_holdings(20).is_ok());
    assert_eq!(ledger.all_holdings().len(), 1);

    assert!(ledger.remove_account(3).is_err());
    assert!(ledger.remove_account(1).is_ok());
    assert!(ledger.find_account(1).is_none());
    assert!(ledger.find_account(2).is_some());
}

#[test]
fn same_position_is_user_account_asset_type_and_symbol() {
    let a = position(1, 7, 1, "AAPL");
    assert!(is_same_position(&a, &position(2, 7, 1, "AAPL")));
    assert!(!is_same_position(&a, &position(2, 8, 1, "AAPL")));
    assert!(!is_same_position(&a, &position(2, 7, 2, "AAPL")));
    assert!(!is_same_position(&a, &position(2, 7, 1, "aapl")));
    let mut fund = position(2, 7, 1, "AAPL");
    fund.asset_type = AssetType::Fund;
    assert!(!is_same_position(&a, &fund));
}

#[test]
fn records_are_loaded_for_their_owner_only() {
    let mut ledger = Ledger::new();
    ledger.insert_account(account(1, 7)).unwrap();
    ledger.insert_transaction(transaction(10, 7, 1)).unwrap();
    ledger.insert_holdings(position(20, 7, 1, "AAPL")).unwrap();

    assert_eq!(load_owned_account(&ledger, 7, 1).unwrap().id, 1);
    assert!(matches!(load_owned_account(&ledger, 8, 1), Err(ServiceError::Forbidden)));
    assert!(matches!(load_owned_account(&ledger, 7, 2), Err(ServiceError::NotFound)));
    assert_eq!(load_owned_transaction(&ledger, 7, 10).unwrap().id, 10);
    assert!(matches!(load_owned_transaction(&ledger, 8, 10), Err(ServiceError::Forbidden)));
    assert!(matches!(load_owned_transaction(&ledger, 7, 11), Err(ServiceError::NotFound)));
    assert_eq!(load_owned_holdings(&ledger, 7, 20).unwrap().id, 20);
    assert!(matches!(load_owned_holdings(&ledger, 8, 20), Err(ServiceError::Forbidden)));
    assert!(matches!(load_owned_holdings(&ledger, 7, 21), Err(ServiceError::NotFound)));

    assert!(verify_account_ownership(&ledger, 7, 1).is_ok());
    assert!(matches!(verify_account_ownership(&ledger, 8, 1), Err(ServiceError::Forbidden)));
    match verify_account_ownership(&ledger, 7, 0x99).unwrap_err() {
        ServiceError::Validation(m) => {
            assert_eq!(m, "Account 00000000-0000-0000-0000-000000000099 not found")
        }
        other => panic!("expected a validation failure, got {:?}", other),
    }

    assert_eq!(lookup_account(&ledger, 1), AccountLookup::Owner(7));
    assert_eq!(lookup_account(&ledger, 2), AccountLookup::Missing);
    match lookup_reference(&ledger, 10) {
        ReferenceLookup::Found { user_id, currency_code } => {
            assert_eq!(user_id, 7);
            assert_eq!(currency_code, "EUR");
        }
        other => panic!("unexpected lookup {:?}", other),
    }
    assert!(matches!(lookup_reference(&ledger, 11), ReferenceLookup::Missing));
}

#[test]
fn closing_and_removal_go_by_the_counts() {
    assert!(check_closing(0, 0).is_ok());
    assert_eq!(
        conflict_text(&check_closing(1, 0).unwrap_err()),
        "Cannot delete account with existing transactions"
    );
    assert_eq!(
        conflict_text(&check_closing(3, 4).unwrap_err()),
        "Cannot delete account with existing transactions"
    );
    assert_eq!(
        conflict_text(&check_closing(0, u64::MAX).unwrap_err()),
        "Cannot delete account with existing holdings"
    );
    assert!(check_removal(0).is_ok());
    assert_eq!(
        conflict_text(&check_removal(1).unwrap_err()),
        "Cannot delete transaction with existing refunds"
    );
}

#[test]
fn account_requests_are_checked_and_applied() {
    let made = open_account(
        7,
        CreateAccountRequest {
            name: " Cash ".to_string(),
            account_type: " WALLET".to_string(),
            currency_code: "eur".to_string(),
            initial_balance: Some(amt(1, 1)),
        },
        3,
        9,
    )
    .unwrap();
    assert_eq!(made.id, 3);
    assert_eq!(made.user_id, 7);
    assert_eq!(made.name, "Cash");
    assert_eq!(made.account_type, "wallet");
    assert_eq!(made.currency_code, "EUR");
    assert_eq!(made.balance.mantissa(), 1);
    assert_eq!(made.created_at, 9);

    assert!(validate_account_name("x").is_ok());
    assert!(validate_account_name(" ").is_err());

    let nothing = UpdateAccountRequest { name: None, account_type: None, currency_code: None };
    assert!(check_account_update(&nothing).is_ok());
    let all = UpdateAccountRequest {
        name: Some(" New ".to_string()),
        account_type: Some(" Bank ".to_string()),
        currency_code: Some(" gbp ".to_string()),
    };
    assert!(check_account_update(&all).is_ok());
    let changed = apply_account_update(account(1, 7), all, 50);
    assert_eq!(changed.name, "New");
    assert_eq!(changed.account_type, "bank");
    assert_eq!(changed.currency_code, "GBP");
    assert_eq!(changed.updated_at, 50);
    assert_eq!(changed.created_at, 1);
    assert_eq!(changed.id, 1);
    assert_eq!(changed.user_id, 7);
    let same = apply_account_update(account(1, 7), nothing, 51);
    assert_eq!(same.name, "A");
    assert_eq!(same.updated_at, 51);
}

#[test]
fn transaction_and_position_changes_are_applied() {
    let changed = apply_transaction_update(
        transaction(10, 7, 1),
        UpdateTransactionRequest {
            category: None,
            note: Some("n".to_string()),
            occurred_at: None,
            merchant: None,
        },
        60,
    );
    assert_eq!(changed.category.as_deref(), Some("food"));
    assert_eq!(changed.note.as_deref(), Some("n"));
    assert_eq!(changed.occurred_at, 10);
    assert_eq!(changed.merchant, None);
    assert_eq!(changed.updated_at, 60);
    assert_eq!(changed.amount.mantissa(), 5);
    let shown = TransactionResponse::from_record(changed);
    assert_eq!(TxnKind::parse(&shown.txn_type), Some(TxnKind::Expense));
    assert_eq!(shown.txn_type, "expense");
    assert_eq!(shown.currency_code, "EUR");

    let changed = apply_holdings_update(
        position(20, 7, 1, "AAPL"),
        UpdateHoldingsRequest {
            quantity: None,
            cost_basis_total: None,
            last_price: Some(amt(3, 0)),
            last_price_at: None,
            market_value: None,
            name: None,
        },
        70,
    );
    assert_eq!(changed.last_price.unwrap().mantissa(), 3);
    assert_eq!(changed.last_price_at, None);
    assert_eq!(changed.quantity.mantissa(), 1);
    assert_eq!(changed.updated_at, 70);

    assert!(validate_bounds(&None, &None, &None, &None).is_ok());
    assert!(validate_bounds(&Some(amt(0, 0)), &Some(amt(0, 0)), &Some(amt(0, 0)), &Some(amt(0, 0))).is_ok());
    assert!(validate_bounds(&None, &None, &None, &Some(amt(-1, 9))).is_err());

    assert_eq!(copy_text(&Some("x".to_string())).as_deref(), Some("x"));
    assert_eq!(copy_text(&None), None);
}

#[test]
fn listings_are_prepared_for_a_store() {
    let mut q = TransactionQuery {
        start: None,
        end: None,
        category: None,
        account_id: None,
        min_amount: None,
        max_amount: None,
        keyword: Some("50%_off".to_string()),
        txn_type: Some("ExPeNsE".to_string()),
        limit: Some(50),
        offset: Some(120),
    };
    let plan = plan_listing(&q).unwrap();
    assert_eq!(plan.pattern.as_deref(), Some("%50\\%\\_off%"));
    assert_eq!(plan.txn_type.as_deref(), Some("expense"));
    assert_eq!(plan.page, 2);
    assert_eq!(plan.page_size, 50);

    q.keyword = None;
    q.txn_type = None;
    q.limit = None;
    q.offset = None;
    let plan = plan_listing(&q).unwrap();
    assert_eq!(plan.pattern, None);
    assert_eq!(plan.txn_type, None);
    assert_eq!(plan.page, 0);
    assert_eq!(plan.page_size, 100);

    q.limit = Some(1_000);
    q.offset = Some(1_000);
    let plan = plan_listing(&q).unwrap();
    assert_eq!(plan.page, 2);
    assert_eq!(plan.page_size, 500);

    q.limit = Some(0);
    match plan_listing(&q).unwrap_err() {
        ServiceError::Validation(m) => assert_eq!(m, "Limit must be positive"),
        other => panic!("expected a validation failure, got {:?}", other),
    }
    q.limit = None;
    q.keyword = Some("账".repeat(100));
    assert!(plan_listing(&q).is_ok());
    q.keyword = Some("k".repeat(101));
    assert!(matches!(plan_listing(&q), Err(ServiceError::Validation(_))));

    assert_eq!(read_wanted_asset(&None).unwrap(), None);
    assert_eq!(read_wanted_asset(&Some(" BOND ".to_string())).unwrap(), Some(AssetType::Bond));
    assert!(read_wanted_asset(&Some("gold".to_string())).is_err());
}

#[test]
fn ledger_built_by_the_services_lists_in_insertion_order() {
    let mut ledger = Ledger::new();
    for (id, name) in [(3u128, "c"), (1, "a"), (2, "b")] {
        create_account_at(
            &mut ledger,
            7,
            CreateAccountRequest {
                name: name.to_string(),
                account_type: "cash".to_string(),
                currency_code: "USD".to_string(),
                initial_balance: None,
            },
            id,
            0,
        )
        .unwrap();
    }
    let ids: Vec<u128> = ledger.accounts_of(7).iter().map(|a| a.id).collect();
    assert_eq!(ids, vec![3, 1, 2]);
}
