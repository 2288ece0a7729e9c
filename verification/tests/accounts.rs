use ledger_core::account::{
    create_account, create_account_at, delete_account, get_account, list_accounts, update_account,
    update_account_at, validate_account_type, validate_currency_code, CreateAccountRequest,
    UpdateAccountRequest,
};
use ledger_core::amount::Amount;
use ledger_core::error::ServiceError;
use ledger_core::holdings::{create_holdings_at, delete_holdings, CreateHoldingsRequest};
use ledger_core::ledger::Ledger;
use ledger_core::transaction::{create_transaction_at, delete_transaction, CreateTransactionRequest};

fn amt(units: i128, places: u32) -> Amount {
    Amount::new(units, places).unwrap()
}

fn new_account(name: &str, kind: &str, currency: &str) -> CreateAccountRequest {
    CreateAccountRequest {
        name: name.to_string(),
        account_type: kind.to_string(),
        currency_code: currency.to_string(),
        initial_balance: None,
    }
}

fn validation_text(e: &ServiceError) -> String {
    match e {
        ServiceError::Validation(m) => m.clone(),
        other => panic!("expected a validation failure, got {:?}", other),
    }
}

fn expense(from: u128, amount: Amount) -> CreateTransactionRequest {
    CreateTransactionRequest {
        from_account_id: Some(from),
        to_account_id: None,
        txn_type: "expense".to_string(),
        amount,
        currency_code: "USD".to_string(),
        to_amount: None,
        to_currency_code: None,
        category: None,
        note: None,
        occurred_at: 1_000,
        ref_transaction_id: None,
        merchant: None,
    }
}

fn stock(account_id: u128, symbol: &str) -> CreateHoldingsRequest {
    CreateHoldingsRequest {
        account_id,
        asset_type: "stock".to_string(),
        symbol: symbol.to_string(),
        name: None,
        quantity: amt(10, 0),
        cost_basis_total: amt(1500, 2),
        currency_code: "USD".to_string(),
        last_price: None,
        last_price_at: None,
        market_value: None,
    }
}

#[test]
fn test_account_crud() {
    let mut ledger = Ledger::new();
    let user_id: u128 = 1;

    let created = create_account(&mut ledger, user_id, new_account("Test Account", "bank_card", "USD"))
        .expect("Failed to create account");
    assert_eq!(created.name, "Test Account");
    assert_eq!(created.account_type, "bank_card");
    assert_eq!(created.currency_code, "USD");

    let fetched = get_account(&ledger, user_id, created.id).expect("Failed to get account");
    assert_eq!(fetched.id, created.id);
    assert_eq!(fetched.name, "Test Account");

    let update_req = UpdateAccountRequest {
        name: Some("Updated Account".to_string()),
        account_type: Some("cash".to_string()),
        currency_code: Some("EUR".to_string()),
    };
    let updated = update_account(&mut ledger, user_id, created.id, update_req)
        .expect("Failed to update account");
    assert_eq!(updated.name, "Updated Account");
    assert_eq!(updated.account_type, "cash");
    assert_eq!(updated.currency_code, "EUR");

    delete_account(&mut ledger, user_id, created.id).expect("Failed to delete account");

    let result = get_account(&ledger, user_id, created.id);
    assert!(result.is_err(), "Should not be able to get deleted account");
    assert!(matches!(result, Err(ServiceError::NotFound)));
}

#[test]
fn test_account_user_isolation() {
    let mut ledger = Ledger::new();
    let user_a: u128 = 10;
    let user_b: u128 = 20;

    let account_a = create_account(&mut ledger, user_a, new_account("User A Account", "cash", "USD"))
        .expect("Failed to create account for user A");

    let result = get_account(&ledger, user_b, account_a.id);
    assert!(result.is_err(), "User B should not access User A's account");
    assert!(matches!(result, Err(ServiceError::Forbidden)));

    let result = update_account(
        &mut ledger,
        user_b,
        account_a.id,
        UpdateAccountRequest { name: Some("Hacked".to_string()), account_type: None, currency_code: None },
    );
    assert!(result.is_err(), "User B should not update User A's account");
    assert!(matches!(result, Err(ServiceError::Forbidden)));

    let result = delete_account(&mut ledger, user_b, account_a.id);
    assert!(result.is_err(), "User B should not delete User A's account");
    assert!(matches!(result, Err(ServiceError::Forbidden)));

    let list_b = list_accounts(&ledger, user_b);
    assert_eq!(list_b.len(), 0, "User B should see no accounts");

    let list_a = list_accounts(&ledger, user_a);
    assert_eq!(list_a.len(), 1, "User A should see 1 account");
    assert_eq!(list_a[0].id, account_a.id);
    assert_eq!(list_a[0].name, "User A Account");
}

#[test]
fn test_account_type_normalization() {
    let mut ledger = Ledger::new();
    let account = create_account(&mut ledger, 1, new_account("Mixed Case Type", "  BaNk_CaRd  ", "usd"))
        .expect("Should normalize account type and currency");
    assert_eq!(account.account_type, "bank_card");
    assert_eq!(account.currency_code, "USD");
}

#[test]
fn create_account_stores_normalized_fields_and_zero_balance() {
    let mut ledger = Ledger::new();
    let shown = create_account_at(&mut ledger, 7, new_account("Checking", "bank_card", "usd"), 100, 5_000)
        .unwrap();
    assert_eq!(shown.id, 100);
    assert_eq!(shown.name, "Checking");
    assert_eq!(shown.account_type, "bank_card");
    assert_eq!(shown.currency_code, "USD");
    assert_eq!(shown.balance.mantissa(), 0);
    assert_eq!(shown.balance.scale(), 0);
    assert_eq!(shown.created_at, 5_000);
    assert_eq!(shown.updated_at, 5_000);

    let stored = ledger.find_account(100).unwrap();
    assert_eq!(stored.user_id, 7);
    assert_eq!(stored.account_type, "bank_card");
    assert_eq!(stored.currency_code, "USD");
    assert_eq!(stored.balance.mantissa(), 0);
}

#[test]
fn create_account_keeps_the_balance_asked_for() {
    let mut ledger = Ledger::new();
    let mut req = new_account("Savings", "bank", "eur");
    req.initial_balance = Some(amt(12_345, 2));
    let shown = create_account_at(&mut ledger, 7, req, 1, 0).unwrap();
    assert_eq!(shown.balance.mantissa(), 12_345);
    assert_eq!(shown.balance.scale(), 2);
}

#[test]
fn create_account_trims_the_name() {
    let mut ledger = Ledger::new();
    let shown = create_account_at(&mut ledger, 7, new_account("  Wallet \t", "cash", "USD"), 1, 0).unwrap();
    assert_eq!(shown.name, "Wallet");
}

#[test]
fn create_account_rejects_blank_fields_in_order() {
    let mut ledger = Ledger::new();
    let e = create_account_at(&mut ledger, 7, new_account("   ", "", ""), 1, 0).unwrap_err();
    assert_eq!(validation_text(&e), "Account name cannot be empty");
    let e = create_account_at(&mut ledger, 7, new_account("A", "  ", ""), 1, 0).unwrap_err();
    assert_eq!(validation_text(&e), "Account type cannot be empty");
    let e = create_account_at(&mut ledger, 7, new_account("A", "cash", "  "), 1, 0).unwrap_err();
    assert_eq!(validation_text(&e), "Currency code cannot be empty");
    assert!(ledger.find_account(1).is_none());
}

#[test]
fn account_currency_accepts_one_to_ten_letters_or_digits() {
    assert!(validate_currency_code("U").is_ok());
    assert!(validate_currency_code("US").is_ok());
    assert!(validate_currency_code("USDT2").is_ok());
    assert!(validate_currency_code("INVALID").is_ok());
    assert!(validate_currency_code("ABCDEFGHIJ").is_ok());

    let e = validate_currency_code("ABCDEFGHIJK").unwrap_err();
    assert_eq!(validation_text(&e), "Currency code too long (max 10 chars)");
    let e = validate_currency_code("US-D").unwrap_err();
    assert_eq!(validation_text(&e), "Currency code must be alphanumeric");
    let e = validate_currency_code("").unwrap_err();
    assert_eq!(validation_text(&e), "Currency code cannot be empty");
}

#[test]
fn account_currency_length_is_counted_in_characters() {
    // Ten characters of two bytes each are not too long, only not
    // alphanumeric; eleven are too long.
    let e = validate_currency_code(&"é".repeat(10)).unwrap_err();
    assert_eq!(validation_text(&e), "Currency code must be alphanumeric");
    let e = validate_currency_code(&"é".repeat(11)).unwrap_err();
    assert_eq!(validation_text(&e), "Currency code too long (max 10 chars)");
    let e = validate_currency_code("ééé").unwrap_err();
    assert_eq!(validation_text(&e), "Currency code must be alphanumeric");
}

#[test]
fn account_type_must_not_be_blank() {
    assert!(validate_account_type("cash").is_ok());
    let e = validate_account_type(" \t ").unwrap_err();
    assert_eq!(validation_text(&e), "Account type cannot be empty");
}

#[test]
fn create_account_under_a_taken_identifier_is_a_store_failure() {
    let mut ledger = Ledger::new();
    create_account_at(&mut ledger, 7, new_account("A", "cash", "USD"), 1, 0).unwrap();
    let e = create_account_at(&mut ledger, 8, new_account("B", "cash", "USD"), 1, 0).unwrap_err();
    assert!(matches!(e, ServiceError::Database(_)));
    assert_eq!(e.status_code(), 500);
    assert_eq!(e.public_message(), "Internal server error");
    assert_eq!(ledger.find_account(1).unwrap().name, "A");
}

#[test]
fn fresh_identifiers_differ() {
    let mut ledger = Ledger::new();
    let a = create_account(&mut ledger, 7, new_account("A", "cash", "USD")).unwrap();
    let b = create_account(&mut ledger, 7, new_account("B", "cash", "USD")).unwrap();
    assert_ne!(a.id, b.id);
    assert!(a.created_at > 0);
    assert!(b.created_at >= a.created_at);
    assert_eq!(list_accounts(&ledger, 7).len(), 2);
}

#[test]
fn get_account_is_repeatable() {
    let mut ledger = Ledger::new();
    let created = create_account_at(&mut ledger, 7, new_account("A", "cash", "usd"), 1, 42).unwrap();
    let first = get_account(&ledger, 7, 1).unwrap();
    let second = get_account(&ledger, 7, 1).unwrap();
    for shown in [&first, &second] {
        assert_eq!(shown.id, created.id);
        assert_eq!(shown.name, created.name);
        assert_eq!(shown.account_type, created.account_type);
        assert_eq!(shown.currency_code, created.currency_code);
        assert_eq!(shown.balance.mantissa(), created.balance.mantissa());
        assert_eq!(shown.created_at, 42);
        assert_eq!(shown.updated_at, 42);
    }
}

#[test]
fn get_account_tells_absent_from_foreign() {
    let mut ledger = Ledger::new();
    create_account_at(&mut ledger, 7, new_account("A", "cash", "usd"), 1, 0).unwrap();
    assert!(matches!(get_account(&ledger, 7, 2), Err(ServiceError::NotFound)));
    assert!(matches!(get_account(&ledger, 8, 1), Err(ServiceError::Forbidden)));
    assert_eq!(ServiceError::NotFound.status_code(), 404);
    assert_eq!(ServiceError::Forbidden.status_code(), 403);
}

#[test]
fn rename_changes_name_and_time_only() {
    let mut ledger = Ledger::new();
    let mut req = new_account("Old", "cash", "usd");
    req.initial_balance = Some(amt(500, 2));
    create_account_at(&mut ledger, 7, req, 1, 10).unwrap();
    create_account_at(&mut ledger, 7, new_account("Other", "bank", "eur"), 2, 11).unwrap();

    let shown = update_account_at(
        &mut ledger,
        7,
        1,
        UpdateAccountRequest { name: Some("X".to_string()), account_type: None, currency_code: None },
        99,
    )
    .unwrap();
    assert_eq!(shown.name, "X");
    assert_eq!(shown.updated_at, 99);
    assert_eq!(shown.id, 1);
    assert_eq!(shown.account_type, "cash");
    assert_eq!(shown.currency_code, "USD");
    assert_eq!(shown.balance.mantissa(), 500);
    assert_eq!(shown.balance.scale(), 2);
    assert_eq!(shown.created_at, 10);

    let stored = ledger.find_account(1).unwrap();
    assert_eq!(stored.name, "X");
    assert_eq!(stored.user_id, 7);
    assert_eq!(stored.updated_at, 99);

    let other = ledger.find_account(2).unwrap();
    assert_eq!(other.name, "Other");
    assert_eq!(other.updated_at, 11);
}

#[test]
fn update_account_checks_type_then_currency_then_name() {
    let mut ledger = Ledger::new();
    create_account_at(&mut ledger, 7, new_account("A", "cash", "usd"), 1, 0).unwrap();
    let e = update_account_at(
        &mut ledger,
        7,
        1,
        UpdateAccountRequest {
            name: Some(" ".to_string()),
            account_type: Some(" ".to_string()),
            currency_code: Some("!".to_string()),
        },
        5,
    )
    .unwrap_err();
    assert_eq!(validation_text(&e), "Account type cannot be empty");
    let e = update_account_at(
        &mut ledger,
        7,
        1,
        UpdateAccountRequest {
            name: Some(" ".to_string()),
            account_type: None,
            currency_code: Some("!".to_string()),
        },
        5,
    )
    .unwrap_err();
    assert_eq!(validation_text(&e), "Currency code must be alphanumeric");
    let e = update_account_at(
        &mut ledger,
        7,
        1,
        UpdateAccountRequest { name: Some(" ".to_string()), account_type: None, currency_code: None },
        5,
    )
    .unwrap_err();
    assert_eq!(validation_text(&e), "Account name cannot be empty");
    let stored = ledger.find_account(1).unwrap();
    assert_eq!(stored.name, "A");
    assert_eq!(stored.updated_at, 0);
}

#[test]
fn update_account_with_nothing_given_only_stamps_the_time() {
    let mut ledger = Ledger::new();
    create_account_at(&mut ledger, 7, new_account("A", "cash", "usd"), 1, 0).unwrap();
    let shown = update_account_at(
        &mut ledger,
        7,
        1,
        UpdateAccountRequest { name: None, account_type: None, currency_code: None },
        77,
    )
    .unwrap();
    assert_eq!(shown.name, "A");
    assert_eq!(shown.account_type, "cash");
    assert_eq!(shown.currency_code, "USD");
    assert_eq!(shown.updated_at, 77);
    assert_eq!(shown.created_at, 0);
}

#[test]
fn delete_account_is_blocked_by_a_transaction() {
    let mut ledger = Ledger::new();
    create_account_at(&mut ledger, 7, new_account("A", "cash", "usd"), 1, 0).unwrap();
    create_transaction_at(&mut ledger, 7, expense(1, amt(5, 0)), 50, 0).unwrap();

    let e = delete_account(&mut ledger, 7, 1).unwrap_err();
    match &e {
        ServiceError::Conflict(m) => assert_eq!(m, "Cannot delete account with existing transactions"),
        other => panic!("expected a conflict, got {:?}", other),
    }
    assert_eq!(e.status_code(), 409);
    assert!(ledger.find_account(1).is_some());

    delete_transaction(&mut ledger, 7, 50).unwrap();
    delete_account(&mut ledger, 7, 1).unwrap();
    assert!(ledger.find_account(1).is_none());
}

#[test]
fn delete_account_is_blocked_by_an_incoming_transaction() {
    let mut ledger = Ledger::new();
    create_account_at(&mut ledger, 7, new_account("A", "cash", "usd"), 1, 0).unwrap();
    let mut income = expense(1, amt(5, 0));
    income.txn_type = "income".to_string();
    income.from_account_id = None;
    income.to_account_id = Some(1);
    create_transaction_at(&mut ledger, 7, income, 50, 0).unwrap();
    assert!(matches!(delete_account(&mut ledger, 7, 1), Err(ServiceError::Conflict(_))));
}

#[test]
fn delete_account_is_blocked_by_a_position() {
    let mut ledger = Ledger::new();
    create_account_at(&mut ledger, 7, new_account("A", "brokerage", "usd"), 1, 0).unwrap();
    create_holdings_at(&mut ledger, 7, stock(1, "AAPL"), 60, 0).unwrap();

    let e = delete_account(&mut ledger, 7, 1).unwrap_err();
    match &e {
        ServiceError::Conflict(m) => assert_eq!(m, "Cannot delete account with existing holdings"),
        other => panic!("expected a conflict, got {:?}", other),
    }
    delete_holdings(&mut ledger, 7, 60).unwrap();
    delete_account(&mut ledger, 7, 1).unwrap();
    assert!(matches!(get_account(&ledger, 7, 1), Err(ServiceError::NotFound)));
}

#[test]
fn delete_account_leaves_other_accounts() {
    let mut ledger = Ledger::new();
    create_account_at(&mut ledger, 7, new_account("A", "cash", "usd"), 1, 0).unwrap();
    create_account_at(&mut ledger, 7, new_account("B", "cash", "usd"), 2, 0).unwrap();
    create_account_at(&mut ledger, 7, new_account("C", "cash", "usd"), 3, 0).unwrap();
    delete_account(&mut ledger, 7, 2).unwrap();
    let left = list_accounts(&ledger, 7);
    assert_eq!(left.len(), 2);
    assert_eq!(left[0].name, "A");
    assert_eq!(left[1].name, "C");
    assert!(matches!(delete_account(&mut ledger, 7, 2), Err(ServiceError::NotFound)));
}
