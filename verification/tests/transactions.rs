use ledger_core::account::{create_account_at, CreateAccountRequest};
use ledger_core::amount::Amount;
use ledger_core::error::ServiceError;
use ledger_core::ledger::Ledger;
use ledger_core::records::TxnKind;
use ledger_core::transaction::{
    create_transaction, create_transaction_at, delete_transaction, get_transaction,
    plan_transaction, settle_transaction, update_transaction, update_transaction_at,
    validate_currency_code, validate_txn_type, AccountLookup, CreateTransactionRequest, Known,
    ReferenceLookup, Step, UpdateTransactionRequest,
};

const USER: u128 = 7;
const OTHER: u128 = 8;
const A: u128 = 0x0000_0000_0000_0000_0000_0000_0000_00a1;
const B: u128 = 0x0000_0000_0000_0000_0000_0000_0000_00b2;
const FOREIGN: u128 = 0xc3;

fn amt(units: i128, places: u32) -> Amount {
    Amount::new(units, places).unwrap()
}

fn account(name: &str) -> CreateAccountRequest {
    CreateAccountRequest {
        name: name.to_string(),
        account_type: "cash".to_string(),
        currency_code: "USD".to_string(),
        initial_balance: None,
    }
}

/// A ledger in which USER owns accounts A and B and OTHER owns FOREIGN.
fn ledger() -> Ledger {
    let mut ledger = Ledger::new();
    create_account_at(&mut ledger, USER, account("A"), A, 0).unwrap();
    create_account_at(&mut ledger, USER, account("B"), B, 0).unwrap();
    create_account_at(&mut ledger, OTHER, account("F"), FOREIGN, 0).unwrap();
    ledger
}

fn request(kind: &str) -> CreateTransactionRequest {
    CreateTransactionRequest {
        from_account_id: None,
        to_account_id: None,
        txn_type: kind.to_string(),
        amount: amt(100, 0),
        currency_code: "USD".to_string(),
        to_amount: None,
        to_currency_code: None,
        category: None,
        note: None,
        occurred_at: 1_000,
        ref_transaction_id: None,
        merchant: None,
    }
}

fn transfer(from: u128, to: u128) -> CreateTransactionRequest {
    let mut req = request("transfer");
    req.from_account_id = Some(from);
    req.to_account_id = Some(to);
    req
}

fn expense(from: u128) -> CreateTransactionRequest {
    let mut req = request("expense");
    req.from_account_id = Some(from);
    req
}

fn refund(to: u128, reference: u128) -> CreateTransactionRequest {
    let mut req = request("refund");
    req.to_account_id = Some(to);
    req.ref_transaction_id = Some(reference);
    req
}

fn validation_text(e: &ServiceError) -> String {
    match e {
        ServiceError::Validation(m) => m.clone(),
        other => panic!("expected a validation failure, got {:?}", other),
    }
}

fn refused(ledger: &mut Ledger, req: CreateTransactionRequest) -> String {
    let before = ledger.all_transactions().len();
    let e = create_transaction_at(ledger, USER, req, 900, 5).unwrap_err();
    assert_eq!(ledger.all_transactions().len(), before);
    assert_eq!(e.status_code(), 400);
    validation_text(&e)
}

#[test]
fn transfer_between_own_accounts_succeeds() {
    let mut ledger = ledger();
    let shown = create_transaction_at(&mut ledger, USER, transfer(A, B), 500, 77).unwrap();
    assert_eq!(shown.id, 500);
    assert_eq!(shown.user_id, USER);
    assert_eq!(shown.txn_type, "transfer");
    assert_eq!(shown.from_account_id, Some(A));
    assert_eq!(shown.to_account_id, Some(B));
    assert_eq!(shown.amount.mantissa(), 100);
    assert_eq!(shown.currency_code, "USD");
    assert_eq!(shown.to_amount.map(|a| a.mantissa()), None);
    assert_eq!(shown.to_currency_code, None);
    assert_eq!(shown.ref_transaction_id, None);
    assert_eq!(shown.occurred_at, 1_000);
    assert_eq!(shown.created_at, 77);
    assert_eq!(shown.updated_at, 77);

    let stored = ledger.find_transaction(500).unwrap();
    assert_eq!(stored.txn_type, TxnKind::Transfer);
    assert_eq!(stored.from_account_id, Some(A));
    assert_eq!(stored.to_account_id, Some(B));
    assert_ne!(stored.from_account_id, stored.to_account_id);
}

#[test]
fn transfer_from_a_foreign_account_is_forbidden() {
    let mut ledger = ledger();
    let e = create_transaction_at(&mut ledger, USER, transfer(FOREIGN, B), 500, 77).unwrap_err();
    assert!(matches!(e, ServiceError::Forbidden));
    let e = create_transaction_at(&mut ledger, USER, transfer(A, FOREIGN), 500, 77).unwrap_err();
    assert!(matches!(e, ServiceError::Forbidden));
    assert!(ledger.find_transaction(500).is_none());
}

#[test]
fn transfer_to_a_missing_account_names_it() {
    let mut ledger = ledger();
    let text = refused(&mut ledger, transfer(A, 0x2a));
    assert_eq!(text, "Account 00000000-0000-0000-0000-00000000002a not found");
    let text = refused(&mut ledger, transfer(0x1234_5678_9abc_def0_1234_5678_9abc_def0, B));
    assert_eq!(text, "Account 12345678-9abc-def0-1234-56789abcdef0 not found");
}

#[test]
fn transfer_needs_two_different_accounts() {
    let mut ledger = ledger();
    let mut req = transfer(A, B);
    req.from_account_id = None;
    assert_eq!(refused(&mut ledger, req), "Transfer must have from_account_id");
    let mut req = transfer(A, B);
    req.to_account_id = None;
    assert_eq!(refused(&mut ledger, req), "Transfer must have to_account_id");
    assert_eq!(
        refused(&mut ledger, transfer(A, A)),
        "Transfer from and to accounts must be different"
    );
}

#[test]
fn transfer_second_amount_and_currency_go_together() {
    let mut ledger = ledger();
    let mut req = transfer(A, B);
    req.to_amount = Some(amt(90, 0));
    assert_eq!(
        refused(&mut ledger, req),
        "to_amount and to_currency_code must both be present or both be absent"
    );
    let mut req = transfer(A, B);
    req.to_currency_code = Some("eur".to_string());
    assert_eq!(
        refused(&mut ledger, req),
        "to_amount and to_currency_code must both be present or both be absent"
    );
    let mut req = transfer(A, B);
    req.to_currency_code = Some("euro".to_string());
    req.to_amount = Some(amt(90, 0));
    assert_eq!(refused(&mut ledger, req), "Currency code must be 3 letters");
    let mut req = transfer(A, B);
    req.to_currency_code = Some("eur".to_string());
    req.to_amount = Some(amt(0, 0));
    assert_eq!(refused(&mut ledger, req), "To amount must be positive");

    let mut req = transfer(A, B);
    req.to_currency_code = Some(" eur ".to_string());
    req.to_amount = Some(amt(9_050, 2));
    let shown = create_transaction_at(&mut ledger, USER, req, 500, 1).unwrap();
    assert_eq!(shown.to_currency_code.as_deref(), Some("EUR"));
    assert_eq!(shown.to_amount.unwrap().mantissa(), 9_050);
}

#[test]
fn transfer_drops_a_reference() {
    let mut ledger = ledger();
    create_transaction_at(&mut ledger, USER, expense(A), 400, 1).unwrap();
    let mut req = transfer(A, B);
    req.ref_transaction_id = Some(400);
    let shown = create_transaction_at(&mut ledger, USER, req, 500, 1).unwrap();
    assert_eq!(shown.ref_transaction_id, None);
    delete_transaction(&mut ledger, USER, 400).unwrap();
}

#[test]
fn amount_type_and_currency_are_checked_first() {
    let mut ledger = ledger();
    let mut req = request("nonsense");
    req.amount = amt(0, 0);
    req.currency_code = "dollars".to_string();
    assert_eq!(refused(&mut ledger, req), "Amount must be positive");
    let mut req = request("nonsense");
    req.amount = amt(-1, 2);
    assert_eq!(refused(&mut ledger, req), "Amount must be positive");
    let mut req = request("  Nonsense ");
    req.currency_code = "dollars".to_string();
    assert_eq!(refused(&mut ledger, req), "Invalid transaction type: nonsense");
    let mut req = expense(A);
    req.currency_code = "dollars".to_string();
    assert_eq!(refused(&mut ledger, req), "Currency code must be 3 letters");
    let mut req = expense(A);
    req.currency_code = "U5D".to_string();
    assert_eq!(refused(&mut ledger, req), "Currency code must be 3 letters");
}

#[test]
fn type_and_currency_are_normalized() {
    let mut ledger = ledger();
    let mut req = expense(A);
    req.txn_type = "  ExPense ".to_string();
    req.currency_code = " usd ".to_string();
    let shown = create_transaction_at(&mut ledger, USER, req, 500, 1).unwrap();
    assert_eq!(shown.txn_type, "expense");
    assert_eq!(shown.currency_code, "USD");
    assert_eq!(ledger.find_transaction(500).unwrap().txn_type, TxnKind::Expense);
}

#[test]
fn expense_and_income_name_exactly_one_account() {
    let mut ledger = ledger();
    let mut req = expense(A);
    req.to_account_id = Some(B);
    assert_eq!(
        refused(&mut ledger, req),
        "Non-transfer transaction cannot have both from and to accounts"
    );
    assert_eq!(
        refused(&mut ledger, request("income")),
        "Transaction must have from_account_id or to_account_id"
    );
    let mut req = expense(A);
    req.to_amount = Some(amt(1, 0));
    assert_eq!(
        refused(&mut ledger, req),
        "Non-transfer transaction cannot have to_amount or to_currency_code"
    );
    let mut req = expense(A);
    req.to_currency_code = Some("EUR".to_string());
    assert_eq!(
        refused(&mut ledger, req),
        "Non-transfer transaction cannot have to_amount or to_currency_code"
    );
    let mut req = expense(A);
    req.ref_transaction_id = Some(1);
    assert_eq!(
        refused(&mut ledger, req),
        "Non-refund/adjustment transaction cannot have ref_transaction_id"
    );

    let e = create_transaction_at(&mut ledger, USER, expense(FOREIGN), 500, 1).unwrap_err();
    assert!(matches!(e, ServiceError::Forbidden));
    assert_eq!(
        refused(&mut ledger, expense(0xff)),
        "Account 00000000-0000-0000-0000-0000000000ff not found"
    );

    let mut income = request("income");
    income.to_account_id = Some(B);
    let shown = create_transaction_at(&mut ledger, USER, income, 501, 1).unwrap();
    assert_eq!(shown.txn_type, "income");
    assert_eq!(shown.from_account_id, None);
    assert_eq!(shown.to_account_id, Some(B));
}

#[test]
fn refund_refers_to_own_transaction_in_the_same_currency() {
    let mut ledger = ledger();
    create_transaction_at(&mut ledger, USER, expense(A), 400, 1).unwrap();
    let theirs = {
        let mut req = expense(FOREIGN);
        req.currency_code = "USD".to_string();
        req
    };
    create_transaction_at(&mut ledger, OTHER, theirs, 401, 1).unwrap();

    let shown = create_transaction_at(&mut ledger, USER, refund(A, 400), 500, 9).unwrap();
    assert_eq!(shown.txn_type, "refund");
    assert_eq!(shown.ref_transaction_id, Some(400));
    assert_eq!(shown.to_account_id, Some(A));
    assert_eq!(shown.from_account_id, None);
    assert_eq!(shown.currency_code, "USD");

    let mut adjustment = refund(A, 400);
    adjustment.txn_type = "Adjustment".to_string();
    adjustment.to_account_id = None;
    adjustment.from_account_id = Some(B);
    let shown = create_transaction_at(&mut ledger, USER, adjustment, 501, 9).unwrap();
    assert_eq!(shown.txn_type, "adjustment");
    assert_eq!(shown.ref_transaction_id, Some(400));

    let e = create_transaction_at(&mut ledger, USER, refund(A, 401), 502, 9).unwrap_err();
    assert!(matches!(e, ServiceError::Forbidden));
    let e = create_transaction_at(&mut ledger, USER, refund(A, 499), 502, 9).unwrap_err();
    assert!(matches!(e, ServiceError::NotFound));

    let mut euro = refund(A, 400);
    euro.currency_code = "EUR".to_string();
    assert_eq!(
        refused(&mut ledger, euro),
        "Refund/adjustment currency must match original transaction"
    );
}

#[test]
fn refund_checks_come_in_order() {
    let mut ledger = ledger();
    create_transaction_at(&mut ledger, USER, expense(A), 400, 1).unwrap();

    let mut req = refund(A, 400);
    req.to_amount = Some(amt(1, 0));
    req.ref_transaction_id = None;
    assert_eq!(
        refused(&mut ledger, req),
        "Refund/adjustment cannot have to_amount or to_currency_code"
    );
    let mut req = refund(A, 400);
    req.ref_transaction_id = None;
    assert_eq!(refused(&mut ledger, req), "refund must have ref_transaction_id");
    let mut req = refund(A, 400);
    req.txn_type = "ADJUSTMENT".to_string();
    req.ref_transaction_id = None;
    assert_eq!(refused(&mut ledger, req), "adjustment must have ref_transaction_id");

    let mut req = refund(A, 400);
    req.from_account_id = Some(B);
    assert_eq!(
        refused(&mut ledger, req),
        "Refund/adjustment must have only one of from_account_id or to_account_id"
    );
    let mut req = refund(A, 400);
    req.to_account_id = None;
    assert_eq!(
        refused(&mut ledger, req),
        "Refund/adjustment must have from_account_id or to_account_id"
    );
    // The reference is looked up before the accounts are counted.
    let mut req = refund(A, 499);
    req.to_account_id = None;
    let e = create_transaction_at(&mut ledger, USER, req, 502, 9).unwrap_err();
    assert!(matches!(e, ServiceError::NotFound));
    // And the accounts are checked last.
    let e = create_transaction_at(&mut ledger, USER, refund(FOREIGN, 400), 502, 9).unwrap_err();
    assert!(matches!(e, ServiceError::Forbidden));
}

#[test]
fn create_under_a_taken_identifier_is_a_store_failure() {
    let mut ledger = ledger();
    create_transaction_at(&mut ledger, USER, expense(A), 400, 1).unwrap();
    let e = create_transaction_at(&mut ledger, USER, expense(B), 400, 2).unwrap_err();
    assert!(matches!(e, ServiceError::Database(_)));
    assert_eq!(ledger.find_transaction(400).unwrap().from_account_id, Some(A));
}

#[test]
fn create_transaction_stamps_a_fresh_identifier() {
    let mut ledger = ledger();
    let one = create_transaction(&mut ledger, USER, expense(A)).unwrap();
    let two = create_transaction(&mut ledger, USER, expense(A)).unwrap();
    assert_ne!(one.id, two.id);
    assert!(one.created_at > 0);
    assert_eq!(one.created_at, one.updated_at);
    assert_eq!(ledger.all_transactions().len(), 2);
}

#[test]
fn planning_asks_for_what_it_needs_in_order() {
    let req = transfer(A, B);
    let mut known = Known::nothing();
    match plan_transaction(USER, &req, &known) {
        Step::AskFromAccount(id) => assert_eq!(id, A),
        other => panic!("unexpected step {:?}", other),
    }
    known.from_account = AccountLookup::Owner(USER);
    match plan_transaction(USER, &req, &known) {
        Step::AskToAccount(id) => assert_eq!(id, B),
        other => panic!("unexpected step {:?}", other),
    }
    known.to_account = AccountLookup::Owner(USER);
    match plan_transaction(USER, &req, &known) {
        Step::Accept(draft) => {
            assert_eq!(draft.txn_type, TxnKind::Transfer);
            assert_eq!(draft.from_account_id, Some(A));
            assert_eq!(draft.to_account_id, Some(B));
            let record = draft.stamp(1, USER, 2);
            assert_eq!(record.id, 1);
            assert_eq!(record.user_id, USER);
            assert_eq!(record.created_at, 2);
            assert_eq!(record.updated_at, 2);
        }
        other => panic!("unexpected step {:?}", other),
    }
}

#[test]
fn planning_refuses_before_it_asks() {
    // A transfer to the same account never reaches the store.
    match plan_transaction(USER, &transfer(A, A), &Known::nothing()) {
        Step::Reject(e) => {
            assert_eq!(validation_text(&e), "Transfer from and to accounts must be different")
        }
        other => panic!("unexpected step {:?}", other),
    }
    // A foreign first account ends the decision before the second is asked for.
    let mut known = Known::nothing();
    known.from_account = AccountLookup::Owner(OTHER);
    match plan_transaction(USER, &transfer(A, B), &known) {
        Step::Reject(e) => assert!(matches!(e, ServiceError::Forbidden)),
        other => panic!("unexpected step {:?}", other),
    }
    known.from_account = AccountLookup::Missing;
    match plan_transaction(USER, &transfer(A, B), &known) {
        Step::Reject(e) => assert_eq!(
            validation_text(&e),
            "Account 00000000-0000-0000-0000-0000000000a1 not found"
        ),
        other => panic!("unexpected step {:?}", other),
    }
}

#[test]
fn planning_a_refund_asks_for_the_reference_first() {
    let req = refund(A, 400);
    let mut known = Known::nothing();
    match plan_transaction(USER, &req, &known) {
        Step::AskReference(id) => assert_eq!(id, 400),
        other => panic!("unexpected step {:?}", other),
    }
    known.reference = ReferenceLookup::Found { user_id: USER, currency_code: "USD".to_string() };
    match plan_transaction(USER, &req, &known) {
        Step::AskToAccount(id) => assert_eq!(id, A),
        other => panic!("unexpected step {:?}", other),
    }
    known.to_account = AccountLookup::Owner(USER);
    assert!(matches!(plan_transaction(USER, &req, &known), Step::Accept(_)));
    known.reference = ReferenceLookup::Missing;
    match plan_transaction(USER, &req, &known) {
        Step::Reject(e) => assert!(matches!(e, ServiceError::NotFound)),
        other => panic!("unexpected step {:?}", other),
    }
}

#[test]
fn settling_against_a_ledger_agrees_with_planning() {
    let ledger = ledger();
    let draft = settle_transaction(&ledger, USER, &transfer(A, B)).unwrap();
    assert_eq!(draft.txn_type, TxnKind::Transfer);
    assert_eq!(draft.currency_code, "USD");
    let e = settle_transaction(&ledger, USER, &transfer(A, FOREIGN)).unwrap_err();
    assert!(matches!(e, ServiceError::Forbidden));
}

#[test]
fn get_transaction_reads_back_what_was_created() {
    let mut ledger = ledger();
    let mut req = expense(A);
    req.category = Some("food".to_string());
    req.note = Some("lunch".to_string());
    req.merchant = Some("Cafe".to_string());
    let created = create_transaction_at(&mut ledger, USER, req, 400, 11).unwrap();
    for _ in 0..2 {
        let shown = get_transaction(&ledger, USER, 400).unwrap();
        assert_eq!(shown.id, created.id);
        assert_eq!(shown.txn_type, "expense");
        assert_eq!(shown.amount.mantissa(), 100);
        assert_eq!(shown.category.as_deref(), Some("food"));
        assert_eq!(shown.note.as_deref(), Some("lunch"));
        assert_eq!(shown.merchant.as_deref(), Some("Cafe"));
        assert_eq!(shown.occurred_at, 1_000);
        assert_eq!(shown.created_at, 11);
        assert_eq!(shown.updated_at, 11);
    }
    assert!(matches!(get_transaction(&ledger, OTHER, 400), Err(ServiceError::Forbidden)));
    assert!(matches!(get_transaction(&ledger, USER, 401), Err(ServiceError::NotFound)));
}

#[test]
fn update_changes_only_what_may_change() {
    let mut ledger = ledger();
    let mut req = expense(A);
    req.category = Some("food".to_string());
    req.note = Some("lunch".to_string());
    create_transaction_at(&mut ledger, USER, req, 400, 11).unwrap();

    let shown = update_transaction_at(
        &mut ledger,
        USER,
        400,
        UpdateTransactionRequest {
            category: Some("travel".to_string()),
            note: None,
            occurred_at: Some(2_000),
            merchant: Some("Rail".to_string()),
        },
        99,
    )
    .unwrap();
    assert_eq!(shown.category.as_deref(), Some("travel"));
    assert_eq!(shown.note.as_deref(), Some("lunch"));
    assert_eq!(shown.occurred_at, 2_000);
    assert_eq!(shown.merchant.as_deref(), Some("Rail"));
    assert_eq!(shown.updated_at, 99);
    assert_eq!(shown.created_at, 11);
    assert_eq!(shown.txn_type, "expense");
    assert_eq!(shown.amount.mantissa(), 100);
    assert_eq!(shown.currency_code, "USD");
    assert_eq!(shown.from_account_id, Some(A));

    let stored = ledger.find_transaction(400).unwrap();
    assert_eq!(stored.category.as_deref(), Some("travel"));
    assert_eq!(stored.updated_at, 99);

    let e = update_transaction_at(
        &mut ledger,
        OTHER,
        400,
        UpdateTransactionRequest { category: None, note: None, occurred_at: None, merchant: None },
        100,
    )
    .unwrap_err();
    assert!(matches!(e, ServiceError::Forbidden));
    assert_eq!(ledger.find_transaction(400).unwrap().updated_at, 99);

    let later = update_transaction(
        &mut ledger,
        USER,
        400,
        UpdateTransactionRequest { category: None, note: None, occurred_at: None, merchant: None },
    )
    .unwrap();
    assert!(later.updated_at > 99);
    assert_eq!(later.category.as_deref(), Some("travel"));
}

#[test]
fn delete_is_blocked_while_a_refund_refers_to_it() {
    let mut ledger = ledger();
    create_transaction_at(&mut ledger, USER, expense(A), 400, 1).unwrap();
    create_transaction_at(&mut ledger, USER, refund(A, 400), 500, 2).unwrap();

    let e = delete_transaction(&mut ledger, USER, 400).unwrap_err();
    match &e {
        ServiceError::Conflict(m) => assert_eq!(m, "Cannot delete transaction with existing refunds"),
        other => panic!("expected a conflict, got {:?}", other),
    }
    assert_eq!(e.public_message(), "Cannot delete transaction with existing refunds");
    assert!(ledger.find_transaction(400).is_some());

    assert!(matches!(delete_transaction(&mut ledger, OTHER, 500), Err(ServiceError::Forbidden)));
    delete_transaction(&mut ledger, USER, 500).unwrap();
    delete_transaction(&mut ledger, USER, 400).unwrap();
    assert!(ledger.find_transaction(400).is_none());
    assert!(matches!(delete_transaction(&mut ledger, USER, 400), Err(ServiceError::NotFound)));
}

#[test]
fn transaction_type_codes() {
    for code in ["expense", "income", "transfer", "refund", "adjustment"] {
        assert!(validate_txn_type(code).is_ok());
        assert_eq!(TxnKind::parse(code).unwrap().as_str(), code);
    }
    assert_eq!(TxnKind::parse("Expense"), None);
    let e = validate_txn_type("gift").unwrap_err();
    assert_eq!(validation_text(&e), "Invalid transaction type: gift");
    assert!(TxnKind::Refund.is_correction());
    assert!(TxnKind::Adjustment.is_correction());
    assert!(!TxnKind::Transfer.is_correction());
}

#[test]
fn transaction_currency_is_exactly_three_letters() {
    assert!(validate_currency_code("USD").is_ok());
    assert!(validate_currency_code("usd").is_ok());
    for bad in ["", "US", "USDT", "U5D", "U D", "ééé"] {
        let e = validate_currency_code(bad).unwrap_err();
        assert_eq!(validation_text(&e), "Currency code must be 3 letters");
    }
}
