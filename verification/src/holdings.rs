//! Investment positions: how one is opened, read, listed, changed and
//! removed.

use vstd::prelude::*;
use vstd::string::*;
use crate::amount::Amount;
use crate::error::{join, outcome_view, Failure, ServiceError, StoreFault, StoreFaultView};
use crate::ledger::{holdings_views, Ledger, LedgerView};
use crate::ownership::{
    account_owner,
    check_link,
    holdings_owner,
    link_check,
    load_owned_holdings,
    subject_check,
};
use crate::records::{
    lemma_asset_type_code_round_trip,
    text_view,
    AssetType,
    Holdings,
    HoldingsView,
};
use crate::stamp::{fresh_id, now_micros};
use crate::text::{
    is_currency_code,
    lower_code,
    normalize_lower,
    normalize_upper,
    three_letters,
    upper_code,
};

verus! {

/// A request to open a position.
#[derive(Debug)]
pub struct CreateHoldingsRequest {
    pub account_id: u128,
    pub asset_type: String,
    pub symbol: String,
    pub name: Option<String>,
    pub quantity: Amount,
    pub cost_basis_total: Amount,
    pub currency_code: String,
    pub last_price: Option<Amount>,
    pub last_price_at: Option<i64>,
    pub market_value: Option<Amount>,
}

/// A request to open a position, with its texts as sequences of characters.
pub struct CreateHoldingsRequestView {
    pub account_id: u128,
    pub asset_type: Seq<char>,
    pub symbol: Seq<char>,
    pub name: Option<Seq<char>>,
    pub quantity: Amount,
    pub cost_basis_total: Amount,
    pub currency_code: Seq<char>,
    pub last_price: Option<Amount>,
    pub last_price_at: Option<i64>,
    pub market_value: Option<Amount>,
}

impl View for CreateHoldingsRequest {
    type V = CreateHoldingsRequestView;

    open spec fn view(&self) -> CreateHoldingsRequestView {
        CreateHoldingsRequestView {
            account_id: self.account_id,
            asset_type: self.asset_type@,
            symbol: self.symbol@,
            name: text_view(self.name),
            quantity: self.quantity,
            cost_basis_total: self.cost_basis_total,
            currency_code: self.currency_code@,
            last_price: self.last_price,
            last_price_at: self.last_price_at,
            market_value: self.market_value,
        }
    }
}

/// A request to change a position: each field that is given replaces the
/// stored one.
#[derive(Debug)]
pub struct UpdateHoldingsRequest {
    pub quantity: Option<Amount>,
    pub cost_basis_total: Option<Amount>,
    pub last_price: Option<Amount>,
    pub last_price_at: Option<i64>,
    pub market_value: Option<Amount>,
    pub name: Option<String>,
}

/// A request to change a position, with its text as a sequence of
/// characters.
pub struct UpdateHoldingsRequestView {
    pub quantity: Option<Amount>,
    pub cost_basis_total: Option<Amount>,
    pub last_price: Option<Amount>,
    pub last_price_at: Option<i64>,
    pub market_value: Option<Amount>,
    pub name: Option<Seq<char>>,
}

impl View for UpdateHoldingsRequest {
    type V = UpdateHoldingsRequestView;

    open spec fn view(&self) -> UpdateHoldingsRequestView {
        UpdateHoldingsRequestView {
            quantity: self.quantity,
            cost_basis_total: self.cost_basis_total,
            last_price: self.last_price,
            last_price_at: self.last_price_at,
            market_value: self.market_value,
            name: text_view(self.name),
        }
    }
}

/// A position as it is shown to its owner.
#[derive(Debug)]
pub struct HoldingsResponse {
    pub id: u128,
    pub user_id: u128,
    pub account_id: u128,
    pub asset_type: String,
    pub symbol: String,
    pub name: Option<String>,
    pub quantity: Amount,
    pub cost_basis_total: Amount,
    pub currency_code: String,
    pub last_price: Option<Amount>,
    pub last_price_at: Option<i64>,
    pub market_value: Option<Amount>,
    pub created_at: i64,
    pub updated_at: i64,
}

/// A shown position, with its texts as sequences of characters.
pub struct HoldingsResponseView {
    pub id: u128,
    pub user_id: u128,
    pub account_id: u128,
    pub asset_type: Seq<char>,
    pub symbol: Seq<char>,
    pub name: Option<Seq<char>>,
    pub quantity: Amount,
    pub cost_basis_total: Amount,
    pub currency_code: Seq<char>,
    pub last_price: Option<Amount>,
    pub last_price_at: Option<i64>,
    pub market_value: Option<Amount>,
    pub created_at: i64,
    pub updated_at: i64,
}

impl View for HoldingsResponse {
    type V = HoldingsResponseView;

    open spec fn view(&self) -> HoldingsResponseView {
        HoldingsResponseView {
            id: self.id,
            user_id: self.user_id,
            account_id: self.account_id,
            asset_type: self.asset_type@,
            symbol: self.symbol@,
            name: text_view(self.name),
            quantity: self.quantity,
            cost_basis_total: self.cost_basis_total,
            currency_code: self.currency_code@,
            last_price: self.last_price,
            last_price_at: self.last_price_at,
            market_value: self.market_value,
            created_at: self.created_at,
            updated_at: self.updated_at,
        }
    }
}

/// How a stored position is shown: field by field, its asset type by its
/// code.
pub open spec fn shown_holdings(h: HoldingsView) -> HoldingsResponseView {
    HoldingsResponseView {
        id: h.id,
        user_id: h.user_id,
        account_id: h.account_id,
        asset_type: h.asset_type.code(),
        symbol: h.symbol,
        name: h.name,
        quantity: h.quantity,
        cost_basis_total: h.cost_basis_total,
        currency_code: h.currency_code,
        last_price: h.last_price,
        last_price_at: h.last_price_at,
        market_value: h.market_value,
        created_at: h.created_at,
        updated_at: h.updated_at,
    }
}

/// How stored positions are shown, one by one.
pub open spec fn shown_holdings_list(s: Seq<HoldingsView>) -> Seq<HoldingsResponseView> {
    Seq::new(s.len(), |i: int| shown_holdings(s[i]))
}

/// The views of a sequence of shown positions.
pub open spec fn response_views(s: Seq<HoldingsResponse>) -> Seq<HoldingsResponseView> {
    Seq::new(s.len(), |i: int| s[i]@)
}

impl HoldingsResponse {
    /// Shows a stored position. The asset type that is shown reads back as
    /// the one that is stored.
    pub fn from_record(h: Holdings) -> (r: HoldingsResponse)
        ensures
            r@ == shown_holdings(h@),
            AssetType::of_code(r.asset_type@) == Some(h.asset_type),
    {
        proof {
            lemma_asset_type_code_round_trip(h.asset_type);
        }
        HoldingsResponse {
            id: h.id,
            user_id: h.user_id,
            account_id: h.account_id,
            asset_type: h.asset_type.as_str().to_owned(),
            symbol: h.symbol,
            name: h.name,
            quantity: h.quantity,
            cost_basis_total: h.cost_basis_total,
            currency_code: h.currency_code,
            last_price: h.last_price,
            last_price_at: h.last_price_at,
            market_value: h.market_value,
            created_at: h.created_at,
            updated_at: h.updated_at,
        }
    }
}

/// A refusal with a text that says what is wrong with the request.
pub open spec fn invalid(message: Seq<char>) -> Result<(), Failure> {
    Err(Failure::Validation(message))
}

/// What the check of an asset type says of a code.
pub open spec fn asset_type_check(code: Seq<char>) -> Result<(), Failure> {
    if AssetType::of_code(code) is Some {
        Ok(())
    } else {
        invalid("Invalid asset type: "@ + code)
    }
}

/// What the check of a position's currency says of a code.
pub open spec fn currency_check(code: Seq<char>) -> Result<(), Failure> {
    if is_currency_code(code) {
        Ok(())
    } else {
        invalid("Currency code must be 3 letters"@)
    }
}

/// An amount that is given is below zero.
pub open spec fn given_negative(a: Option<Amount>) -> bool {
    a is Some && (a->0).negative()
}

/// What the lower bounds say of the four amounts of a position: none may be
/// below zero; zero is allowed.
pub open spec fn bounds_check(
    quantity: Option<Amount>,
    cost_basis_total: Option<Amount>,
    last_price: Option<Amount>,
    market_value: Option<Amount>,
) -> Result<(), Failure> {
    if given_negative(quantity) {
        invalid("Quantity cannot be negative"@)
    } else if given_negative(cost_basis_total) {
        invalid("Cost basis total cannot be negative"@)
    } else if given_negative(last_price) {
        invalid("Price cannot be negative"@)
    } else if given_negative(market_value) {
        invalid("Market value cannot be negative"@)
    } else {
        Ok(())
    }
}

/// Checks that a code is one of the six asset types.
pub fn validate_asset_type(t: &str) -> (r: Result<(), ServiceError>)
    ensures
        outcome_view(r) == asset_type_check(t@),
{
    match AssetType::parse(t) {
        Some(_) => Ok(()),
        None => Err(ServiceError::Validation(join("Invalid asset type: ", t))),
    }
}

/// Checks that a currency code is exactly three ASCII letters.
pub fn validate_currency_code(code: &str) -> (r: Result<(), ServiceError>)
    ensures
        outcome_view(r) == currency_check(code@),
{
    if three_letters(code) {
        Ok(())
    } else {
        Err(ServiceError::validation("Currency code must be 3 letters"))
    }
}

/// Tells whether an amount is given and below zero.
fn is_given_negative(a: &Option<Amount>) -> (r: bool)
    ensures
        r == given_negative(*a),
{
    match a {
        Some(x) => x.is_negative(),
        None => false,
    }
}

/// Checks the lower bounds of the four amounts of a position.
pub fn validate_bounds(
    quantity: &Option<Amount>,
    cost_basis_total: &Option<Amount>,
    last_price: &Option<Amount>,
    market_value: &Option<Amount>,
) -> (r: Result<(), ServiceError>)
    ensures
        outcome_view(r) == bounds_check(*quantity, *cost_basis_total, *last_price, *market_value),
{
    if is_given_negative(quantity) {
        return Err(ServiceError::validation("Quantity cannot be negative"));
    }
    if is_given_negative(cost_basis_total) {
        return Err(ServiceError::validation("Cost basis total cannot be negative"));
    }
    if is_given_negative(last_price) {
        return Err(ServiceError::validation("Price cannot be negative"));
    }
    if is_given_negative(market_value) {
        return Err(ServiceError::validation("Market value cannot be negative"));
    }
    Ok(())
}

/// The position that a request opens, or why the request is refused, given
/// the owner of the account it names, if that account exists. The account is
/// checked first, then the lower bounds, the asset type, the currency and
/// the symbol; asset type, currency and symbol are stored normalised.
pub open spec fn opened_holdings(
    owner: Option<u128>,
    user_id: u128,
    req: CreateHoldingsRequestView,
    id: u128,
    now: i64,
) -> Result<HoldingsView, Failure> {
    let asset_code = lower_code(req.asset_type);
    let currency = upper_code(req.currency_code);
    let symbol = upper_code(req.symbol);
    let bounds = bounds_check(
        Some(req.quantity),
        Some(req.cost_basis_total),
        req.last_price,
        req.market_value,
    );
    if link_check(owner, user_id, req.account_id) is Err {
        Err(link_check(owner, user_id, req.account_id)->Err_0)
    } else if bounds is Err {
        Err(bounds->Err_0)
    } else if AssetType::of_code(asset_code) is None {
        Err(Failure::Validation("Invalid asset type: "@ + asset_code))
    } else if !is_currency_code(currency) {
        Err(Failure::Validation("Currency code must be 3 letters"@))
    } else if symbol.len() == 0 {
        Err(Failure::Validation("Symbol cannot be empty"@))
    } else {
        Ok(
            HoldingsView {
                id,
                user_id,
                account_id: req.account_id,
                asset_type: AssetType::of_code(asset_code)->0,
                symbol,
                name: req.name,
                quantity: req.quantity,
                cost_basis_total: req.cost_basis_total,
                currency_code: currency,
                last_price: req.last_price,
                last_price_at: req.last_price_at,
                market_value: req.market_value,
                created_at: now,
                updated_at: now,
            },
        )
    }
}

/// The refusal to store a position twice.
pub open spec fn already_held() -> Failure {
    Failure::Conflict("Holdings with same account, asset type and symbol already exists"@)
}

/// What a fault of the store means when a position is inserted: the
/// refusal by a uniqueness rule is a position stored twice; any other fault
/// is a failure of the store, with the fault's text.
pub open spec fn insert_failure(fault: StoreFaultView) -> Failure {
    match fault {
        StoreFaultView::Unique(_) => already_held(),
        _ => Failure::Database(fault.text()),
    }
}

/// What comes of opening a position: the ledger with the new position and
/// the position itself, or why not. A position that is stored already, or an
/// identifier that is taken, is a conflict.
pub open spec fn create_holdings_outcome(
    lv: LedgerView,
    user_id: u128,
    req: CreateHoldingsRequestView,
    id: u128,
    now: i64,
) -> Result<(LedgerView, HoldingsView), Failure> {
    match opened_holdings(account_owner(lv.find_account(req.account_id)), user_id, req, id, now) {
        Err(f) => Err(f),
        Ok(h) => if lv.has_holdings(id) || lv.position_taken(h) {
            Err(already_held())
        } else {
            Ok((lv.with_holdings(h), h))
        },
    }
}

/// What comes of reading a position: the record, or why not.
pub open spec fn get_holdings_outcome(lv: LedgerView, user_id: u128, holdings_id: u128) -> Result<
    HoldingsView,
    Failure,
> {
    match subject_check(holdings_owner(lv.find_holdings(holdings_id)), user_id) {
        Err(f) => Err(f),
        Ok(()) => Ok(lv.find_holdings(holdings_id)->0),
    }
}

/// A position after a change: quantity, cost, price, time of the price,
/// value and name as the request gives them, where it gives them; the time
/// of the last change as `now`; all else as before.
pub open spec fn changed_holdings(h: HoldingsView, req: UpdateHoldingsRequestView, now: i64) -> HoldingsView {
    HoldingsView {
        quantity: if req.quantity is Some {
            req.quantity->0
        } else {
            h.quantity
        },
        cost_basis_total: if req.cost_basis_total is Some {
            req.cost_basis_total->0
        } else {
            h.cost_basis_total
        },
        last_price: if req.last_price is Some {
            req.last_price
        } else {
            h.last_price
        },
        last_price_at: if req.last_price_at is Some {
            req.last_price_at
        } else {
            h.last_price_at
        },
        market_value: if req.market_value is Some {
            req.market_value
        } else {
            h.market_value
        },
        name: if req.name is Some {
            req.name
        } else {
            h.name
        },
        updated_at: now,
        ..h
    }
}

/// What comes of changing a position: the ledger with the changed position
/// and the position itself, or why not.
pub open spec fn update_holdings_outcome(
    lv: LedgerView,
    user_id: u128,
    holdings_id: u128,
    req: UpdateHoldingsRequestView,
    now: i64,
) -> Result<(LedgerView, HoldingsView), Failure> {
    match get_holdings_outcome(lv, user_id, holdings_id) {
        Err(f) => Err(f),
        Ok(h) => match bounds_check(
            req.quantity,
            req.cost_basis_total,
            req.last_price,
            req.market_value,
        ) {
            Err(f) => Err(f),
            Ok(()) => {
                let c = changed_holdings(h, req, now);
                Ok((lv.with_holdings_replaced(c), c))
            },
        },
    }
}

/// What comes of removing a position: the ledger without it, or why not.
pub open spec fn delete_holdings_outcome(lv: LedgerView, user_id: u128, holdings_id: u128) -> Result<
    LedgerView,
    Failure,
> {
    match get_holdings_outcome(lv, user_id, holdings_id) {
        Err(f) => Err(f),
        Ok(_) => Ok(lv.without_holdings(holdings_id)),
    }
}

/// The positions that a listing shows: those of the user, in the account if
/// one is given, of the asset type if one is given.
pub open spec fn listed(user_id: u128, account_id: Option<u128>, asset: Option<AssetType>) -> spec_fn(
    HoldingsView,
) -> bool {
    |h: HoldingsView|
        h.user_id == user_id && (account_id is Some ==> h.account_id == account_id->0) && (asset
            is Some ==> h.asset_type == asset->0)
}

/// The asset type that a listing asks for, if it asks for one, or why the
/// listing is refused: a code that is given is normalised and checked as at
/// opening.
pub open spec fn wanted_asset(asset_type: Option<Seq<char>>) -> Result<Option<AssetType>, Failure> {
    match asset_type {
        Some(code) => match AssetType::of_code(lower_code(code)) {
            Some(asset) => Ok(Some(asset)),
            None => Err(Failure::Validation("Invalid asset type: "@ + lower_code(code))),
        },
        None => Ok(None),
    }
}

/// What comes of listing positions: those that the listing shows, in the
/// order in which they were opened, or why not.
pub open spec fn list_holdings_outcome(
    lv: LedgerView,
    user_id: u128,
    account_id: Option<u128>,
    asset_type: Option<Seq<char>>,
) -> Result<Seq<HoldingsView>, Failure> {
    match wanted_asset(asset_type) {
        Ok(asset) => Ok(lv.holdings.filter(listed(user_id, account_id, asset))),
        Err(f) => Err(f),
    }
}

/// Reads the asset type that a listing asks for.
pub fn read_wanted_asset(asset_type: &Option<String>) -> (r: Result<Option<AssetType>, ServiceError>)
    ensures
        match r {
            Ok(asset) => wanted_asset(text_view(*asset_type)) == Ok::<Option<AssetType>, Failure>(
                asset,
            ),
            Err(e) => wanted_asset(text_view(*asset_type)) == Err::<Option<AssetType>, Failure>(
                e@,
            ),
        },
{
    match asset_type {
        Some(code) => {
            let normalized = normalize_lower(code.as_str());
            match AssetType::parse(normalized.as_str()) {
                Some(a) => Ok(Some(a)),
                None => Err(
                    ServiceError::Validation(join("Invalid asset type: ", normalized.as_str())),
                ),
            }
        },
        None => Ok(None),
    }
}

/// Checks a request to open a position and makes the position, given the
/// owner of the account it names, if that account exists.
pub fn open_holdings(
    owner: Option<u128>,
    user_id: u128,
    req: CreateHoldingsRequest,
    id: u128,
    now: i64,
) -> (r: Result<Holdings, ServiceError>)
    ensures
        match r {
            Ok(h) => opened_holdings(owner, user_id, req@, id, now) == Ok::<HoldingsView, Failure>(
                h@,
            ),
            Err(e) => opened_holdings(owner, user_id, req@, id, now) == Err::<
                HoldingsView,
                Failure,
            >(e@),
        },
{
    match check_link(owner, user_id, req.account_id) {
        Ok(()) => {},
        Err(e) => {
            return Err(e);
        },
    }
    match validate_bounds(
        &Some(req.quantity),
        &Some(req.cost_basis_total),
        &req.last_price,
        &req.market_value,
    ) {
        Ok(()) => {},
        Err(e) => {
            return Err(e);
        },
    }
    let asset_code = normalize_lower(req.asset_type.as_str());
    let asset_type = match AssetType::parse(asset_code.as_str()) {
        Some(a) => a,
        None => {
            return Err(ServiceError::Validation(join("Invalid asset type: ", asset_code.as_str())));
        },
    };
    let currency = normalize_upper(req.currency_code.as_str());
    if !three_letters(currency.as_str()) {
        return Err(ServiceError::validation("Currency code must be 3 letters"));
    }
    let symbol = normalize_upper(req.symbol.as_str());
    if symbol.as_str().is_empty() {
        return Err(ServiceError::validation("Symbol cannot be empty"));
    }
    Ok(
        Holdings {
            id,
            user_id,
            account_id: req.account_id,
            asset_type,
            symbol,
            name: req.name,
            quantity: req.quantity,
            cost_basis_total: req.cost_basis_total,
            currency_code: currency,
            last_price: req.last_price,
            last_price_at: req.last_price_at,
            market_value: req.market_value,
            created_at: now,
            updated_at: now,
        },
    )
}

/// Says what a fault of the store means when a position is inserted.
pub fn explain_insert_failure(fault: StoreFault) -> (r: ServiceError)
    ensures
        r@ == insert_failure(fault@),
{
    match fault {
        StoreFault::Unique(_) => ServiceError::conflict(
            "Holdings with same account, asset type and symbol already exists",
        ),
        other => ServiceError::from_store(other),
    }
}

/// Opens a position for a user under the given identifier, created at
/// `now`.
pub fn create_holdings_at(
    ledger: &mut Ledger,
    user_id: u128,
    req: CreateHoldingsRequest,
    id: u128,
    now: i64,
) -> (r: Result<HoldingsResponse, ServiceError>)
    requires
        old(ledger).wf(),
    ensures
        final(ledger).wf(),
        match r {
            Ok(shown) => create_holdings_outcome(old(ledger)@, user_id, req@, id, now) matches Ok(
                (after, h),
            ) && final(ledger)@ == after && shown@ == shown_holdings(h),
            Err(e) => create_holdings_outcome(old(ledger)@, user_id, req@, id, now) == Err::<
                (LedgerView, HoldingsView),
                Failure,
            >(e@) && final(ledger)@ == old(ledger)@,
        },
{
    let owner = match ledger.find_account(req.account_id) {
        Some(a) => Some(a.user_id),
        None => None,
    };
    let holding = match open_holdings(owner, user_id, req, id, now) {
        Ok(h) => h,
        Err(e) => {
            return Err(e);
        },
    };
    match ledger.insert_holdings(holding.clone()) {
        Ok(()) => Ok(HoldingsResponse::from_record(holding)),
        Err(fault) => Err(explain_insert_failure(fault)),
    }
}

/// Opens a position for a user, under a fresh identifier, created now.
pub fn create_holdings(ledger: &mut Ledger, user_id: u128, req: CreateHoldingsRequest) -> (r: Result<
    HoldingsResponse,
    ServiceError,
>)
    requires
        old(ledger).wf(),
    ensures
        final(ledger).wf(),
        exists|id: u128, now: i64|
            match r {
                Ok(shown) => #[trigger] create_holdings_outcome(
                    old(ledger)@,
                    user_id,
                    req@,
                    id,
                    now,
                ) matches Ok((after, h)) && final(ledger)@ == after && shown@ == shown_holdings(h),
                Err(e) => create_holdings_outcome(old(ledger)@, user_id, req@, id, now) == Err::<
                    (LedgerView, HoldingsView),
                    Failure,
                >(e@) && final(ledger)@ == old(ledger)@,
            },
{
    let id = fresh_id();
    let now = now_micros();
    let ghost before = ledger@;
    let ghost asked = req@;
    let r = create_holdings_at(ledger, user_id, req, id, now);
    proof {
        let outcome = create_holdings_outcome(before, user_id, asked, id, now);
        assert(match r {
            Ok(shown) => outcome matches Ok((after, h)) && ledger@ == after && shown@
                == shown_holdings(h),
            Err(e) => outcome == Err::<(LedgerView, HoldingsView), Failure>(e@) && ledger@ == before,
        });
    }
    r
}

/// Reads a position for its owner.
pub fn get_holdings(ledger: &Ledger, user_id: u128, holdings_id: u128) -> (r: Result<
    HoldingsResponse,
    ServiceError,
>)
    requires
        ledger.wf(),
    ensures
        match r {
            Ok(shown) => get_holdings_outcome(ledger@, user_id, holdings_id) matches Ok(h) && shown@
                == shown_holdings(h),
            Err(e) => get_holdings_outcome(ledger@, user_id, holdings_id) == Err::<
                HoldingsView,
                Failure,
            >(e@),
        },
{
    match load_owned_holdings(ledger, user_id, holdings_id) {
        Ok(h) => Ok(HoldingsResponse::from_record(h)),
        Err(e) => Err(e),
    }
}

/// Tells whether a listing shows a position.
fn is_listed(h: &Holdings, user_id: u128, account_id: Option<u128>, asset: Option<AssetType>) -> (r:
    bool)
    ensures
        r == listed(user_id, account_id, asset)(h@),
{
    let in_account = match account_id {
        Some(a) => h.account_id == a,
        None => true,
    };
    let of_type = match asset {
        Some(t) => h.asset_type == t,
        None => true,
    };
    h.user_id == user_id && in_account && of_type
}

/// Lists the positions of a user, in the account if one is given, of the
/// asset type if one is given, in the order in which they were opened.
pub fn list_holdings(
    ledger: &Ledger,
    user_id: u128,
    account_id: Option<u128>,
    asset_type: Option<String>,
) -> (r: Result<Vec<HoldingsResponse>, ServiceError>)
    requires
        ledger.wf(),
    ensures
        match r {
            Ok(shown) => list_holdings_outcome(
                ledger@,
                user_id,
                account_id,
                text_view(asset_type),
            ) matches Ok(found) && response_views(shown@) == shown_holdings_list(found),
            Err(e) => list_holdings_outcome(ledger@, user_id, account_id, text_view(asset_type))
                == Err::<Seq<HoldingsView>, Failure>(e@),
        },
{
    let asset = match read_wanted_asset(&asset_type) {
        Ok(a) => a,
        Err(e) => {
            return Err(e);
        },
    };
    let all = ledger.all_holdings();
    let ghost stored = ledger@.holdings;
    let ghost wanted = listed(user_id, account_id, asset);
    let n = all.len();
    let mut out: Vec<HoldingsResponse> = Vec::new();
    let mut i: usize = 0;
    assert(stored.take(0).filter(wanted) =~= Seq::empty()) by {
        reveal(Seq::filter);
    }
    while i < n
        invariant
            n == all.len(),
            i <= n,
            stored == holdings_views(all@),
            wanted == listed(user_id, account_id, asset),
            response_views(out@) == shown_holdings_list(stored.take(i as int).filter(wanted)),
        decreases n - i,
    {
        proof {
            reveal(Seq::filter);
            assert(stored.take(i + 1).drop_last() =~= stored.take(i as int));
            assert(stored.take(i + 1).last() == all[i as int]@);
        }
        if is_listed(&all[i], user_id, account_id, asset) {
            let ghost prior = response_views(out@);
            out.push(HoldingsResponse::from_record(all[i].clone()));
            assert(response_views(out@) =~= prior.push(shown_holdings(all[i as int]@)));
            assert(shown_holdings_list(stored.take(i + 1).filter(wanted)) =~= prior.push(
                shown_holdings(all[i as int]@),
            ));
        }
        i = i + 1;
    }
    assert(stored.take(n as int) =~= stored);
    Ok(out)
}

/// Applies a checked request to a position.
pub fn apply_holdings_update(holding: Holdings, req: UpdateHoldingsRequest, now: i64) -> (r: Holdings)
    ensures
        r@ == changed_holdings(holding@, req@, now),
{
    let mut holding = holding;
    if let Some(quantity) = req.quantity {
        holding.quantity = quantity;
    }
    if let Some(cost) = req.cost_basis_total {
        holding.cost_basis_total = cost;
    }
    if let Some(price) = req.last_price {
        holding.last_price = Some(price);
    }
    if let Some(price_at) = req.last_price_at {
        holding.last_price_at = Some(price_at);
    }
    if let Some(value) = req.market_value {
        holding.market_value = Some(value);
    }
    if let Some(name) = req.name {
        holding.name = Some(name);
    }
    holding.updated_at = now;
    holding
}

/// Changes a position for its owner, at `now`.
pub fn update_holdings_at(
    ledger: &mut Ledger,
    user_id: u128,
    holdings_id: u128,
    req: UpdateHoldingsRequest,
    now: i64,
) -> (r: Result<HoldingsResponse, ServiceError>)
    requires
        old(ledger).wf(),
    ensures
        final(ledger).wf(),
        match r {
            Ok(shown) => update_holdings_outcome(old(ledger)@, user_id, holdings_id, req@, now) matches Ok(
                (after, h),
            ) && final(ledger)@ == after && shown@ == shown_holdings(h),
            Err(e) => update_holdings_outcome(old(ledger)@, user_id, holdings_id, req@, now)
                == Err::<(LedgerView, HoldingsView), Failure>(e@) && final(ledger)@ == old(ledger)@,
        },
{
    let holding = match load_owned_holdings(ledger, user_id, holdings_id) {
        Ok(h) => h,
        Err(e) => {
            return Err(e);
        },
    };
    match validate_bounds(&req.quantity, &req.cost_basis_total, &req.last_price, &req.market_value) {
        Ok(()) => {},
        Err(e) => {
            return Err(e);
        },
    }
    let ghost before = ledger@;
    let ghost loaded = holding@;
    let changed = apply_holdings_update(holding, req, now);
    proof {
        lemma_same_position_unchanged(before, loaded, changed@);
    }
    match ledger.replace_holdings(changed.clone()) {
        Ok(()) => Ok(HoldingsResponse::from_record(changed)),
        Err(fault) => Err(ServiceError::from_store(fault)),
    }
}

/// A stored position that changes none of user, account, asset type and
/// symbol is the same position as no other stored one.
pub proof fn lemma_same_position_unchanged(lv: LedgerView, stored: HoldingsView, changed: HoldingsView)
    requires
        lv.wf(),
        lv.find_holdings(stored.id) == Some(stored),
        changed.id == stored.id,
        crate::ledger::same_position(stored, changed),
    ensures
        lv.has_holdings(changed.id),
        !lv.position_taken_by_other(changed),
{
    let k = lv.holdings_index(stored.id);
    assert(lv.holdings[k] == stored);
    if lv.position_taken_by_other(changed) {
        let i = choose|i: int|
            0 <= i < lv.holdings.len() && (#[trigger] lv.holdings[i]).id != changed.id
                && crate::ledger::same_position(lv.holdings[i], changed);
        assert(crate::ledger::same_position(lv.holdings[i], lv.holdings[k]));
        if i < k {
            assert(!crate::ledger::same_position(lv.holdings[i], lv.holdings[k]));
        } else {
            assert(!crate::ledger::same_position(lv.holdings[k], lv.holdings[i]));
        }
    }
}

/// Changes a position for its owner, now.
pub fn update_holdings(
    ledger: &mut Ledger,
    user_id: u128,
    holdings_id: u128,
    req: UpdateHoldingsRequest,
) -> (r: Result<HoldingsResponse, ServiceError>)
    requires
        old(ledger).wf(),
    ensures
        final(ledger).wf(),
        exists|now: i64|
            match r {
                Ok(shown) => #[trigger] update_holdings_outcome(
                    old(ledger)@,
                    user_id,
                    holdings_id,
                    req@,
                    now,
                ) matches Ok((after, h)) && final(ledger)@ == after && shown@ == shown_holdings(h),
                Err(e) => update_holdings_outcome(old(ledger)@, user_id, holdings_id, req@, now)
                    == Err::<(LedgerView, HoldingsView), Failure>(e@) && final(ledger)@ == old(
                    ledger,
                )@,
            },
{
    let now = now_micros();
    let ghost before = ledger@;
    let ghost asked = req@;
    let r = update_holdings_at(ledger, user_id, holdings_id, req, now);
    proof {
        let outcome = update_holdings_outcome(before, user_id, holdings_id, asked, now);
        assert(match r {
            Ok(shown) => outcome matches Ok((after, h)) && ledger@ == after && shown@
                == shown_holdings(h),
            Err(e) => outcome == Err::<(LedgerView, HoldingsView), Failure>(e@) && ledger@ == before,
        });
    }
    r
}

/// Removes a position for its owner.
pub fn delete_holdings(ledger: &mut Ledger, user_id: u128, holdings_id: u128) -> (r: Result<
    (),
    ServiceError,
>)
    requires
        old(ledger).wf(),
    ensures
        final(ledger).wf(),
        match r {
            Ok(()) => delete_holdings_outcome(old(ledger)@, user_id, holdings_id) == Ok::<
                LedgerView,
                Failure,
            >(final(ledger)@),
            Err(e) => delete_holdings_outcome(old(ledger)@, user_id, holdings_id) == Err::<
                LedgerView,
                Failure,
            >(e@) && final(ledger)@ == old(ledger)@,
        },
{
    match load_owned_holdings(ledger, user_id, holdings_id) {
        Ok(_) => {},
        Err(e) => {
            return Err(e);
        },
    }
    match ledger.remove_holdings(holdings_id) {
        Ok(()) => Ok(()),
        Err(fault) => Err(ServiceError::from_store(fault)),
    }
}

} // verus!
