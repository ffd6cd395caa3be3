use command_ledger::account::AccountId;
use command_ledger::error::LedgerError;
use command_ledger::escrow::EscrowValidator;
use command_ledger::ledger::{CommandLedger, Rejection};
use command_ledger::record::{CommandDetail, CommandPayload};
use command_ledger::response::{check_command, Mismatch};

fn payload(command_id: &str, name: &str, amount: u128, price: u128) -> CommandPayload {
    CommandPayload {
        command_id: command_id.to_string(),
        name_product: name.to_string(),
        is_sell: false,
        amount_product: amount,
        price_per_product: price,
        quality: None,
    }
}

fn ledger() -> CommandLedger {
    CommandLedger::new(AccountId::new("owner"), EscrowValidator::new(1).unwrap())
}

fn rejected(error: LedgerError, refund: u128) -> Result<String, Rejection> {
    Err(Rejection { error, refund })
}

#[test]
fn zero_amount_is_an_invalid_quantity() {
    let mut ledger = ledger();
    let outcome = ledger.add_command(AccountId::new("a"), 100, payload("k", "tea", 0, 5));
    assert_eq!(outcome, rejected(LedgerError::InvalidQuantity, 100));
    assert!(!ledger.contains("k"));
}

#[test]
fn zero_price_is_an_invalid_price() {
    let mut ledger = ledger();
    let outcome = ledger.add_command(AccountId::new("a"), 100, payload("k", "tea", 5, 0));
    assert_eq!(outcome, rejected(LedgerError::InvalidPrice, 100));
    assert!(!ledger.contains("k"));
}

#[test]
fn empty_product_name_is_an_invalid_payload() {
    let mut ledger = ledger();
    let outcome = ledger.add_command(AccountId::new("a"), 100, payload("k", "", 5, 5));
    assert_eq!(outcome, rejected(LedgerError::InvalidPayload, 100));
    assert!(!ledger.contains("k"));
}

#[test]
fn first_failing_check_names_the_error() {
    let mut ledger = ledger();
    ledger.add_command(AccountId::new("a"), 26, payload("k", "tea", 5, 5)).unwrap();

    let a = AccountId::new("a");
    assert_eq!(
        ledger.add_command(a.clone(), 0, payload("k", "", 0, 0)),
        rejected(LedgerError::InvalidQuantity, 0)
    );
    assert_eq!(
        ledger.add_command(a.clone(), 0, payload("k", "", 1, 0)),
        rejected(LedgerError::InvalidPrice, 0)
    );
    assert_eq!(
        ledger.add_command(a.clone(), 1, payload("k", "", 1, 1)),
        rejected(LedgerError::InsufficientDeposit, 1)
    );
    assert_eq!(
        ledger.add_command(a.clone(), 2, payload("k", "", 1, 1)),
        rejected(LedgerError::InvalidPayload, 2)
    );
    assert_eq!(
        ledger.add_command(a, 2, payload("k", "tea", 1, 1)),
        rejected(LedgerError::DuplicateId, 2)
    );
}

#[test]
fn rejected_call_leaves_the_ledger_as_it_was() {
    let mut ledger = ledger();
    ledger.add_command(AccountId::new("a"), 26, payload("k", "tea", 5, 5)).unwrap();
    let before: CommandDetail = ledger.get_command("k").unwrap().clone();

    let _ = ledger.add_command(AccountId::new("b"), 1_000, payload("k", "coffee", 9, 9));
    let _ = ledger.add_command(AccountId::new("b"), 3, payload("m", "coffee", 2, 2));

    assert_eq!(ledger.get_command("k").unwrap(), &before);
    assert_eq!(ledger.deposit_of("k"), Ok(26));
    assert!(!ledger.contains("m"));
}

#[test]
fn commands_under_different_ids_live_side_by_side() {
    let mut ledger = ledger();
    ledger.add_command(AccountId::new("a"), 26, payload("k", "tea", 5, 5)).unwrap();
    ledger.add_command(AccountId::new("b"), 5, payload("", "salt", 2, 2)).unwrap();
    ledger.add_command(AccountId::new("c"), 7, payload("K", "rice", 3, 2)).unwrap();
    assert_eq!(ledger.get_command("k").unwrap().name_product, "tea");
    assert_eq!(ledger.get_command("").unwrap().name_product, "salt");
    assert_eq!(ledger.get_command("K").unwrap().name_product, "rice");
    assert_eq!(ledger.get_command("K").unwrap().command_owner_id.as_str(), "c");
    assert!(ledger.contains("k") && ledger.contains("") && ledger.contains("K"));
    assert!(!ledger.contains("kk"));
}

#[test]
fn payload_becomes_the_record_of_its_owner() {
    let order = payload("k", "tea", 5, 6);
    let record = order.clone().into_record(AccountId::new("grower"));
    assert_eq!(
        record,
        CommandDetail {
            command_id: "k".to_string(),
            name_product: "tea".to_string(),
            is_sell: false,
            amount_product: 5,
            price_per_product: 6,
            quality: None,
            command_owner_id: AccountId::new("grower"),
        }
    );
    assert_eq!(check_command(&order, &record), Ok(()));
}

#[test]
fn response_check_reports_the_first_field_that_differs() {
    let order = payload("k", "tea", 5, 6);
    let good = order.clone().into_record(AccountId::new("grower"));

    let mut wrong = good.clone();
    wrong.price_per_product = 7;
    assert_eq!(check_command(&order, &wrong), Err(Mismatch::PricePerProduct));
    wrong.amount_product = 4;
    assert_eq!(check_command(&order, &wrong), Err(Mismatch::AmountProduct));
    wrong.is_sell = true;
    assert_eq!(check_command(&order, &wrong), Err(Mismatch::IsSell));
    wrong.name_product = "Tea".to_string();
    assert_eq!(check_command(&order, &wrong), Err(Mismatch::NameProduct));

    let mut elsewhere = good.clone();
    elsewhere.command_id = "other".to_string();
    elsewhere.command_owner_id = AccountId::new("someone");
    assert_eq!(check_command(&order, &elsewhere), Ok(()));
}

#[test]
fn mismatches_have_their_messages() {
    assert_eq!(Mismatch::NameProduct.message(), "WRONG_NAME_PRODUCT");
    assert_eq!(Mismatch::IsSell.message(), "WRONG_IS_SELL");
    assert_eq!(Mismatch::AmountProduct.message(), "WRONG_AMOUNT_PRODUCT");
    assert_eq!(Mismatch::PricePerProduct.message(), "WRONG_PRICE_PER_PRODUCT");
}

#[test]
fn errors_have_their_names() {
    assert_eq!(LedgerError::DuplicateId.name(), "DuplicateId");
    assert_eq!(LedgerError::InvalidQuantity.name(), "InvalidQuantity");
    assert_eq!(LedgerError::InvalidPrice.name(), "InvalidPrice");
    assert_eq!(LedgerError::InsufficientDeposit.name(), "InsufficientDeposit");
    assert_eq!(LedgerError::NotFound.name(), "NotFound");
    assert_eq!(LedgerError::Unauthorized.name(), "Unauthorized");
    assert_eq!(LedgerError::InvalidPayload.name(), "InvalidPayload");
}

#[test]
fn account_ids_compare_by_their_text() {
    let a = AccountId::new("alice.near");
    let b = AccountId::from_string("alice.near".to_string());
    let c = AccountId::new("alice.nea");
    assert_eq!(a.as_str(), "alice.near");
    assert!(a.same_as(&b));
    assert!(!a.same_as(&c));
    assert!(a.duplicate().same_as(&a));
    assert_eq!(a.duplicate().as_str(), "alice.near");
    assert_eq!(a, b);
    assert_ne!(a, c);
}
