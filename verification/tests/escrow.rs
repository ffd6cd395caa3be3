use command_ledger::account::AccountId;
use command_ledger::error::LedgerError;
use command_ledger::escrow::EscrowValidator;
use command_ledger::ledger::{CommandLedger, Rejection};
use command_ledger::record::CommandPayload;

fn order(command_id: &str, amount: u128, price: u128) -> CommandPayload {
    CommandPayload {
        command_id: command_id.to_string(),
        name_product: "grain".to_string(),
        is_sell: true,
        amount_product: amount,
        price_per_product: price,
        quality: None,
    }
}

fn ledger_with_margin(margin: u128) -> CommandLedger {
    CommandLedger::new(AccountId::new("owner"), EscrowValidator::new(margin).unwrap())
}

#[test]
fn margin_must_be_positive() {
    assert_eq!(EscrowValidator::new(0), None);
    assert_eq!(EscrowValidator::new(1).map(|v| v.margin()), Some(1));
    assert_eq!(EscrowValidator::new(u128::MAX).map(|v| v.margin()), Some(u128::MAX));
}

#[test]
fn validator_requires_base_price_plus_margin() {
    let validator = EscrowValidator::new(10).unwrap();
    assert_eq!(validator.validate(70, 2, 30), Ok(()));
    assert_eq!(validator.validate(69, 2, 30), Err(LedgerError::InsufficientDeposit));
    assert_eq!(validator.validate(60, 2, 30), Err(LedgerError::InsufficientDeposit));
    assert_eq!(validator.validate(59, 2, 30), Err(LedgerError::InsufficientDeposit));
    assert_eq!(validator.validate(71, 2, 30), Ok(()));
    assert_eq!(validator.validate(u128::MAX, 2, 30), Ok(()));
    assert_eq!(validator.validate(10, 0, 30), Ok(()));
    assert_eq!(validator.validate(9, 0, 30), Err(LedgerError::InsufficientDeposit));
}

#[test]
fn requirement_beyond_every_deposit_is_never_met() {
    let validator = EscrowValidator::new(1).unwrap();
    assert_eq!(validator.validate(u128::MAX, u128::MAX, 2), Err(LedgerError::InsufficientDeposit));
    assert_eq!(
        validator.validate(u128::MAX, 1 << 64, 1 << 64),
        Err(LedgerError::InsufficientDeposit)
    );
    assert_eq!(validator.validate(u128::MAX, u128::MAX, 1), Err(LedgerError::InsufficientDeposit));
    assert_eq!(validator.validate(u128::MAX, u128::MAX - 1, 1), Ok(()));
    assert_eq!(validator.validate(0, u128::MAX, u128::MAX), Err(LedgerError::InsufficientDeposit));
}

#[test]
fn deposit_under_base_price_fails_under_every_margin() {
    for margin in [1u128, 2, 10, 1_000_000] {
        let mut ledger = ledger_with_margin(margin);
        for (amount, price) in [(1u128, 20u128), (2, 30), (7, 11), (1, 1)] {
            let outcome =
                ledger.add_command(AccountId::new("a"), amount * price - 1, order("k", amount, price));
            assert_eq!(
                outcome,
                Err(Rejection {
                    error: LedgerError::InsufficientDeposit,
                    refund: amount * price - 1
                })
            );
        }
        assert!(!ledger.contains("k"));
    }
}

#[test]
fn deposit_under_base_price_fails_before_the_id_is_looked_up() {
    let mut ledger = ledger_with_margin(1);
    ledger.add_command(AccountId::new("a"), 21, order("k", 1, 20)).unwrap();
    let outcome = ledger.add_command(AccountId::new("a"), 19, order("k", 1, 20));
    assert_eq!(outcome, Err(Rejection { error: LedgerError::InsufficientDeposit, refund: 19 }));
}

#[test]
fn exact_base_price_is_judged_alike_under_every_margin() {
    for margin in [1u128, 10, u128::MAX] {
        let mut ledger = ledger_with_margin(margin);
        let outcome = ledger.add_command(AccountId::new("a"), 60, order("k", 2, 30));
        assert_eq!(
            outcome,
            Err(Rejection { error: LedgerError::InsufficientDeposit, refund: 60 })
        );
    }
}

#[test]
fn least_sufficient_deposit_is_base_price_plus_margin() {
    let mut ledger = ledger_with_margin(10);
    assert!(ledger.add_command(AccountId::new("a"), 69, order("k", 2, 30)).is_err());
    assert_eq!(ledger.add_command(AccountId::new("a"), 70, order("k", 2, 30)), Ok("k".to_string()));
}

#[test]
fn surplus_is_accepted_and_held_in_full() {
    let mut ledger = ledger_with_margin(10);
    ledger.add_command(AccountId::new("a"), 70, order("exact", 2, 30)).unwrap();
    ledger.add_command(AccountId::new("a"), 5_000, order("more", 2, 30)).unwrap();
    ledger.add_command(AccountId::new("a"), u128::MAX, order("most", 2, 30)).unwrap();
    assert_eq!(ledger.deposit_of("exact"), Ok(70));
    assert_eq!(ledger.deposit_of("more"), Ok(5_000));
    assert_eq!(ledger.deposit_of("most"), Ok(u128::MAX));
    assert_eq!(ledger.deposit_of("none"), Err(LedgerError::NotFound));
}

#[test]
fn ledger_reports_its_owner_and_rule() {
    let ledger = ledger_with_margin(7);
    assert_eq!(ledger.owner_id().as_str(), "owner");
    assert_eq!(ledger.escrow().margin(), 7);
}
